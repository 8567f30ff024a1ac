//! Entity state and its sparse diff/patch counterpart.
//!
//! Spatial and visual attributes are 32-bit scalars on the wire. The
//! protocol and the synchronization logic move them without arithmetic, so
//! this module carries each one as the bit pattern of the scalar (`u32`);
//! the numeric interpretation stays with the unverified rendering and
//! camera mathematics around the library.

use vstd::prelude::*;
use crate::Id;
use crate::keys::Keys;

verus! {

/// The bit pattern of one 32-bit scalar attribute.
pub type Word = u32;

/// Bit pattern of the default field of view (90 degrees).
pub const FOV_DEFAULT: Word = 0x42B4_0000;

/// Bit pattern of the default movement speed (0.024 units per step).
pub const SPEED_DEFAULT: Word = 0x3CC4_9BA6;

/// Bit pattern of the default yaw sensitivity (0.052 degrees per pixel).
pub const YAW_SENSITIVITY_DEFAULT: Word = 0x3D55_0D79;

/// Bit pattern of the default pitch sensitivity (0.050 degrees per pixel).
pub const PITCH_SENSITIVITY_DEFAULT: Word = 0x3D4C_CCCD;

/// Bit pattern of the scalar one.
pub const WORD_ONE: Word = 0x3F80_0000;

/// Bit pattern of the scalar negative one.
pub const WORD_NEG_ONE: Word = 0xBF80_0000;

/// A three-component vector of 32-bit scalars.
#[derive(Clone, Copy, Debug, Default, Eq, PartialEq, Structural)]
pub struct Vec3w {
    /// First component.
    pub x: Word,
    /// Second component.
    pub y: Word,
    /// Third component.
    pub z: Word,
}

impl Vec3w {
    /// The vector with the given components.
    pub fn new(x: Word, y: Word, z: Word) -> (r: Vec3w)
        ensures
            r == (Vec3w { x, y, z }),
    {
        Vec3w { x, y, z }
    }

    /// The zero vector.
    pub fn zero() -> (r: Vec3w)
        ensures
            r == (Vec3w { x: 0, y: 0, z: 0 }),
    {
        Vec3w { x: 0, y: 0, z: 0 }
    }
}

/// One rotation axis of the camera: the angle in degrees, the same angle in
/// radians, and the per-pixel sensitivity, each a 32-bit scalar.
#[derive(Clone, Copy, Debug, Default, Eq, PartialEq, Structural)]
pub struct Axis {
    /// Angle in degrees.
    pub degrees: Word,
    /// Angle in radians.
    pub radians: Word,
    /// Sensitivity applied to each pixel of motion.
    pub sensitivity: Word,
}

impl Axis {
    /// An axis at angle zero with the given sensitivity.
    pub fn new(sensitivity: Word) -> (r: Axis)
        ensures
            r == (Axis { degrees: 0, radians: 0, sensitivity }),
    {
        Axis { degrees: 0, radians: 0, sensitivity }
    }
}

/// A color: four 32-bit channel scalars and an emissive flag.
#[derive(Clone, Copy, Debug, Eq, PartialEq, Structural)]
pub struct Color {
    /// Red channel.
    pub r: Word,
    /// Green channel.
    pub g: Word,
    /// Blue channel.
    pub b: Word,
    /// Alpha channel.
    pub a: Word,
    /// Whether the entity emits light.
    pub emits: bool,
}

impl Color {
    /// The color with the given channels and emissive flag.
    pub fn new(r: Word, g: Word, b: Word, a: Word, emits: bool) -> (c: Color)
        ensures
            c == (Color { r, g, b, a, emits }),
    {
        Color { r, g, b, a, emits }
    }

    /// Opaque white, not emitting.
    pub fn white() -> (c: Color)
        ensures
            c == (Color { r: WORD_ONE, g: WORD_ONE, b: WORD_ONE, a: WORD_ONE, emits: false }),
    {
        Color { r: WORD_ONE, g: WORD_ONE, b: WORD_ONE, a: WORD_ONE, emits: false }
    }
}

/// The kind of an entity.
#[derive(Clone, Copy, Debug, Eq, PartialEq, Structural)]
pub enum ObjType {
    /// A static, non-player entity.
    Basic,
    /// A connected client's player entity.
    Player,
}

/// Camera and view attributes of the authoritative viewpoint.
#[derive(Clone, Copy, Debug, Eq, PartialEq, Structural)]
pub struct CameraAttr {
    /// Field of view.
    pub fov: Word,
    /// Movement speed.
    pub speed: Word,
    /// Camera yaw.
    pub yaw: Axis,
    /// Camera pitch.
    pub pitch: Axis,
    /// Position of the viewpoint.
    pub eye: Vec3w,
    /// Look-target vector.
    pub target: Vec3w,
    /// Up vector.
    pub up: Vec3w,
}

impl CameraAttr {
    /// The camera a player starts with: default field of view, speed and
    /// sensitivities, looking straight ahead from the given position.
    pub fn new(pos: Vec3w) -> (r: CameraAttr)
        ensures
            r == CameraAttr::spec_new(pos),
    {
        CameraAttr {
            fov: FOV_DEFAULT,
            speed: SPEED_DEFAULT,
            yaw: Axis::new(YAW_SENSITIVITY_DEFAULT),
            pitch: Axis::new(PITCH_SENSITIVITY_DEFAULT),
            eye: pos,
            target: Vec3w::new(0, 0, WORD_NEG_ONE),
            up: Vec3w::new(0, WORD_ONE, 0),
        }
    }

    /// The camera a player starts with.
    pub open spec fn spec_new(pos: Vec3w) -> CameraAttr {
        CameraAttr {
            fov: FOV_DEFAULT,
            speed: SPEED_DEFAULT,
            yaw: Axis { degrees: 0, radians: 0, sensitivity: YAW_SENSITIVITY_DEFAULT },
            pitch: Axis { degrees: 0, radians: 0, sensitivity: PITCH_SENSITIVITY_DEFAULT },
            eye: pos,
            target: Vec3w { x: 0, y: 0, z: WORD_NEG_ONE },
            up: Vec3w { x: 0, y: WORD_ONE, z: 0 },
        }
    }
}

/// Camera and view attributes with every attribute present-or-absent, for
/// sparse updates. An absent attribute means "unchanged since the last
/// broadcast", never "reset to a default".
#[derive(Clone, Copy, Debug, Default, Eq, PartialEq, Structural)]
pub struct CameraAttrOpt {
    /// Field of view, if it changed.
    pub fov: Option<Word>,
    /// Movement speed, if it changed.
    pub speed: Option<Word>,
    /// Camera yaw, if it changed.
    pub yaw: Option<Axis>,
    /// Camera pitch, if it changed.
    pub pitch: Option<Axis>,
    /// Position, if it changed.
    pub eye: Option<Vec3w>,
    /// Look-target vector, if it changed.
    pub target: Option<Vec3w>,
    /// Up vector, if it changed.
    pub up: Option<Vec3w>,
}

impl CameraAttrOpt {
    /// The sparse camera update with nothing present.
    pub fn empty() -> (r: CameraAttrOpt)
        ensures
            r == CameraAttrOpt::spec_empty(),
    {
        CameraAttrOpt {
            fov: None,
            speed: None,
            yaw: None,
            pitch: None,
            eye: None,
            target: None,
            up: None,
        }
    }

    /// The sparse camera update with nothing present.
    pub open spec fn spec_empty() -> CameraAttrOpt {
        CameraAttrOpt {
            fov: None,
            speed: None,
            yaw: None,
            pitch: None,
            eye: None,
            target: None,
            up: None,
        }
    }

    /// Whether any attribute is present.
    pub open spec fn spec_is_modified(self) -> bool {
        self.fov is Some || self.speed is Some || self.yaw is Some || self.pitch is Some
            || self.eye is Some || self.target is Some || self.up is Some
    }

    /// Whether any attribute is present.
    pub fn is_modified(&self) -> (r: bool)
        ensures
            r == self.spec_is_modified(),
    {
        self.fov.is_some() || self.speed.is_some() || self.yaw.is_some() || self.pitch.is_some()
            || self.eye.is_some() || self.target.is_some() || self.up.is_some()
    }
}

/// Full state of one entity, as seeded over the reliable channel and held
/// by the server for every connected client.
#[derive(Clone, Copy, Debug, Eq, PartialEq, Structural)]
pub struct UptObj {
    /// The entity this state belongs to.
    pub id: Id,
    /// Kind of the entity.
    pub kind: ObjType,
    /// Extent of the entity along each axis.
    pub dim: Vec3w,
    /// Color and emissive flag.
    pub color: Color,
    /// Camera and view attributes of the authoritative viewpoint.
    pub cam: CameraAttr,
    /// Keys currently held by the client driving this entity.
    pub keys: Keys,
}

impl UptObj {
    /// The state a freshly admitted player starts with: a unit-extent,
    /// opaque-white player entity with the default camera at the origin.
    pub fn new_player(id: Id) -> (r: UptObj)
        ensures
            r == UptObj::spec_new_player(id),
    {
        UptObj {
            id,
            kind: ObjType::Player,
            dim: Vec3w::new(WORD_ONE, WORD_ONE, WORD_ONE),
            color: Color::white(),
            cam: CameraAttr::new(Vec3w::zero()),
            keys: Keys::empty(),
        }
    }

    /// The state a freshly admitted player starts with.
    pub open spec fn spec_new_player(id: Id) -> UptObj {
        UptObj {
            id,
            kind: ObjType::Player,
            dim: Vec3w { x: WORD_ONE, y: WORD_ONE, z: WORD_ONE },
            color: Color { r: WORD_ONE, g: WORD_ONE, b: WORD_ONE, a: WORD_ONE, emits: false },
            cam: CameraAttr::spec_new(Vec3w { x: 0, y: 0, z: 0 }),
            keys: Keys { bits: 0 },
        }
    }
}

/// Sparse update of one entity: the identity is always carried, every other
/// attribute is present-or-absent. A patch record accumulates at most one
/// outstanding value per attribute between broadcast ticks: a new write
/// overwrites the pending value, it does not queue.
#[derive(Clone, Copy, Debug, Eq, PartialEq, Structural)]
pub struct UptObjOpt {
    /// The entity this update belongs to.
    pub id: Id,
    /// Kind, if it changed.
    pub kind: Option<ObjType>,
    /// Extent, if it changed.
    pub dim: Option<Vec3w>,
    /// Color, if it changed.
    pub color: Option<Color>,
    /// Sparse camera update.
    pub cam: CameraAttrOpt,
    /// Keys currently held.
    pub keys: Keys,
}

impl UptObjOpt {
    /// The sparse update for an entity with nothing pending.
    pub fn empty(id: Id) -> (r: UptObjOpt)
        ensures
            r == UptObjOpt::spec_empty(id),
    {
        UptObjOpt {
            id,
            kind: None,
            dim: None,
            color: None,
            cam: CameraAttrOpt::empty(),
            keys: Keys::empty(),
        }
    }

    /// The sparse update for an entity with nothing pending.
    pub open spec fn spec_empty(id: Id) -> UptObjOpt {
        UptObjOpt {
            id,
            kind: None,
            dim: None,
            color: None,
            cam: CameraAttrOpt::spec_empty(),
            keys: Keys { bits: 0 },
        }
    }

    /// Whether any attribute is pending ("touched").
    pub open spec fn spec_is_modified(self) -> bool {
        self.kind is Some || self.dim is Some || self.color is Some || self.cam.spec_is_modified()
    }

    /// Whether any attribute is pending ("touched").
    pub fn is_modified(&self) -> (r: bool)
        ensures
            r == self.spec_is_modified(),
    {
        self.kind.is_some() || self.dim.is_some() || self.color.is_some() || self.cam.is_modified()
    }

    /// Hand the pending update out and leave nothing pending, keeping the
    /// identity and the held keys.
    pub fn take(&mut self) -> (r: UptObjOpt)
        ensures
            r == *old(self),
            *final(self) == (UptObjOpt {
                id: old(self).id,
                kind: None,
                dim: None,
                color: None,
                cam: CameraAttrOpt::spec_empty(),
                keys: old(self).keys,
            }),
    {
        let taken = *self;
        self.kind = None;
        self.dim = None;
        self.color = None;
        self.cam = CameraAttrOpt::empty();
        taken
    }
}

} // verus!
