//! Descriptions of the fixed scene.
//!
//! Each descriptor holds, as fixed-point integers, everything the host
//! engine needs to spawn one entity of the scene: the ground plane, the
//! directional light, the player cube and the camera. Colours are sRGB
//! channels in milli-units (a channel runs from 0 to 1000); sizes and
//! positions are micro-units.

use vstd::prelude::*;
use crate::vec3::Vec3Fx;

verus! {

/// Milli-units per full colour channel.
pub const CHANNEL_MILLI: u16 = 1000;

/// The camera's constant offset from the player, in micro-units:
/// two units left, two and a half up, five back.
pub const CAMERA_OFFSET_X: i64 = -2_000_000;

/// The y component of the camera offset.
pub const CAMERA_OFFSET_Y: i64 = 2_500_000;

/// The z component of the camera offset.
pub const CAMERA_OFFSET_Z: i64 = 5_000_000;

/// An sRGB colour, each channel in milli-units.
#[derive(Clone, Copy, Debug, PartialEq, Eq, Structural)]
pub struct ColorMilli {
    pub red: u16,
    pub green: u16,
    pub blue: u16,
}

/// True when every channel stays within a full channel.
pub open spec fn color_wf(c: ColorMilli) -> bool {
    c.red <= CHANNEL_MILLI && c.green <= CHANNEL_MILLI && c.blue <= CHANNEL_MILLI
}

/// The ground plane: its extent on each horizontal axis, its colour and
/// its position.
pub struct PlaneDesc {
    pub size_x: i64,
    pub size_z: i64,
    pub color: ColorMilli,
    pub pos: Vec3Fx,
}

/// The directional light: its illuminance and its position. It points
/// from its position toward the origin.
pub struct LightDesc {
    pub illuminance_lux: u32,
    pub pos: Vec3Fx,
}

/// The player cube: its name, its colour and its starting position.
pub struct PlayerDesc {
    pub name: String,
    pub color: ColorMilli,
    pub pos: Vec3Fx,
}

/// The camera: its name and its starting position. It starts at the
/// camera offset, looking at the origin.
pub struct CameraDesc {
    pub name: String,
    pub pos: Vec3Fx,
}

/// The name the player entity is spawned under and found by.
pub fn player_name() -> (r: String)
    ensures
        r@ == "Player"@,
{
    "Player".to_owned()
}

/// The name the camera entity is spawned under and found by.
pub fn camera_name() -> (r: String)
    ensures
        r@ == "3D Camera"@,
{
    "3D Camera".to_owned()
}

/// The ground plane of the basic scene: five units square, a pale blue,
/// at the origin.
pub fn plane_desc() -> (r: PlaneDesc)
    ensures
        r.size_x == 5_000_000 && r.size_z == 5_000_000,
        r.color == (ColorMilli { red: 670, green: 840, blue: 920 }),
        r.pos == (Vec3Fx { x: 0, y: 0, z: 0 }),
        color_wf(r.color),
{
    PlaneDesc {
        size_x: 5_000_000,
        size_z: 5_000_000,
        color: ColorMilli { red: 670, green: 840, blue: 920 },
        pos: Vec3Fx { x: 0, y: 0, z: 0 },
    }
}

/// The light of the basic scene: 1500 lux, fifty units out on each axis.
pub fn light_desc() -> (r: LightDesc)
    ensures
        r.illuminance_lux == 1500,
        r.pos == (Vec3Fx { x: 50_000_000, y: 50_000_000, z: 50_000_000 }),
{
    LightDesc { illuminance_lux: 1500, pos: Vec3Fx { x: 50_000_000, y: 50_000_000, z: 50_000_000 } }
}

/// The player cube: named, a muted green, half a unit above the plane.
pub fn player_desc() -> (r: PlayerDesc)
    ensures
        r.name@ == "Player"@,
        r.color == (ColorMilli { red: 300, green: 500, blue: 300 }),
        r.pos == (Vec3Fx { x: 0, y: 500_000, z: 0 }),
        color_wf(r.color),
{
    PlayerDesc {
        name: player_name(),
        color: ColorMilli { red: 300, green: 500, blue: 300 },
        pos: Vec3Fx { x: 0, y: 500_000, z: 0 },
    }
}

/// The camera: named, placed at the camera offset so that it already
/// holds the offset from the player's starting ground position.
pub fn camera_desc() -> (r: CameraDesc)
    ensures
        r.name@ == "3D Camera"@,
        r.pos == (Vec3Fx { x: CAMERA_OFFSET_X, y: CAMERA_OFFSET_Y, z: CAMERA_OFFSET_Z }),
{
    CameraDesc {
        name: camera_name(),
        pos: Vec3Fx { x: CAMERA_OFFSET_X, y: CAMERA_OFFSET_Y, z: CAMERA_OFFSET_Z },
    }
}

} // verus!
