//! The scene's entities and the two per-frame rules.
//!
//! A [`World`] holds the spawned entities — an optional name, whether
//! the entity is a camera, and a position — together with the index of
//! the player entity, kept when the player is spawned. Each frame runs
//! the movement rule and then the camera-follow rule, in that order.
//! Both rules are stated against spec-level models of the whole entity
//! sequence, so what a frame does is pinned exactly: which entity
//! changes, and to what.

use vstd::prelude::*;
use crate::vec3::Vec3Fx;
use crate::motion::{KeyState, disp_x, disp_z, displacement, step_fits, move_step};
use crate::scene::{
    CAMERA_OFFSET_X,
    CAMERA_OFFSET_Y,
    CAMERA_OFFSET_Z,
    camera_desc,
    camera_name,
    light_desc,
    plane_desc,
    player_desc,
    player_name,
};

verus! {

/// One spawned entity: its name, if it was given one, whether it is a
/// camera, and its position in micro-units.
#[verifier::ext_equal]
pub struct Entity3d {
    pub name: Option<String>,
    pub is_camera: bool,
    pub pos: Vec3Fx,
}

/// The scene: the spawned entities in spawn order, and the index of the
/// player entity, if one was spawned.
pub struct World {
    pub entities: Vec<Entity3d>,
    pub player: Option<usize>,
}

/// True when `e` answers a lookup for `name` among the cameras
/// (`want_camera` true) or among everything else (`want_camera` false).
pub open spec fn entry_matches(e: Entity3d, name: Seq<char>, want_camera: bool) -> bool {
    &&& e.is_camera == want_camera
    &&& e.name matches Some(n) && n@ == name
}

/// The index of the first entity that answers a lookup for `name`, or
/// `None` when none does.
pub open spec fn first_entry(s: Seq<Entity3d>, name: Seq<char>, want_camera: bool) -> Option<
    int,
>
    decreases s.len(),
{
    if s.len() == 0 {
        None
    } else if entry_matches(s[0], name, want_camera) {
        Some(0int)
    } else {
        match first_entry(s.subrange(1, s.len() as int), name, want_camera) {
            None => None,
            Some(i) => Some(i + 1),
        }
    }
}

/// What `first_entry` finds: `None` only when no entity answers the
/// lookup, and `Some(i)` only for the least index that does.
pub proof fn lemma_first_entry(s: Seq<Entity3d>, name: Seq<char>, want_camera: bool)
    ensures
        match first_entry(s, name, want_camera) {
            None => forall|j: int| 0 <= j < s.len() ==> !entry_matches(s[j], name, want_camera),
            Some(i) => {
                &&& 0 <= i < s.len()
                &&& entry_matches(s[i], name, want_camera)
                &&& forall|j: int| 0 <= j < i ==> !entry_matches(s[j], name, want_camera)
            },
        },
    decreases s.len(),
{
    if s.len() == 0 {
    } else if entry_matches(s[0], name, want_camera) {
    } else {
        let tail = s.subrange(1, s.len() as int);
        lemma_first_entry(tail, name, want_camera);
        assert(forall|j: int| 1 <= j < s.len() ==> s[j] == tail[j - 1]);
    }
}

/// Finds the first entity named `name` among the cameras or among
/// everything else: the lookup both frame rules use.
pub fn find_named(entities: &Vec<Entity3d>, name: &String, want_camera: bool) -> (r: Option<
    usize,
>)
    ensures
        match first_entry(entities@, name@, want_camera) {
            None => r is None,
            Some(i) => r matches Some(u) && u as int == i,
        },
{
    let n = entities.len();
    let mut idx: usize = 0;
    while idx < n
        invariant
            n == entities@.len(),
            idx <= n,
            forall|j: int| 0 <= j < idx ==> !entry_matches(entities@[j], name@, want_camera),
        decreases n - idx,
    {
        let e = &entities[idx];
        let hit: bool = if e.is_camera == want_camera {
            match &e.name {
                Some(en) => *en == *name,
                None => false,
            }
        } else {
            false
        };
        if hit {
            proof {
                lemma_first_entry(entities@, name@, want_camera);
                assert(entry_matches(entities@[idx as int], name@, want_camera));
            }
            return Some(idx);
        }
        idx = idx + 1;
    }
    proof {
        lemma_first_entry(entities@, name@, want_camera);
    }
    None
}

/// The entity the movement rule acts on: the remembered player index,
/// provided it still points at an entity that bears a name. Anything
/// else leaves the rule with nothing to move.
pub open spec fn movement_target(w: World) -> Option<int> {
    match w.player {
        None => None,
        Some(i) => if i < w.entities@.len() && w.entities@[i as int].name is Some {
            Some(i as int)
        } else {
            None
        },
    }
}

/// A position after one movement step.
pub open spec fn moved_pos(p: Vec3Fx, k: KeyState, dt_ms: u32) -> Vec3Fx {
    Vec3Fx {
        x: (p.x + disp_x(k, dt_ms)) as i64,
        y: p.y,
        z: (p.z + disp_z(k, dt_ms)) as i64,
    }
}

/// The entities after the movement rule: the target entity, if there is
/// one, takes one movement step; every other entity stays as it was.
pub open spec fn moved_world(w: World, k: KeyState, dt_ms: u32) -> Seq<Entity3d> {
    match movement_target(w) {
        None => w.entities@,
        Some(i) => w.entities@.update(
            i,
            Entity3d {
                name: w.entities@[i].name,
                is_camera: w.entities@[i].is_camera,
                pos: moved_pos(w.entities@[i].pos, k, dt_ms),
            },
        ),
    }
}

/// True when the movement rule's one step stays within `i64`
/// coordinates.
pub open spec fn movement_fits(w: World, k: KeyState, dt_ms: u32) -> bool {
    match movement_target(w) {
        None => true,
        Some(i) => step_fits(w.entities@[i].pos, k, dt_ms),
    }
}

/// The movement rule of one frame: move the player entity by the
/// normalized key direction, scaled by the player speed and the elapsed
/// time. A missing or nameless player entity is silently ignored.
pub fn player_movement(w: &mut World, k: &KeyState, dt_ms: u32)
    requires
        movement_fits(*old(w), *k, dt_ms),
    ensures
        final(w).entities@ == moved_world(*old(w), *k, dt_ms),
        final(w).player == old(w).player,
{
    if let Some(i) = w.player {
        if i < w.entities.len() {
            let e = &mut w.entities[i];
            if e.name.is_some() {
                move_step(&mut e.pos, k, dt_ms);
                proof {
                    assert(*final(e) =~= moved_world(*old(w), *k, dt_ms)[i as int]);
                    assert(final(w).entities@ =~= moved_world(*old(w), *k, dt_ms));
                }
            }
        }
    }
}

/// A position with the camera offset added.
pub open spec fn offset_pos(p: Vec3Fx) -> Vec3Fx {
    Vec3Fx {
        x: (p.x + CAMERA_OFFSET_X) as i64,
        y: (p.y + CAMERA_OFFSET_Y) as i64,
        z: (p.z + CAMERA_OFFSET_Z) as i64,
    }
}

/// The entities after the camera-follow rule: when both a player entry
/// and a camera entry are found, the camera moves to the player's
/// position plus the camera offset; otherwise nothing changes.
pub open spec fn followed_world(s: Seq<Entity3d>) -> Seq<Entity3d> {
    match (first_entry(s, "Player"@, false), first_entry(s, "3D Camera"@, true)) {
        (Some(pi), Some(ci)) => s.update(
            ci,
            Entity3d { name: s[ci].name, is_camera: s[ci].is_camera, pos: offset_pos(s[pi].pos) },
        ),
        _ => s,
    }
}

/// True when placing the camera at the player's position plus the
/// camera offset stays within `i64` coordinates.
pub open spec fn follow_fits(s: Seq<Entity3d>) -> bool {
    match (first_entry(s, "Player"@, false), first_entry(s, "3D Camera"@, true)) {
        (Some(pi), Some(ci)) => {
            &&& i64::MIN <= s[pi].pos.x + CAMERA_OFFSET_X <= i64::MAX
            &&& i64::MIN <= s[pi].pos.y + CAMERA_OFFSET_Y <= i64::MAX
            &&& i64::MIN <= s[pi].pos.z + CAMERA_OFFSET_Z <= i64::MAX
        },
        _ => true,
    }
}

/// The camera-follow rule of one frame: find the player entity by name
/// among the non-cameras, find the camera by name among the cameras,
/// and, when both are there, place the camera at the player's position
/// plus the camera offset. A missing player or camera is silently
/// ignored.
pub fn camera_follow(w: &mut World)
    requires
        follow_fits(old(w).entities@),
    ensures
        final(w).entities@ == followed_world(old(w).entities@),
        final(w).player == old(w).player,
{
    let pname = player_name();
    let cname = camera_name();
    proof {
        lemma_first_entry(old(w).entities@, "Player"@, false);
        lemma_first_entry(old(w).entities@, "3D Camera"@, true);
    }
    let player_idx = find_named(&w.entities, &pname, false);
    let camera_idx = find_named(&w.entities, &cname, true);
    if let (Some(p), Some(c)) = (player_idx, camera_idx) {
        let ppos = w.entities[p].pos;
        let cam = &mut w.entities[c];
        cam.pos = Vec3Fx {
            x: ppos.x + CAMERA_OFFSET_X,
            y: ppos.y + CAMERA_OFFSET_Y,
            z: ppos.z + CAMERA_OFFSET_Z,
        };
        proof {
            assert(*final(cam) =~= followed_world(old(w).entities@)[c as int]);
            assert(final(w).entities@ =~= followed_world(old(w).entities@));
        }
    }
}

/// One whole frame: the movement rule, then the camera-follow rule, in
/// that fixed order.
pub fn frame_update(w: &mut World, k: &KeyState, dt_ms: u32)
    requires
        movement_fits(*old(w), *k, dt_ms),
        follow_fits(moved_world(*old(w), *k, dt_ms)),
    ensures
        final(w).entities@ == followed_world(moved_world(*old(w), *k, dt_ms)),
        final(w).player == old(w).player,
{
    player_movement(w, k, dt_ms);
    camera_follow(w);
}

/// True when one whole frame for `k` and `dt_ms` stays within `i64`
/// coordinates: the movement step fits, and so does the camera's place
/// after it.
pub open spec fn frame_fits(w: World, k: KeyState, dt_ms: u32) -> bool {
    movement_fits(w, k, dt_ms) && follow_fits(moved_world(w, k, dt_ms))
}

/// Decides `frame_fits` by doing the frame's additions as checked
/// arithmetic: true exactly when the frame's writes stay within `i64`
/// coordinates.
pub fn check_frame_fits(w: &World, k: &KeyState, dt_ms: u32) -> (r: bool)
    ensures
        r == frame_fits(*w, *k, dt_ms),
{
    let d = displacement(k, dt_ms);
    let mut target: Option<usize> = None;
    if let Some(i) = w.player {
        if i < w.entities.len() {
            if w.entities[i].name.is_some() {
                target = Some(i);
                let px = w.entities[i].pos.x.checked_add(d.x);
                let pz = w.entities[i].pos.z.checked_add(d.z);
                if px.is_none() || pz.is_none() {
                    return false;
                }
            }
        }
    }
    proof {
        assert(movement_fits(*w, *k, dt_ms));
        lemma_first_entry(w.entities@, "Player"@, false);
        lemma_first_entry(w.entities@, "3D Camera"@, true);
        lemma_first_entry_same_shape(w.entities@, moved_world(*w, *k, dt_ms), "Player"@, false);
        lemma_first_entry_same_shape(w.entities@, moved_world(*w, *k, dt_ms), "3D Camera"@, true);
    }
    let pname = player_name();
    let cname = camera_name();
    let player_idx = find_named(&w.entities, &pname, false);
    let camera_idx = find_named(&w.entities, &cname, true);
    if let (Some(p), Some(c)) = (player_idx, camera_idx) {
        let base = w.entities[p].pos;
        let moved_is_p: bool = match target {
            Some(t) => t == p,
            None => false,
        };
        let mx: i64 = if moved_is_p {
            base.x + d.x
        } else {
            base.x
        };
        let my: i64 = base.y;
        let mz: i64 = if moved_is_p {
            base.z + d.z
        } else {
            base.z
        };
        let ox = mx.checked_add(CAMERA_OFFSET_X);
        let oy = my.checked_add(CAMERA_OFFSET_Y);
        let oz = mz.checked_add(CAMERA_OFFSET_Z);
        ox.is_some() && oy.is_some() && oz.is_some()
    } else {
        true
    }
}

/// Runs one whole frame when its writes stay within `i64` coordinates,
/// and otherwise leaves the world alone and reports so. The host loop
/// calls this every frame.
pub fn try_frame_update(w: &mut World, k: &KeyState, dt_ms: u32) -> (ran: bool)
    ensures
        ran == frame_fits(*old(w), *k, dt_ms),
        ran ==> final(w).entities@ == followed_world(moved_world(*old(w), *k, dt_ms)),
        !ran ==> final(w).entities@ == old(w).entities@,
        final(w).player == old(w).player,
{
    let fits = check_frame_fits(w, k, dt_ms);
    if fits {
        frame_update(w, k, dt_ms);
    }
    fits
}

/// After the camera-follow rule, whenever a player entry and a camera
/// entry are found, the camera stands exactly at the camera offset from
/// the player.
pub proof fn lemma_follow_offset(s: Seq<Entity3d>)
    requires
        follow_fits(s),
    ensures
        match (first_entry(s, "Player"@, false), first_entry(s, "3D Camera"@, true)) {
            (Some(pi), Some(ci)) => {
                let t = followed_world(s);
                &&& t[ci].pos.x == t[pi].pos.x + CAMERA_OFFSET_X
                &&& t[ci].pos.y == t[pi].pos.y + CAMERA_OFFSET_Y
                &&& t[ci].pos.z == t[pi].pos.z + CAMERA_OFFSET_Z
            },
            _ => true,
        },
{
    lemma_first_entry(s, "Player"@, false);
    lemma_first_entry(s, "3D Camera"@, true);
}

/// Lookups go by names and kinds alone: two entity sequences that agree
/// on those agree on what `first_entry` finds, whatever the positions.
pub proof fn lemma_first_entry_same_shape(
    s: Seq<Entity3d>,
    t: Seq<Entity3d>,
    name: Seq<char>,
    want_camera: bool,
)
    requires
        s.len() == t.len(),
        forall|j: int|
            0 <= j < s.len() ==> s[j].name == t[j].name && s[j].is_camera == t[j].is_camera,
    ensures
        first_entry(s, name, want_camera) == first_entry(t, name, want_camera),
    decreases s.len(),
{
    if s.len() != 0 {
        assert(entry_matches(s[0], name, want_camera) == entry_matches(t[0], name, want_camera));
        let s_tail = s.subrange(1, s.len() as int);
        let t_tail = t.subrange(1, t.len() as int);
        assert(forall|j: int| 0 <= j < s_tail.len() ==> s_tail[j] == s[j + 1] && t_tail[j] == t[
            j + 1
        ]);
        lemma_first_entry_same_shape(s_tail, t_tail, name, want_camera);
    }
}

/// One whole frame — the movement rule, then the camera-follow rule —
/// leaves the camera exactly at the camera offset from the player,
/// whenever a player entry and a camera entry are found.
pub proof fn lemma_frame_keeps_offset(w: World, k: KeyState, dt_ms: u32)
    requires
        movement_fits(w, k, dt_ms),
        follow_fits(moved_world(w, k, dt_ms)),
    ensures
        match (first_entry(w.entities@, "Player"@, false), first_entry(
            w.entities@,
            "3D Camera"@,
            true,
        )) {
            (Some(pi), Some(ci)) => {
                let t = followed_world(moved_world(w, k, dt_ms));
                &&& t[ci].pos.x == t[pi].pos.x + CAMERA_OFFSET_X
                &&& t[ci].pos.y == t[pi].pos.y + CAMERA_OFFSET_Y
                &&& t[ci].pos.z == t[pi].pos.z + CAMERA_OFFSET_Z
            },
            _ => true,
        },
{
    let m = moved_world(w, k, dt_ms);
    lemma_first_entry_same_shape(w.entities@, m, "Player"@, false);
    lemma_first_entry_same_shape(w.entities@, m, "3D Camera"@, true);
    lemma_follow_offset(m);
}

/// Spawns the basic scene into the world: the ground plane, then the
/// light, both nameless, at their fixed positions.
pub fn spawn_basic_scene(w: &mut World)
    ensures
        final(w).entities@ == old(w).entities@.push(
            Entity3d { name: None, is_camera: false, pos: (Vec3Fx { x: 0, y: 0, z: 0 }) },
        ).push(
            Entity3d {
                name: None,
                is_camera: false,
                pos: (Vec3Fx { x: 50_000_000, y: 50_000_000, z: 50_000_000 }),
            },
        ),
        final(w).player == old(w).player,
{
    let plane = plane_desc();
    w.entities.push(Entity3d { name: None, is_camera: false, pos: plane.pos });
    let light = light_desc();
    w.entities.push(Entity3d { name: None, is_camera: false, pos: light.pos });
}

/// Spawns the player cube and remembers its index, as the movement rule
/// will look it up by that index.
pub fn spawn_player(w: &mut World)
    ensures
        final(w).entities@.len() == old(w).entities@.len() + 1,
        forall|j: int| 0 <= j < old(w).entities@.len() ==> final(w).entities@[j] == old(
            w,
        ).entities@[j],
        final(w).entities@.last().name matches Some(n) && n@ == "Player"@,
        !final(w).entities@.last().is_camera,
        final(w).entities@.last().pos == (Vec3Fx { x: 0, y: 500_000, z: 0 }),
        final(w).player == Some(old(w).entities@.len() as usize),
{
    let idx = w.entities.len();
    let player = player_desc();
    w.entities.push(Entity3d { name: Some(player.name), is_camera: false, pos: player.pos });
    w.player = Some(idx);
}

/// Spawns the camera at the camera offset.
pub fn spawn_camera(w: &mut World)
    ensures
        final(w).entities@.len() == old(w).entities@.len() + 1,
        forall|j: int| 0 <= j < old(w).entities@.len() ==> final(w).entities@[j] == old(
            w,
        ).entities@[j],
        final(w).entities@.last().name matches Some(n) && n@ == "3D Camera"@,
        final(w).entities@.last().is_camera,
        final(w).entities@.last().pos == (Vec3Fx {
            x: CAMERA_OFFSET_X,
            y: CAMERA_OFFSET_Y,
            z: CAMERA_OFFSET_Z,
        }),
        final(w).player == old(w).player,
{
    let camera = camera_desc();
    w.entities.push(Entity3d { name: Some(camera.name), is_camera: true, pos: camera.pos });
}

} // verus!
