use scene3d::motion::KeyState;
use scene3d::scene::{
    camera_desc, camera_name, light_desc, plane_desc, player_desc, player_name, CAMERA_OFFSET_X,
    CAMERA_OFFSET_Y, CAMERA_OFFSET_Z,
};
use scene3d::vec3::Vec3Fx;
use scene3d::world::{
    camera_follow, find_named, frame_update, player_movement, spawn_basic_scene, spawn_camera,
    spawn_player, try_frame_update, Entity3d, World,
};

fn keys(forward: bool, back: bool, left: bool, right: bool) -> KeyState {
    KeyState { forward, back, left, right }
}

fn spawned_world() -> World {
    let mut w = World { entities: Vec::new(), player: None };
    spawn_basic_scene(&mut w);
    spawn_player(&mut w);
    spawn_camera(&mut w);
    w
}

#[test]
fn descriptors_hold_the_scene_constants() {
    let plane = plane_desc();
    assert_eq!((plane.size_x, plane.size_z), (5_000_000, 5_000_000));
    assert_eq!(
        (plane.color.red, plane.color.green, plane.color.blue),
        (670, 840, 920)
    );
    assert_eq!((plane.pos.x, plane.pos.y, plane.pos.z), (0, 0, 0));

    let light = light_desc();
    assert_eq!(light.illuminance_lux, 1500);
    assert_eq!(
        (light.pos.x, light.pos.y, light.pos.z),
        (50_000_000, 50_000_000, 50_000_000)
    );

    let player = player_desc();
    assert_eq!(player.name, "Player");
    assert_eq!(
        (player.color.red, player.color.green, player.color.blue),
        (300, 500, 300)
    );
    assert_eq!((player.pos.x, player.pos.y, player.pos.z), (0, 500_000, 0));

    let camera = camera_desc();
    assert_eq!(camera.name, "3D Camera");
    assert_eq!(
        (camera.pos.x, camera.pos.y, camera.pos.z),
        (CAMERA_OFFSET_X, CAMERA_OFFSET_Y, CAMERA_OFFSET_Z)
    );
}

#[test]
fn spawning_builds_the_fixed_scene() {
    let w = spawned_world();
    assert_eq!(w.entities.len(), 4);
    assert_eq!(w.player, Some(2));

    assert!(w.entities[0].name.is_none());
    assert!(!w.entities[0].is_camera);
    assert!(w.entities[1].name.is_none());
    assert_eq!(w.entities[1].pos.x, 50_000_000);

    assert_eq!(w.entities[2].name.as_deref(), Some("Player"));
    assert!(!w.entities[2].is_camera);
    let p = w.entities[2].pos;
    assert_eq!((p.x, p.y, p.z), (0, 500_000, 0));

    assert_eq!(w.entities[3].name.as_deref(), Some("3D Camera"));
    assert!(w.entities[3].is_camera);
    let c = w.entities[3].pos;
    assert_eq!((c.x, c.y, c.z), (CAMERA_OFFSET_X, CAMERA_OFFSET_Y, CAMERA_OFFSET_Z));
}

#[test]
fn find_named_returns_the_first_match() {
    let mut w = spawned_world();
    // A second entity named like the player: the lookup must keep the first.
    w.entities.push(Entity3d {
        name: Some(player_name()),
        is_camera: false,
        pos: Vec3Fx { x: 1, y: 2, z: 3 },
    });
    assert_eq!(find_named(&w.entities, &player_name(), false), Some(2));
    assert_eq!(find_named(&w.entities, &camera_name(), true), Some(3));
}

#[test]
fn find_named_minds_the_camera_flag() {
    let w = spawned_world();
    assert_eq!(find_named(&w.entities, &player_name(), true), None);
    assert_eq!(find_named(&w.entities, &camera_name(), false), None);
}

#[test]
fn find_named_on_empty_world_finds_nothing() {
    let entities: Vec<Entity3d> = Vec::new();
    assert_eq!(find_named(&entities, &player_name(), false), None);
}

#[test]
fn movement_moves_only_the_player() {
    let mut w = spawned_world();
    player_movement(&mut w, &keys(true, false, false, false), 16);
    let p = w.entities[2].pos;
    assert_eq!((p.x, p.y, p.z), (0, 500_000, -80_000));
    assert_eq!(w.entities[0].pos.x, 0);
    assert_eq!(w.entities[1].pos.x, 50_000_000);
    assert_eq!(w.entities[3].pos.x, CAMERA_OFFSET_X);
}

#[test]
fn movement_without_player_resource_changes_nothing() {
    let mut w = spawned_world();
    w.player = None;
    player_movement(&mut w, &keys(true, false, false, false), 16);
    assert_eq!(w.entities[2].pos.z, 0);
}

#[test]
fn movement_with_stale_player_index_changes_nothing() {
    let mut w = spawned_world();
    w.player = Some(9);
    player_movement(&mut w, &keys(true, false, false, false), 16);
    for e in &w.entities {
        assert_ne!(e.pos.z, -80_000);
    }
}

#[test]
fn movement_at_nameless_entity_changes_nothing() {
    let mut w = spawned_world();
    // The plane bears no name, so the lookup the movement rule makes fails.
    w.player = Some(0);
    player_movement(&mut w, &keys(true, false, false, false), 16);
    assert_eq!(w.entities[0].pos.z, 0);
    assert_eq!(w.entities[2].pos.z, 0);
}

#[test]
fn camera_follow_places_camera_at_the_offset() {
    let mut w = spawned_world();
    let e = &mut w.entities[2];
    e.pos = Vec3Fx { x: 1_000_000, y: 500_000, z: -3_000_000 };
    camera_follow(&mut w);
    let c = w.entities[3].pos;
    assert_eq!(c.x, 1_000_000 + CAMERA_OFFSET_X);
    assert_eq!(c.y, 500_000 + CAMERA_OFFSET_Y);
    assert_eq!(c.z, -3_000_000 + CAMERA_OFFSET_Z);
}

#[test]
fn camera_follow_without_a_camera_changes_nothing() {
    let mut w = spawned_world();
    w.entities.pop();
    let before: Vec<(i64, i64, i64)> =
        w.entities.iter().map(|e| (e.pos.x, e.pos.y, e.pos.z)).collect();
    camera_follow(&mut w);
    let after: Vec<(i64, i64, i64)> =
        w.entities.iter().map(|e| (e.pos.x, e.pos.y, e.pos.z)).collect();
    assert_eq!(before, after);
}

#[test]
fn camera_follow_without_a_player_changes_nothing() {
    let mut w = spawned_world();
    w.entities[2].name = None;
    camera_follow(&mut w);
    let c = w.entities[3].pos;
    assert_eq!((c.x, c.y, c.z), (CAMERA_OFFSET_X, CAMERA_OFFSET_Y, CAMERA_OFFSET_Z));
}

#[test]
fn one_frame_moves_player_then_camera() {
    let mut w = spawned_world();
    frame_update(&mut w, &keys(true, false, false, false), 16);
    let p = w.entities[2].pos;
    assert_eq!((p.x, p.y, p.z), (0, 500_000, -80_000));
    let c = w.entities[3].pos;
    assert_eq!(c.x, p.x + CAMERA_OFFSET_X);
    assert_eq!(c.y, p.y + CAMERA_OFFSET_Y);
    assert_eq!(c.z, p.z + CAMERA_OFFSET_Z);
    assert_eq!((c.x, c.y, c.z), (-2_000_000, 3_000_000, 4_920_000));
}

#[test]
fn frames_with_opposed_keys_keep_the_offset() {
    let mut w = spawned_world();
    frame_update(&mut w, &keys(true, true, true, true), 100);
    let p = w.entities[2].pos;
    assert_eq!((p.x, p.y, p.z), (0, 500_000, 0));
    let c = w.entities[3].pos;
    assert_eq!((c.x, c.y, c.z), (CAMERA_OFFSET_X, 500_000 + CAMERA_OFFSET_Y, CAMERA_OFFSET_Z));
}

#[test]
fn try_frame_update_runs_within_bounds() {
    let mut w = spawned_world();
    let ran = try_frame_update(&mut w, &keys(false, false, false, true), 10);
    assert!(ran);
    assert_eq!(w.entities[2].pos.x, 50_000);
}

#[test]
fn try_frame_update_refuses_an_overflowing_step() {
    let mut w = spawned_world();
    let e = &mut w.entities[2];
    e.pos = Vec3Fx { x: i64::MAX - 10, y: 500_000, z: 0 };
    let ran = try_frame_update(&mut w, &keys(false, false, false, true), 1000);
    assert!(!ran);
    assert_eq!(w.entities[2].pos.x, i64::MAX - 10);
    assert_eq!(w.entities[3].pos.x, CAMERA_OFFSET_X);
}

#[test]
fn try_frame_update_refuses_an_overflowing_camera_place() {
    let mut w = spawned_world();
    let e = &mut w.entities[2];
    e.pos = Vec3Fx { x: 0, y: i64::MAX - 10, z: 0 };
    let ran = try_frame_update(&mut w, &keys(false, false, false, false), 16);
    assert!(!ran);
    assert_eq!(w.entities[2].pos.y, i64::MAX - 10);
    assert_eq!(w.entities[3].pos.y, CAMERA_OFFSET_Y);
}

#[test]
fn spawning_twice_keeps_the_latest_player() {
    let mut w = spawned_world();
    spawn_player(&mut w);
    assert_eq!(w.player, Some(4));
    assert_eq!(w.entities.len(), 5);
    assert_eq!(find_named(&w.entities, &player_name(), false), Some(2));
}
