use platformer::bundle::{BodyKind, Capsule, CharacterLength, PlayerBundle, Translation};

#[test]
fn bundle_has_player_sheet() {
    let b = PlayerBundle::bundle_entity();
    assert_eq!(b.sprite_sheet.path, "sprites/sam1.png");
    assert_eq!(b.sprite_sheet.cell_width, 48);
    assert_eq!(b.sprite_sheet.cell_height, 32);
    assert_eq!(b.sprite_sheet.columns, 4);
    assert_eq!(b.sprite_sheet.rows, 1);
}

#[test]
fn bundle_animates_four_frames() {
    let a = PlayerBundle::bundle_entity().sprite_animator;
    assert_eq!(a.first_frame, 0);
    assert_eq!(a.last_frame, 3);
    assert_eq!(a.frame_count, 4);
    assert_eq!(a.frame_time, 200);
    assert!(a.looping);
}

#[test]
fn bundle_body_and_collider() {
    let b = PlayerBundle::bundle_entity();
    assert_eq!(b.rigidbody, BodyKind::KinematicPositionBased);
    assert_eq!(b.collider, Capsule { half_height: 7000, radius: 7000 });
    assert_eq!(b.controller.offset, CharacterLength::Relative(100));
    assert_eq!(b.translation, Translation { x: 0, y: 0, z: 1000 });
}

#[test]
fn bundle_actor_tuning() {
    let b = PlayerBundle::bundle_entity();
    assert_eq!(b.actor.move_speed, 60_000);
    assert_eq!(b.actor.drag, 100);
    assert_eq!(b.actor.accel, 500_000);
    assert_eq!(b.actor.deccel, 1_000_000);
    assert_eq!(b.actor.gravity, 1_000_000);
    assert_eq!(b.actor.jump_speed, 1_000_000);
    assert_eq!(b.actor.jump_time, 100);
    assert_eq!(b.actor.move_input, 0);
    assert!(!b.actor.jump_input);
    assert!(!b.actor_status.grounded);
    assert_eq!(b.actor_status.velocity_x, 0);
    assert_eq!(b.actor_status.velocity_y, 0);
}

#[test]
fn bundle_built_twice_is_equal() {
    let a = PlayerBundle::bundle_entity();
    let b = PlayerBundle::bundle_entity();
    assert_eq!(a, b);
}
