use robbo_core::board::Board;
use robbo_core::board::Kind;
use robbo_core::components::IntVec2;
use robbo_core::components::LaserHead;
use robbo_core::components::MovingDir;
use robbo_core::components::Position;
use robbo_core::components::Usable;
use robbo_core::damage::DamageMap;
use robbo_core::entities;
use robbo_core::game_events::GameEvent;
use robbo_core::game_events::Sound;
use robbo_core::inventory::Inventory;
use robbo_core::levels::LevelInfo;
use robbo_core::systems::activate_capsule::activate_capsule_system;
use robbo_core::systems::bears::move_bear;
use robbo_core::systems::birds::move_bird;
use robbo_core::systems::blasters::move_blaster_head;
use robbo_core::systems::damage::damage_system;
use robbo_core::systems::eyes::eyes_system;
use robbo_core::systems::force_field::force_field_system;
use robbo_core::systems::game_events::game_event_system;
use robbo_core::systems::game_events::game_event_use_item;
use robbo_core::systems::lasers::move_laser_head;
use robbo_core::systems::push_boxes::move_pushbox;
use robbo_core::systems::reload_level::reload_level;
use robbo_core::systems::robbo_move::move_robbo;
use robbo_core::systems::shots::shot_system;
use robbo_core::systems::ticks::tick_system;

#[test]
fn bird_advances_and_reverses() {
    let mut board = Board::new(6, 6);
    let bird = board.spawn(entities::create_bird(Position(IntVec2(2, 2))));
    let dm = DamageMap::new(6, 6);

    // default bird heading is (0, 1): one step down
    move_bird(&mut board, &dm);
    assert_eq!(board.actor_at(bird).pos, Position(IntVec2(2, 3)));

    // blocked ahead: the bird stays and reverses, no turning
    board.set_wall(2, 4);
    move_bird(&mut board, &dm);
    assert_eq!(board.actor_at(bird).pos, Position(IntVec2(2, 3)));
    assert_eq!(board.actor_at(bird).dir, MovingDir(IntVec2(0, -1)));
}

#[test]
fn bear_prefers_clockwise_turn() {
    let mut board = Board::new(6, 6);
    // a light bear heading down; its preferred quarter turn (clockwise in
    // grid coordinates) points left, and that cell is free
    let bear = board.spawn(entities::create_bear(
        Position(IntVec2(3, 3)),
        MovingDir(IntVec2(0, 1)),
    ));
    let dm = DamageMap::new(6, 6);

    move_bear(&mut board, &dm);
    assert_eq!(board.actor_at(bear).pos, Position(IntVec2(2, 3)));
    assert_eq!(board.actor_at(bear).dir, MovingDir(IntVec2(-1, 0)));
}

#[test]
fn bear_goes_straight_when_preferred_turn_blocked() {
    let mut board = Board::new(6, 6);
    let bear = board.spawn(entities::create_bear(
        Position(IntVec2(3, 3)),
        MovingDir(IntVec2(0, 1)),
    ));
    board.set_wall(2, 3);
    let dm = DamageMap::new(6, 6);

    move_bear(&mut board, &dm);
    assert_eq!(board.actor_at(bear).pos, Position(IntVec2(3, 4)));
    assert_eq!(board.actor_at(bear).dir, MovingDir(IntVec2(0, 1)));
}

#[test]
fn driven_box_crushes_what_it_hits() {
    let mut board = Board::new(6, 6);
    let mut boxed = entities::create_push_box(Position(IntVec2(2, 2)));
    boxed.dir = MovingDir(IntVec2(1, 0));
    let b = board.spawn(boxed);
    board.spawn(entities::create_ground(Position(IntVec2(3, 2))));
    let mut dm = DamageMap::new(6, 6);

    move_pushbox(&mut board, &mut dm);

    // the box stops, resets its direction and registers non-bomb damage
    assert_eq!(board.actor_at(b).pos, Position(IntVec2(2, 2)));
    assert_eq!(board.actor_at(b).dir, MovingDir(IntVec2(0, 0)));
    assert_eq!(dm.get(&Position(IntVec2(3, 2))), Some(false));
}

#[test]
fn laser_head_advances_leaving_tail() {
    let mut board = Board::new(8, 8);
    let head = board.spawn(entities::create_laser_head(Position(IntVec2(2, 4)), 1, 0));
    let mut dm = DamageMap::new(8, 8);

    move_laser_head(&mut board, &mut dm);

    assert_eq!(board.actor_at(head).pos, Position(IntVec2(3, 4)));
    let tail = board.get_entity(&Position(IntVec2(2, 4))).expect("tail behind the head");
    assert!(matches!(board.actor_at(tail).kind, Kind::LaserTail(_)));
}

#[test]
fn laser_head_turns_around_on_impact() {
    let mut board = Board::new(8, 8);
    let head = board.spawn(entities::create_laser_head(Position(IntVec2(2, 4)), 1, 0));
    board.set_wall(3, 4);
    let mut dm = DamageMap::new(8, 8);

    move_laser_head(&mut board, &mut dm);

    assert_eq!(board.actor_at(head).pos, Position(IntVec2(2, 4)));
    assert_eq!(board.actor_at(head).dir, MovingDir(IntVec2(-1, 0)));
    assert_eq!(
        board.actor_at(head).kind,
        Kind::LaserHead(LaserHead { is_moving_back: true })
    );
    assert_eq!(dm.get(&Position(IntVec2(3, 4))), Some(false));
}

#[test]
fn blaster_head_eats_destroyable() {
    let mut board = Board::new(8, 8);
    let head = board.spawn(entities::create_blaster_head(Position(IntVec2(2, 4)), 1, 0));
    let prey = board.spawn(entities::create_ground(Position(IntVec2(3, 4))));

    move_blaster_head(&mut board);

    assert!(board.actors[prey].is_none());
    assert_eq!(board.actor_at(head).pos, Position(IntVec2(3, 4)));
    // a tail marker covers the cell the head left
    let tail = board.get_entity(&Position(IntVec2(2, 4))).expect("blaster tail");
    assert!(matches!(board.actor_at(tail).kind, Kind::Animation(_, _)));
}

#[test]
fn blaster_head_dies_on_undestroyable() {
    let mut board = Board::new(8, 8);
    let head = board.spawn(entities::create_blaster_head(Position(IntVec2(2, 4)), 1, 0));
    let block = board.spawn(entities::create_static_box(Position(IntVec2(3, 4))));

    move_blaster_head(&mut board);

    assert!(board.actors[head].is_none());
    assert!(board.actors[block].is_some());
}

#[test]
fn eyes_move_at_most_one_orthogonal_step() {
    let mut board = Board::new(8, 8);
    board.spawn(entities::create_robbo(Position(IntVec2(1, 1))));
    let eyes = board.spawn(entities::create_eyes(Position(IntVec2(5, 5))));

    eyes_system(&mut board);

    let p = board.actor_at(eyes).pos;
    let dx = (p.0 .0 - 5).abs();
    let dy = (p.0 .1 - 5).abs();
    assert!(dx + dy <= 1, "eyes moved to ({}, {})", p.0 .0, p.0 .1);
}

#[test]
fn force_field_steps_and_wraps() {
    let mut board = Board::new(6, 8);
    // a track [2, 6) in column 3, heading up from its top end
    let seg = board.spawn(entities::create_forcefield(
        Position(IntVec2(3, 2)),
        MovingDir(IntVec2(0, -1)),
        2,
        6,
    ));
    let mut dm = DamageMap::new(6, 8);

    force_field_system(&mut board, &mut dm);
    // leaving the track at the top wraps to the bottom bound
    assert_eq!(board.actor_at(seg).pos, Position(IntVec2(3, 5)));

    force_field_system(&mut board, &mut dm);
    assert_eq!(board.actor_at(seg).pos, Position(IntVec2(3, 4)));
}

#[test]
fn force_field_burns_what_it_passes_over() {
    let mut board = Board::new(6, 8);
    let seg = board.spawn(entities::create_forcefield(
        Position(IntVec2(3, 3)),
        MovingDir(IntVec2(0, 1)),
        2,
        6,
    ));
    let prey = board.spawn(entities::create_ground(Position(IntVec2(3, 4))));
    let mut dm = DamageMap::new(6, 8);

    force_field_system(&mut board, &mut dm);

    assert!(board.actors[prey].is_none());
    assert_eq!(board.actor_at(seg).pos, Position(IntVec2(3, 4)));
}

#[test]
fn door_consumes_one_key() {
    let mut board = Board::new(6, 6);
    let door = board.spawn(entities::create_door(Position(IntVec2(2, 2))));
    let mut inventory = Inventory::new();
    inventory.keys = 2;
    let mut sounds: Vec<Sound> = Vec::new();

    game_event_use_item(&mut board, &mut inventory, door, &mut sounds);

    assert!(board.actors[door].is_none());
    assert_eq!(inventory.keys, 1);
    assert_eq!(sounds, vec![Sound::DOOR]);
}

#[test]
fn door_without_key_is_a_no_op() {
    let mut board = Board::new(6, 6);
    let door = board.spawn(entities::create_door(Position(IntVec2(2, 2))));
    let mut inventory = Inventory::new();
    let mut sounds: Vec<Sound> = Vec::new();

    game_event_use_item(&mut board, &mut inventory, door, &mut sounds);

    assert!(board.actors[door].is_some());
    assert_eq!(inventory.keys, 0);
    assert!(sounds.is_empty());
}

#[test]
fn collecting_moves_player_and_updates_inventory() {
    let mut board = Board::new(6, 6);
    let mut robbo = entities::create_robbo(Position(IntVec2(1, 1)));
    robbo.dir = MovingDir(IntVec2(1, 0));
    let r = board.spawn(robbo);
    let key = board.spawn(entities::create_key(Position(IntVec2(2, 1))));
    let mut inventory = Inventory::new();
    let mut events = Vec::new();
    let mut sounds: Vec<Sound> = Vec::new();

    move_robbo(&mut board, &mut inventory, &mut events, &mut sounds);

    assert!(board.actors[key].is_none());
    assert_eq!(board.actor_at(r).pos, Position(IntVec2(2, 1)));
    assert_eq!(inventory.keys, 1);
    assert_eq!(sounds, vec![Sound::KEY, Sound::WALK]);
}

#[test]
fn walking_into_usable_emits_use_event() {
    let mut board = Board::new(6, 6);
    let mut robbo = entities::create_robbo(Position(IntVec2(1, 1)));
    robbo.dir = MovingDir(IntVec2(1, 0));
    let r = board.spawn(robbo);
    let door = board.spawn(entities::create_door(Position(IntVec2(2, 1))));
    let mut inventory = Inventory::new();
    let mut events = Vec::new();
    let mut sounds: Vec<Sound> = Vec::new();

    move_robbo(&mut board, &mut inventory, &mut events, &mut sounds);

    assert_eq!(board.actor_at(r).pos, Position(IntVec2(1, 1)));
    assert_eq!(
        events,
        vec![GameEvent::Use(door, Position(IntVec2(2, 1)), MovingDir(IntVec2(1, 0)))]
    );
}

#[test]
fn capsule_arms_when_screws_collected() {
    let mut board = Board::new(6, 6);
    let capsule = board.spawn(entities::create_capsule(Position(IntVec2(3, 3))));
    let mut inventory = Inventory::new();
    inventory.screws = 4;
    let mut level_info = LevelInfo::new();
    level_info.screws = 4;
    let mut sounds: Vec<Sound> = Vec::new();

    activate_capsule_system(&mut board, &inventory, &level_info, &mut sounds);

    let a = board.actor_at(capsule);
    assert_eq!(a.usable, Some(Usable::Capsule));
    assert!(!a.moveable);
}

#[test]
fn capsule_stays_inert_without_screws() {
    let mut board = Board::new(6, 6);
    let capsule = board.spawn(entities::create_capsule(Position(IntVec2(3, 3))));
    let inventory = Inventory::new();
    let mut level_info = LevelInfo::new();
    level_info.screws = 4;
    let mut sounds: Vec<Sound> = Vec::new();

    activate_capsule_system(&mut board, &inventory, &level_info, &mut sounds);

    let a = board.actor_at(capsule);
    assert_eq!(a.usable, None);
    assert!(a.moveable);
}

#[test]
fn missing_player_escalation() {
    let mut board = Board::new(6, 6);
    let bird = board.spawn(entities::create_bird(Position(IntVec2(2, 2))));
    let mut level_info = LevelInfo::new();
    let mut events: Vec<GameEvent> = Vec::new();
    let mut sounds: Vec<Sound> = Vec::new();

    for _ in 0..9 {
        reload_level(&mut board, &mut level_info, &mut events, &mut sounds);
        assert!(board.actors[bird].is_some());
    }
    // the tenth keyframe without a player detonates the board
    reload_level(&mut board, &mut level_info, &mut events, &mut sounds);
    assert!(board.actors[bird].is_none());
    assert!(events.is_empty());

    for _ in 0..10 {
        reload_level(&mut board, &mut level_info, &mut events, &mut sounds);
    }
    // ten keyframes later the reload request goes out
    assert_eq!(events, vec![GameEvent::ReloadLevel(0)]);
}

#[test]
fn explosion_expires_after_its_frames() {
    let mut board = Board::new(6, 6);
    let marker = board.spawn(entities::create_explosion(Position(IntVec2(2, 2))));
    let mut events: Vec<GameEvent> = Vec::new();

    tick_system(&mut board, &mut events);
    tick_system(&mut board, &mut events);
    assert!(board.actors[marker].is_some());
    tick_system(&mut board, &mut events);
    assert!(board.actors[marker].is_none());
    assert!(events.is_empty());
}

#[test]
fn spawn_flash_ends_in_spawn_event() {
    let mut board = Board::new(6, 6);
    let flash = board.spawn(entities::spawn_robbo(Position(IntVec2(2, 2))));
    let mut events: Vec<GameEvent> = Vec::new();
    let mut dm = DamageMap::new(6, 6);
    let mut inventory = Inventory::new();
    let mut sounds: Vec<Sound> = Vec::new();

    tick_system(&mut board, &mut events);
    tick_system(&mut board, &mut events);
    tick_system(&mut board, &mut events);
    assert!(board.actors[flash].is_none());
    assert_eq!(events, vec![GameEvent::SpawnRobbo(Position(IntVec2(2, 2)))]);

    game_event_system(&mut board, &mut dm, &mut inventory, &mut events, &mut sounds);
    let r = board.get_entity(&Position(IntVec2(2, 2))).expect("player spawned");
    assert!(matches!(board.actor_at(r).kind, Kind::Robbo(_)));
    assert!(events.is_empty());
}

#[test]
fn player_fires_pending_shot() {
    let mut board = Board::new(8, 8);
    let mut robbo = entities::create_robbo(Position(IntVec2(2, 2)));
    robbo.shooting = Some(robbo_core::components::ShootingDir { dir: IntVec2(1, 0) });
    let r = board.spawn(robbo);
    let mut dm = DamageMap::new(8, 8);
    let mut sounds: Vec<Sound> = Vec::new();

    shot_system(&mut board, &mut dm, &mut sounds);

    let shot = board.get_entity(&Position(IntVec2(3, 2))).expect("projectile in front");
    assert!(matches!(board.actor_at(shot).kind, Kind::Bullet(_)));
    assert_eq!(board.actor_at(shot).dir, MovingDir(IntVec2(1, 0)));
    assert_eq!(board.actor_at(r).shooting, None);
    assert_eq!(sounds, vec![Sound::SHOT]);
}

#[test]
fn deadly_contact_kills_player() {
    let mut board = Board::new(6, 6);
    let r = board.spawn(entities::create_robbo(Position(IntVec2(2, 2))));
    board.spawn(entities::create_bird(Position(IntVec2(3, 2))));
    let mut sounds: Vec<Sound> = Vec::new();

    damage_system(&mut board, &mut sounds);

    assert!(board.actors[r].is_none());
    let marker = board.get_entity(&Position(IntVec2(2, 2))).expect("explosion at player cell");
    assert!(matches!(board.actor_at(marker).kind, Kind::Animation(_, None)));
    assert_eq!(sounds, vec![Sound::BURN]);
}

#[test]
fn magnet_is_deadly_on_front_face_only() {
    let mut board = Board::new(6, 6);
    let r = board.spawn(entities::create_robbo(Position(IntVec2(2, 2))));
    // magnet right of the player, pointing right: the player is behind it
    board.spawn(entities::create_magnet(Position(IntVec2(3, 2)), 1));
    let mut sounds: Vec<Sound> = Vec::new();

    damage_system(&mut board, &mut sounds);
    assert!(board.actors[r].is_some());

    // a magnet pointing left has the player on its front face
    let mut board2 = Board::new(6, 6);
    let r2 = board2.spawn(entities::create_robbo(Position(IntVec2(2, 2))));
    board2.spawn(entities::create_magnet(Position(IntVec2(3, 2)), 3));
    damage_system(&mut board2, &mut sounds);
    assert!(board2.actors[r2].is_none());
}

#[test]
fn input_sets_player_direction() {
    let mut board = Board::new(6, 6);
    let r = board.spawn(entities::create_robbo(Position(IntVec2(2, 2))));

    robbo_core::systems::robbo_move::robbo_set_direction(&mut board, 1, 0);
    assert_eq!(board.actor_at(r).dir, MovingDir(IntVec2(1, 0)));
}

#[test]
fn shooting_consumes_ammo_and_stops_player() {
    let mut board = Board::new(6, 6);
    let mut robbo = entities::create_robbo(Position(IntVec2(2, 2)));
    robbo.dir = MovingDir(IntVec2(1, 0));
    let r = board.spawn(robbo);
    let mut inventory = Inventory::new();
    inventory.bullets = 2;

    robbo_core::systems::robbo_move::robbo_shoot(&mut board, &mut inventory, 0, -1);

    assert_eq!(inventory.bullets, 1);
    let a = board.actor_at(r);
    assert_eq!(a.dir, MovingDir(IntVec2(0, 0)));
    assert_eq!(
        a.shooting,
        Some(robbo_core::components::ShootingDir { dir: IntVec2(0, -1) })
    );
}

#[test]
fn shooting_without_ammo_is_a_no_op() {
    let mut board = Board::new(6, 6);
    let mut robbo = entities::create_robbo(Position(IntVec2(2, 2)));
    robbo.dir = MovingDir(IntVec2(1, 0));
    let r = board.spawn(robbo);
    let mut inventory = Inventory::new();

    robbo_core::systems::robbo_move::robbo_shoot(&mut board, &mut inventory, 0, -1);

    assert_eq!(inventory.bullets, 0);
    assert_eq!(board.actor_at(r).dir, MovingDir(IntVec2(1, 0)));
    assert_eq!(board.actor_at(r).shooting, None);
}
