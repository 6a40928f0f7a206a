use robbo_core::board::Board;
use robbo_core::board::Kind;
use robbo_core::components::Collectable;
use robbo_core::components::IntVec2;
use robbo_core::components::MovingDir;
use robbo_core::components::Position;
use robbo_core::components::Tiles;
use robbo_core::damage::DamageMap;
use robbo_core::entities;
use robbo_core::frame_cnt::FrameCnt;
use robbo_core::game_events::GameEvent;
use robbo_core::game_events::Sound;
use robbo_core::inventory::Inventory;
use robbo_core::levels::LevelInfo;
use robbo_core::levels::create_level;
use robbo_core::scheduler::frame;

#[test]
fn moving_dir_cycle() {
    // the fixed enumeration cycle: down, right, up, left
    assert_eq!(MovingDir::by_index(0), MovingDir(IntVec2(0, 1)));
    assert_eq!(MovingDir::by_index(1), MovingDir(IntVec2(1, 0)));
    assert_eq!(MovingDir::by_index(2), MovingDir(IntVec2(0, -1)));
    assert_eq!(MovingDir::by_index(3), MovingDir(IntVec2(-1, 0)));
    assert_eq!(MovingDir::by_index(7), MovingDir(IntVec2(-1, 0)));
    for i in 0..4 {
        assert_eq!(MovingDir::by_index(i).to_index(), i);
    }
}

#[test]
fn moving_dir_rotations() {
    let d = MovingDir(IntVec2(0, 1));
    assert_eq!(d.rotate_clockwise(), MovingDir(IntVec2(-1, 0)));
    assert_eq!(d.rotate_counter_clockwise(), MovingDir(IntVec2(1, 0)));
    assert_eq!(d.neg(), MovingDir(IntVec2(0, -1)));
    // four quarter turns are the identity
    let mut r = d;
    for _ in 0..4 {
        r = r.rotate_clockwise();
    }
    assert_eq!(r, d);
    assert!(d.is_empty() == false);
    assert!(MovingDir::zero().is_empty());
}

#[test]
fn position_arithmetic() {
    let p = Position::new(3, 4);
    assert_eq!(p.x(), 3);
    assert_eq!(p.y(), 4);
    assert_eq!(p.as_tuple(), (3, 4));
    assert_eq!(p.add(&MovingDir(IntVec2(1, -1))), Position(IntVec2(4, 3)));
}

#[test]
fn tiles_start_at_first_frame() {
    let t = Tiles::new(vec![60, 61]);
    assert_eq!(t.tiles, vec![60, 61]);
    assert_eq!(t.current, 0);
}

#[test]
fn inventory_collects_items() {
    let mut inv = Inventory::new();
    let mut sounds: Vec<Sound> = Vec::new();
    inv.collect(Collectable::Key, &mut sounds);
    inv.collect(Collectable::Screw, &mut sounds);
    inv.collect(Collectable::Ammo, &mut sounds);
    assert_eq!((inv.keys, inv.screws, inv.bullets), (1, 1, 9));
    assert_eq!(sounds, vec![Sound::KEY, Sound::SCREW, Sound::AMMO]);
}

#[test]
fn damage_map_records_and_takes() {
    let mut dm = DamageMap::new(8, 8);
    let p = Position(IntVec2(2, 3));
    assert!(!dm.is_damaged(&p));
    dm.do_damage(&p, false);
    assert!(dm.is_damaged(&p));
    assert_eq!(dm.get(&p), Some(false));
    // a later write overwrites the flag
    dm.do_damage(&p, true);
    assert_eq!(dm.get(&p), Some(true));
    // out-of-level damage is never recorded
    dm.do_damage(&Position(IntVec2(-1, 0)), true);
    assert!(!dm.is_damaged(&Position(IntVec2(-1, 0))));

    let taken = dm.take();
    assert_eq!(taken.get(&p), Some(true));
    assert!(!dm.is_damaged(&p));
    assert_eq!(dm.damaged.len(), 0);
}

#[test]
fn frame_counter_keyframes() {
    let mut fc = FrameCnt::new(8);
    let mut keyframes = 0;
    for _ in 0..16 {
        if fc.is_keyframe() {
            keyframes += 1;
        }
        fc.tick();
    }
    assert_eq!(keyframes, 2);
    assert_eq!(fc.value(), 16);
}

#[test]
fn occupancy_queries() {
    let mut board = Board::new(5, 5);
    let p = Position(IntVec2(2, 2));
    assert!(board.is_free(&p));
    let i = board.spawn(entities::create_bomb(p));
    assert!(board.is_occupied(&p));
    assert_eq!(board.get_entity(&p), Some(i));
    // outside the level everything is blocked
    assert!(board.is_occupied(&Position(IntVec2(-1, 2))));
    assert!(board.is_occupied(&Position(IntVec2(2, 5))));
    board.set_wall(0, 0);
    assert!(board.is_occupied(&Position(IntVec2(0, 0))));
    assert!(board.is_terrain(&Position(IntVec2(0, 0))));
    assert!(!board.is_terrain(&p));

    board.mv(&p, &Position(IntVec2(3, 2)));
    assert!(board.is_free(&p));
    assert_eq!(board.get_entity(&Position(IntVec2(3, 2))), Some(i));
    board.despawn(i);
    assert!(board.is_free(&Position(IntVec2(3, 2))));
}

#[test]
fn level_info_wraps_level_index() {
    let mut li = LevelInfo::new();
    li.inc_current_level(1, 3);
    assert_eq!(li.current_level, 1);
    li.inc_current_level(1, 3);
    li.inc_current_level(1, 3);
    assert_eq!(li.current_level, 0);
    li.inc_current_level(-1, 3);
    assert_eq!(li.current_level, 2);
}

#[test]
fn build_level_from_characters() {
    // a 4x3 level: walls around a player and a screw
    let rows: Vec<Vec<u8>> = vec![
        b"OOOO".to_vec(),
        b"OR.T".to_vec(),
        b"OOOO".to_vec(),
    ];
    let additional: Vec<(i32, i32, Vec<usize>)> = Vec::new();
    let (board, screws) = create_level(4, 3, &rows, &additional);
    assert_eq!(screws, 1);
    assert!(board.is_terrain(&Position(IntVec2(0, 0))));
    assert!(board.is_terrain(&Position(IntVec2(3, 0))));
    assert!(!board.is_terrain(&Position(IntVec2(2, 1))));
    // the player cell holds the spawn flash
    let flash = board.get_entity(&Position(IntVec2(1, 1))).expect("spawn flash");
    assert!(matches!(board.actor_at(flash).kind, Kind::Animation(_, Some(_))));
    let screw = board.get_entity(&Position(IntVec2(3, 1))).expect("screw");
    assert!(matches!(
        board.actor_at(screw).kind,
        Kind::Collectable(Collectable::Screw)
    ));
}

#[test]
fn frame_gate_keeps_board_still_between_keyframes() {
    let mut board = Board::new(6, 6);
    let bird = board.spawn(entities::create_bird(Position(IntVec2(2, 2))));
    let mut dm = DamageMap::new(6, 6);
    let mut level_info = LevelInfo::new();
    let mut inventory = Inventory::new();
    let mut events: Vec<GameEvent> = Vec::new();
    let mut sounds: Vec<Sound> = Vec::new();
    let mut fc = FrameCnt::new(4);
    fc.tick();  // frame 1: not a keyframe

    frame(
        &mut board,
        &mut dm,
        &mut level_info,
        &mut inventory,
        &mut events,
        &mut sounds,
        &mut fc,
    );
    assert_eq!(board.actor_at(bird).pos, Position(IntVec2(2, 2)));

    // advance to the next keyframe boundary
    frame(&mut board, &mut dm, &mut level_info, &mut inventory, &mut events, &mut sounds, &mut fc);
    frame(&mut board, &mut dm, &mut level_info, &mut inventory, &mut events, &mut sounds, &mut fc);
    frame(&mut board, &mut dm, &mut level_info, &mut inventory, &mut events, &mut sounds, &mut fc);
    assert_eq!(board.actor_at(bird).pos, Position(IntVec2(2, 3)));
}

#[test]
fn resolver_order_bears_before_birds() {
    // the bear's preferred turn and the bird's flight contend for (1,2);
    // bears resolve before birds in the pipeline, so the bear takes the
    // cell and the bird reverses instead of moving
    let mut board = Board::new(6, 6);
    let bear = board.spawn(robbo_core::entities::create_bear(
        Position(IntVec2(2, 2)),
        MovingDir(IntVec2(0, 1)),
    ));
    let mut bird = robbo_core::entities::create_bird(Position(IntVec2(1, 3)));
    bird.dir = MovingDir(IntVec2(0, -1));
    let bird = board.spawn(bird);
    let mut dm = DamageMap::new(6, 6);
    let mut level_info = LevelInfo::new();
    let mut inventory = Inventory::new();
    let mut events: Vec<GameEvent> = Vec::new();
    let mut sounds: Vec<Sound> = Vec::new();

    robbo_core::scheduler::keyframe_tick(
        &mut board,
        &mut dm,
        &mut level_info,
        &mut inventory,
        &mut events,
        &mut sounds,
    );

    assert_eq!(board.actor_at(bear).pos, Position(IntVec2(1, 2)));
    assert_eq!(board.actor_at(bird).pos, Position(IntVec2(1, 3)));
    assert_eq!(board.actor_at(bird).dir, MovingDir(IntVec2(0, 1)));
}
