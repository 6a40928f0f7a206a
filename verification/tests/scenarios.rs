use robbo_core::board::Board;
use robbo_core::board::Kind;
use robbo_core::components::Bomb;
use robbo_core::components::IntVec2;
use robbo_core::components::MovingDir;
use robbo_core::components::Position;
use robbo_core::damage::DamageMap;
use robbo_core::entities;
use robbo_core::game_events::Sound;
use robbo_core::inventory::Inventory;
use robbo_core::systems::bullets::move_bullet;
use robbo_core::systems::damage::process_damage;
use robbo_core::systems::game_events::game_event_use_teleport;
use robbo_core::systems::magnetic_field::magnetic_field_system;
use robbo_core::systems::robbo_move::move_robbo;
use robbo_core::systems::utils::teleport_dest_position;

#[test]
fn bomb_chain_first_wave_is_nine_cells() {
    // a single bomb on an empty 5x5 open floor
    let mut board = Board::new(5, 5);
    let mut dm = DamageMap::new(5, 5);
    let mut sounds: Vec<Sound> = Vec::new();
    let bomb = board.spawn(entities::create_bomb(Position(IntVec2(2, 2))));
    dm.do_damage(&Position(IntVec2(2, 2)), false);

    process_damage(&mut board, &mut dm, &mut sounds);

    // the bomb is armed in place, not yet destroyed
    let armed = board.actor_at(bomb);
    assert_eq!(armed.kind, Kind::Bomb(Bomb(true)));
    // the first wave covers exactly the eight neighbors plus its own cell
    let mut damaged = 0;
    for x in 0..5 {
        for y in 0..5 {
            let p = Position(IntVec2(x, y));
            let in_ring = (x - 2).abs() <= 1 && (y - 2).abs() <= 1;
            assert_eq!(dm.is_damaged(&p), in_ring, "cell ({}, {})", x, y);
            if dm.is_damaged(&p) {
                assert_eq!(dm.get(&p), Some(true));
                damaged += 1;
            }
        }
    }
    assert_eq!(damaged, 9);

    process_damage(&mut board, &mut dm, &mut sounds);

    // the armed bomb is destroyed and the second wave is the orthogonal cross
    assert!(board.actors[bomb].is_none());
    let mut damaged2 = 0;
    for x in 0..5 {
        for y in 0..5 {
            let p = Position(IntVec2(x, y));
            let in_cross = (x - 2).abs() + (y - 2).abs() == 1;
            assert_eq!(dm.is_damaged(&p), in_cross, "cell ({}, {})", x, y);
            if dm.is_damaged(&p) {
                damaged2 += 1;
            }
        }
    }
    assert_eq!(damaged2, 4);
}

#[test]
fn teleport_round_trip() {
    // a 2-teleport group with both exits free
    let mut board = Board::new(9, 9);
    let tp_a = board.spawn(entities::create_teleport(Position(IntVec2(2, 2)), 1, 0));
    let tp_b = board.spawn(entities::create_teleport(Position(IntVec2(6, 6)), 1, 1));
    board.spawn(entities::create_robbo(Position(IntVec2(1, 2))));

    // using A exits the sibling B in the requested direction
    let right = MovingDir(IntVec2(1, 0));
    let dest = teleport_dest_position(&board, tp_a, right);
    assert_eq!(dest, Some(Position(IntVec2(7, 6))));

    // using B immediately after routes cyclically back toward A
    let back = teleport_dest_position(&board, tp_b, right);
    assert_eq!(back, Some(Position(IntVec2(3, 2))));
}

#[test]
fn teleport_use_moves_player() {
    let mut board = Board::new(9, 9);
    let tp_a = board.spawn(entities::create_teleport(Position(IntVec2(2, 2)), 1, 0));
    board.spawn(entities::create_teleport(Position(IntVec2(6, 6)), 1, 1));
    let robbo = board.spawn(entities::create_robbo(Position(IntVec2(1, 2))));
    let mut sounds: Vec<Sound> = Vec::new();

    game_event_use_teleport(&mut board, tp_a, MovingDir(IntVec2(1, 0)), &mut sounds);

    // the player despawned at its old cell (small explosion there) and a
    // spawn flash started at the destination
    assert!(board.actors[robbo].is_none());
    let flash = board.get_entity(&Position(IntVec2(7, 6))).expect("spawn flash at destination");
    assert!(matches!(board.actor_at(flash).kind, Kind::Animation(_, Some(_))));
    assert!(board.get_entity(&Position(IntVec2(1, 2))).is_some());
    assert_eq!(sounds, vec![Sound::TELEPORT]);
}

#[test]
fn push_box_scenario() {
    // robot at (5,5) moving right, push-box at (6,5), free cell at (7,5)
    let mut board = Board::new(10, 10);
    let mut robbo = entities::create_robbo(Position(IntVec2(5, 5)));
    robbo.dir = MovingDir(IntVec2(1, 0));
    let r = board.spawn(robbo);
    let b = board.spawn(entities::create_push_box(Position(IntVec2(6, 5))));
    let mut inventory = Inventory::new();
    let mut events = Vec::new();
    let mut sounds: Vec<Sound> = Vec::new();

    move_robbo(&mut board, &mut inventory, &mut events, &mut sounds);

    assert_eq!(board.actor_at(r).pos, Position(IntVec2(6, 5)));
    assert_eq!(board.actor_at(b).pos, Position(IntVec2(7, 5)));
    assert_eq!(board.actor_at(b).dir, MovingDir(IntVec2(1, 0)));
}

#[test]
fn push_box_into_wall_blocks_player() {
    let mut board = Board::new(10, 10);
    let mut robbo = entities::create_robbo(Position(IntVec2(5, 5)));
    robbo.dir = MovingDir(IntVec2(1, 0));
    let r = board.spawn(robbo);
    let b = board.spawn(entities::create_push_box(Position(IntVec2(6, 5))));
    board.set_wall(7, 5);
    let mut inventory = Inventory::new();
    let mut events = Vec::new();
    let mut sounds: Vec<Sound> = Vec::new();

    move_robbo(&mut board, &mut inventory, &mut events, &mut sounds);

    // blocked sub-attempt: neither the player nor the box moved
    assert_eq!(board.actor_at(r).pos, Position(IntVec2(5, 5)));
    assert_eq!(board.actor_at(b).pos, Position(IntVec2(6, 5)));
}

#[test]
fn bullet_hits_wall() {
    // bullet at (3,3) moving up, wall at (3,2)
    let mut board = Board::new(8, 8);
    board.set_wall(3, 2);
    let bullet = board.spawn(entities::create_bullet(Position(IntVec2(3, 3)), 0, -1));
    let mut dm = DamageMap::new(8, 8);

    move_bullet(&mut board, &mut dm);

    // the bullet despawned, a small explosion stands at (3,3), and the
    // ledger holds (3,2) marked non-bomb
    assert!(board.actors[bullet].is_none());
    let marker = board.get_entity(&Position(IntVec2(3, 3))).expect("explosion at impact origin");
    assert!(matches!(board.actor_at(marker).kind, Kind::Animation(_, None)));
    assert_eq!(dm.get(&Position(IntVec2(3, 2))), Some(false));
}

#[test]
fn magnet_overrides_player_direction() {
    // magnet at (0,5) pointing right, player at (4,5), clear ray between
    let mut board = Board::new(10, 10);
    board.spawn(entities::create_magnet(Position(IntVec2(0, 5)), 1));
    let mut robbo = entities::create_robbo(Position(IntVec2(4, 5)));
    robbo.dir = MovingDir(IntVec2(0, 1));
    let r = board.spawn(robbo);

    magnetic_field_system(&mut board);

    assert_eq!(board.actor_at(r).dir, MovingDir(IntVec2(-1, 0)));
}

#[test]
fn magnet_blocked_by_obstacle() {
    let mut board = Board::new(10, 10);
    board.spawn(entities::create_magnet(Position(IntVec2(0, 5)), 1));
    board.spawn(entities::create_static_box(Position(IntVec2(2, 5))));
    let mut robbo = entities::create_robbo(Position(IntVec2(4, 5)));
    robbo.dir = MovingDir(IntVec2(0, 1));
    let r = board.spawn(robbo);

    magnetic_field_system(&mut board);

    // an occupied cell between magnet and player breaks the pull
    assert_eq!(board.actor_at(r).dir, MovingDir(IntVec2(0, 1)));
}

#[test]
fn bomb_wave_is_clipped_at_the_border() {
    let mut board = Board::new(5, 5);
    let mut dm = DamageMap::new(5, 5);
    let mut sounds: Vec<Sound> = Vec::new();
    board.spawn(entities::create_bomb(Position(IntVec2(0, 0))));
    dm.do_damage(&Position(IntVec2(0, 0)), false);

    process_damage(&mut board, &mut dm, &mut sounds);

    // only the in-level quarter of the ring is recorded
    let mut damaged = 0;
    for x in 0..5 {
        for y in 0..5 {
            if dm.is_damaged(&Position(IntVec2(x, y))) {
                damaged += 1;
                assert!(x <= 1 && y <= 1);
            }
        }
    }
    assert_eq!(damaged, 4);
}

#[test]
fn teleport_with_no_free_exit_routes_nowhere() {
    let mut board = Board::new(9, 9);
    let tp_a = board.spawn(entities::create_teleport(Position(IntVec2(2, 2)), 1, 0));
    board.spawn(entities::create_teleport(Position(IntVec2(6, 6)), 1, 1));
    // box both teleports in completely
    for (cx, cy) in [(2, 2), (6, 6)] {
        for dx in -1..=1 {
            for dy in -1..=1 {
                if dx != 0 || dy != 0 {
                    board.set_wall(cx + dx, cy + dy);
                }
            }
        }
    }
    let dest = teleport_dest_position(&board, tp_a, MovingDir(IntVec2(1, 0)));
    assert_eq!(dest, None);
}

#[test]
fn diagonal_input_applies_first_open_axis() {
    let mut board = Board::new(8, 8);
    let mut robbo = entities::create_robbo(Position(IntVec2(3, 3)));
    robbo.dir = MovingDir(IntVec2(1, 1));
    let r = board.spawn(robbo);
    board.set_wall(4, 3);
    let mut inventory = Inventory::new();
    let mut events = Vec::new();
    let mut sounds: Vec<Sound> = Vec::new();

    move_robbo(&mut board, &mut inventory, &mut events, &mut sounds);

    // the x-only attempt is blocked, the y-only attempt is applied; the
    // two are never both applied in one tick
    assert_eq!(board.actor_at(r).pos, Position(IntVec2(3, 4)));
}
