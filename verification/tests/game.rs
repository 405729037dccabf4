use board_game::actions::{
    attack_distance, attack_is_computable, attacker_can_attack, attack_player, get_user, gift_is_computable,
    gift_player, move_player, pair_writes, parse_direction, test_create_points, upgrade_range, Direction,
};
use board_game::auth::{
    create_account, decimal_string, issue_token, register_account, require_authentication,
    sign_token, user_key, AuthError,
};
use board_game::board::{
    board_from_draws, create_board, dig_at, dig_blocker, make_tile, DigFailure, Tile, TileType,
};
use board_game::error::{GameError, Rejection, Status};
use board_game::user::{award_is_computable, new_user, process_award_points, User};

fn player(id: u32, points: u32, position: (u8, u8)) -> User {
    let mut u = new_user(id, format!("player{id}"), 0);
    u.action_points = points;
    u.position = position;
    u
}

fn bad(e: GameError) -> Rejection {
    Rejection { status: Status::BadRequest, error: e }
}

#[test]
fn new_user_starts_at_origin_with_three_health() {
    let u = new_user(42, "alice".to_string(), 1_700_000_000);
    assert_eq!(u.id, 42);
    assert_eq!(u.username, "alice");
    assert_eq!(u.action_points, 0);
    assert_eq!(u.position, (0, 0));
    assert_eq!(u.creation_date, 1_700_000_000);
    assert_eq!(u.awarded_points, 0);
    assert_eq!(u.range, 1);
    assert_eq!(u.health, 3);
}

#[test]
fn board_is_thirty_by_thirty_with_positions() {
    let board = create_board();
    assert_eq!(board.len(), 30);
    for (row_id, row) in board.iter().enumerate() {
        assert_eq!(row.len(), 30);
        for (tile_id, tile) in row.iter().enumerate() {
            assert_eq!(tile.position, (tile_id as u8, row_id as u8));
            match tile.tile_type {
                TileType::EMPTY => {}
                TileType::RESOURCEFUL(r) => assert!((1..=5).contains(&r)),
            }
        }
    }
}

#[test]
fn board_holds_some_resources_over_many_draws() {
    // 20 boards hold 18000 tiles; with chance 1 in 25 each, none resourceful is
    // practically impossible, and all resourceful too.
    let mut resourceful = 0usize;
    for _ in 0..20 {
        for row in create_board() {
            for tile in row {
                if tile.tile_type != TileType::EMPTY {
                    resourceful += 1;
                }
            }
        }
    }
    assert!(resourceful > 0);
    assert!(resourceful < 18000);
}

#[test]
fn make_tile_sets_type_and_position() {
    let t = make_tile(3, 4, Some(2));
    assert_eq!(t.tile_type, TileType::RESOURCEFUL(2));
    assert_eq!(t.position, (3, 4));
    let e = make_tile(0, 29, None);
    assert_eq!(e.tile_type, TileType::EMPTY);
    assert_eq!(e.position, (0, 29));
}

fn small_board() -> Vec<Vec<Tile>> {
    vec![
        vec![make_tile(0, 0, None), make_tile(1, 0, Some(4))],
        vec![make_tile(0, 1, Some(5)), make_tile(1, 1, None)],
    ]
}

#[test]
fn dig_on_resourceful_tile_never_completes() {
    let board = small_board();
    // the board is indexed by the first coordinate first: board[0][1]
    let u = player(1, 2, (0, 1));
    assert_eq!(dig_blocker(&board, &u), Some(DigFailure::BoardLocked));
    assert_eq!(dig_blocker(&board, &player(1, 0, (1, 0))), Some(DigFailure::BoardLocked));
}

#[test]
fn dig_on_empty_tile_is_refused() {
    let board = small_board();
    let u = player(1, 2, (1, 1));
    assert_eq!(dig_blocker(&board, &u), None);
    assert_eq!(dig_at(&board, &u), Err(bad(GameError::CannotDigHere)));
    assert_eq!(board[1][0].tile_type, TileType::RESOURCEFUL(5));
    let v = player(1, u32::MAX, (0, 0));
    assert_eq!(dig_blocker(&board, &v), None);
    assert_eq!(dig_at(&board, &v), Err(bad(GameError::CannotDigHere)));
}

#[test]
fn dig_failures_in_order() {
    let board = small_board();
    assert_eq!(dig_blocker(&board, &player(1, 0, (2, 0))), Some(DigFailure::OffBoard));
    assert_eq!(dig_blocker(&board, &player(1, 0, (0, 2))), Some(DigFailure::OffBoard));
    assert_eq!(dig_blocker(&board, &player(1, u32::MAX - 3, (0, 1))), Some(DigFailure::PointsOverflow));
    assert_eq!(dig_blocker(&board, &player(1, u32::MAX - 4, (0, 1))), Some(DigFailure::BoardLocked));
}

#[test]
fn directions_are_parsed_exactly() {
    assert_eq!(parse_direction("UP"), Direction::Up);
    assert_eq!(parse_direction("DOWN"), Direction::Down);
    assert_eq!(parse_direction("LEFT"), Direction::Left);
    assert_eq!(parse_direction("RIGHT"), Direction::Right);
    assert_eq!(parse_direction("up"), Direction::Unknown);
    assert_eq!(parse_direction(""), Direction::Unknown);
}

#[test]
fn moves_step_wrap_and_cap() {
    let mut u = player(1, 10, (5, 5));
    assert_eq!(move_player(&mut u, "UP"), Ok(()));
    assert_eq!(u.position, (5, 6));
    assert_eq!(move_player(&mut u, "RIGHT"), Ok(()));
    assert_eq!(u.position, (6, 6));
    assert_eq!(move_player(&mut u, "DOWN"), Ok(()));
    assert_eq!(u.position, (6, 5));
    assert_eq!(move_player(&mut u, "LEFT"), Ok(()));
    assert_eq!(u.position, (5, 5));
    assert_eq!(u.action_points, 6);

    let mut v = player(2, 10, (0, 0));
    assert_eq!(move_player(&mut v, "LEFT"), Ok(()));
    assert_eq!(v.position, (100, 0));
    assert_eq!(move_player(&mut v, "RIGHT"), Ok(()));
    assert_eq!(v.position, (100, 0));
    assert_eq!(move_player(&mut v, "DOWN"), Ok(()));
    assert_eq!(v.position, (100, 100));
    assert_eq!(move_player(&mut v, "sideways"), Ok(()));
    assert_eq!(v.position, (0, 0));
}

#[test]
fn move_without_points_is_refused_and_changes_nothing() {
    let mut u = player(1, 0, (5, 5));
    assert_eq!(move_player(&mut u, "UP"), Err(bad(GameError::NotEnoughActionPoints)));
    assert_eq!(u.position, (5, 5));
    assert_eq!(u.action_points, 0);
}

#[test]
fn upgrade_range_costs_a_point_up_to_five() {
    let mut u = player(1, 10, (0, 0));
    for expected in 2..=5u8 {
        assert_eq!(upgrade_range(&mut u), Ok(()));
        assert_eq!(u.range, expected);
    }
    assert_eq!(u.action_points, 6);
    assert_eq!(upgrade_range(&mut u), Err(bad(GameError::MaxRangeReached)));
    assert_eq!(u.range, 5);
    assert_eq!(u.action_points, 6);
}

#[test]
fn upgrade_range_refusals() {
    let mut u = player(1, 0, (0, 0));
    assert_eq!(upgrade_range(&mut u), Err(bad(GameError::NotEnoughActionPoints)));
    assert_eq!(u.range, 1);
    let mut w = player(1, 3, (0, 0));
    w.range = 255;
    assert_eq!(upgrade_range(&mut w), Err(bad(GameError::MaxRangeAcquired)));
    assert_eq!(w.action_points, 3);
    let mut z = player(1, 0, (0, 0));
    z.range = 5;
    assert_eq!(upgrade_range(&mut z), Err(bad(GameError::NotEnoughActionPoints)));
}

#[test]
fn test_points_are_ninety_nine() {
    let mut u = player(1, 3, (4, 4));
    test_create_points(&mut u);
    assert_eq!(u.action_points, 99);
    assert_eq!(u.position, (4, 4));
}

#[test]
fn distance_is_manhattan_on_signed_bytes() {
    assert_eq!(attack_distance((0, 0), (3, 4)), Some(7));
    assert_eq!(attack_distance((3, 4), (0, 0)), Some(7));
    assert_eq!(attack_distance((100, 100), (100, 100)), Some(0));
    assert_eq!(attack_distance((0, 0), (100, 100)), None);
    assert_eq!(attack_distance((0, 0), (100, 27)), Some(127));
    assert_eq!(attack_distance((0, 0), (100, 28)), None);
    // 200 reads as -56
    assert_eq!(attack_distance((200, 0), (0, 0)), Some(56));
}

#[test]
fn attack_takes_one_health_and_one_point() {
    let a = player(1, 2, (0, 0));
    let t = player(2, 0, (1, 0));
    assert!(attack_is_computable(&a, &Some(player(2, 0, (1, 0)))));
    let (a2, t2) = attack_player(a, Some(t)).unwrap();
    assert_eq!(a2.action_points, 1);
    assert_eq!(a2.id, 1);
    assert_eq!(t2.health, 2);
    assert_eq!(t2.id, 2);
}

#[test]
fn attack_refusals_in_order() {
    let mut dead = player(1, 5, (0, 0));
    dead.health = 0;
    assert_eq!(attack_player(dead, None).err(), Some(bad(GameError::ImagineBeingDead)));
    assert_eq!(attack_player(player(1, 5, (0, 0)), None).err(), Some(bad(GameError::CouldNotFindUser)));
    let mut dead_target = player(2, 0, (0, 0));
    dead_target.health = 0;
    assert_eq!(
        attack_player(player(1, 5, (0, 0)), Some(dead_target)).err(),
        Some(bad(GameError::CannotAttackDeadPlayers))
    );
    assert_eq!(
        attack_player(player(1, 5, (0, 0)), Some(player(2, 0, (1, 1)))).err(),
        Some(bad(GameError::NotEnoughRange))
    );
    assert_eq!(
        attack_player(player(1, 0, (0, 0)), Some(player(2, 0, (0, 1)))).err(),
        Some(bad(GameError::NotEnoughPoints))
    );
}

#[test]
fn attack_overflowing_distance_is_not_computable() {
    let a = player(1, 5, (0, 0));
    assert!(!attack_is_computable(&a, &Some(player(2, 0, (100, 100)))));
    let mut dead = player(1, 5, (0, 0));
    dead.health = 0;
    assert!(attack_is_computable(&dead, &Some(player(2, 0, (100, 100)))));
    assert!(attack_is_computable(&a, &None));
}

#[test]
fn gift_moves_one_point() {
    let (g, r) = gift_player(player(1, 3, (0, 0)), Some(player(2, 7, (9, 9)))).unwrap();
    assert_eq!(g.action_points, 2);
    assert_eq!(r.action_points, 8);
    assert_eq!(g.action_points + r.action_points, 10);
}

#[test]
fn gift_refusals() {
    assert_eq!(
        gift_player(player(1, 3, (0, 0)), None).err(),
        Some(bad(GameError::CouldNotFindUser))
    );
    assert_eq!(
        gift_player(player(1, 0, (0, 0)), Some(player(2, 0, (0, 0)))).err(),
        Some(Rejection { status: Status::Success, error: GameError::NotEnoughActionPoints })
    );
    assert!(!gift_is_computable(&player(1, 1, (0, 0)), &Some(player(2, u32::MAX, (0, 0)))));
    assert!(gift_is_computable(&player(1, 0, (0, 0)), &Some(player(2, u32::MAX, (0, 0)))));
}

#[test]
fn get_user_refuses_missing_player() {
    assert_eq!(get_user(None).err(), Some(bad(GameError::InvalidUserId)));
    assert_eq!(get_user(Some(player(4, 0, (0, 0)))).unwrap().id, 4);
}

#[test]
fn points_are_awarded_per_full_hour() {
    let mut u = new_user(1, "a".to_string(), 1000);
    assert!(award_is_computable(&u, 1000 + 2 * 3600 + 3599));
    assert_eq!(process_award_points(&mut u, 1000 + 2 * 3600 + 3599), 2);
    assert_eq!(u.action_points, 2);
    assert_eq!(u.awarded_points, 2);
    // awarding again at the same time grants nothing
    assert_eq!(process_award_points(&mut u, 1000 + 2 * 3600 + 3599), 0);
    assert_eq!(u.action_points, 2);
    // a later award grants only the new hours
    assert_eq!(process_award_points(&mut u, 1000 + 5 * 3600), 3);
    assert_eq!(u.action_points, 5);
    assert_eq!(u.awarded_points, 5);
}

#[test]
fn award_in_steps_equals_award_at_once() {
    let mut stepwise = new_user(1, "a".to_string(), 0);
    process_award_points(&mut stepwise, 3600);
    process_award_points(&mut stepwise, 7 * 3600 + 10);
    let mut once = new_user(1, "a".to_string(), 0);
    process_award_points(&mut once, 7 * 3600 + 10);
    assert_eq!(stepwise.action_points, once.action_points);
    assert_eq!(stepwise.awarded_points, once.awarded_points);
}

#[test]
fn award_not_computable_cases() {
    let u = new_user(1, "a".to_string(), 1000);
    assert!(!award_is_computable(&u, 999));
    assert!(award_is_computable(&u, 1000));
    let mut over = new_user(1, "a".to_string(), 0);
    over.awarded_points = 5;
    assert!(!award_is_computable(&over, 4 * 3600));
    let mut full = new_user(1, "a".to_string(), 0);
    full.action_points = u32::MAX;
    assert!(!award_is_computable(&full, 3600));
    assert!(!award_is_computable(&new_user(1, "a".to_string(), 0), u64::MAX));
}

#[test]
fn decimal_strings() {
    assert_eq!(decimal_string(0), "0");
    assert_eq!(decimal_string(7), "7");
    assert_eq!(decimal_string(305), "305");
    assert_eq!(decimal_string(u32::MAX), "4294967295");
    assert_eq!(decimal_string(1234567), 1234567u32.to_string());
}

#[test]
fn user_keys() {
    assert_eq!(user_key("42"), "users.42");
    assert_eq!(user_key("@me"), "users.@me");
}

#[test]
fn issued_token_authenticates_as_its_id() {
    let token = issue_token("secret", 305);
    assert!(token.starts_with("305."));
    assert_eq!(require_authentication(Some(&token), "secret"), Ok("305".to_string()));
    assert_eq!(require_authentication(Some(&token), "other"), Err(AuthError::InvalidAuth));
}

#[test]
fn authentication_refusals() {
    assert_eq!(require_authentication(None, "secret"), Err(AuthError::NoAuthentication));
    assert_eq!(require_authentication(Some("305"), "secret"), Err(AuthError::InvalidAuth));
    assert_eq!(require_authentication(Some(""), "secret"), Err(AuthError::InvalidAuth));
    let token = issue_token("secret", 305);
    let tampered = format!("306{}", &token[3..]);
    assert_eq!(require_authentication(Some(&tampered), "secret"), Err(AuthError::InvalidAuth));
}

#[test]
fn known_itsdangerous_signature_unsigns() {
    assert_eq!(
        require_authentication(Some("this is a test.hgGT0Zoara4L13FX3_xm-xmfa_0"), "hello"),
        Ok("this is a test".to_string())
    );
}

#[test]
fn account_creation_gives_a_working_token() {
    let (u, token) = create_account("bob".to_string(), 1234, "key");
    assert_eq!(u.username, "bob");
    assert_eq!(u.creation_date, 1234);
    assert_eq!(require_authentication(Some(&token), "key"), Ok(u.id.to_string()));
    let (v, t2) = register_account(9, "eve".to_string(), 5, "key");
    assert_eq!(v.id, 9);
    assert_eq!(require_authentication(Some(&t2), "key"), Ok("9".to_string()));
}

#[test]
fn messages() {
    assert_eq!(GameError::NotEnoughActionPoints.message(), "Not enough action points");
    assert_eq!(GameError::MaxRangeReached.message(), "Max range reached");
    assert_eq!(GameError::MaxRangeAcquired.message(), "Max range acquired");
    assert_eq!(GameError::CannotDigHere.message(), "Cannot dig here");
    assert_eq!(GameError::ImagineBeingDead.message(), "Imagine being dead");
    assert_eq!(GameError::CouldNotFindUser.message(), "Could not find user");
    assert_eq!(GameError::CannotAttackDeadPlayers.message(), "Cannot attack dead players");
    assert_eq!(GameError::NotEnoughRange.message(), "Not enough range");
    assert_eq!(GameError::NotEnoughPoints.message(), "Not enough points");
    assert_eq!(GameError::InvalidUserId.message(), "Invalid user id");
    assert_eq!(AuthError::NoAuthentication.message(), "No authentication provided");
    assert_eq!(AuthError::InvalidAuth.message(), "Invalid auth");
}

#[test]
fn draws_are_laid_out_row_by_row() {
    let mut draws: Vec<Vec<Option<u32>>> = Vec::new();
    for r in 0..30u32 {
        let mut row = Vec::new();
        for c in 0..30u32 {
            row.push(if (r * 30 + c) % 7 == 0 { Some(1 + (r + c) % 5) } else { None });
        }
        draws.push(row);
    }
    let board = board_from_draws(&draws);
    assert_eq!(board.len(), 30);
    for r in 0..30usize {
        assert_eq!(board[r].len(), 30);
        for c in 0..30usize {
            assert_eq!(board[r][c].position, (c as u8, r as u8));
            let expected = match draws[r][c] {
                Some(n) => TileType::RESOURCEFUL(n),
                None => TileType::EMPTY,
            };
            assert_eq!(board[r][c].tile_type, expected);
        }
    }
    assert_eq!(board[0][0].tile_type, TileType::RESOURCEFUL(1));
    assert_eq!(board[0][1].tile_type, TileType::EMPTY);
}

#[test]
fn any_signed_value_authenticates_as_itself() {
    for value in ["hello", "a.b.c", "", "305"] {
        let token = sign_token("key", value);
        assert_eq!(require_authentication(Some(&token), "key"), Ok(value.to_string()));
    }
    assert_eq!(
        sign_token("hello", "this is a test"),
        "this is a test.hgGT0Zoara4L13FX3_xm-xmfa_0"
    );
    assert_eq!(issue_token("hello", 12), sign_token("hello", "12"));
}

#[test]
fn pair_writes_for_two_players_and_for_one() {
    let w = pair_writes("1", "2", player(1, 4, (0, 0)), player(2, 6, (0, 0)));
    assert_eq!(w.len(), 2);
    assert_eq!(w[0].0, "users.1");
    assert_eq!(w[0].1.action_points, 4);
    assert_eq!(w[1].0, "users.2");
    assert_eq!(w[1].1.action_points, 6);
    let same = pair_writes("1", "1", player(1, 4, (0, 0)), player(1, 6, (0, 0)));
    assert_eq!(same.len(), 1);
    assert_eq!(same[0].0, "users.1");
    assert_eq!(same[0].1.action_points, 6);
}

#[test]
fn self_gift_keeps_one_more_point() {
    let (_, r) = gift_player(player(1, 3, (0, 0)), Some(player(1, 3, (0, 0)))).unwrap();
    let kept = pair_writes("1", "1", player(1, 2, (0, 0)), r);
    assert_eq!(kept[0].1.action_points, 4);
}

#[test]
fn self_attack_costs_only_health() {
    let (_, t) = attack_player(player(1, 3, (0, 0)), Some(player(1, 3, (0, 0)))).unwrap();
    assert_eq!(t.action_points, 3);
    assert_eq!(t.health, 2);
}

#[test]
fn dead_attacker_is_refused_before_lookup() {
    let mut dead = player(1, 5, (0, 0));
    dead.health = 0;
    assert_eq!(attacker_can_attack(&dead), Err(bad(GameError::ImagineBeingDead)));
    assert_eq!(attacker_can_attack(&player(1, 0, (0, 0))), Ok(()));
}
