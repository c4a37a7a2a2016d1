use minidraughts::board::Board;
use minidraughts::game::Action;
use minidraughts::game::GameState;
use minidraughts::game::Location;
use minidraughts::game::Player;
use minidraughts::game::PlayerAction;

fn state(player: Player, c: [i8; 9]) -> GameState {
    GameState {
        player,
        board: Board::from_cells(c[0], c[1], c[2], c[3], c[4], c[5], c[6], c[7], c[8]),
    }
}

fn board_cells(g: &GameState) -> Vec<i8> {
    let v = g.to_vector();
    v[1..].to_vec()
}

fn piece_count(g: &GameState) -> usize {
    board_cells(g).iter().filter(|&&v| v != 0).count()
}

#[test]
fn player_next_and_value() {
    assert_eq!(Player::Max.value(), 1);
    assert_eq!(Player::Min.value(), -1);
    assert_eq!(Player::Max.next(), Player::Min);
    assert_eq!(Player::Min.next(), Player::Max);
    assert_eq!(Player::Max.next().next(), Player::Max);
    assert_eq!(Player::Min.next().next(), Player::Min);
}

#[test]
fn location_bounds() {
    assert!(Location { m: 0, n: 0 }.is_in_bounds());
    assert!(Location { m: 2, n: 2 }.is_in_bounds());
    assert!(!Location { m: 3, n: 0 }.is_in_bounds());
    assert!(!Location { m: 0, n: 3 }.is_in_bounds());
}

#[test]
fn new_game_layout() {
    let g = GameState::new_game();
    assert_eq!(g.player, Player::Max);
    assert_eq!(g.to_vector(), vec![1, 1, 1, 1, 0, 0, 0, -1, -1, -1]);
}

#[test]
fn scenario_one_advance() {
    let g0 = GameState::new_game();
    let src = Location { m: 0, n: 0 };
    assert!(src.check_advance(&g0));
    let g1 = g0.advance(src);
    assert_eq!(g1.player, Player::Min);
    assert_eq!(board_cells(&g1), vec![0, 1, 1, 1, 0, 0, -1, -1, -1]);
}

#[test]
fn scenario_two_min_advance() {
    let g0 = GameState::new_game();
    let g1 = g0.advance(Location { m: 0, n: 0 });
    let src = Location { m: 2, n: 2 };
    assert!(src.check_advance(&g1));
    let g2 = g1.advance(src);
    assert_eq!(g2.player, Player::Max);
    assert_eq!(board_cells(&g2), vec![0, 1, 1, 1, 0, -1, -1, -1, 0]);
}

#[test]
fn scenario_three_capture_right() {
    let g0 = GameState::new_game();
    let g1 = g0.advance(Location { m: 0, n: 0 });
    let g2 = g1.advance(Location { m: 2, n: 2 });
    let src = Location { m: 1, n: 0 };
    assert!(!src.check_capture_left(&g2));
    assert!(src.check_capture_right(&g2));
    let g3 = g2.capture_right(src);
    assert_eq!(g3.player, Player::Min);
    assert_eq!(board_cells(&g3), vec![0, 1, 1, 0, 0, -1, -1, 1, 0]);
}

#[test]
fn far_row_advance_always_false() {
    // Max on row 2, Min on row 0: never an advance, whatever the board.
    let boards: [[i8; 9]; 3] = [
        [0, 0, 0, 0, 0, 0, 0, 0, 0],
        [1, 1, 1, 0, 0, 0, -1, -1, -1],
        [-1, 0, 1, 0, 1, 0, 1, 0, -1],
    ];
    for c in boards.iter() {
        let gmax = state(Player::Max, *c);
        let gmin = state(Player::Min, *c);
        for n in 0..3usize {
            assert!(!Location { m: 2, n }.check_advance(&gmax));
            assert!(!Location { m: 0, n }.check_advance(&gmin));
        }
    }
}

#[test]
fn initial_actions_in_scan_order() {
    let g = GameState::new_game();
    let acts = g.actions();
    let expected: Vec<PlayerAction> = (0..3usize)
        .map(|n| PlayerAction { action: Action::Advance, src: Location { m: 0, n } })
        .collect();
    assert_eq!(acts, expected);
}

#[test]
fn actions_match_checks_on_own_squares() {
    // Soundness and completeness on a mixed position: for every square
    // holding the active player's piece, an action is listed exactly when
    // its check passes.
    let g = state(Player::Max, [1, 0, 1, 0, -1, -1, 0, -1, 0]);
    let acts = g.actions();
    for a in &acts {
        assert!(a.src.is_in_bounds());
        assert_eq!(board_cells(&g)[3 * a.src.m + a.src.n], g.player.value());
        let passes = match a.action {
            Action::Advance => a.src.check_advance(&g),
            Action::CaptureLeft => a.src.check_capture_left(&g),
            Action::CaptureRight => a.src.check_capture_right(&g),
        };
        assert!(passes);
    }
    for m in 0..3usize {
        for n in 0..3usize {
            if board_cells(&g)[3 * m + n] != g.player.value() {
                continue;
            }
            let src = Location { m, n };
            let listed = |kind: Action| {
                acts.iter().any(|a| a.action == kind && a.src == src)
            };
            assert_eq!(listed(Action::Advance), src.check_advance(&g));
            assert_eq!(listed(Action::CaptureLeft), src.check_capture_left(&g));
            assert_eq!(listed(Action::CaptureRight), src.check_capture_right(&g));
        }
    }
}

#[test]
fn capture_asymmetry_for_min() {
    // "Left" is always toward column 0, also for Min moving down the
    // board: Min at (2, 1) captures left into (1, 0).
    let g = state(Player::Min, [0, 0, 0, 1, 0, 1, 0, -1, 0]);
    let src = Location { m: 2, n: 1 };
    assert!(src.check_capture_left(&g));
    assert!(src.check_capture_right(&g));
    let left = g.capture_left(src);
    assert_eq!(board_cells(&left), vec![0, 0, 0, -1, 0, 1, 0, 0, 0]);
    let right = g.capture_right(src);
    assert_eq!(board_cells(&right), vec![0, 0, 0, 1, 0, -1, 0, 0, 0]);
}

#[test]
fn advance_needs_empty_destination() {
    let g = state(Player::Max, [1, 0, 0, -1, 0, 0, 0, 0, 0]);
    assert!(!Location { m: 0, n: 0 }.check_advance(&g));
}

#[test]
fn captures_need_opposing_piece() {
    // Diagonal squares empty or holding an own piece: no capture.
    let g = state(Player::Max, [0, 1, 0, 1, 0, 0, 0, 0, 0]);
    let src = Location { m: 0, n: 1 };
    assert!(!src.check_capture_left(&g));
    assert!(!src.check_capture_right(&g));
}

#[test]
fn captures_at_edge_columns() {
    let g = state(Player::Max, [1, 0, 1, -1, -1, -1, 0, 0, 0]);
    assert!(!Location { m: 0, n: 0 }.check_capture_left(&g));
    assert!(Location { m: 0, n: 0 }.check_capture_right(&g));
    assert!(Location { m: 0, n: 2 }.check_capture_left(&g));
    assert!(!Location { m: 0, n: 2 }.check_capture_right(&g));
}

#[test]
fn piece_count_across_transitions() {
    let g0 = GameState::new_game();
    assert_eq!(piece_count(&g0), 6);
    let g1 = g0.advance(Location { m: 0, n: 0 });
    assert_eq!(piece_count(&g1), 6);
    let g2 = g1.capture_left(Location { m: 2, n: 1 });
    assert_eq!(piece_count(&g2), 5);
    let g3 = state(Player::Max, [0, 1, 0, 0, 0, -1, 0, 0, 0]);
    let g4 = g3.capture_right(Location { m: 0, n: 1 });
    assert_eq!(piece_count(&g4), 1);
}

#[test]
fn turn_alternates_through_result() {
    let g0 = GameState::new_game();
    let a = PlayerAction { action: Action::Advance, src: Location { m: 0, n: 1 } };
    let g1 = g0.result(a);
    assert_eq!(g1.player, g0.player.next());
    let b = PlayerAction { action: Action::Advance, src: Location { m: 2, n: 0 } };
    let g2 = g1.result(b);
    assert_eq!(g2.player, g1.player.next());
    assert_eq!(g2.player, Player::Max);
}

#[test]
fn result_dispatches_on_kind() {
    let g = state(Player::Min, [0, 0, 0, 1, 0, 1, 0, -1, 0]);
    let src = Location { m: 2, n: 1 };
    let adv = g.result(PlayerAction { action: Action::Advance, src });
    assert_eq!(board_cells(&adv), board_cells(&g.advance(src)));
    let cl = g.result(PlayerAction { action: Action::CaptureLeft, src });
    assert_eq!(board_cells(&cl), board_cells(&g.capture_left(src)));
    let cr = g.result(PlayerAction { action: Action::CaptureRight, src });
    assert_eq!(board_cells(&cr), board_cells(&g.capture_right(src)));
}

#[test]
fn transitions_leave_input_untouched() {
    let g0 = GameState::new_game();
    let before = g0.to_vector();
    let g1 = g0.advance(Location { m: 0, n: 0 });
    let _ = g1.capture_left(Location { m: 2, n: 1 });
    let _ = g0.actions();
    let _ = g0.is_terminal();
    assert_eq!(g0.to_vector(), before);
    assert_eq!(g0.player, Player::Max);
    let after_more = g0.advance(Location { m: 0, n: 2 });
    assert_eq!(g0.to_vector(), before);
    assert_eq!(board_cells(&after_more), vec![1, 1, 0, 0, 0, 1, -1, -1, -1]);
}

#[test]
fn initial_state_not_terminal() {
    assert!(!GameState::new_game().is_terminal());
}

#[test]
fn max_on_row_two_is_terminal() {
    for n in 0..3usize {
        let mut c: [i8; 9] = [0; 9];
        c[6 + n] = 1;
        assert!(state(Player::Min, c).is_terminal());
        assert!(state(Player::Max, c).is_terminal());
    }
}

#[test]
fn min_on_row_zero_is_terminal() {
    for n in 0..3usize {
        let mut c: [i8; 9] = [0; 9];
        c[n] = -1;
        assert!(state(Player::Min, c).is_terminal());
        assert!(state(Player::Max, c).is_terminal());
    }
}

#[test]
fn no_actions_is_terminal() {
    // Max's only piece is blocked straight ahead and has no capture.
    let g = state(Player::Max, [0, 0, 0, 0, 1, 0, 0, -1, 0]);
    assert!(g.actions().is_empty());
    assert!(g.is_terminal());
}

#[test]
fn blocked_but_movable_is_not_terminal() {
    let g = state(Player::Max, [0, 0, 0, 0, 1, 0, -1, -1, 0]);
    let acts = g.actions();
    assert_eq!(
        acts,
        vec![PlayerAction { action: Action::CaptureLeft, src: Location { m: 1, n: 1 } }]
    );
    assert!(!g.is_terminal());
}

#[test]
fn to_vector_prefixes_player_marker() {
    let g = state(Player::Min, [1, 0, -1, 0, 1, 0, -1, 0, 1]);
    assert_eq!(g.to_vector(), vec![-1, 1, 0, -1, 0, 1, 0, -1, 0, 1]);
}
