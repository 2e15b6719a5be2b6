use greentty::action::Action;
use greentty::state::{Position, Snapshot, State};
use greentty::update::{admits, try_update, try_update_all, update};

fn csi(params: &[i64], c: char) -> Action {
    Action::DispatchCSI(params.to_vec(), Vec::new(), false, c)
}

fn row(text: &str) -> Vec<char> {
    text.chars().collect()
}

fn state_with(lines: &[&str], x: usize, y: usize) -> State {
    State { cursor: Position { x, y }, lines: lines.iter().map(|l| row(l)).collect() }
}

#[test]
fn new_state_is_empty_with_cursor_at_origin() {
    let state = State::new();
    assert_eq!(state.cursor, Position { x: 0, y: 0 });
    assert!(state.lines.is_empty());
}

#[test]
fn printed_characters_fill_the_row_in_order() {
    let mut state = State::new();
    for c in "hello, world".chars() {
        update(&mut state, &Action::Print(c));
    }
    assert_eq!(state.lines, vec![row("hello, world")]);
    assert_eq!(state.cursor, Position { x: 12, y: 0 });
}

#[test]
fn print_pads_rows_and_cells_up_to_the_cursor() {
    let mut state = state_with(&["ab"], 4, 2);
    update(&mut state, &Action::Print('Z'));
    assert_eq!(state.lines, vec![row("ab"), row(""), row("    Z")]);
    assert_eq!(state.cursor, Position { x: 5, y: 2 });
}

#[test]
fn print_overwrites_the_cell_under_the_cursor() {
    let mut state = state_with(&["abcd"], 1, 0);
    update(&mut state, &Action::Print('X'));
    assert_eq!(state.lines, vec![row("aXcd")]);
    assert_eq!(state.cursor, Position { x: 2, y: 0 });
}

#[test]
fn cursor_position_is_absolute() {
    for (x, y) in [(0usize, 0usize), (7, 9), (100, 3)] {
        let mut state = state_with(&["abc"], x, y);
        update(&mut state, &csi(&[5, 3], 'H'));
        assert_eq!(state.cursor, Position { x: 2, y: 4 });
        assert_eq!(state.lines, vec![row("abc")]);
    }
}

#[test]
fn cursor_position_defaults_and_floors() {
    let mut state = state_with(&[], 7, 9);
    update(&mut state, &csi(&[], 'H'));
    assert_eq!(state.cursor, Position { x: 0, y: 0 });

    let mut state = state_with(&[], 7, 9);
    update(&mut state, &csi(&[4], 'H'));
    assert_eq!(state.cursor, Position { x: 0, y: 3 });

    let mut state = state_with(&[], 7, 9);
    update(&mut state, &csi(&[0, 0], 'H'));
    assert_eq!(state.cursor, Position { x: 0, y: 0 });

    let mut state = state_with(&[], 7, 9);
    update(&mut state, &csi(&[-5, i64::MIN], 'H'));
    assert_eq!(state.cursor, Position { x: 0, y: 0 });

    let mut state = state_with(&[], 7, 9);
    update(&mut state, &csi(&[2, 6, 11], 'H'));
    assert_eq!(state.cursor, Position { x: 5, y: 1 });
}

#[test]
fn cursor_forward_moves_by_parameter_or_one() {
    let mut state = State::new();
    update(&mut state, &csi(&[], 'C'));
    assert_eq!(state.cursor, Position { x: 1, y: 0 });

    let mut state = State::new();
    update(&mut state, &csi(&[4], 'C'));
    assert_eq!(state.cursor, Position { x: 4, y: 0 });

    let mut state = state_with(&[], 3, 2);
    update(&mut state, &csi(&[0], 'C'));
    assert_eq!(state.cursor, Position { x: 3, y: 2 });
}

#[test]
fn cursor_forward_with_negative_parameter_stops_at_column_zero() {
    let mut state = state_with(&[], 5, 0);
    update(&mut state, &csi(&[-2], 'C'));
    assert_eq!(state.cursor, Position { x: 3, y: 0 });
    update(&mut state, &csi(&[-9], 'C'));
    assert_eq!(state.cursor, Position { x: 0, y: 0 });
    update(&mut state, &csi(&[i64::MIN], 'C'));
    assert_eq!(state.cursor, Position { x: 0, y: 0 });
}

#[test]
fn carriage_return_then_line_feed_starts_the_next_row() {
    let mut state = State::new();
    update(&mut state, &Action::Print('A'));
    update(&mut state, &Action::Execute(13));
    update(&mut state, &Action::Execute(10));
    update(&mut state, &Action::Print('B'));
    assert_eq!(state.lines, vec![row("A"), row("B")]);
    assert_eq!(state.cursor, Position { x: 1, y: 1 });
}

#[test]
fn line_feed_keeps_the_column() {
    let mut state = State::new();
    update(&mut state, &Action::Print('A'));
    update(&mut state, &Action::Execute(10));
    update(&mut state, &Action::Print('B'));
    assert_eq!(state.lines, vec![row("A"), row(" B")]);
    assert_eq!(state.cursor, Position { x: 2, y: 1 });
}

#[test]
fn backspace_at_column_zero_stays_at_column_zero() {
    let mut state = State::new();
    update(&mut state, &Action::Execute(8));
    assert_eq!(state.cursor, Position { x: 0, y: 0 });
    assert!(state.lines.is_empty());
}

#[test]
fn backspace_moves_one_column_left() {
    let mut state = state_with(&["abc"], 3, 0);
    update(&mut state, &Action::Execute(8));
    assert_eq!(state.cursor, Position { x: 2, y: 0 });
    assert_eq!(state.lines, vec![row("abc")]);
}

#[test]
fn other_control_bytes_do_nothing() {
    for byte in [0u8, 7, 9, 11, 12, 27, 127, 255] {
        let mut state = state_with(&["abc"], 2, 0);
        update(&mut state, &Action::Execute(byte));
        assert_eq!(state, state_with(&["abc"], 2, 0));
    }
}

#[test]
fn erase_truncates_the_row_at_the_cursor() {
    let mut state = state_with(&["first", "abcdefgh"], 3, 1);
    update(&mut state, &csi(&[], 'X'));
    assert_eq!(state.lines, vec![row("first"), row("abc")]);
    assert_eq!(state.cursor, Position { x: 3, y: 1 });
}

#[test]
fn erase_ignores_its_parameter() {
    let mut state = state_with(&["abcdefgh"], 3, 0);
    update(&mut state, &csi(&[2], 'X'));
    assert_eq!(state.lines, vec![row("abc")]);
}

#[test]
fn erase_pads_a_short_row_and_creates_missing_rows() {
    let mut state = state_with(&["ab"], 4, 0);
    update(&mut state, &csi(&[], 'X'));
    assert_eq!(state.lines, vec![row("ab  ")]);

    let mut state = state_with(&["ab"], 2, 2);
    update(&mut state, &csi(&[], 'X'));
    assert_eq!(state.lines, vec![row("ab"), row(""), row("  ")]);
    assert_eq!(state.cursor, Position { x: 2, y: 2 });
}

#[test]
fn unknown_final_characters_do_nothing() {
    for c in ['m', 'J', 'K', 'A', 'h', 'x', 'c'] {
        let mut state = state_with(&["abc"], 2, 0);
        update(&mut state, &csi(&[1, 2], c));
        assert_eq!(state, state_with(&["abc"], 2, 0));
    }
}

#[test]
fn intermediates_and_ignore_flag_have_no_influence() {
    let mut state = State::new();
    update(&mut state, &Action::DispatchCSI(vec![5, 3], vec![b'?', b'!'], true, 'H'));
    assert_eq!(state.cursor, Position { x: 2, y: 4 });
}

#[test]
fn close_is_no_grid_action() {
    let mut state = state_with(&["abc"], 2, 0);
    update(&mut state, &Action::Close());
    assert_eq!(state, state_with(&["abc"], 2, 0));
}

#[test]
fn admits_tells_what_fits() {
    let origin = State::new();
    assert!(admits(&origin, &Action::Print('a')));
    assert!(admits(&origin, &Action::Execute(10)));
    assert!(admits(&origin, &csi(&[i64::MIN], 'C')));

    let far_right = state_with(&[], usize::MAX, 0);
    assert!(!admits(&far_right, &Action::Print('a')));
    assert!(!admits(&far_right, &csi(&[], 'C')));
    assert!(!admits(&far_right, &csi(&[1], 'C')));
    assert!(admits(&far_right, &csi(&[0], 'C')));
    assert!(admits(&far_right, &csi(&[-1], 'C')));
    assert!(admits(&far_right, &Action::Execute(8)));
    assert!(admits(&far_right, &Action::Execute(10)));
    assert!(admits(&far_right, &csi(&[], 'X')));

    let far_down = state_with(&[], 0, usize::MAX);
    assert!(!admits(&far_down, &Action::Print('a')));
    assert!(!admits(&far_down, &Action::Execute(10)));
    assert!(!admits(&far_down, &csi(&[], 'X')));
    assert!(admits(&far_down, &Action::Execute(13)));
    assert!(admits(&far_down, &csi(&[], 'H')));
    assert!(admits(&far_down, &Action::Close()));
}

#[test]
fn try_update_leaves_the_state_alone_where_the_result_does_not_fit() {
    let mut state = state_with(&["abc"], usize::MAX, 0);
    assert!(!try_update(&mut state, &Action::Print('a')));
    assert_eq!(state, state_with(&["abc"], usize::MAX, 0));
    assert!(try_update(&mut state, &Action::Execute(13)));
    assert_eq!(state, state_with(&["abc"], 0, 0));
    assert!(try_update(&mut state, &Action::Print('X')));
    assert_eq!(state, state_with(&["Xbc"], 1, 0));
}

#[test]
fn try_update_all_applies_in_order_and_skips_what_does_not_fit() {
    let mut state = state_with(&[], usize::MAX - 1, 0);
    let actions = vec![
        csi(&[], 'C'),
        csi(&[], 'C'),
        Action::Execute(10),
        Action::Execute(8),
    ];
    try_update_all(&mut state, &actions);
    assert_eq!(state.cursor, Position { x: usize::MAX - 1, y: 1 });
}

#[test]
fn snapshot_copies_rows_as_strings_and_the_cursor() {
    let mut state = State::new();
    for c in "héllo".chars() {
        update(&mut state, &Action::Print(c));
    }
    update(&mut state, &Action::Execute(10));
    let snapshot = state.snapshot();
    assert_eq!(
        snapshot,
        Snapshot {
            lines: vec!["héllo".to_string()],
            cursor: Position { x: 5, y: 1 },
        }
    );
    update(&mut state, &Action::Print('!'));
    assert_eq!(snapshot.lines, vec!["héllo".to_string()]);
    assert_eq!(state.text(), vec!["héllo".to_string(), "     !".to_string()]);
}

#[test]
fn default_state_is_the_new_state() {
    assert_eq!(State::default(), State::new());
    assert_eq!(Position::default(), Position { x: 0, y: 0 });
}

#[test]
fn state_methods_do_what_update_does() {
    let mut by_method = State::new();
    by_method.print('a');
    by_method.execute(10);
    by_method.csi_dispatch(&[3], &[], false, 'C');
    by_method.print('b');
    by_method.csi_dispatch(&[2, 2], &[b' '], true, 'H');
    by_method.csi_dispatch(&[], &[], false, 'X');

    let mut by_update = State::new();
    for action in [
        Action::Print('a'),
        Action::Execute(10),
        csi(&[3], 'C'),
        Action::Print('b'),
        Action::DispatchCSI(vec![2, 2], vec![b' '], true, 'H'),
        csi(&[], 'X'),
    ] {
        update(&mut by_update, &action);
    }
    assert_eq!(by_method, by_update);
    assert_eq!(by_method.lines, vec![row("a"), row(" ")]);
    assert_eq!(by_method.cursor, Position { x: 1, y: 1 });
}
