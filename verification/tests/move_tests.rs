use duetime::keys::{Key, KeyCode};
use duetime::move_items::{self, MoveState, MoveTarget};
use duetime::selection::SelectionState;

#[test]
fn move_block_to_the_end() {
    let mut items = vec!['a', 'b', 'c', 'd', 'e'];
    let at = move_items::move_items(&mut items, 1, 2, 5);
    assert_eq!(items, vec!['a', 'd', 'e', 'b', 'c']);
    assert_eq!(at, 3);
}

#[test]
fn move_block_to_the_top() {
    let mut items = vec!['a', 'b', 'c', 'd', 'e'];
    let at = move_items::move_items(&mut items, 3, 4, 0);
    assert_eq!(items, vec!['d', 'e', 'a', 'b', 'c']);
    assert_eq!(at, 0);
}

#[test]
fn move_into_own_block_changes_nothing() {
    let mut items = vec![1, 2, 3, 4];
    let at = move_items::move_items(&mut items, 1, 2, 2);
    assert_eq!(items, vec![1, 2, 3, 4]);
    assert_eq!(at, 1);
}

#[test]
fn invalid_block_is_left_alone() {
    let mut items = vec![1, 2, 3];
    assert_eq!(move_items::move_items(&mut items, 2, 1, 0), 2);
    assert_eq!(move_items::move_items(&mut items, 1, 3, 0), 1);
    assert_eq!(items, vec![1, 2, 3]);
}

#[test]
fn start_sets_block_and_gap() {
    let mut state = MoveState::default();
    assert!(!state.is_moving());
    move_items::start(&mut state, Some(2), None, 5, MoveTarget::Tasks);
    assert_eq!(state.first, Some(2));
    assert_eq!(state.last, Some(2));
    assert_eq!(state.position, Some(2));
    assert_eq!(state.target, Some(MoveTarget::Tasks));
    assert!(state.is_moving());

    let mut top = MoveState::default();
    move_items::start(&mut top, Some(0), None, 5, MoveTarget::Tasks);
    assert_eq!(top.position, Some(1));

    let mut visual = MoveState::default();
    move_items::start(&mut visual, Some(3), Some(1), 5, MoveTarget::KnownTasks);
    assert_eq!((visual.first, visual.last, visual.position), (Some(1), Some(3), Some(4)));

    let mut nothing = MoveState::default();
    move_items::start(&mut nothing, None, None, 5, MoveTarget::Tasks);
    assert_eq!(nothing, MoveState::default());
}

#[test]
fn keys_step_and_drop() {
    let mut items = vec!['a', 'b', 'c', 'd'];
    let mut selection = SelectionState::new();
    let mut pending = None;
    let mut state = MoveState::default();
    move_items::start(&mut state, Some(1), None, items.len(), MoveTarget::Tasks);
    assert_eq!(state.position, Some(1));
    assert!(move_items::handle_keys(&mut state, &mut items, &mut selection, &mut pending, Key::plain(KeyCode::Char('j'))));
    assert_eq!(state.position, Some(2));
    assert!(move_items::handle_keys(&mut state, &mut items, &mut selection, &mut pending, Key::plain(KeyCode::Char('j'))));
    assert_eq!(state.position, Some(3));
    assert!(!move_items::handle_keys(&mut state, &mut items, &mut selection, &mut pending, Key::plain(KeyCode::Char('x'))));
    assert!(move_items::handle_keys(&mut state, &mut items, &mut selection, &mut pending, Key::plain(KeyCode::Enter)));
    assert_eq!(items, vec!['a', 'c', 'b', 'd']);
    assert_eq!(selection.selected(), Some(2));
    assert!(!state.is_moving());
}

#[test]
fn gg_and_g_jump() {
    let mut items = vec![1, 2, 3];
    let mut selection = SelectionState::new();
    let mut pending = None;
    let mut state = MoveState::default();
    move_items::start(&mut state, Some(1), None, items.len(), MoveTarget::Tasks);
    move_items::handle_keys(&mut state, &mut items, &mut selection, &mut pending, Key::plain(KeyCode::Char('G')));
    assert_eq!(state.position, Some(3));
    move_items::handle_keys(&mut state, &mut items, &mut selection, &mut pending, Key::plain(KeyCode::Char('g')));
    assert_eq!(pending, Some('g'));
    assert_eq!(state.position, Some(3));
    move_items::handle_keys(&mut state, &mut items, &mut selection, &mut pending, Key::plain(KeyCode::Char('g')));
    assert_eq!(pending, None);
    assert_eq!(state.position, Some(0));
}

#[test]
fn q_cancels_the_move() {
    let mut items = vec![1, 2, 3];
    let mut selection = SelectionState::with_selected(Some(1));
    let mut pending = None;
    let mut state = MoveState::default();
    move_items::start(&mut state, Some(1), None, items.len(), MoveTarget::Tasks);
    move_items::handle_keys(&mut state, &mut items, &mut selection, &mut pending, Key::plain(KeyCode::Char('j')));
    move_items::handle_keys(&mut state, &mut items, &mut selection, &mut pending, Key::plain(KeyCode::Char('q')));
    assert_eq!(items, vec![1, 2, 3]);
    assert_eq!(state, MoveState::default());
    assert_eq!(selection.selected(), Some(1));
}

#[test]
fn moving_keeps_every_item() {
    let mut items: Vec<u32> = (0..10).collect();
    move_items::move_items(&mut items, 2, 5, 9);
    let mut sorted = items.clone();
    sorted.sort();
    assert_eq!(sorted, (0..10).collect::<Vec<u32>>());
    assert_eq!(items, vec![0, 1, 6, 7, 8, 2, 3, 4, 5, 9]);
}

#[test]
fn start_then_drop_leaves_the_list() {
    for selected in 0..4usize {
        let mut items = vec![10, 20, 30, 40];
        let mut selection = SelectionState::with_selected(Some(selected));
        let mut pending = None;
        let mut state = MoveState::default();
        move_items::start(&mut state, Some(selected), None, items.len(), MoveTarget::Tasks);
        move_items::handle_keys(&mut state, &mut items, &mut selection, &mut pending, Key::plain(KeyCode::Enter));
        assert_eq!(items, vec![10, 20, 30, 40]);
        assert_eq!(selection.selected(), Some(selected));
    }
}
