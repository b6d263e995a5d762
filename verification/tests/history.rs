use sokoban::collections::UndoHistory;

#[test]
fn tests_commit_change() {
    let mut undo_history = UndoHistory::new(5, 1);
    assert_eq!(undo_history.current(), &1);
    assert_eq!(undo_history.len(), 1);
    assert_eq!(undo_history.capacity(), 5);
    assert_eq!(undo_history.next_index(), 1);
    assert_eq!(*undo_history.get(0), 1);

    undo_history.commit_change(2);
    assert_eq!(undo_history.current(), &2);
    assert_eq!(undo_history.len(), 2);
    assert_eq!(undo_history.capacity(), 5);
    assert_eq!(undo_history.next_index(), 2);
    assert_eq!(*undo_history.get(0), 1);
    assert_eq!(*undo_history.get(1), 2);

    undo_history.commit_change(3);
    assert_eq!(undo_history.current(), &3);
    assert_eq!(undo_history.len(), 3);
    assert_eq!(undo_history.capacity(), 5);
    assert_eq!(undo_history.next_index(), 3);
    assert_eq!(*undo_history.get(0), 1);
    assert_eq!(*undo_history.get(1), 2);
    assert_eq!(*undo_history.get(2), 3);

    undo_history.commit_change(4);
    assert_eq!(undo_history.current(), &4);
    assert_eq!(undo_history.len(), 4);
    assert_eq!(undo_history.capacity(), 5);
    assert_eq!(undo_history.next_index(), 4);
    assert_eq!(*undo_history.get(0), 1);
    assert_eq!(*undo_history.get(1), 2);
    assert_eq!(*undo_history.get(2), 3);
    assert_eq!(*undo_history.get(3), 4);

    undo_history.commit_change(5);
    assert_eq!(undo_history.current(), &5);
    assert_eq!(undo_history.len(), 5);
    assert_eq!(undo_history.capacity(), 5);
    assert_eq!(undo_history.next_index(), 5);
    assert_eq!(*undo_history.get(0), 1);
    assert_eq!(*undo_history.get(1), 2);
    assert_eq!(*undo_history.get(2), 3);
    assert_eq!(*undo_history.get(3), 4);
    assert_eq!(*undo_history.get(4), 5);

    undo_history.commit_change(6);
    assert_eq!(undo_history.current(), &6);
    assert_eq!(undo_history.len(), 5);
    assert_eq!(undo_history.capacity(), 5);
    assert_eq!(undo_history.next_index(), 5);
    assert_eq!(*undo_history.get(0), 2);
    assert_eq!(*undo_history.get(1), 3);
    assert_eq!(*undo_history.get(2), 4);
    assert_eq!(*undo_history.get(3), 5);
    assert_eq!(*undo_history.get(4), 6);

    undo_history.commit_change(7);
    assert_eq!(undo_history.current(), &7);
    assert_eq!(undo_history.len(), 5);
    assert_eq!(undo_history.capacity(), 5);
    assert_eq!(undo_history.next_index(), 5);
    assert_eq!(*undo_history.get(0), 3);
    assert_eq!(*undo_history.get(1), 4);
    assert_eq!(*undo_history.get(2), 5);
    assert_eq!(*undo_history.get(3), 6);
    assert_eq!(*undo_history.get(4), 7);
}

#[test]
fn tests_undo_changes_within_capacity() {
    let mut undo_history = UndoHistory::new(5, 1);

    assert_eq!(undo_history.undo(), None);
    assert_eq!(undo_history.current(), &1);
    assert_eq!(undo_history.len(), 1);
    assert_eq!(undo_history.capacity(), 5);
    assert_eq!(undo_history.next_index(), 1);

    assert_eq!(undo_history.undo(), None);
    assert_eq!(undo_history.current(), &1);
    assert_eq!(undo_history.len(), 1);
    assert_eq!(undo_history.capacity(), 5);
    assert_eq!(undo_history.next_index(), 1);

    assert_eq!(undo_history.undo(), None);
    assert_eq!(undo_history.current(), &1);
    assert_eq!(undo_history.len(), 1);
    assert_eq!(undo_history.capacity(), 5);
    assert_eq!(undo_history.next_index(), 1);

    undo_history.commit_change(2);
    undo_history.commit_change(3);

    assert_eq!(undo_history.undo(), Some(&2));
    assert_eq!(undo_history.current(), &2);
    assert_eq!(undo_history.len(), 3);
    assert_eq!(undo_history.capacity(), 5);
    assert_eq!(undo_history.next_index(), 2);

    assert_eq!(undo_history.undo(), Some(&1));
    assert_eq!(undo_history.current(), &1);
    assert_eq!(undo_history.len(), 3);
    assert_eq!(undo_history.capacity(), 5);
    assert_eq!(undo_history.next_index(), 1);

    undo_history.commit_change(4);
    undo_history.commit_change(5);
    undo_history.commit_change(6);
    undo_history.commit_change(7);
    undo_history.commit_change(8);

    assert_eq!(undo_history.undo(), Some(&7));
    assert_eq!(undo_history.current(), &7);
    assert_eq!(undo_history.len(), 5);
    assert_eq!(undo_history.capacity(), 5);
    assert_eq!(undo_history.next_index(), 4);

    assert_eq!(undo_history.undo(), Some(&6));
    assert_eq!(undo_history.current(), &6);
    assert_eq!(undo_history.len(), 5);
    assert_eq!(undo_history.capacity(), 5);
    assert_eq!(undo_history.next_index(), 3);

    assert_eq!(undo_history.undo(), Some(&5));
    assert_eq!(undo_history.current(), &5);
    assert_eq!(undo_history.len(), 5);
    assert_eq!(undo_history.capacity(), 5);
    assert_eq!(undo_history.next_index(), 2);

    assert_eq!(undo_history.undo(), Some(&4));
    assert_eq!(undo_history.current(), &4);
    assert_eq!(undo_history.len(), 5);
    assert_eq!(undo_history.capacity(), 5);
    assert_eq!(undo_history.next_index(), 1);

    assert_eq!(undo_history.undo(), None);
    assert_eq!(undo_history.current(), &4);
    assert_eq!(undo_history.len(), 5);
    assert_eq!(undo_history.capacity(), 5);
    assert_eq!(undo_history.next_index(), 1);

    assert_eq!(undo_history.undo(), None);
    assert_eq!(undo_history.current(), &4);
    assert_eq!(undo_history.len(), 5);
    assert_eq!(undo_history.capacity(), 5);
    assert_eq!(undo_history.next_index(), 1);
}

#[test]
fn tests_undo_changes_above_capacity() {
    let mut undo_history = UndoHistory::new(5, 1);
    undo_history.commit_change(2);
    undo_history.commit_change(3);
    undo_history.commit_change(4);
    undo_history.commit_change(5);
    undo_history.commit_change(6);

    assert_eq!(undo_history.undo(), Some(&5));
    assert_eq!(undo_history.current(), &5);
    assert_eq!(undo_history.len(), 5);
    assert_eq!(undo_history.capacity(), 5);
    assert_eq!(undo_history.next_index(), 4);

    assert_eq!(undo_history.undo(), Some(&4));
    assert_eq!(undo_history.current(), &4);
    assert_eq!(undo_history.len(), 5);
    assert_eq!(undo_history.capacity(), 5);
    assert_eq!(undo_history.next_index(), 3);

    assert_eq!(undo_history.undo(), Some(&3));
    assert_eq!(undo_history.current(), &3);
    assert_eq!(undo_history.len(), 5);
    assert_eq!(undo_history.capacity(), 5);
    assert_eq!(undo_history.next_index(), 2);

    assert_eq!(undo_history.undo(), Some(&2));
    assert_eq!(undo_history.current(), &2);
    assert_eq!(undo_history.len(), 5);
    assert_eq!(undo_history.capacity(), 5);
    assert_eq!(undo_history.next_index(), 1);

    assert_eq!(undo_history.undo(), None);
    assert_eq!(undo_history.current(), &2);
    assert_eq!(undo_history.len(), 5);
    assert_eq!(undo_history.capacity(), 5);
    assert_eq!(undo_history.next_index(), 1);

    assert_eq!(undo_history.undo(), None);
    assert_eq!(undo_history.current(), &2);
    assert_eq!(undo_history.len(), 5);
    assert_eq!(undo_history.capacity(), 5);
    assert_eq!(undo_history.next_index(), 1);

    assert_eq!(undo_history.undo(), None);
    assert_eq!(undo_history.current(), &2);
    assert_eq!(undo_history.len(), 5);
    assert_eq!(undo_history.capacity(), 5);
    assert_eq!(undo_history.next_index(), 1);
}

#[test]
fn tests_redo_changes_without_override() {
    let mut undo_history = UndoHistory::new(5, 1);
    undo_history.commit_change(2);
    undo_history.commit_change(3);
    undo_history.commit_change(4);
    undo_history.commit_change(5);

    assert_eq!(undo_history.redo(), None);
    assert_eq!(undo_history.current(), &5);
    assert_eq!(undo_history.len(), 5);
    assert_eq!(undo_history.capacity(), 5);
    assert_eq!(undo_history.next_index(), 5);

    undo_history.undo();

    assert_eq!(undo_history.redo(), Some(&5));
    assert_eq!(undo_history.current(), &5);
    assert_eq!(undo_history.len(), 5);
    assert_eq!(undo_history.capacity(), 5);
    assert_eq!(undo_history.next_index(), 5);

    assert_eq!(undo_history.redo(), None);
    assert_eq!(undo_history.current(), &5);
    assert_eq!(undo_history.len(), 5);
    assert_eq!(undo_history.capacity(), 5);
    assert_eq!(undo_history.next_index(), 5);

    undo_history.undo();
    undo_history.undo();
    undo_history.undo();
    undo_history.undo();
    undo_history.undo();

    assert_eq!(undo_history.redo(), Some(&2));
    assert_eq!(undo_history.current(), &2);
    assert_eq!(undo_history.len(), 5);
    assert_eq!(undo_history.capacity(), 5);
    assert_eq!(undo_history.next_index(), 2);

    assert_eq!(undo_history.redo(), Some(&3));
    assert_eq!(undo_history.current(), &3);
    assert_eq!(undo_history.len(), 5);
    assert_eq!(undo_history.capacity(), 5);
    assert_eq!(undo_history.next_index(), 3);

    assert_eq!(undo_history.redo(), Some(&4));
    assert_eq!(undo_history.current(), &4);
    assert_eq!(undo_history.len(), 5);
    assert_eq!(undo_history.capacity(), 5);
    assert_eq!(undo_history.next_index(), 4);

    assert_eq!(undo_history.redo(), Some(&5));
    assert_eq!(undo_history.current(), &5);
    assert_eq!(undo_history.len(), 5);
    assert_eq!(undo_history.capacity(), 5);
    assert_eq!(undo_history.next_index(), 5);

    assert_eq!(undo_history.redo(), None);
    assert_eq!(undo_history.current(), &5);
    assert_eq!(undo_history.len(), 5);
    assert_eq!(undo_history.capacity(), 5);
    assert_eq!(undo_history.next_index(), 5);

    assert_eq!(undo_history.redo(), None);
    assert_eq!(undo_history.current(), &5);
    assert_eq!(undo_history.len(), 5);
    assert_eq!(undo_history.capacity(), 5);
    assert_eq!(undo_history.next_index(), 5);

    undo_history.undo();
    undo_history.undo();
    undo_history.undo();
    undo_history.undo();
    undo_history.undo();
    undo_history.undo();
    undo_history.undo();
    undo_history.undo();
    undo_history.undo();

    assert_eq!(undo_history.redo(), Some(&2));
    assert_eq!(undo_history.current(), &2);
    assert_eq!(undo_history.len(), 5);
    assert_eq!(undo_history.capacity(), 5);
    assert_eq!(undo_history.next_index(), 2);

    assert_eq!(undo_history.redo(), Some(&3));
    assert_eq!(undo_history.current(), &3);
    assert_eq!(undo_history.len(), 5);
    assert_eq!(undo_history.capacity(), 5);
    assert_eq!(undo_history.next_index(), 3);

    assert_eq!(undo_history.redo(), Some(&4));
    assert_eq!(undo_history.current(), &4);
    assert_eq!(undo_history.len(), 5);
    assert_eq!(undo_history.capacity(), 5);
    assert_eq!(undo_history.next_index(), 4);

    assert_eq!(undo_history.redo(), Some(&5));
    assert_eq!(undo_history.current(), &5);
    assert_eq!(undo_history.len(), 5);
    assert_eq!(undo_history.capacity(), 5);
    assert_eq!(undo_history.next_index(), 5);

    assert_eq!(undo_history.redo(), None);
    assert_eq!(undo_history.current(), &5);
    assert_eq!(undo_history.len(), 5);
    assert_eq!(undo_history.capacity(), 5);
    assert_eq!(undo_history.next_index(), 5);

    assert_eq!(undo_history.redo(), None);
    assert_eq!(undo_history.current(), &5);
    assert_eq!(undo_history.len(), 5);
    assert_eq!(undo_history.capacity(), 5);
    assert_eq!(undo_history.next_index(), 5);
}

#[test]
fn tests_redo_changes_with_override() {
    let mut undo_history = UndoHistory::new(5, 1);
    undo_history.commit_change(2);
    undo_history.commit_change(3);
    undo_history.commit_change(4);
    undo_history.commit_change(5);

    undo_history.undo();
    undo_history.undo();
    undo_history.undo();
    undo_history.undo();

    assert_eq!(undo_history.redo(), Some(&2));
    assert_eq!(undo_history.current(), &2);
    assert_eq!(undo_history.len(), 5);
    assert_eq!(undo_history.capacity(), 5);
    assert_eq!(undo_history.next_index(), 2);

    undo_history.commit_change(42);
    assert_eq!(undo_history.current(), &42);
    assert_eq!(undo_history.len(), 3);
    assert_eq!(undo_history.capacity(), 5);
    assert_eq!(undo_history.next_index(), 3);

    assert_eq!(undo_history.redo(), None);
    assert_eq!(undo_history.current(), &42);
    assert_eq!(undo_history.len(), 3);
    assert_eq!(undo_history.capacity(), 5);
    assert_eq!(undo_history.next_index(), 3);

    undo_history.undo();

    undo_history.commit_change(84);
    assert_eq!(undo_history.current(), &84);
    assert_eq!(undo_history.len(), 3);
    assert_eq!(undo_history.capacity(), 5);
    assert_eq!(undo_history.next_index(), 3);

    assert_eq!(undo_history.redo(), None);
    assert_eq!(undo_history.len(), 3);
    assert_eq!(undo_history.capacity(), 5);
    assert_eq!(undo_history.next_index(), 3);

    undo_history.undo();
    undo_history.undo();
    undo_history.undo();

    undo_history.commit_change(21);
    assert_eq!(undo_history.current(), &21);
    assert_eq!(undo_history.len(), 2);
    assert_eq!(undo_history.capacity(), 5);
    assert_eq!(undo_history.next_index(), 2);

    assert_eq!(undo_history.undo(), Some(&1));
    assert_eq!(undo_history.current(), &1);
    assert_eq!(undo_history.len(), 2);
    assert_eq!(undo_history.capacity(), 5);
    assert_eq!(undo_history.next_index(), 1);

    assert_eq!(undo_history.redo(), Some(&21));
    assert_eq!(undo_history.current(), &21);
    assert_eq!(undo_history.len(), 2);
    assert_eq!(undo_history.capacity(), 5);
    assert_eq!(undo_history.next_index(), 2);

    assert_eq!(undo_history.redo(), None);
    assert_eq!(undo_history.current(), &21);
    assert_eq!(undo_history.len(), 2);
    assert_eq!(undo_history.capacity(), 5);
    assert_eq!(undo_history.next_index(), 2);
}

#[test]
fn tests_clear() {
    let mut undo_history = UndoHistory::new(5, 1);
    undo_history.commit_change(2);
    undo_history.commit_change(3);
    undo_history.commit_change(4);
    undo_history.commit_change(5);

    undo_history.undo();
    undo_history.undo();

    assert_eq!(undo_history.current(), &3);
    assert_eq!(undo_history.len(), 5);
    assert_eq!(undo_history.capacity(), 5);
    assert_eq!(undo_history.next_index(), 3);

    undo_history.clear();
    assert_eq!(undo_history.current(), &3);
    assert_eq!(undo_history.len(), 1);
    assert_eq!(undo_history.capacity(), 5);
    assert_eq!(undo_history.next_index(), 1);

    assert_eq!(undo_history.undo(), None);
    assert_eq!(undo_history.current(), &3);
    assert_eq!(undo_history.len(), 1);
    assert_eq!(undo_history.capacity(), 5);
    assert_eq!(undo_history.next_index(), 1);

    undo_history.commit_change(2);
    undo_history.commit_change(3);

    assert_eq!(undo_history.current(), &3);
    assert_eq!(undo_history.len(), 3);
    assert_eq!(undo_history.capacity(), 5);
    assert_eq!(undo_history.next_index(), 3);

    undo_history.clear();
    assert_eq!(undo_history.current(), &3);
    assert_eq!(undo_history.len(), 1);
    assert_eq!(undo_history.capacity(), 5);
    assert_eq!(undo_history.next_index(), 1);

    assert_eq!(undo_history.redo(), None);
    assert_eq!(undo_history.current(), &3);
    assert_eq!(undo_history.len(), 1);
    assert_eq!(undo_history.capacity(), 5);
    assert_eq!(undo_history.next_index(), 1);
}

#[test]
fn tests_clear_with_new_initial() {
    let mut undo_history = UndoHistory::new(5, 1);
    undo_history.commit_change(2);
    undo_history.commit_change(3);
    undo_history.commit_change(4);
    undo_history.commit_change(5);

    undo_history.undo();
    undo_history.undo();

    assert_eq!(undo_history.current(), &3);
    assert_eq!(undo_history.len(), 5);
    assert_eq!(undo_history.capacity(), 5);
    assert_eq!(undo_history.next_index(), 3);

    undo_history.clear_with_new_initial(42);
    assert_eq!(undo_history.current(), &42);
    assert_eq!(undo_history.len(), 1);
    assert_eq!(undo_history.capacity(), 5);
    assert_eq!(undo_history.next_index(), 1);

    assert_eq!(undo_history.undo(), None);
    assert_eq!(undo_history.current(), &42);
    assert_eq!(undo_history.len(), 1);
    assert_eq!(undo_history.capacity(), 5);
    assert_eq!(undo_history.next_index(), 1);

    undo_history.commit_change(2);
    undo_history.commit_change(3);

    assert_eq!(undo_history.current(), &3);
    assert_eq!(undo_history.len(), 3);
    assert_eq!(undo_history.capacity(), 5);
    assert_eq!(undo_history.next_index(), 3);

    undo_history.clear_with_new_initial(21);
    assert_eq!(undo_history.current(), &21);
    assert_eq!(undo_history.len(), 1);
    assert_eq!(undo_history.capacity(), 5);
    assert_eq!(undo_history.next_index(), 1);

    assert_eq!(undo_history.redo(), None);
    assert_eq!(undo_history.current(), &21);
    assert_eq!(undo_history.len(), 1);
    assert_eq!(undo_history.capacity(), 5);
    assert_eq!(undo_history.next_index(), 1);
}

#[test]
fn sliding_window_scenario() {
    let mut history = UndoHistory::new(3, "a");
    history.commit_change("b");
    history.commit_change("c");
    history.commit_change("d");

    assert_eq!(history.len(), 3);
    assert_eq!(*history.get(0), "b");
    assert_eq!(*history.get(1), "c");
    assert_eq!(*history.get(2), "d");
    assert_eq!(history.current(), &"d");

    assert_eq!(history.undo(), Some(&"c"));
    assert_eq!(history.undo(), Some(&"b"));
    assert_eq!(history.current(), &"b");

    history.commit_change("x");
    assert_eq!(history.len(), 2);
    assert_eq!(*history.get(0), "b");
    assert_eq!(*history.get(1), "x");
    assert_eq!(history.current(), &"x");
    assert_eq!(history.redo(), None);
}

#[test]
fn capacity_one_keeps_only_newest() {
    let mut history = UndoHistory::new(1, 10);
    history.commit_change(20);
    assert_eq!(history.len(), 1);
    assert_eq!(history.current(), &20);
    assert_eq!(history.undo(), None);
    assert_eq!(history.redo(), None);
}
