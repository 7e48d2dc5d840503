use design_patterns::memento::ConfigurationManager;
use design_patterns::memento::EditorHistory;
use design_patterns::memento::TextEditor;

#[test]
fn test_text_editor_memento() {
    let mut editor = TextEditor::new();
    let mut history = EditorHistory::new(5);

    editor.insert_text("Hello");
    history.save_state(editor.create_memento());

    editor.insert_text(" World");
    history.save_state(editor.create_memento());

    assert_eq!(editor.get_content(), "Hello World");

    // Undo
    let undone = history.undo().cloned();
    if let Some(memento) = undone {
        editor.restore_from_memento(&memento);
    }
    assert_eq!(editor.get_content(), "Hello");

    // Redo
    let redone = history.redo().cloned();
    if let Some(memento) = redone {
        editor.restore_from_memento(&memento);
    }
    assert_eq!(editor.get_content(), "Hello World");
}

#[test]
fn test_configuration_memento() {
    let mut config = ConfigurationManager::new();

    config.set_setting("theme", "dark");
    config.set_setting("language", "en");

    let snapshot = config.create_snapshot("Initial setup");

    config.set_setting("theme", "light");
    config.remove_setting("language");

    assert_eq!(config.get_setting("theme"), Some(&"light".to_string()));
    assert_eq!(config.get_setting("language"), None);

    // Restore
    config.restore_snapshot(&snapshot);
    assert_eq!(config.get_setting("theme"), Some(&"dark".to_string()));
    assert_eq!(config.get_setting("language"), Some(&"en".to_string()));
}

#[test]
fn test_editor_operations() {
    let mut editor = TextEditor::new();
    editor.insert_text("abcdef");
    assert_eq!(editor.get_cursor_position(), 6);
    editor.delete_text(2);
    assert_eq!(editor.get_content(), "abcd");
    assert_eq!(editor.get_cursor_position(), 4);
    editor.set_cursor_position(2);
    editor.insert_text("XY");
    assert_eq!(editor.get_content(), "abXYcd");
    editor.select_text(1, 3);
    assert_eq!(editor.get_selection(), Some((1, 3)));
    assert_eq!(editor.get_cursor_position(), 3);
    assert_eq!(editor.get_modification_count(), 3);
    // Deleting more than stands before the cursor changes nothing.
    editor.delete_text(99);
    assert_eq!(editor.get_content(), "abXYcd");
    assert_eq!(
        editor.get_status(),
        "Content: 'abXYcd' | Cursor: 3 | Selection: Some((1, 3)) | Modifications: 3"
    );
}

#[test]
fn test_history_bound_and_summary() {
    let mut editor = TextEditor::new();
    let mut history = EditorHistory::new(2);
    editor.insert_text("a");
    history.save_state(editor.create_memento());
    editor.insert_text("b");
    history.save_state(editor.create_memento());
    editor.insert_text("c");
    history.save_state(editor.create_memento());
    // Bounded at two: the oldest snapshot fell out.
    assert_eq!(history.get_history_size(), 2);
    let summary = history.get_history_summary();
    assert_eq!(summary.len(), 2);
    assert!(summary[0].contains("'ab'"));
    assert!(summary[1].contains("'abc'"));
    assert!(!history.can_redo());
}

#[test]
fn test_undo_redo_edges() {
    let mut history = EditorHistory::new(5);
    assert!(history.undo().is_none());
    assert!(history.redo().is_none());
    assert!(!history.can_undo());
    assert!(!history.can_redo());
    let mut editor = TextEditor::new();
    editor.insert_text("x");
    history.save_state(editor.create_memento());
    // A single snapshot leaves nothing to step back to.
    assert!(!history.can_undo());
    assert_eq!(history.get_current_index(), Some(0));
}

#[test]
fn test_configuration_counts_changes() {
    let mut config = ConfigurationManager::new();
    assert_eq!(config.get_change_count(), 0);
    config.set_setting("a", "1");
    config.set_setting("a", "2");
    config.set_setting("b", "3");
    assert_eq!(config.get_change_count(), 3);
    assert_eq!(config.get_all_settings().len(), 2);
    assert_eq!(config.remove_setting("missing"), None);
    assert_eq!(config.get_change_count(), 3);
    assert_eq!(config.remove_setting("a"), Some("2".to_string()));
    assert_eq!(config.get_change_count(), 4);
    let snap = config.create_snapshot("before reset");
    assert_eq!(snap.get_description(), "before reset");
}
