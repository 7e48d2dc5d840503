use design_patterns::command::Command;
use design_patterns::command::CommandManager;
use design_patterns::command::CommandQueue;
use design_patterns::command::DeleteCommand;
use design_patterns::command::EditorCommand;
use design_patterns::command::InsertCommand;
use design_patterns::command::Light;
use design_patterns::command::LightCommand;
use design_patterns::command::LightOffCommand;
use design_patterns::command::LightOnCommand;
use design_patterns::command::MacroCommand;
use design_patterns::command::RemoteControl;
use design_patterns::command::TextEditor;

#[test]
fn test_text_editor_commands() {
    let mut editor = TextEditor::new();
    let mut manager = CommandManager::new(10);

    // Test insert command
    let insert_cmd =
        EditorCommand::Insert(InsertCommand::new(&mut editor, "Hello".to_string()));
    manager.execute_command(insert_cmd, &mut editor).unwrap();
    assert_eq!(editor.get_content(), "Hello");

    // Test undo
    manager.undo(&mut editor).unwrap();
    assert_eq!(editor.get_content(), "");

    // Test redo
    manager.redo(&mut editor).unwrap();
    assert_eq!(editor.get_content(), "Hello");
}

#[test]
fn test_macro_command() {
    let mut editor = TextEditor::new();
    let mut macro_cmd = MacroCommand::new("Insert greeting".to_string());

    macro_cmd.add_command(EditorCommand::Insert(InsertCommand::new(
        &mut editor,
        "Hello ".to_string(),
    )));
    macro_cmd.add_command(EditorCommand::Insert(InsertCommand::new(
        &mut editor,
        "World!".to_string(),
    )));

    assert_eq!(macro_cmd.get_command_count(), 2);

    macro_cmd.execute(&mut editor).unwrap();
    assert_eq!(editor.get_content(), "Hello World!");

    macro_cmd.undo(&mut editor).unwrap();
    assert_eq!(editor.get_content(), "");
}

#[test]
fn test_remote_control() {
    let mut living_room_light = Light::new("Living Room");
    let mut remote = RemoteControl::new(3);

    let on_cmd = LightCommand::On(LightOnCommand::new(&mut living_room_light));
    let off_cmd = LightCommand::Off(LightOffCommand::new(&mut living_room_light));

    remote.set_command(0, on_cmd, off_cmd).unwrap();

    assert!(remote.is_slot_configured(0).0);
    assert!(remote.is_slot_configured(0).1);
}

#[test]
fn test_command_queue() {
    let mut queue = CommandQueue::new();
    let mut editor = TextEditor::new();

    // Add commands with different priorities
    queue.enqueue_command(
        EditorCommand::Insert(InsertCommand::new(&mut editor, "Low priority".to_string())),
        1,
        None,
        0,
    );

    queue.enqueue_command(
        EditorCommand::Insert(InsertCommand::new(&mut editor, "High priority".to_string())),
        5,
        None,
        0,
    );

    assert_eq!(queue.get_queue_size(), 2);

    let results = queue.process_commands(&mut editor);
    assert!(!results.is_empty());
}

#[test]
fn test_command_manager_history() {
    let mut editor = TextEditor::new();
    let mut manager = CommandManager::new(3);

    // Add more commands than history limit
    for i in 0..5 {
        let cmd =
            EditorCommand::Insert(InsertCommand::new(&mut editor, format!("Text{}", i)));
        manager.execute_command(cmd, &mut editor).unwrap();
    }

    // Should only keep last 3 commands
    assert_eq!(manager.get_history_size(), 3);
    let history = manager.get_history();
    assert!(history.last().unwrap().contains("Text4"));
}

#[test]
fn test_editor_primitives() {
    let mut editor = TextEditor::new();
    let msg = editor.insert_text("Hello World!");
    assert_eq!(msg, "Inserted 'Hello World!' at position 0");
    assert_eq!(editor.get_cursor_position(), 12);
    let msg = editor.move_cursor(5);
    assert_eq!(msg, "Moved cursor from 12 to 5");
    let (deleted, msg) = editor.delete_text(3);
    assert_eq!(deleted, "llo");
    assert_eq!(msg, "Deleted 3 characters");
    assert_eq!(editor.get_content(), "He World!");
    assert_eq!(editor.select_text(3, 8), "World");
    let msg = editor.replace_text(3, 8, "Rust!");
    assert_eq!(msg, "Replaced 'World' with 'Rust!'");
    assert_eq!(editor.get_content(), "He Rust!!");
}

#[test]
fn test_lights_and_undo_button() {
    let mut light = Light::new("Bedroom");
    assert_eq!(light.turn_on(), "Bedroom light turned ON");
    assert_eq!(light.get_brightness(), 100);
    assert_eq!(light.set_brightness(40), "Bedroom light brightness set to 40%");
    assert!(light.is_on());

    let mut remote = RemoteControl::new(2);
    let on_cmd = LightCommand::On(LightOnCommand::new(&mut light));
    let off_cmd = LightCommand::Off(LightOffCommand::new(&mut light));
    remote.set_command(1, on_cmd, off_cmd).unwrap();
    let msg = remote.press_off_button(1, &mut light).unwrap();
    assert_eq!(msg, "Bedroom light turned OFF");
    assert!(!light.is_on());
    // Undo restores the remembered brightness.
    let msg = remote.press_undo_button(&mut light).unwrap();
    assert_eq!(msg, "Bedroom light brightness set to 40%");
    assert_eq!(light.get_brightness(), 40);
    assert!(remote.press_undo_button(&mut light).is_err());
    assert_eq!(remote.press_on_button(5, &mut light).unwrap_err(), "Invalid slot: 5");
    assert_eq!(
        remote.press_on_button(0, &mut light).unwrap_err(),
        "No ON command set for this slot"
    );
}

#[test]
fn test_queue_priority_order() {
    let mut queue = CommandQueue::new();
    let mut editor = TextEditor::new();
    queue.enqueue_command(
        EditorCommand::Insert(InsertCommand::new(&mut editor, "low ".to_string())),
        1,
        None,
        0,
    );
    queue.enqueue_command(
        EditorCommand::Insert(InsertCommand::new(&mut editor, "HIGH ".to_string())),
        5,
        None,
        1,
    );
    queue.enqueue_command(
        EditorCommand::Insert(InsertCommand::new(&mut editor, "mid ".to_string())),
        3,
        None,
        0,
    );
    let info = queue.get_next_command_info().unwrap();
    assert_eq!(info, "Insert 'HIGH ' at position 0 (priority: 5, retries: 0/1)");
    let results = queue.process_commands(&mut editor);
    assert_eq!(results.len(), 3);
    assert_eq!(editor.get_content(), "HIGH mid low ");
    assert_eq!(queue.get_queue_size(), 0);
    assert!(!queue.is_processing());
}

#[test]
fn test_queue_waits_for_scheduled_entry() {
    let mut queue = CommandQueue::new();
    let mut editor = TextEditor::new();
    queue.enqueue_command(
        EditorCommand::Insert(InsertCommand::new(&mut editor, "later".to_string())),
        5,
        Some(u64::MAX),
        0,
    );
    queue.enqueue_command(
        EditorCommand::Insert(InsertCommand::new(&mut editor, "never reached".to_string())),
        1,
        None,
        0,
    );
    // The front entry is scheduled after any present instant: the run stops
    // there and nothing behind it runs either.
    let results = queue.process_commands(&mut editor);
    assert!(results.is_empty());
    assert_eq!(queue.get_queue_size(), 2);
    assert!(!queue.is_processing());
    assert_eq!(editor.get_content(), "");
    // An entry scheduled in the past runs like an unscheduled one.
    let mut queue = CommandQueue::new();
    queue.enqueue_command(
        EditorCommand::Insert(InsertCommand::new(&mut editor, "due".to_string())),
        1,
        Some(0),
        0,
    );
    let results = queue.process_commands(&mut editor);
    assert_eq!(results, vec!["Inserted 'due' at position 0"]);
    assert_eq!(editor.get_content(), "due");
}

#[test]
fn test_queue_retries_spent_command() {
    let mut queue = CommandQueue::new();
    let mut editor = TextEditor::new();
    let mut spent = InsertCommand::new(&mut editor, "x".to_string());
    spent.executed = true; // already ran: it will refuse every attempt
    queue.enqueue_command(EditorCommand::Insert(spent), 1, None, 2);
    let results = queue.process_commands(&mut editor);
    assert_eq!(results.len(), 3);
    assert!(results[0].contains("Retrying"));
    assert!(results[2].contains("max retries exceeded"));
    assert_eq!(editor.get_content(), "");
}

#[test]
fn test_manager_rejects_spent_command() {
    let mut editor = TextEditor::new();
    let mut manager = CommandManager::new(10);
    let mut spent = InsertCommand::new(&mut editor, "x".to_string());
    spent.executed = true;
    let err = manager.execute_command(EditorCommand::Insert(spent), &mut editor).unwrap_err();
    assert_eq!(err, "Command already executed");
    assert_eq!(manager.get_history_size(), 0);
    assert!(manager.undo(&mut editor).is_err());
    assert!(manager.redo(&mut editor).is_err());
}

#[test]
fn test_delete_command_round_trip() {
    let mut editor = TextEditor::new();
    editor.insert_text("abcdef");
    let mut del = DeleteCommand::new(&mut editor, 2);
    let msg = del.execute(&mut editor).unwrap();
    assert_eq!(msg, "Deleted 2 characters");
    assert_eq!(editor.get_content(), "abcd");
    assert!(del.can_undo());
    let msg = del.undo(&mut editor).unwrap();
    assert_eq!(msg, "Undone: Inserted 'ef' at position 4");
    assert_eq!(editor.get_content(), "abcdef");
    assert_eq!(del.get_description(), "Delete 2 characters at position 4");
}
