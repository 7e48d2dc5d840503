use design_patterns::mvc::ConsoleUserView;
use design_patterns::mvc::JsonUserView;
use design_patterns::mvc::User;
use design_patterns::mvc::UserController;
use design_patterns::mvc::UserModel;

#[test]
fn test_user_creation() {
    let user = User::new(1, "John Doe".to_string(), "john@example.com".to_string()).unwrap();
    assert_eq!(user.id(), 1);
    assert_eq!(user.name(), "John Doe");
    assert_eq!(user.email(), "john@example.com");
}

#[test]
fn test_invalid_user_creation() {
    assert!(User::new(1, "".to_string(), "john@example.com".to_string()).is_err());
    assert!(User::new(1, "John".to_string(), "invalid-email".to_string()).is_err());
}

#[test]
fn test_user_model() {
    let mut model = UserModel::new();
    let user = User::new(1, "John".to_string(), "john@example.com".to_string()).unwrap();

    assert!(model.add_user(user).is_ok());
    assert_eq!(model.user_count(), 1);
    assert!(model.get_user(1).is_some());
    assert!(model.get_user(2).is_none());
}

#[test]
fn test_mvc_integration() {
    let model = UserModel::new();
    let view = ConsoleUserView;
    let mut controller = UserController::new(model, view);

    controller.add_user(1, "Alice".to_string(), "alice@example.com".to_string());
    controller.show_user_count();
}

#[test]
fn test_controller_renders_outcomes() {
    let mut controller = UserController::new(UserModel::new(), ConsoleUserView);
    let out = controller.add_user(1, "Alice".to_string(), "alice@example.com".to_string());
    assert_eq!(out, "OK: User added successfully");
    let out = controller.add_user(1, "Bob".to_string(), "bob@example.com".to_string());
    assert_eq!(out, "Error: User with ID 1 already exists");
    let out = controller.add_user(2, "".to_string(), "x@example.com".to_string());
    assert_eq!(out, "Error: Name cannot be empty");
    let out = controller.show_user(1);
    assert_eq!(out, "User ID: 1\nName: Alice\nEmail: alice@example.com");
    let out = controller.show_user(9);
    assert_eq!(out, "Error: User with ID 9 not found");
    let out = controller.update_user_name(1, "Alice Cooper".to_string());
    assert_eq!(out, "OK: User name updated successfully");
    let out = controller.update_user_email(1, "bad".to_string());
    assert_eq!(out, "Error: Invalid email address");
    let out = controller.show_user_count();
    assert_eq!(out, "OK: Total users: 1");
    let out = controller.remove_user(1);
    assert_eq!(out, "OK: User removed successfully");
    assert_eq!(controller.model.user_count(), 0);
}

#[test]
fn test_json_view_rendering() {
    let user = User::new(7, "Dana".to_string(), "dana@example.com".to_string()).unwrap();
    let controller = UserController::new(
        {
            let mut m = UserModel::new();
            m.add_user(user).unwrap();
            m
        },
        JsonUserView,
    );
    let out = controller.show_user(7);
    assert_eq!(out, "{ \"id\": 7, \"name\": \"Dana\", \"email\": \"dana@example.com\" }");
    let all = controller.show_all_users();
    assert_eq!(all, "[{ \"id\": 7, \"name\": \"Dana\", \"email\": \"dana@example.com\" }]");
}

#[test]
fn test_find_users_by_name_case_insensitive() {
    let mut model = UserModel::new();
    model.add_user(User::new(1, "Alice Johnson".to_string(), "a@example.com".to_string()).unwrap())
        .unwrap();
    model.add_user(User::new(2, "Bob Smith".to_string(), "b@example.com".to_string()).unwrap())
        .unwrap();
    model.add_user(User::new(3, "ALICE COOPER".to_string(), "c@example.com".to_string()).unwrap())
        .unwrap();
    let found = model.find_users_by_name("alice");
    assert_eq!(found.len(), 2);
    assert_eq!(found[0].id(), 1);
    assert_eq!(found[1].id(), 3);
    let none = model.find_users_by_name("zelda");
    assert!(none.is_empty());
}

#[test]
fn test_setters_validate() {
    let mut user = User::new(1, "John".to_string(), "john@example.com".to_string()).unwrap();
    assert!(user.set_name("".to_string()).is_err());
    assert_eq!(user.name(), "John");
    assert!(user.set_email("nope".to_string()).is_err());
    assert_eq!(user.email(), "john@example.com");
    assert!(user.set_name("Johnny".to_string()).is_ok());
    assert_eq!(user.name(), "Johnny");
}
