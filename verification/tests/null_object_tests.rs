use design_patterns::null_object::Application;
use design_patterns::null_object::DatabaseService;
use design_patterns::null_object::DbConnectionKind;
use design_patterns::null_object::FileLogger;
use design_patterns::null_object::ConsoleLogger;
use design_patterns::null_object::Customer;
use design_patterns::null_object::CustomerRepository;
use design_patterns::null_object::DatabaseConnection;
use design_patterns::null_object::LoggerKind;
use design_patterns::null_object::Logger;
use design_patterns::null_object::NullCustomer;
use design_patterns::null_object::NullDatabaseConnection;
use design_patterns::null_object::NullLogger;
use design_patterns::null_object::PostgreSQLConnection;
use design_patterns::null_object::RealCustomer;

#[test]
fn test_real_customer() {
    let mut customer =
        RealCustomer::new(1, "John Doe".to_string(), "john@example.com".to_string());
    assert!(!customer.is_null());
    assert_eq!(customer.get_discount_rate(), 5);

    customer.purchase("Laptop");
    assert_eq!(customer.get_loyalty_points(), 10);
    assert_eq!(customer.get_discount_rate(), 5);
}

#[test]
fn test_null_customer() {
    let customer = NullCustomer;
    assert!(customer.is_null());
    assert_eq!(customer.get_discount_rate(), 0);
    assert_eq!(customer.get_name(), "Guest");
    assert_eq!(customer.get_id(), -1);
}

#[test]
fn test_customer_repository() {
    let mut repo = CustomerRepository::new();
    let customer = RealCustomer::new(1, "Alice".to_string(), "alice@example.com".to_string());
    repo.add_customer(customer);

    // Find existing customer
    let found = repo.find_customer(1);
    assert!(!found.is_null());
    assert_eq!(found.get_name(), "Alice");

    // Find non-existing customer - should return the stand-in
    let not_found = repo.find_customer(999);
    assert!(not_found.is_null());
    assert_eq!(not_found.get_name(), "Guest");
}

#[test]
fn test_logger_null_object() {
    let console_logger = ConsoleLogger;
    let null_logger = NullLogger;

    assert!(!console_logger.is_null());
    assert!(null_logger.is_null());
}

#[test]
fn test_database_null_object() {
    let real_db = PostgreSQLConnection::new("postgresql://localhost".to_string()).unwrap();
    let null_db = NullDatabaseConnection;

    assert!(!real_db.is_null());
    assert!(real_db.is_connected());

    assert!(null_db.is_null());
    assert!(!null_db.is_connected());

    // Both should handle queries gracefully
    let _ = real_db.execute_query("SELECT 1");
    let _ = null_db.execute_query("SELECT 1");
}

#[test]
fn test_discount_tiers() {
    let mut customer = RealCustomer::new(2, "Buyer".to_string(), "b@example.com".to_string());
    for _ in 0..6 {
        customer.purchase("Item");
    }
    assert_eq!(customer.get_loyalty_points(), 60);
    assert_eq!(customer.get_discount_rate(), 10);
    for _ in 0..5 {
        customer.purchase("Item");
    }
    assert_eq!(customer.get_loyalty_points(), 110);
    assert_eq!(customer.get_discount_rate(), 15);
}

#[test]
fn test_logger_lines() {
    let console = ConsoleLogger;
    assert_eq!(console.log("INFO", "ready"), "[INFO] ready");
    let file = FileLogger::new("app.log".to_string());
    assert_eq!(file.log("WARN", "low disk"), "[FILE LOG to app.log] [WARN] low disk");
    let silent = NullLogger;
    assert_eq!(silent.log("INFO", "ready"), "");
}

#[test]
fn test_application_run_lines() {
    let app = Application::new("MyApp".to_string(), Some(LoggerKind::Console(ConsoleLogger)));
    let lines = app.run();
    assert_eq!(lines.len(), 6);
    assert_eq!(lines[0], "[INFO] MyApp application starting");
    assert_eq!(lines[5], "[INFO] MyApp application finished");
    let silent_app = Application::new("SilentApp".to_string(), None);
    let silent_lines = silent_app.run();
    assert_eq!(silent_lines, vec!["", "", "", "", "", ""]);
}

#[test]
fn test_database_errors() {
    assert_eq!(
        PostgreSQLConnection::new("".to_string()).unwrap_err(),
        "Invalid connection string"
    );
    let real_db = PostgreSQLConnection::new("postgresql://localhost".to_string()).unwrap();
    assert_eq!(real_db.execute_query("SELECT 1").unwrap(), vec!["Result for: SELECT 1"]);
    let null_db = NullDatabaseConnection;
    assert_eq!(
        null_db.execute_query("SELECT 1").unwrap(),
        vec!["No database connection available"]
    );
}

#[test]
fn test_database_service() {
    let online = DatabaseService::new(Some(DbConnectionKind::Postgres(
        PostgreSQLConnection::new("postgresql://localhost:5432/mydb".to_string()).unwrap(),
    )));
    assert!(online.is_database_available());
    assert_eq!(online.fetch_users().unwrap(), vec!["Result for: SELECT * FROM users"]);
    let offline = DatabaseService::new(None);
    assert!(!offline.is_database_available());
    assert_eq!(offline.fetch_users().unwrap(), vec!["No database connection available"]);
}
