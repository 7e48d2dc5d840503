use design_patterns::factory::Car;
use design_patterns::factory::CarCreator;
use design_patterns::factory::Vehicle;
use design_patterns::factory::VehicleCreator;
use design_patterns::factory::VehicleFactory;
use design_patterns::factory::VehicleKind;
use design_patterns::factory::VehicleRegistry;
use design_patterns::factory::VehicleType;

#[test]
fn test_simple_factory() {
    let mut config: Vec<(String, String)> = Vec::new();
    config.push(("brand".to_string(), "Toyota".to_string()));
    config.push(("model".to_string(), "Camry".to_string()));
    config.push(("year".to_string(), "2023".to_string()));

    let car = VehicleFactory::create_vehicle(VehicleType::Car, config).unwrap();
    assert!(car.get_info().contains("Toyota"));
    assert!(car.get_info().contains("Camry"));
}

#[test]
fn test_factory_method() {
    let car_creator = CarCreator {
        brand: "BMW".to_string(),
        model: "X5".to_string(),
        year: 2023,
    };

    let vehicle = car_creator.create_vehicle();
    assert!(vehicle.get_info().contains("BMW"));

    let delivery_msg = car_creator.deliver_vehicle();
    assert!(delivery_msg.contains("Delivering"));
}

#[test]
fn test_registry_factory() {
    let mut registry = VehicleRegistry::new();

    registry.register("sports_car", || VehicleKind::Car(Car::new("Ferrari", "458", 2023)));

    let vehicle = registry.create("sports_car").unwrap();
    assert!(vehicle.get_info().contains("Ferrari"));

    let types = registry.list_types();
    assert!(types.contains(&"sports_car".to_string()));
}

#[test]
fn test_factory_error_handling() {
    let config: Vec<(String, String)> = Vec::new(); // Empty config
    let result = VehicleFactory::create_vehicle(VehicleType::Car, config);
    assert!(result.is_err());
}

#[test]
fn test_factory_error_messages() {
    let config: Vec<(String, String)> = Vec::new();
    assert_eq!(
        VehicleFactory::create_vehicle(VehicleType::Car, config).unwrap_err(),
        "Brand required for car"
    );
    let mut config: Vec<(String, String)> = Vec::new();
    config.push(("brand".to_string(), "Toyota".to_string()));
    config.push(("model".to_string(), "Camry".to_string()));
    config.push(("year".to_string(), "soon".to_string()));
    assert_eq!(
        VehicleFactory::create_vehicle(VehicleType::Car, config).unwrap_err(),
        "Invalid year format"
    );
    let mut config: Vec<(String, String)> = Vec::new();
    config.push(("brand".to_string(), "Honda".to_string()));
    assert_eq!(
        VehicleFactory::create_vehicle(VehicleType::Motorcycle, config).unwrap_err(),
        "Engine size required for motorcycle"
    );
    let mut config: Vec<(String, String)> = Vec::new();
    config.push(("brand".to_string(), "Ford".to_string()));
    config.push(("cargo_capacity".to_string(), "5000".to_string()));
    let truck = VehicleFactory::create_vehicle(VehicleType::Truck, config).unwrap();
    assert_eq!(truck.get_info(), "Truck: Ford (5000kg capacity)");
}

#[test]
fn test_vehicle_messages_exact() {
    let car = Car::new("Toyota", "Camry", 2023);
    assert_eq!(car.start(), "Starting 2023 Toyota Camry engine");
    assert_eq!(car.stop(), "Stopping 2023 Toyota Camry");
    assert_eq!(car.get_info(), "Car: 2023 Toyota Camry");
    assert_eq!(car.brand(), "Toyota");
    assert_eq!(car.model(), "Camry");
    assert_eq!(car.year(), 2023);
}

#[test]
fn test_registry_unknown_type() {
    let registry = VehicleRegistry::new();
    assert_eq!(registry.create("rocket").unwrap_err(), "Unknown vehicle type: rocket");
}

#[test]
fn test_registry_defaults() {
    let registry = VehicleRegistry::default();
    let types = registry.list_types();
    assert_eq!(
        types,
        vec![
            "default_car".to_string(),
            "default_motorcycle".to_string(),
            "default_truck".to_string()
        ]
    );
    let car = registry.create("default_car").unwrap();
    assert_eq!(car.get_info(), "Car: 2023 Toyota Camry");
}
