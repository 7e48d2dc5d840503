use design_patterns::builder::ComputerBuilder;
use design_patterns::builder::ComputerDirector;
use design_patterns::builder::FluentComputerBuilder;
use design_patterns::builder::TypedComputerBuilder;

#[test]
fn test_basic_builder() {
    let computer = ComputerBuilder::new()
        .cpu("Intel i5")
        .ram(16)
        .storage(512)
        .motherboard("ASUS B550")
        .power_supply(650)
        .case_type("Mid Tower")
        .build()
        .unwrap();

    assert_eq!(computer.cpu, "Intel i5");
    assert_eq!(computer.ram_gb, 16);
    assert_eq!(computer.storage_gb, 512);
}

#[test]
fn test_builder_validation() {
    let result = ComputerBuilder::new()
        .cpu("Intel i5")
        .ram(2) // Below minimum
        .storage(512)
        .motherboard("ASUS B550")
        .power_supply(650)
        .case_type("Mid Tower")
        .build();

    assert!(result.is_err());
    assert!(result.unwrap_err().contains("4GB"));
}

#[test]
fn test_director_gaming_pc() {
    let gaming_pc = ComputerDirector::build_gaming_pc().unwrap();
    assert!(gaming_pc.cpu.contains("i7"));
    assert!(gaming_pc.gpu.is_some());
    assert!(!gaming_pc.peripherals.is_empty());
}

#[test]
fn test_computer_pricing() {
    let computer = ComputerDirector::build_gaming_pc().unwrap();
    let price = computer.estimated_price();
    assert!(price > 1000); // Gaming PC should be expensive
}

#[test]
fn test_fluent_builder() {
    let computer = FluentComputerBuilder::new()
        .cpu("AMD Ryzen 5")
        .ram(16)
        .validate_and_build()
        .unwrap();

    assert_eq!(computer.cpu, "AMD Ryzen 5");
    assert_eq!(computer.ram_gb, 16);
}

#[test]
fn test_fluent_builder_validation() {
    let result = FluentComputerBuilder::new().cpu("").ram(2).validate_and_build();

    assert!(result.is_err());
    let errors = result.unwrap_err();
    assert_eq!(errors.len(), 2);
}

#[test]
fn test_builder_missing_parts_in_order() {
    let err = ComputerBuilder::new().build().unwrap_err();
    assert_eq!(err, "CPU is required");
    let err = ComputerBuilder::new().cpu("Intel i5").build().unwrap_err();
    assert_eq!(err, "RAM is required");
    let err = ComputerBuilder::new().cpu("Intel i5").ram(8).build().unwrap_err();
    assert_eq!(err, "Storage is required");
    let err = ComputerBuilder::new()
        .cpu("Intel i5")
        .ram(8)
        .storage(100)
        .motherboard("B")
        .power_supply(500)
        .case_type("Mini")
        .build()
        .unwrap_err();
    assert_eq!(err, "Minimum 120GB storage required");
}

#[test]
fn test_exact_gaming_price() {
    // 500 base + 300 (i7) + 32*4 RAM + 1000/5 storage + 800 (RTX 40) + 3*50.
    let gaming_pc = ComputerDirector::build_gaming_pc().unwrap();
    assert_eq!(gaming_pc.estimated_price(), 500 + 300 + 128 + 200 + 800 + 150);
}

#[test]
fn test_get_specs_lists_everything() {
    let computer = ComputerDirector::build_gaming_pc().unwrap();
    let specs = computer.get_specs();
    assert!(specs.contains("CPU: Intel Core i7-13700K"));
    assert!(specs.contains("RAM: 32GB"));
    assert!(specs.contains("GPU: NVIDIA RTX 4070"));
    assert!(specs.contains("Peripherals: Gaming Keyboard, Gaming Mouse, Gaming Headset"));
    assert!(specs.contains("Warranty: 2 years"));
}

#[test]
fn test_typed_builder() {
    let computer = TypedComputerBuilder::new().cpu("Intel i3").ram(8);
    assert_eq!(computer.cpu.as_deref(), Some("Intel i3"));
    assert_eq!(computer.ram_gb, Some(8));
}
