use design_patterns::state::GameCharacter;
use design_patterns::state::GameInput;
use design_patterns::state::TrafficColor;
use design_patterns::state::TrafficLight;
use design_patterns::state::VendingMachine;

#[test]
fn test_vending_machine_states() {
    let mut machine = VendingMachine::new();

    // Initial state
    assert_eq!(machine.get_state_name(), "Idle");

    // Insert coin
    machine.insert_coin(150).unwrap();
    assert_eq!(machine.get_state_name(), "HasMoney");

    // Select product
    machine.select_product("A1").unwrap();
    assert_eq!(machine.get_state_name(), "Dispensing");

    // Dispense
    machine.dispense().unwrap();
    assert_eq!(machine.get_state_name(), "Idle");
}

#[test]
fn test_traffic_light_states() {
    let mut light = TrafficLight::new();

    assert_eq!(light.get_current_color(), TrafficColor::Red);

    // Simulate time passing
    for _ in 0..30 {
        light.tick().unwrap();
    }

    // Should change to green
    light.tick().unwrap();
    assert_eq!(light.get_current_color(), TrafficColor::Green);
}

#[test]
fn test_game_character_states() {
    let mut character = GameCharacter::new();

    assert_eq!(character.get_state_name(), "Idle");

    // Start walking
    character.handle_input(GameInput::MoveRight).unwrap();
    assert_eq!(character.get_state_name(), "Walking");

    // Jump while walking
    character.handle_input(GameInput::Jump).unwrap();
    assert_eq!(character.get_state_name(), "Jumping");
}

#[test]
fn test_vending_machine_insufficient_funds() {
    let mut machine = VendingMachine::new();

    machine.insert_coin(50).unwrap(); // Not enough for any product
    let result = machine.select_product("A1"); // Costs 150 cents

    assert!(result.is_err());
    assert!(result.unwrap_err().contains("Insufficient funds"));
}

#[test]
fn test_character_energy_consumption() {
    let mut character = GameCharacter::new();

    // Drain energy
    for _ in 0..7 {
        // Each attack consumes 15 energy
        if character.get_energy() >= 15 {
            character.handle_input(GameInput::Attack).unwrap();
            character.update(600).unwrap(); // Wait for attack to finish
        }
    }

    // Should not be able to attack with low energy
    let result = character.handle_input(GameInput::Attack);
    assert!(result.is_err());
}

#[test]
fn test_vending_round_trip_exact_change() {
    let mut machine = VendingMachine::new();
    let msg = machine.insert_coin(100).unwrap();
    assert_eq!(msg, "Inserted 100\u{a2}. Total: 100\u{a2}");
    assert_eq!(machine.get_state_name(), "HasMoney");
    machine.insert_coin(50).unwrap();
    assert_eq!(machine.get_inserted_amount(), 150);
    let selected = machine.select_product("A1").unwrap();
    assert_eq!(selected, "Selected Soda. Dispensing...");
    assert_eq!(machine.get_state_name(), "Dispensing");
    let dispensed = machine.dispense().unwrap();
    assert_eq!(dispensed, "Dispensed Soda");
    assert_eq!(machine.get_state_name(), "Idle");
    assert_eq!(machine.get_inserted_amount(), 0);
    assert_eq!(machine.get_product("A1").unwrap().stock, 9);
    let status = machine.get_status();
    assert_eq!(status.change_available, 1000);
    assert_eq!(status.selected_product, None);
}

#[test]
fn test_vending_rejections_change_nothing() {
    let mut machine = VendingMachine::new();
    let err = machine.select_product("A1").unwrap_err();
    assert_eq!(err, "Please insert coins first");
    assert_eq!(machine.get_state_name(), "Idle");
    machine.insert_coin(50).unwrap();
    let err = machine.select_product("Z9").unwrap_err();
    assert_eq!(err, "Product Z9 not found");
    assert_eq!(machine.get_state_name(), "HasMoney");
    assert_eq!(machine.get_inserted_amount(), 50);
    let err = machine.insert_coin(0).unwrap_err();
    assert_eq!(err, "Invalid coin amount");
    assert_eq!(machine.get_inserted_amount(), 50);
    let err = machine.dispense().unwrap_err();
    assert_eq!(err, "Please select a product first");
    let ok = machine.cancel_transaction().unwrap();
    assert_eq!(ok, "Transaction cancelled. Returned 50\u{a2}");
    assert_eq!(machine.get_state_name(), "Idle");
    let ok = machine.cancel_transaction().unwrap();
    assert_eq!(ok, "No transaction to cancel");
}

#[test]
fn test_out_of_stock_dispense_is_no_op() {
    let mut machine = VendingMachine::new();
    machine.insert_coin(150).unwrap();
    machine.select_product("A1").unwrap();
    assert_eq!(machine.get_state_name(), "Dispensing");
    // The product runs out between selection and dispensing.
    machine.products[0].stock = 0;
    let err = machine.dispense().unwrap_err();
    assert_eq!(err, "Product out of stock");
    // The rejection changes nothing: same state, same context.
    assert_eq!(machine.get_state_name(), "Dispensing");
    assert_eq!(machine.get_inserted_amount(), 150);
    assert_eq!(machine.get_product("A1").unwrap().stock, 0);
    assert_eq!(machine.get_status().change_available, 1000);
    // Restocked, the same dispense goes through.
    machine.products[0].stock = 3;
    assert_eq!(machine.dispense().unwrap(), "Dispensed Soda");
    assert_eq!(machine.get_state_name(), "Idle");
    assert_eq!(machine.get_product("A1").unwrap().stock, 2);
}

#[test]
fn test_pedestrian_extension() {
    let mut light = TrafficLight::new();
    for _ in 0..30 {
        light.tick().unwrap();
    }
    assert_eq!(light.get_current_color(), TrafficColor::Green);
    assert_eq!(light.get_elapsed_time(), 0);
    light.request_pedestrian_crossing();
    for _ in 0..44 {
        light.tick().unwrap();
    }
    assert_eq!(light.get_current_color(), TrafficColor::Green);
    // The 45th tick defers the change by one cycle and clears the request.
    let msg = light.tick().unwrap();
    assert_eq!(msg, "Pedestrian crossing requested - extending GREEN light");
    assert_eq!(light.get_current_color(), TrafficColor::Green);
    assert_eq!(light.get_elapsed_time(), 45);
    assert!(!light.is_pedestrian_requested());
    // The deferral is single: the next tick turns the light yellow.
    let msg = light.tick().unwrap();
    assert_eq!(msg, "Traffic light changed from GREEN to YELLOW");
    assert_eq!(light.get_current_color(), TrafficColor::Yellow);
}

#[test]
fn test_vending_exact_change_required() {
    let mut machine = VendingMachine::new();
    machine.change_dispenser = 10;
    machine.insert_coin(200).unwrap();
    let err = machine.select_product("A1").unwrap_err();
    assert_eq!(err, "Exact change required");
    assert_eq!(machine.get_state_name(), "HasMoney");
    assert_eq!(machine.get_inserted_amount(), 200);
}

#[test]
fn test_traffic_light_full_cycle() {
    let mut light = TrafficLight::new();
    for _ in 0..29 {
        light.tick().unwrap();
        assert_eq!(light.get_current_color(), TrafficColor::Red);
    }
    let msg = light.tick().unwrap();
    assert_eq!(msg, "Traffic light changed from RED to GREEN");
    assert_eq!(light.get_current_color(), TrafficColor::Green);
    assert_eq!(light.get_elapsed_time(), 0);
    assert!(light.can_cross());
    for _ in 0..44 {
        light.tick().unwrap();
        assert_eq!(light.get_current_color(), TrafficColor::Green);
    }
    let msg = light.tick().unwrap();
    assert_eq!(msg, "Traffic light changed from GREEN to YELLOW");
    assert_eq!(light.get_current_color(), TrafficColor::Yellow);
    for _ in 0..5 {
        light.tick().unwrap();
    }
    assert_eq!(light.get_current_color(), TrafficColor::Red);
}

#[test]
fn test_traffic_light_emergency_override() {
    let mut light = TrafficLight::new();
    for _ in 0..32 {
        light.tick().unwrap();
    }
    assert_eq!(light.get_current_color(), TrafficColor::Green);
    light.set_emergency_mode(true);
    assert_eq!(light.get_current_color(), TrafficColor::Red);
    assert_eq!(light.get_elapsed_time(), 0);
    let msg = light.tick().unwrap();
    assert_eq!(msg, "Emergency mode: Traffic light set to RED");
    assert_eq!(light.get_current_color(), TrafficColor::Red);
    assert_eq!(light.get_elapsed_time(), 0);
    light.set_emergency_mode(false);
    assert!(!light.is_emergency_mode());
}

#[test]
fn test_traffic_light_remaining_message() {
    let mut light = TrafficLight::new();
    let msg = light.tick().unwrap();
    assert_eq!(msg, "Current: Red (29s remaining)");
}

#[test]
fn test_character_energy_gating() {
    let mut character = GameCharacter::new();
    character.energy = 10;
    let result = character.handle_input(GameInput::Jump);
    assert!(result.is_err());
    assert_eq!(character.get_state_name(), "Idle");
    assert_eq!(character.get_energy(), 10);
    // Passive regeneration: one point per update tick.
    for _ in 0..10 {
        character.update(16).unwrap();
    }
    assert_eq!(character.get_energy(), 20);
    let result = character.handle_input(GameInput::Jump);
    assert!(result.is_ok());
    assert_eq!(character.get_state_name(), "Jumping");
    assert_eq!(character.get_energy(), 0);
}

#[test]
fn test_character_attack_rejections() {
    let mut character = GameCharacter::new();
    character.handle_input(GameInput::Attack).unwrap();
    assert_eq!(character.get_state_name(), "Attacking");
    let err = character.handle_input(GameInput::MoveLeft).unwrap_err();
    assert_eq!(err, "Cannot act while attacking");
    assert_eq!(character.get_state_name(), "Attacking");
    let ok = character.handle_input(GameInput::Attack).unwrap();
    assert_eq!(ok, "Already attacking");
    character.update(500).unwrap();
    assert_eq!(character.get_state_name(), "Idle");
}

#[test]
fn test_character_landing() {
    let mut character = GameCharacter::new();
    character.handle_input(GameInput::Jump).unwrap();
    assert_eq!(character.get_state_name(), "Jumping");
    assert!(!character.is_grounded());
    // Fall until the ground check catches the character.
    for _ in 0..5 {
        character.update(1000).unwrap();
    }
    assert!(character.is_grounded());
    assert_eq!(character.get_state_name(), "Idle");
}
