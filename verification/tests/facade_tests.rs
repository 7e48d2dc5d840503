use design_patterns::facade::DvdPlayer;
use design_patterns::facade::HomeTheaterFacade;
use design_patterns::facade::TheaterPreset;

#[test]
fn test_home_theater_movie_experience() {
    let mut theater = HomeTheaterFacade::new();
    let steps = theater.watch_movie("The Matrix");

    assert!(!steps.is_empty());
    assert!(steps.iter().any(|s| s.contains("Starting movie")));
    assert!(steps.iter().any(|s| s.contains("The Matrix")));

    let end_steps = theater.end_movie();
    assert!(end_steps.iter().any(|s| s.contains("Ending movie")));
}

#[test]
fn test_theater_presets() {
    let mut theater = HomeTheaterFacade::new();
    let presets = theater.list_presets();

    assert!(presets.contains(&"movie".to_string()));
    assert!(presets.contains(&"music".to_string()));
    assert!(presets.contains(&"gaming".to_string()));

    // Test adding custom preset
    let custom_preset =
        TheaterPreset { volume: 50, brightness: 60, surround_sound: false, light_level: 25 };

    assert!(theater.add_preset("custom", custom_preset).is_ok());
    assert!(theater
        .add_preset(
            "custom",
            TheaterPreset { volume: 50, brightness: 60, surround_sound: false, light_level: 25 }
        )
        .is_err()); // Duplicate name
}

#[test]
fn test_dvd_player_subsystem() {
    let mut player = DvdPlayer::new();

    assert!(player.play().contains("Not powered on"));

    player.power_on();
    assert!(player.play().contains("No disc"));

    player.insert_disc("Test Movie");
    assert!(player.play().contains("Test Movie"));
}

#[test]
fn test_watch_movie_sets_everything_up() {
    let mut theater = HomeTheaterFacade::new();
    let steps = theater.watch_movie("Heat");
    assert_eq!(steps.len(), 15);
    assert_eq!(steps[0], "Starting movie experience...");
    assert_eq!(steps[3], "Lights: Dimmed to 10%");
    assert_eq!(steps[10], "Sound System: Volume set to 70");
    assert_eq!(steps[12], "DVD Player: Inserting disc 'Heat'");
    assert_eq!(steps[13], "DVD Player: Playing 'Heat'");
    assert_eq!(steps[14], "Movie is now playing! Enjoy!");
    assert!(theater.sound_system.powered_on);
    assert!(theater.sound_system.surround_sound);
    assert_eq!(theater.sound_system.volume, 70);
    assert!(theater.popcorn_machine.popping);
    let status = theater.get_status();
    assert!(status.contains("DVD Player: ON"));
    assert!(status.contains("Lights: 10%"));
}

#[test]
fn test_apply_preset() {
    let mut theater = HomeTheaterFacade::new();
    theater.sound_system.power_on();
    theater.projector.power_on();
    let steps = theater.apply_preset("gaming").unwrap();
    assert_eq!(steps[0], "Applying 'gaming' preset...");
    assert_eq!(theater.sound_system.volume, 80);
    assert!(theater.sound_system.surround_sound);
    assert_eq!(theater.projector.brightness, 90);
    assert_eq!(theater.lights.brightness, 40);
    let err = theater.apply_preset("karaoke").unwrap_err();
    assert_eq!(err, "Unknown preset: karaoke");
}

#[test]
fn test_emergency_shutdown() {
    let mut theater = HomeTheaterFacade::new();
    theater.watch_movie("Alien");
    let steps = theater.emergency_shutdown();
    assert_eq!(steps[0], "EMERGENCY SHUTDOWN INITIATED!");
    assert_eq!(steps[6], "All systems safely shut down.");
    assert!(!theater.dvd_player.powered_on);
    assert!(!theater.sound_system.powered_on);
    assert!(!theater.projector.powered_on);
    assert!(!theater.popcorn_machine.powered_on);
    assert_eq!(theater.lights.brightness, 100);
}

#[test]
fn test_subsystems_refuse_while_off() {
    let mut theater = HomeTheaterFacade::new();
    assert_eq!(theater.sound_system.set_volume(40), "Sound System: Not powered on");
    assert_eq!(theater.projector.set_input("HDMI"), "Projector: Please power on first");
    assert_eq!(theater.popcorn_machine.start_popping(), "Popcorn Machine: Not powered on");
    assert_eq!(theater.dvd_player.set_volume(80), "DVD Player: Not powered on");
}

#[test]
fn test_volume_caps_at_hundred() {
    let mut player = DvdPlayer::new();
    player.power_on();
    assert_eq!(player.set_volume(250), "DVD Player: Volume set to 100");
    assert_eq!(player.volume, 100);
}
