//! A home-theater facade over five small subsystems. Each subsystem call
//! reports what it did as text; the facade strings whole experiences
//! together and applies named presets.

use vstd::prelude::*;

use crate::util::dec_rep;
use crate::util::fmt_u8;
use crate::util::str_eq;

verus! {

/// Plays discs; volume is capped at 100.
pub struct DvdPlayer {
    pub powered_on: bool,
    pub current_disc: Option<String>,
    pub volume: u8,
}

impl DvdPlayer {
    pub fn new() -> (r: DvdPlayer)
        ensures
            !r.powered_on,
            r.current_disc is None,
            r.volume == 50,
    {
        DvdPlayer { powered_on: false, current_disc: None, volume: 50 }
    }

    pub fn power_on(&mut self) -> (r: String)
        ensures
            final(self).powered_on,
            final(self).current_disc == old(self).current_disc,
            final(self).volume == old(self).volume,
            r@ == "DVD Player: Powering on..."@,
    {
        self.powered_on = true;
        "DVD Player: Powering on...".to_owned()
    }

    pub fn power_off(&mut self) -> (r: String)
        ensures
            !final(self).powered_on,
            final(self).current_disc is None,
            final(self).volume == old(self).volume,
            r@ == "DVD Player: Powering off..."@,
    {
        self.powered_on = false;
        self.current_disc = None;
        "DVD Player: Powering off...".to_owned()
    }

    /// Loads a disc when powered; otherwise asks to power on first.
    pub fn insert_disc(&mut self, title: &str) -> (r: String)
        ensures
            !old(self).powered_on ==> *final(self) == *old(self) && r@
                == "DVD Player: Please power on first"@,
            old(self).powered_on ==> final(self).powered_on && final(self).volume == old(
                self,
            ).volume && (match final(self).current_disc {
                Some(t) => t@ == title@,
                None => false,
            }) && r@ == "DVD Player: Inserting disc '"@ + title@ + "'"@,
    {
        if !self.powered_on {
            return "DVD Player: Please power on first".to_owned();
        }
        self.current_disc = Some(title.to_owned());
        let r = "DVD Player: Inserting disc '".to_owned().concat(title).concat("'");
        proof {
            assert(r@ =~= "DVD Player: Inserting disc '"@ + title@ + "'"@);
        }
        r
    }

    /// Reports playback of the loaded disc, or what is missing.
    pub fn play(&self) -> (r: String)
        ensures
            !self.powered_on ==> r@ == "DVD Player: Not powered on"@,
            self.powered_on ==> r@ == (match self.current_disc {
                Some(t) => "DVD Player: Playing '"@ + t@ + "'"@,
                None => "DVD Player: No disc inserted"@,
            }),
    {
        if !self.powered_on {
            return "DVD Player: Not powered on".to_owned();
        }
        match &self.current_disc {
            Some(title) => {
                let r = "DVD Player: Playing '".to_owned().concat(title.as_str()).concat("'");
                proof {
                    assert(r@ =~= "DVD Player: Playing '"@ + self.current_disc->0@ + "'"@);
                }
                r
            },
            None => "DVD Player: No disc inserted".to_owned(),
        }
    }

    pub fn stop(&self) -> (r: String)
        ensures
            r@ == if self.powered_on {
                "DVD Player: Stopping playback"@
            } else {
                "DVD Player: Not powered on"@
            },
    {
        if self.powered_on {
            "DVD Player: Stopping playback".to_owned()
        } else {
            "DVD Player: Not powered on".to_owned()
        }
    }

    /// Sets the volume, capped at 100, while powered.
    pub fn set_volume(&mut self, volume: u8) -> (r: String)
        ensures
            !old(self).powered_on ==> *final(self) == *old(self) && r@
                == "DVD Player: Not powered on"@,
            old(self).powered_on ==> final(self).volume == (if volume > 100 {
                100u8
            } else {
                volume
            }) && final(self).powered_on && final(self).current_disc == old(self).current_disc
                && r@ == "DVD Player: Volume set to "@ + dec_rep(final(self).volume as nat),
    {
        if self.powered_on {
            self.volume = if volume > 100 {
                100
            } else {
                volume
            };
            let r = "DVD Player: Volume set to ".to_owned().concat(fmt_u8(self.volume).as_str());
            proof {
                assert(r@ =~= "DVD Player: Volume set to "@ + dec_rep(self.volume as nat));
            }
            r
        } else {
            "DVD Player: Not powered on".to_owned()
        }
    }
}

impl Default for DvdPlayer {
    /// The same player `new` yields.
    fn default() -> (r: DvdPlayer)
        ensures
            !r.powered_on,
            r.current_disc is None,
            r.volume == 50,
    {
        DvdPlayer::new()
    }
}

/// Projects one input source; brightness is capped at 100.
pub struct Projector {
    pub powered_on: bool,
    pub input_source: Option<String>,
    pub brightness: u8,
}

impl Projector {
    pub fn new() -> (r: Projector)
        ensures
            !r.powered_on,
            r.input_source is None,
            r.brightness == 75,
    {
        Projector { powered_on: false, input_source: None, brightness: 75 }
    }

    pub fn power_on(&mut self) -> (r: String)
        ensures
            final(self).powered_on,
            final(self).input_source == old(self).input_source,
            final(self).brightness == old(self).brightness,
            r@ == "Projector: Warming up... Ready"@,
    {
        self.powered_on = true;
        "Projector: Warming up... Ready".to_owned()
    }

    pub fn power_off(&mut self) -> (r: String)
        ensures
            !final(self).powered_on,
            final(self).input_source is None,
            final(self).brightness == old(self).brightness,
            r@ == "Projector: Cooling down and powering off"@,
    {
        self.powered_on = false;
        self.input_source = None;
        "Projector: Cooling down and powering off".to_owned()
    }

    /// Selects an input while powered; otherwise asks to power on first.
    pub fn set_input(&mut self, source: &str) -> (r: String)
        ensures
            !old(self).powered_on ==> *final(self) == *old(self) && r@
                == "Projector: Please power on first"@,
            old(self).powered_on ==> final(self).powered_on && final(self).brightness == old(
                self,
            ).brightness && (match final(self).input_source {
                Some(s) => s@ == source@,
                None => false,
            }) && r@ == "Projector: Input source set to "@ + source@,
    {
        if !self.powered_on {
            return "Projector: Please power on first".to_owned();
        }
        self.input_source = Some(source.to_owned());
        let r = "Projector: Input source set to ".to_owned().concat(source);
        proof {
            assert(r@ =~= "Projector: Input source set to "@ + source@);
        }
        r
    }

    pub fn set_wide_screen_mode(&self) -> (r: String)
        ensures
            r@ == if self.powered_on {
                "Projector: Setting wide screen mode (16:9)"@
            } else {
                "Projector: Not powered on"@
            },
    {
        if self.powered_on {
            "Projector: Setting wide screen mode (16:9)".to_owned()
        } else {
            "Projector: Not powered on".to_owned()
        }
    }

    /// Sets the brightness, capped at 100, while powered.
    pub fn adjust_brightness(&mut self, brightness: u8) -> (r: String)
        ensures
            !old(self).powered_on ==> *final(self) == *old(self) && r@
                == "Projector: Not powered on"@,
            old(self).powered_on ==> final(self).brightness == (if brightness > 100 {
                100u8
            } else {
                brightness
            }) && final(self).powered_on && final(self).input_source == old(self).input_source
                && r@ == "Projector: Brightness adjusted to "@ + dec_rep(
                final(self).brightness as nat,
            ),
    {
        if self.powered_on {
            self.brightness = if brightness > 100 {
                100
            } else {
                brightness
            };
            let r = "Projector: Brightness adjusted to ".to_owned().concat(
                fmt_u8(self.brightness).as_str(),
            );
            proof {
                assert(r@ =~= "Projector: Brightness adjusted to "@ + dec_rep(
                    self.brightness as nat,
                ));
            }
            r
        } else {
            "Projector: Not powered on".to_owned()
        }
    }
}

impl Default for Projector {
    /// The same projector `new` yields.
    fn default() -> (r: Projector)
        ensures
            !r.powered_on,
            r.input_source is None,
            r.brightness == 75,
    {
        Projector::new()
    }
}

/// Amplifier and speakers; volume capped at 100.
pub struct SoundSystem {
    pub powered_on: bool,
    pub volume: u8,
    pub surround_sound: bool,
    pub input_source: Option<String>,
}

impl SoundSystem {
    pub fn new() -> (r: SoundSystem)
        ensures
            !r.powered_on,
            r.volume == 30,
            !r.surround_sound,
            r.input_source is None,
    {
        SoundSystem { powered_on: false, volume: 30, surround_sound: false, input_source: None }
    }

    pub fn power_on(&mut self) -> (r: String)
        ensures
            final(self).powered_on,
            final(self).volume == old(self).volume,
            final(self).surround_sound == old(self).surround_sound,
            final(self).input_source == old(self).input_source,
            r@ == "Sound System: Powering on amplifier and speakers"@,
    {
        self.powered_on = true;
        "Sound System: Powering on amplifier and speakers".to_owned()
    }

    pub fn power_off(&mut self) -> (r: String)
        ensures
            !final(self).powered_on,
            final(self).volume == old(self).volume,
            final(self).surround_sound == old(self).surround_sound,
            final(self).input_source is None,
            r@ == "Sound System: Powering off"@,
    {
        self.powered_on = false;
        self.input_source = None;
        "Sound System: Powering off".to_owned()
    }

    /// Sets the volume, capped at 100, while powered.
    pub fn set_volume(&mut self, volume: u8) -> (r: String)
        ensures
            !old(self).powered_on ==> *final(self) == *old(self) && r@
                == "Sound System: Not powered on"@,
            old(self).powered_on ==> final(self).volume == (if volume > 100 {
                100u8
            } else {
                volume
            }) && final(self).powered_on && final(self).surround_sound == old(self).surround_sound
                && final(self).input_source == old(self).input_source && r@
                == "Sound System: Volume set to "@ + dec_rep(final(self).volume as nat),
    {
        if self.powered_on {
            self.volume = if volume > 100 {
                100
            } else {
                volume
            };
            let r = "Sound System: Volume set to ".to_owned().concat(fmt_u8(self.volume).as_str());
            proof {
                assert(r@ =~= "Sound System: Volume set to "@ + dec_rep(self.volume as nat));
            }
            r
        } else {
            "Sound System: Not powered on".to_owned()
        }
    }

    /// Switches surround sound while powered.
    pub fn set_surround_sound(&mut self, enabled: bool) -> (r: String)
        ensures
            !old(self).powered_on ==> *final(self) == *old(self) && r@
                == "Sound System: Not powered on"@,
            old(self).powered_on ==> final(self).surround_sound == enabled && final(self).powered_on && final(self).volume == old(self).volume && final(self).input_source
                == old(self).input_source && r@ == (if enabled {
                "Sound System: Surround sound enabled"@
            } else {
                "Sound System: Surround sound disabled"@
            }),
    {
        if self.powered_on {
            self.surround_sound = enabled;
            if enabled {
                "Sound System: Surround sound enabled".to_owned()
            } else {
                "Sound System: Surround sound disabled".to_owned()
            }
        } else {
            "Sound System: Not powered on".to_owned()
        }
    }

    /// Selects an input while powered.
    pub fn set_input(&mut self, source: &str) -> (r: String)
        ensures
            !old(self).powered_on ==> *final(self) == *old(self) && r@
                == "Sound System: Not powered on"@,
            old(self).powered_on ==> final(self).powered_on && final(self).volume == old(
                self,
            ).volume && final(self).surround_sound == old(self).surround_sound && (match final(self).input_source {
                Some(s) => s@ == source@,
                None => false,
            }) && r@ == "Sound System: Input source set to "@ + source@,
    {
        if self.powered_on {
            self.input_source = Some(source.to_owned());
            let r = "Sound System: Input source set to ".to_owned().concat(source);
            proof {
                assert(r@ =~= "Sound System: Input source set to "@ + source@);
            }
            r
        } else {
            "Sound System: Not powered on".to_owned()
        }
    }
}

impl Default for SoundSystem {
    /// The same sound system `new` yields.
    fn default() -> (r: SoundSystem)
        ensures
            !r.powered_on,
            r.volume == 30,
            !r.surround_sound,
            r.input_source is None,
    {
        SoundSystem::new()
    }
}

/// Room lights that can dim to a level.
pub struct Lights {
    pub dimmed: bool,
    pub brightness: u8,
}

impl Lights {
    pub fn new() -> (r: Lights)
        ensures
            !r.dimmed,
            r.brightness == 100,
    {
        Lights { dimmed: false, brightness: 100 }
    }

    /// Dims to a level, capped at 100.
    pub fn dim(&mut self, level: u8) -> (r: String)
        ensures
            final(self).dimmed,
            final(self).brightness == (if level > 100 {
                100u8
            } else {
                level
            }),
            r@ == "Lights: Dimmed to "@ + dec_rep(final(self).brightness as nat) + "%"@,
    {
        self.dimmed = true;
        self.brightness = if level > 100 {
            100
        } else {
            level
        };
        let r = "Lights: Dimmed to ".to_owned().concat(fmt_u8(self.brightness).as_str()).concat(
            "%",
        );
        proof {
            assert(r@ =~= "Lights: Dimmed to "@ + dec_rep(self.brightness as nat) + "%"@);
        }
        r
    }

    pub fn turn_on(&mut self) -> (r: String)
        ensures
            !final(self).dimmed,
            final(self).brightness == 100,
            r@ == "Lights: Turned on to full brightness"@,
    {
        self.dimmed = false;
        self.brightness = 100;
        "Lights: Turned on to full brightness".to_owned()
    }

    pub fn turn_off(&mut self) -> (r: String)
        ensures
            final(self).brightness == 0,
            final(self).dimmed == old(self).dimmed,
            r@ == "Lights: Turned off"@,
    {
        self.brightness = 0;
        "Lights: Turned off".to_owned()
    }
}

impl Default for Lights {
    /// The same lights `new` yields.
    fn default() -> (r: Lights)
        ensures
            !r.dimmed,
            r.brightness == 100,
    {
        Lights::new()
    }
}

/// Pops corn while powered.
pub struct PopcornMachine {
    pub powered_on: bool,
    pub popping: bool,
}

impl PopcornMachine {
    pub fn new() -> (r: PopcornMachine)
        ensures
            !r.powered_on,
            !r.popping,
    {
        PopcornMachine { powered_on: false, popping: false }
    }

    pub fn power_on(&mut self) -> (r: String)
        ensures
            final(self).powered_on,
            final(self).popping == old(self).popping,
            r@ == "Popcorn Machine: Powered on"@,
    {
        self.powered_on = true;
        "Popcorn Machine: Powered on".to_owned()
    }

    pub fn power_off(&mut self) -> (r: String)
        ensures
            !final(self).powered_on,
            !final(self).popping,
            r@ == "Popcorn Machine: Powered off"@,
    {
        self.powered_on = false;
        self.popping = false;
        "Popcorn Machine: Powered off".to_owned()
    }

    pub fn start_popping(&mut self) -> (r: String)
        ensures
            !old(self).powered_on ==> *final(self) == *old(self) && r@
                == "Popcorn Machine: Not powered on"@,
            old(self).powered_on ==> final(self).popping && final(self).powered_on && r@
                == "Popcorn Machine: Popping corn... Pop! Pop! Pop!"@,
    {
        if self.powered_on {
            self.popping = true;
            "Popcorn Machine: Popping corn... Pop! Pop! Pop!".to_owned()
        } else {
            "Popcorn Machine: Not powered on".to_owned()
        }
    }

    pub fn stop_popping(&mut self) -> (r: String)
        ensures
            !old(self).powered_on ==> *final(self) == *old(self) && r@
                == "Popcorn Machine: Not powered on"@,
            old(self).powered_on ==> !final(self).popping && final(self).powered_on && r@
                == "Popcorn Machine: Finished popping"@,
    {
        if self.powered_on {
            self.popping = false;
            "Popcorn Machine: Finished popping".to_owned()
        } else {
            "Popcorn Machine: Not powered on".to_owned()
        }
    }
}

impl Default for PopcornMachine {
    /// The same machine `new` yields.
    fn default() -> (r: PopcornMachine)
        ensures
            !r.powered_on,
            !r.popping,
    {
        PopcornMachine::new()
    }
}

/// A saved combination of settings.
#[derive(Clone, Copy)]
pub struct TheaterPreset {
    pub volume: u8,
    pub brightness: u8,
    pub surround_sound: bool,
    pub light_level: u8,
}

/// The index of the first preset with the given name, or -1.
pub open spec fn preset_index(s: Seq<(String, TheaterPreset)>, name: Seq<char>) -> int
    decreases s.len(),
{
    if s.len() == 0 {
        -1
    } else if s[0].0@ == name {
        0
    } else {
        let rest = preset_index(s.subrange(1, s.len() as int), name);
        if rest == -1 {
            -1
        } else {
            rest + 1
        }
    }
}

pub proof fn lemma_preset_index(s: Seq<(String, TheaterPreset)>, name: Seq<char>)
    ensures
        preset_index(s, name) == -1 ==> forall|k: int| 0 <= k < s.len() ==> s[k].0@ != name,
        preset_index(s, name) != -1 ==> {
            let j = preset_index(s, name);
            0 <= j < s.len() && s[j].0@ == name && forall|k: int| 0 <= k < j ==> s[k].0@ != name
        },
    decreases s.len(),
{
    if s.len() > 0 && s[0].0@ != name {
        let rest = s.subrange(1, s.len() as int);
        lemma_preset_index(rest, name);
        assert(forall|k: int| 1 <= k < s.len() ==> #[trigger] s[k] == rest[k - 1]);
        if preset_index(rest, name) == -1 {
            assert(forall|k: int| 0 <= k < s.len() ==> (#[trigger] s[k]).0@ != name);
        } else {
            let j = preset_index(rest, name);
            assert(s[j + 1].0@ == name);
            assert(forall|k: int| 0 <= k < j + 1 ==> (#[trigger] s[k]).0@ != name);
        }
    }
}

/// One front door to the five subsystems, with named presets.
pub struct HomeTheaterFacade {
    pub dvd_player: DvdPlayer,
    pub projector: Projector,
    pub sound_system: SoundSystem,
    pub lights: Lights,
    pub popcorn_machine: PopcornMachine,
    pub presets: Vec<(String, TheaterPreset)>,
}

impl HomeTheaterFacade {
    /// Everything off, with the three stock presets.
    pub fn new() -> (r: HomeTheaterFacade)
        ensures
            !r.dvd_player.powered_on,
            !r.projector.powered_on,
            !r.sound_system.powered_on,
            !r.lights.dimmed,
            !r.popcorn_machine.powered_on,
            r.presets@.len() == 3,
            r.presets@[0].0@ == "movie"@,
            r.presets@[1].0@ == "music"@,
            r.presets@[2].0@ == "gaming"@,
    {
        let mut presets: Vec<(String, TheaterPreset)> = Vec::new();
        presets.push((
            "movie".to_owned(),
            TheaterPreset { volume: 70, brightness: 85, surround_sound: true, light_level: 10 },
        ));
        presets.push((
            "music".to_owned(),
            TheaterPreset { volume: 60, brightness: 50, surround_sound: true, light_level: 30 },
        ));
        presets.push((
            "gaming".to_owned(),
            TheaterPreset { volume: 80, brightness: 90, surround_sound: true, light_level: 40 },
        ));
        HomeTheaterFacade {
            dvd_player: DvdPlayer::new(),
            projector: Projector::new(),
            sound_system: SoundSystem::new(),
            lights: Lights::new(),
            popcorn_machine: PopcornMachine::new(),
            presets,
        }
    }

    /// The full movie start-up: popcorn, dim lights, projector and sound on
    /// DVD, surround at volume 70, disc in and playing. Fifteen steps are
    /// reported; afterwards everything needed is on.
    pub fn watch_movie(&mut self, movie: &str) -> (r: Vec<String>)
        ensures
            r@.len() == 15,
            final(self).dvd_player.powered_on,
            (match final(self).dvd_player.current_disc {
                Some(t) => t@ == movie@,
                None => false,
            }),
            final(self).projector.powered_on,
            final(self).sound_system.powered_on,
            final(self).sound_system.surround_sound,
            final(self).sound_system.volume == 70,
            final(self).lights.dimmed && final(self).lights.brightness == 10,
            final(self).popcorn_machine.popping,
            final(self).presets == old(self).presets,
            r@[0]@ == "Starting movie experience..."@,
            r@[14]@ == "Movie is now playing! Enjoy!"@,
    {
        let mut steps: Vec<String> = Vec::new();
        steps.push("Starting movie experience...".to_owned());
        steps.push(self.popcorn_machine.power_on());
        steps.push(self.popcorn_machine.start_popping());
        steps.push(self.lights.dim(10));
        steps.push(self.projector.power_on());
        steps.push(self.projector.set_input("DVD"));
        steps.push(self.projector.set_wide_screen_mode());
        steps.push(self.sound_system.power_on());
        steps.push(self.sound_system.set_input("DVD"));
        steps.push(self.sound_system.set_surround_sound(true));
        steps.push(self.sound_system.set_volume(70));
        steps.push(self.dvd_player.power_on());
        steps.push(self.dvd_player.insert_disc(movie));
        steps.push(self.dvd_player.play());
        steps.push("Movie is now playing! Enjoy!".to_owned());
        steps
    }

    /// The shutdown of a movie evening; afterwards everything is off and the
    /// lights are back to full.
    pub fn end_movie(&mut self) -> (r: Vec<String>)
        ensures
            r@.len() == 9,
            !final(self).dvd_player.powered_on,
            !final(self).sound_system.powered_on,
            !final(self).projector.powered_on,
            !final(self).popcorn_machine.powered_on,
            !final(self).lights.dimmed && final(self).lights.brightness == 100,
            final(self).presets == old(self).presets,
            r@[0]@ == "Ending movie experience..."@,
            r@[8]@ == "Movie experience ended. Thanks for watching!"@,
    {
        let mut steps: Vec<String> = Vec::new();
        steps.push("Ending movie experience...".to_owned());
        steps.push(self.dvd_player.stop());
        steps.push(self.dvd_player.power_off());
        steps.push(self.sound_system.power_off());
        steps.push(self.projector.power_off());
        steps.push(self.lights.turn_on());
        steps.push(self.popcorn_machine.stop_popping());
        steps.push(self.popcorn_machine.power_off());
        steps.push("Movie experience ended. Thanks for watching!".to_owned());
        steps
    }

    /// The music set-up: dim lights, sound on AUX with surround at volume 60.
    pub fn listen_to_music(&mut self) -> (r: Vec<String>)
        ensures
            r@.len() == 7,
            final(self).sound_system.powered_on,
            final(self).sound_system.surround_sound,
            final(self).sound_system.volume == 60,
            final(self).lights.dimmed && final(self).lights.brightness == 30,
            final(self).dvd_player == old(self).dvd_player,
            final(self).projector == old(self).projector,
            final(self).popcorn_machine == old(self).popcorn_machine,
            final(self).presets == old(self).presets,
    {
        let mut steps: Vec<String> = Vec::new();
        steps.push("Setting up music experience...".to_owned());
        steps.push(self.lights.dim(30));
        steps.push(self.sound_system.power_on());
        steps.push(self.sound_system.set_input("AUX"));
        steps.push(self.sound_system.set_surround_sound(true));
        steps.push(self.sound_system.set_volume(60));
        steps.push("Music system ready! Connect your device to AUX input.".to_owned());
        steps
    }

    /// The gaming set-up: dim lights, projector on HDMI at brightness 90,
    /// sound on HDMI with surround at volume 80.
    pub fn start_gaming(&mut self) -> (r: Vec<String>)
        ensures
            r@.len() == 10,
            final(self).projector.powered_on,
            final(self).projector.brightness == 90,
            final(self).sound_system.powered_on,
            final(self).sound_system.surround_sound,
            final(self).sound_system.volume == 80,
            final(self).lights.dimmed && final(self).lights.brightness == 40,
            final(self).dvd_player == old(self).dvd_player,
            final(self).popcorn_machine == old(self).popcorn_machine,
            final(self).presets == old(self).presets,
    {
        let mut steps: Vec<String> = Vec::new();
        steps.push("Setting up gaming experience...".to_owned());
        steps.push(self.lights.dim(40));
        steps.push(self.projector.power_on());
        steps.push(self.projector.set_input("HDMI"));
        steps.push(self.projector.adjust_brightness(90));
        steps.push(self.sound_system.power_on());
        steps.push(self.sound_system.set_input("HDMI"));
        steps.push(self.sound_system.set_surround_sound(true));
        steps.push(self.sound_system.set_volume(80));
        steps.push("Gaming setup complete! Connect your console to HDMI.".to_owned());
        steps
    }

    fn find_preset(&self, name: &str) -> (r: Option<usize>)
        ensures
            match r {
                Some(i) => i < self.presets@.len() && preset_index(self.presets@, name@)
                    == i as int,
                None => preset_index(self.presets@, name@) == -1,
            },
    {
        let mut i: usize = 0;
        while i < self.presets.len()
            invariant
                i <= self.presets@.len(),
                forall|k: int| 0 <= k < i ==> (#[trigger] self.presets@[k]).0@ != name@,
            decreases self.presets@.len() - i,
        {
            if str_eq(self.presets[i].0.as_str(), name) {
                proof {
                    lemma_preset_index(self.presets@, name@);
                    let j = preset_index(self.presets@, name@);
                    if j == -1 || j < i || j > i {
                        assert(false);
                    }
                }
                return Some(i);
            }
            i += 1;
        }
        proof {
            lemma_preset_index(self.presets@, name@);
            if preset_index(self.presets@, name@) != -1 {
                assert(false);
            }
        }
        None
    }

    /// Applies a stored preset: the lights always dim to its level; the sound
    /// and projector take their settings only while powered. Unknown preset
    /// names are refused and change nothing.
    pub fn apply_preset(&mut self, preset_name: &str) -> (r: Result<Vec<String>, String>)
        ensures
            r is Ok <==> preset_index(old(self).presets@, preset_name@) >= 0,
            r is Err ==> *final(self) == *old(self) && (r->Err_0)@ == "Unknown preset: "@
                + preset_name@,
            r is Ok ==> ({
                let p = old(self).presets@[preset_index(old(self).presets@, preset_name@)].1;
                &&& final(self).lights.dimmed
                &&& final(self).lights.brightness == (if p.light_level > 100 {
                    100u8
                } else {
                    p.light_level
                })
                &&& (old(self).sound_system.powered_on ==> final(self).sound_system.volume == (
                if p.volume > 100 {
                    100u8
                } else {
                    p.volume
                }) && final(self).sound_system.surround_sound == p.surround_sound)
                &&& (!old(self).sound_system.powered_on ==> final(self).sound_system == old(
                    self,
                ).sound_system)
                &&& (old(self).projector.powered_on ==> final(self).projector.brightness == (
                if p.brightness > 100 {
                    100u8
                } else {
                    p.brightness
                }))
                &&& (!old(self).projector.powered_on ==> final(self).projector == old(
                    self,
                ).projector)
                &&& final(self).dvd_player == old(self).dvd_player
                &&& final(self).popcorn_machine == old(self).popcorn_machine
                &&& final(self).presets == old(self).presets
            }),
    {
        let idx = match self.find_preset(preset_name) {
            Some(idx) => idx,
            None => {
                let msg = "Unknown preset: ".to_owned().concat(preset_name);
                proof {
                    assert(msg@ =~= "Unknown preset: "@ + preset_name@);
                }
                return Err(msg);
            },
        };
        let preset = self.presets[idx].1;
        let mut steps: Vec<String> = Vec::new();
        let header = "Applying '".to_owned().concat(preset_name).concat("' preset...");
        steps.push(header);
        if self.sound_system.powered_on {
            steps.push(self.sound_system.set_volume(preset.volume));
            steps.push(self.sound_system.set_surround_sound(preset.surround_sound));
        }
        if self.projector.powered_on {
            steps.push(self.projector.adjust_brightness(preset.brightness));
        }
        steps.push(self.lights.dim(preset.light_level));
        let footer = "'".to_owned().concat(preset_name).concat("' preset applied successfully!");
        steps.push(footer);
        Ok(steps)
    }

    /// One line per subsystem: ON or OFF, and the light level.
    pub fn get_status(&self) -> (r: String)
        ensures
            r@ == "=== Home Theater Status ===\nDVD Player: "@ + on_off(self.dvd_player.powered_on)
                + "\nProjector: "@ + on_off(self.projector.powered_on) + "\nSound System: "@
                + on_off(self.sound_system.powered_on) + "\nLights: "@ + dec_rep(
                (if self.lights.dimmed {
                    self.lights.brightness
                } else {
                    100u8
                }) as nat,
            ) + "%\nPopcorn Machine: "@ + on_off(self.popcorn_machine.powered_on),
    {
        let level: u8 = if self.lights.dimmed {
            self.lights.brightness
        } else {
            100
        };
        let r = "=== Home Theater Status ===\nDVD Player: ".to_owned().concat(
            if self.dvd_player.powered_on {
                "ON"
            } else {
                "OFF"
            },
        ).concat("\nProjector: ").concat(
            if self.projector.powered_on {
                "ON"
            } else {
                "OFF"
            },
        ).concat("\nSound System: ").concat(
            if self.sound_system.powered_on {
                "ON"
            } else {
                "OFF"
            },
        ).concat("\nLights: ").concat(fmt_u8(level).as_str()).concat("%\nPopcorn Machine: ").concat(
            if self.popcorn_machine.powered_on {
                "ON"
            } else {
                "OFF"
            },
        );
        proof {
            assert(r@ =~= "=== Home Theater Status ===\nDVD Player: "@ + on_off(
                self.dvd_player.powered_on,
            ) + "\nProjector: "@ + on_off(self.projector.powered_on) + "\nSound System: "@ + on_off(
                self.sound_system.powered_on,
            ) + "\nLights: "@ + dec_rep(level as nat) + "%\nPopcorn Machine: "@ + on_off(
                self.popcorn_machine.powered_on,
            ));
        }
        r
    }

    /// Turns everything off at once and brings the lights up.
    pub fn emergency_shutdown(&mut self) -> (r: Vec<String>)
        ensures
            r@.len() == 7,
            !final(self).dvd_player.powered_on,
            !final(self).sound_system.powered_on,
            !final(self).projector.powered_on,
            !final(self).popcorn_machine.powered_on,
            !final(self).lights.dimmed && final(self).lights.brightness == 100,
            final(self).presets == old(self).presets,
            r@[0]@ == "EMERGENCY SHUTDOWN INITIATED!"@,
            r@[6]@ == "All systems safely shut down."@,
    {
        let mut steps: Vec<String> = Vec::new();
        steps.push("EMERGENCY SHUTDOWN INITIATED!".to_owned());
        steps.push(self.dvd_player.power_off());
        steps.push(self.sound_system.power_off());
        steps.push(self.projector.power_off());
        steps.push(self.popcorn_machine.power_off());
        steps.push(self.lights.turn_on());
        steps.push("All systems safely shut down.".to_owned());
        steps
    }

    /// Stores a preset under a new name; a taken name is refused and changes
    /// nothing.
    pub fn add_preset(&mut self, name: &str, preset: TheaterPreset) -> (r: Result<(), String>)
        ensures
            r is Ok <==> preset_index(old(self).presets@, name@) == -1,
            r is Ok ==> final(self).presets@.len() == old(self).presets@.len() + 1 && final(self).presets@.subrange(0, old(self).presets@.len() as int) == old(self).presets@ && final(self).presets@.last().0@ == name@ && final(self).presets@.last().1 == preset && final(self).dvd_player == old(self).dvd_player && final(self).lights == old(self).lights,
            r is Err ==> *final(self) == *old(self) && (r->Err_0)@ == "Preset '"@ + name@
                + "' already exists"@,
    {
        let mut i: usize = 0;
        while i < self.presets.len()
            invariant
                i <= self.presets@.len(),
                forall|k: int| 0 <= k < i ==> (#[trigger] self.presets@[k]).0@ != name@,
            decreases self.presets@.len() - i,
        {
            if str_eq(self.presets[i].0.as_str(), name) {
                proof {
                    lemma_preset_index(self.presets@, name@);
                    let j = preset_index(self.presets@, name@);
                    if j == -1 {
                        assert(false);
                    }
                }
                let msg = "Preset '".to_owned().concat(name).concat("' already exists");
                proof {
                    assert(msg@ =~= "Preset '"@ + name@ + "' already exists"@);
                }
                return Err(msg);
            }
            i += 1;
        }
        proof {
            lemma_preset_index(self.presets@, name@);
            if preset_index(self.presets@, name@) != -1 {
                assert(false);
            }
        }
        self.presets.push((name.to_owned(), preset));
        proof {
            assert(self.presets@.subrange(0, old(self).presets@.len() as int) =~= old(
                self,
            ).presets@);
        }
        Ok(())
    }

    /// The preset names, in storage order.
    pub fn list_presets(&self) -> (r: Vec<String>)
        ensures
            r@.map_values(|s: String| s@) == self.presets@.map_values(
                |p: (String, TheaterPreset)| p.0@,
            ),
    {
        let mut out: Vec<String> = Vec::new();
        let mut i: usize = 0;
        while i < self.presets.len()
            invariant
                i <= self.presets@.len(),
                out@.len() == i,
                forall|k: int| 0 <= k < i ==> (#[trigger] out@[k])@ == self.presets@[k].0@,
            decreases self.presets@.len() - i,
        {
            out.push(self.presets[i].0.clone());
            i += 1;
        }
        proof {
            assert(out@.map_values(|s: String| s@) =~= self.presets@.map_values(
                |p: (String, TheaterPreset)| p.0@,
            ));
        }
        out
    }
}

/// ON or OFF.
pub open spec fn on_off(b: bool) -> Seq<char> {
    if b {
        "ON"@
    } else {
        "OFF"@
    }
}

impl Default for HomeTheaterFacade {
    /// The same facade `new` yields.
    fn default() -> (r: HomeTheaterFacade)
        ensures
            !r.dvd_player.powered_on,
            !r.projector.powered_on,
            !r.sound_system.powered_on,
            r.presets@.len() == 3,
    {
        HomeTheaterFacade::new()
    }
}

} // verus!
