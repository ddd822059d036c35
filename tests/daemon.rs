use led_controller::client::{same_text, ClientType, WebStatus};
use led_controller::color::Color;
use led_controller::daemon::{create_effect, ActiveEffect, Args, EffectSlot, TickInput};
use led_controller::effects::coding::Mode;
use led_controller::effects::EffectError;
use led_controller::frame::LED_SIZE;

fn gradient() -> Vec<Color> {
    (0..LED_SIZE).map(|i| Color::new(i as u8, 0, 255 - i as u8)).collect()
}

#[test]
fn default_slot_runs_the_rainbow() {
    let g = gradient();
    let mut slot = EffectSlot::new(ClientType::RainbowEffect, g.clone());
    assert_eq!(slot.kind(), ClientType::RainbowEffect);
    let t = slot.tick(TickInput::Nothing);
    assert_eq!(t.delay_ms, 10);
    assert_eq!(t.transmission(), Some(g.clone()));
    let t = slot.tick(TickInput::Nothing);
    let f = t.transmission().unwrap();
    assert_eq!(f[0], g[LED_SIZE - 1]);
    assert_eq!(f[1], g[0]);
}

#[test]
fn switch_to_random_block() {
    let mut slot = EffectSlot::new(ClientType::RainbowEffect, gradient());
    slot.tick(TickInput::Nothing);
    let kind = ClientType::from_name("randomblock").unwrap();
    assert_eq!(kind, ClientType::RandomEffect);
    slot.set_effect(kind);
    assert_eq!(slot.kind(), ClientType::RandomEffect);
    assert_eq!(slot.delay_ms(), 1000);
    let t = slot.tick(TickInput::Nothing);
    assert_eq!(t.delay_ms, 1000);
    let f = t.transmission().unwrap();
    assert_eq!(f.len(), LED_SIZE);
    assert!(f.iter().all(|c| c.0 as u32 + c.1 as u32 + c.2 as u32 == 255));
}

#[test]
fn switch_restarts_the_effect() {
    let mut slot = EffectSlot::new(ClientType::TestEffect, gradient());
    slot.tick(TickInput::Nothing);
    slot.tick(TickInput::Nothing);
    slot.set_effect(ClientType::TestEffect);
    let f = slot.tick(TickInput::Nothing).transmission().unwrap();
    assert!(f.iter().all(|c| *c == Color::red()));
}

#[test]
fn failed_signal_transmits_nothing() {
    let mut slot = EffectSlot::new(ClientType::CodingEffect, gradient());
    let t = slot.tick(TickInput::SignalFailed);
    assert_eq!(t.outcome, Err(EffectError::SignalUnavailable));
    assert_eq!(t.transmission(), None);
}

#[test]
fn repeated_mode_transmits_nothing() {
    let mut slot = EffectSlot::new(ClientType::CodingEffect, gradient());
    let mut transmissions = 0;
    for _ in 0..3 {
        if slot.tick(TickInput::EditorMode(Mode::Insert)).transmission().is_some() {
            transmissions += 1;
        }
    }
    assert_eq!(transmissions, 1);
}

#[test]
fn spectrum_frames_pass_through_when_they_fit() {
    let mut slot = EffectSlot::new(ClientType::MusicVisualiserEffect, gradient());
    assert_eq!(slot.delay_ms(), 0);
    let t = slot.tick(TickInput::Spectrum(vec![Color::blue(); LED_SIZE]));
    assert_eq!(t.transmission(), Some(vec![Color::blue(); LED_SIZE]));
    let t = slot.tick(TickInput::Nothing);
    assert_eq!(t.outcome, Err(EffectError::SignalUnavailable));
}

#[test]
fn keys_drive_the_ripple_effect() {
    let mut slot = EffectSlot::new(ClientType::TypingRippleEffect, gradient());
    let t = slot.tick(TickInput::Keys { now_ms: 100, releases: 1 });
    let f = t.transmission().unwrap();
    assert_ne!(f[LED_SIZE - 1], Color::black());
    let t = slot.tick(TickInput::Nothing);
    assert_eq!(t.transmission(), None);
}

#[test]
fn startup_effect_follows_the_arguments() {
    let g = gradient();
    let args = Args { effect: None, web_status: None, test: true, kill: false };
    assert!(matches!(create_effect(&args, &g), ActiveEffect::Test(_)));
    let args = Args { effect: None, web_status: None, test: false, kill: false };
    assert!(matches!(create_effect(&args, &g), ActiveEffect::Rainbow(_)));
    let args = Args { effect: Some(ClientType::CodingEffect), web_status: Some(WebStatus::On), test: true, kill: false };
    assert!(matches!(create_effect(&args, &g), ActiveEffect::Coding(_)));
}

#[test]
fn kinds_are_listed_in_order() {
    let all = ClientType::all();
    assert_eq!(all.len(), 6);
    assert_eq!(all[0], ClientType::TestEffect);
    assert_eq!(all[5], ClientType::TypingRippleEffect);
    assert_eq!(ClientType::from_index(2), Some(ClientType::RandomEffect));
    assert_eq!(ClientType::from_index(6), None);
    assert_eq!(ClientType::MusicVisualiserEffect.name(), "MusicVisualiserEffect");
}

#[test]
fn kind_names_match_fuzzily() {
    assert_eq!(ClientType::from_name("RainbowEffect"), Some(ClientType::RainbowEffect));
    assert_eq!(ClientType::from_name("rainbow"), Some(ClientType::RainbowEffect));
    assert_eq!(ClientType::from_name("typing"), Some(ClientType::TypingRippleEffect));
    assert_eq!(ClientType::from_name("music"), Some(ClientType::MusicVisualiserEffect));
    assert_eq!(ClientType::from_name("zzz"), None);
}

#[test]
fn non_ascii_names_match_nothing() {
    assert_eq!(ClientType::from_name("é"), None);
    assert_eq!(ClientType::from_name("rainbowé"), None);
}

#[test]
fn web_status_words() {
    assert_eq!(WebStatus::from_text("on"), WebStatus::On);
    assert_eq!(WebStatus::from_text("OFF"), WebStatus::Off);
    assert_eq!(WebStatus::from_text("True"), WebStatus::On);
    assert_eq!(WebStatus::from_text("FALSE"), WebStatus::Off);
    assert_eq!(WebStatus::from_text("1"), WebStatus::On);
    assert_eq!(WebStatus::from_text("0"), WebStatus::Off);
    assert_eq!(WebStatus::from_text("whatever"), WebStatus::On);
    assert_eq!(WebStatus::from_lowered("OFF"), WebStatus::On);
}

#[test]
fn same_text_compares_characters() {
    assert!(same_text("abc", "abc"));
    assert!(!same_text("abc", "abd"));
    assert!(!same_text("abc", "ab"));
    assert!(same_text("", ""));
}
