use mytt::config::{AnnoyingLevel, Config};

#[test]
fn missing_settings_give_defaults() {
    let c = Config::default();
    assert_eq!(c.short_break_duration(), 5);
    assert_eq!(c.long_break_duration(), 15);
    assert_eq!(c.work_duration(), 25);
    assert_eq!(c.sessions_long_break(), 4);
    assert_eq!(c.theme(), "default");
    assert_eq!(c.work_sound(), "default");
    assert_eq!(c.break_sound(), "default");
    assert_eq!(c.annoying_level(), AnnoyingLevel::Off);
    assert!(!c.should_blink_background());
}

#[test]
fn given_settings_are_kept() {
    let c = Config {
        short_break_duration: Some(7),
        long_break_duration: Some(20),
        work_duration: Some(50),
        theme: Some("dark".to_string()),
        work_sound: Some("bell".to_string()),
        break_sound: Some("gong".to_string()),
        annoying_level: Some(AnnoyingLevel::Medium),
        sessions_long_break: Some(3),
    };
    assert_eq!(c.short_break_duration(), 7);
    assert_eq!(c.long_break_duration(), 20);
    assert_eq!(c.work_duration(), 50);
    assert_eq!(c.sessions_long_break(), 3);
    assert_eq!(c.theme(), "dark");
    assert_eq!(c.work_sound(), "bell");
    assert_eq!(c.break_sound(), "gong");
    assert_eq!(c.annoying_level(), AnnoyingLevel::Medium);
    assert!(!c.should_blink_background());
}

#[test]
fn only_high_level_blinks() {
    let mut c = Config::default();
    c.annoying_level = Some(AnnoyingLevel::High);
    assert!(c.should_blink_background());
    c.annoying_level = Some(AnnoyingLevel::Low);
    assert!(!c.should_blink_background());
}
