use mytt::service::{get_script, AppState};
use mytt::session::SessionType;

#[test]
fn new_state_records_app_or_fallback() {
    let s = AppState::new(None);
    assert_eq!(s.app_name, "mytt");
    let s = AppState::new(Some("Editor".to_string()));
    assert_eq!(s.app_name, "Editor");
    assert_eq!(s.session.current_session, SessionType::Work);
    assert_eq!(s.stopwatch.elapsed(), 0);
}

#[test]
fn start_hook_carries_time_before_start_and_app_name() {
    let mut s = AppState::new(Some("Editor".to_string()));
    let t = s.on_start_at(0, Some("/hooks/on_start".to_string())).unwrap();
    assert_eq!(t.script, "/hooks/on_start");
    assert_eq!(t.time, "00:00:00");
    assert_eq!(t.app_name, "Editor");
    assert_eq!(s.stopwatch.elapsed_at(65_000), 65_000);
    assert_eq!(s.session.current_session, SessionType::ShortBreak);
    assert_eq!(s.session.work_sessions, 1);
}

#[test]
fn stop_hook_carries_elapsed_time_then_clears() {
    let mut s = AppState::new(None);
    assert!(s.on_start_at(0, None).is_none());
    let t = s.on_stop_at(3_661_000, Some("/hooks/on_stop".to_string())).unwrap();
    assert_eq!(t.time, "01:01:01");
    assert_eq!(t.app_name, "mytt");
    assert_eq!(s.stopwatch.elapsed_at(5_000_000), 0);
    assert_eq!(s.session.current_session, SessionType::Work);
}

#[test]
fn pause_and_resume_hooks() {
    let mut s = AppState::new(None);
    s.on_start_at(0, None);
    let t = s.on_pause_at(5_000, Some("/hooks/on_pause".to_string())).unwrap();
    assert_eq!(t.time, "00:00:05");
    assert_eq!(s.stopwatch.elapsed_at(9_000), 5_000);
    let t = s.on_resume_at(9_000, Some("/hooks/on_resume".to_string())).unwrap();
    assert_eq!(t.time, "00:00:05");
    assert_eq!(s.stopwatch.elapsed_at(10_000), 6_000);
    assert_eq!(s.session.current_session, SessionType::ShortBreak);
}

#[test]
fn skip_break_moves_session_only() {
    let mut s = AppState::new(None);
    s.on_start_at(0, None);
    assert!(s.on_skip_break_at(2_000, None).is_none());
    assert_eq!(s.session.current_session, SessionType::Work);
    assert_eq!(s.stopwatch.elapsed_at(2_000), 2_000);
}

#[test]
fn blur_records_active_app() {
    let mut s = AppState::new(None);
    s.on_blur(Some("Browser".to_string()));
    assert_eq!(s.app_name, "Browser");
    let t = s.task_for(0, Some("/h".to_string())).unwrap();
    assert_eq!(t.app_name, "Browser");
    s.on_blur(None);
    assert_eq!(s.app_name, "mytt");
}

#[test]
fn clock_driven_events_keep_their_shape() {
    let mut s = AppState::new(None);
    let t = s.on_start(Some("/hooks/on_start".to_string())).unwrap();
    assert_eq!(t.time, "00:00:00");
    s.on_pause(None);
    s.on_resume(None);
    s.on_skip_break(None);
    s.on_stop(None);
    assert_eq!(s.get_time(), "00:00:00");
}

#[test]
fn found_script_gives_its_path() {
    assert_eq!(
        get_script("on_start", "/cfg/scripts/on_start", true),
        Ok("/cfg/scripts/on_start".to_string())
    );
}

#[test]
fn missing_script_gives_message() {
    assert_eq!(
        get_script("on_stop", "/cfg/scripts/on_stop", false),
        Err("Error: on_stop script not found at /cfg/scripts/on_stop".to_string())
    );
}
