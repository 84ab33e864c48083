use mytt::session::{Session, SessionType};

#[test]
fn test_start_session() {
    let mut session = Session::new();
    assert_eq!(session.current_session, SessionType::Work);
    session.start_session();
    assert_eq!(session.current_session, SessionType::ShortBreak);
    assert_eq!(session.work_sessions, 1);
    session.start_session();
    assert_eq!(session.current_session, SessionType::Work);
    assert_eq!(session.work_sessions, 1);
}

#[test]
fn test_long_break_session() {
    let mut session = Session::new();
    for _ in 0..3 {
        session.start_session();
        session.start_session();
    }
    // The fourth work period ends here.
    session.start_session();
    assert_eq!(session.current_session, SessionType::LongBreak);
    assert_eq!(session.work_sessions, 4);
    assert_eq!(session.long_break_sessions, 0);
    session.start_session();
    assert_eq!(session.current_session, SessionType::Work);
    assert_eq!(session.work_sessions, 4);
    assert_eq!(session.long_break_sessions, 1);
}

#[test]
fn test_get_session_duration() {
    let session = Session::new();
    assert_eq!(session.get_session_duration(), 25);
    let session = Session {
        current_session: SessionType::ShortBreak,
        ..Default::default()
    };
    assert_eq!(session.get_session_duration(), 5);
    let session = Session {
        current_session: SessionType::LongBreak,
        ..Default::default()
    };
    assert_eq!(session.get_session_duration(), 15);
}

#[test]
fn test_skip_break() {
    let mut session = Session::new();
    session.start_session();
    assert_eq!(session.current_session, SessionType::ShortBreak);
    session.skip_break();
    assert_eq!(session.current_session, SessionType::Work);
    let mut session = Session {
        current_session: SessionType::LongBreak,
        ..Default::default()
    };
    session.skip_break();
    assert_eq!(session.current_session, SessionType::Work);
}

#[test]
fn breaks_of_one_cycle_come_in_order() {
    let mut session = Session::new();
    let mut breaks = Vec::new();
    for _ in 0..4 {
        session.start_session();
        breaks.push(session.current_session);
        session.start_session();
        assert_eq!(session.current_session, SessionType::Work);
    }
    assert_eq!(
        breaks,
        vec![
            SessionType::ShortBreak,
            SessionType::ShortBreak,
            SessionType::ShortBreak,
            SessionType::LongBreak
        ]
    );
    assert_eq!(session.work_sessions, 4);
    assert_eq!(session.long_break_sessions, 1);
}

#[test]
fn skip_from_work_gives_short_break_and_keeps_counters() {
    let mut session = Session::new();
    session.skip_break();
    assert_eq!(session.current_session, SessionType::ShortBreak);
    assert_eq!(session.work_sessions, 0);
    assert_eq!(session.long_break_sessions, 0);
}

#[test]
fn threshold_of_two_gives_long_break_every_second_work_period() {
    let mut session = Session {
        long_break_threshold: 2,
        ..Default::default()
    };
    session.start_session();
    assert_eq!(session.current_session, SessionType::ShortBreak);
    session.start_session();
    session.start_session();
    assert_eq!(session.current_session, SessionType::LongBreak);
    assert_eq!(session.get_session_duration(), 15);
}
