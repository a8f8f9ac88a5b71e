use pomodorolm::pomodoro::{
    create_session_file, ensure_session_file, get_next_pomodoro_from_session_file,
    get_remaining_time, get_session_info, get_session_info_with_default, play,
    play_with_session_file, tick, tick_with_file_session_info, tick_with_session_file,
    ClockError, Config, FileCommand, ParseError, Pomodoro, Session, SessionFile, SessionInfo,
    SessionStatus, SessionType, Timestamp,
};

fn at(secs: u64, nanos: u32) -> Timestamp {
    Timestamp { secs, nanos }
}

fn timer() -> Pomodoro {
    Pomodoro {
        config: Config {
            auto_start_long_break_timer: false,
            auto_start_short_break_timer: false,
            auto_start_focus_timer: false,
            default_focus_label: "Deep work".to_owned(),
            default_long_break_label: "Long Break".to_owned(),
            default_short_break_label: "Short Break".to_owned(),
            focus_duration: 1500,
            long_break_duration: 1200,
            max_focus_rounds: 4,
            session_file: "/tmp/session_of_a_reconcile_test".to_owned(),
            short_break_duration: 300,
        },
        current_session: Session::default(),
        current_work_round_number: 3,
    }
}

fn running_since(start: Timestamp, current_time: u16) -> Pomodoro {
    let mut running = play(&timer());
    running.current_session.start_time = Some(start);
    running.current_session.current_time = current_time;
    running.current_session.label = Some("old label".to_owned());
    running
}

fn info(label: &str, session_type: SessionType, start_time: Timestamp) -> SessionInfo {
    SessionInfo {
        label: label.to_owned(),
        session_type,
        start_time,
    }
}

#[test]
fn a_deleted_file_stops_a_running_session() {
    let running = running_since(at(1000, 0), 60);
    let outcome = tick_with_file_session_info(&running, None, at(1060, 0)).unwrap();
    assert_eq!(
        outcome.pomodoro.current_session.status,
        SessionStatus::NotStarted
    );
    assert_eq!(outcome.pomodoro.current_session.session_file, None);
    assert_eq!(outcome.pomodoro.current_session.current_time, 0);
    assert_eq!(outcome.pomodoro.current_session.start_time, None);
    assert_eq!(
        outcome.pomodoro.current_session.label,
        Some("old label".to_owned())
    );
    assert_eq!(outcome.pomodoro.current_work_round_number, 3);
    assert_eq!(
        outcome.command,
        FileCommand::Remove {
            path: "/tmp/session_of_a_reconcile_test".to_owned()
        }
    );
}

#[test]
fn a_rewritten_file_restarts_the_session() {
    let running = running_since(at(1000, 0), 60);
    let observed = info("new label", SessionType::ShortBreak, at(1060, 1));
    let outcome = tick_with_file_session_info(&running, Some(observed), at(1061, 0)).unwrap();
    assert_eq!(
        outcome.pomodoro.current_session,
        Session {
            current_time: 0,
            label: Some("new label".to_owned()),
            session_file: Some("/tmp/session_of_a_reconcile_test".to_owned()),
            session_type: SessionType::ShortBreak,
            start_time: Some(at(1060, 1)),
            status: SessionStatus::Running,
        }
    );
    assert_eq!(outcome.pomodoro.config, running.config);
    assert_eq!(outcome.pomodoro.current_work_round_number, 3);
    assert_eq!(outcome.command, FileCommand::Nothing);
}

#[test]
fn a_file_newer_by_a_nanosecond_counts_as_rewritten() {
    let running = running_since(at(1000, 999_999_999), 60);
    let same = info("l", SessionType::Focus, at(1000, 999_999_999));
    let newer = info("l", SessionType::Focus, at(1001, 0));
    let kept = tick_with_file_session_info(&running, Some(same), at(1010, 999_999_999)).unwrap();
    assert_eq!(kept.pomodoro.current_session.current_time, 10);
    assert_eq!(
        kept.pomodoro.current_session.label,
        Some("old label".to_owned())
    );
    let restarted = tick_with_file_session_info(&running, Some(newer), at(1010, 0)).unwrap();
    assert_eq!(restarted.pomodoro.current_session.current_time, 0);
    assert_eq!(
        restarted.pomodoro.current_session.start_time,
        Some(at(1001, 0))
    );
}

#[test]
fn a_new_file_starts_a_session_and_is_left_alone() {
    let idle = timer();
    let observed = info("reading", SessionType::LongBreak, at(500, 0));
    let outcome = tick_with_file_session_info(&idle, Some(observed), at(501, 0)).unwrap();
    assert_eq!(
        outcome.pomodoro.current_session,
        Session {
            current_time: 0,
            label: Some("reading".to_owned()),
            session_file: Some("/tmp/session_of_a_reconcile_test".to_owned()),
            session_type: SessionType::LongBreak,
            start_time: Some(at(500, 0)),
            status: SessionStatus::Running,
        }
    );
    assert_eq!(outcome.command, FileCommand::Nothing);
}

#[test]
fn a_restarted_process_finds_its_progress_in_the_files_time() {
    // a session began at 500 and the process that showed it is gone
    let file = SessionFile {
        content: "focus;thesis".to_owned(),
        modified: at(500, 0),
    };
    let fresh = timer();
    let first = get_next_pomodoro_from_session_file(Some(&file), &fresh, at(1100, 0)).unwrap();
    assert_eq!(first.command, FileCommand::Nothing);
    assert_eq!(
        first.pomodoro.current_session.status,
        SessionStatus::Running
    );
    let second =
        get_next_pomodoro_from_session_file(Some(&file), &first.pomodoro, at(1101, 0)).unwrap();
    assert_eq!(second.command, FileCommand::Nothing);
    assert_eq!(second.pomodoro.current_session.current_time, 601);
    assert_eq!(
        second.pomodoro.current_session.label,
        Some("thesis".to_owned())
    );
}

#[test]
fn a_session_without_a_start_on_record_takes_the_files() {
    let mut running = play(&timer());
    running.current_session.current_time = 7;
    let observed = info("reading", SessionType::Focus, at(500, 0));
    let outcome = tick_with_file_session_info(&running, Some(observed), at(900, 0)).unwrap();
    assert_eq!(outcome.pomodoro.current_session.current_time, 7);
    assert_eq!(
        outcome.pomodoro.current_session.start_time,
        Some(at(500, 0))
    );
    assert_eq!(
        outcome.pomodoro.current_session.label,
        Some("reading".to_owned())
    );
    assert_eq!(outcome.command, FileCommand::Nothing);
}

#[test]
fn an_unchanged_file_gives_the_time_from_the_clock() {
    let running = running_since(at(1000, 0), 3);
    let observed = info("ignored", SessionType::ShortBreak, at(1000, 0));
    let outcome = tick_with_file_session_info(&running, Some(observed), at(1030, 0)).unwrap();
    let mut expected = running.clone();
    expected.current_session.current_time = 30;
    assert_eq!(outcome.pomodoro, expected);
    assert_eq!(outcome.command, FileCommand::Nothing);
}

#[test]
fn a_begun_second_counts_as_elapsed() {
    let running = running_since(at(1000, 0), 3);
    let observed = info("l", SessionType::Focus, at(1000, 0));
    let outcome =
        tick_with_file_session_info(&running, Some(observed), at(1030, 500_000_000)).unwrap();
    assert_eq!(outcome.pomodoro.current_session.current_time, 31);
}

#[test]
fn an_older_file_is_followed_from_its_own_time() {
    let running = running_since(at(1000, 0), 3);
    let observed = info("l", SessionType::Focus, at(990, 0));
    let outcome = tick_with_file_session_info(&running, Some(observed), at(1030, 0)).unwrap();
    assert_eq!(outcome.pomodoro.current_session.current_time, 40);
    assert_eq!(
        outcome.pomodoro.current_session.start_time,
        Some(at(1000, 0))
    );
}

#[test]
fn a_session_whose_time_is_up_is_abandoned() {
    let running = running_since(at(1000, 0), 3);
    for now in [at(2500, 0), at(2499, 1), at(9000, 0)] {
        let observed = info("l", SessionType::Focus, at(1000, 0));
        let outcome = tick_with_file_session_info(&running, Some(observed), now).unwrap();
        assert_eq!(
            outcome.pomodoro.current_session.status,
            SessionStatus::NotStarted
        );
        assert_eq!(outcome.pomodoro.current_session.current_time, 0);
        assert_eq!(outcome.pomodoro.current_session.session_file, None);
        assert_eq!(outcome.pomodoro.current_session.session_type, SessionType::Focus);
        assert_eq!(outcome.pomodoro.current_work_round_number, 3);
        assert_eq!(
            outcome.command,
            FileCommand::Remove {
                path: "/tmp/session_of_a_reconcile_test".to_owned()
            }
        );
    }
    let observed = info("l", SessionType::Focus, at(1000, 0));
    let outcome = tick_with_file_session_info(&running, Some(observed), at(2499, 0)).unwrap();
    assert_eq!(outcome.pomodoro.current_session.current_time, 1499);
    assert_eq!(
        outcome.pomodoro.current_session.status,
        SessionStatus::Running
    );
}

#[test]
fn the_duration_is_that_of_the_sessions_kind() {
    let mut running = running_since(at(1000, 0), 3);
    running.current_session.session_type = SessionType::ShortBreak;
    let observed = info("l", SessionType::ShortBreak, at(1000, 0));
    let outcome = tick_with_file_session_info(&running, Some(observed), at(1300, 0)).unwrap();
    assert_eq!(
        outcome.pomodoro.current_session.status,
        SessionStatus::NotStarted
    );
    let observed = info("l", SessionType::ShortBreak, at(1000, 0));
    let outcome = tick_with_file_session_info(&running, Some(observed), at(1299, 0)).unwrap();
    assert_eq!(outcome.pomodoro.current_session.current_time, 299);
}

#[test]
fn a_clock_before_the_files_time_is_an_error() {
    let running = running_since(at(1000, 0), 3);
    let observed = info("l", SessionType::Focus, at(1000, 0));
    let outcome = tick_with_file_session_info(&running, Some(observed), at(999, 999_999_999));
    assert_eq!(outcome, Err(ClockError::Backwards));
}

#[test]
fn a_paused_session_stays_paused_while_its_time_is_derived() {
    let mut paused = running_since(at(1000, 0), 3);
    paused.current_session.status = SessionStatus::Paused;
    let observed = info("l", SessionType::Focus, at(1000, 0));
    let outcome = tick_with_file_session_info(&paused, Some(observed), at(1010, 0)).unwrap();
    assert_eq!(
        outcome.pomodoro.current_session.status,
        SessionStatus::Paused
    );
    assert_eq!(outcome.pomodoro.current_session.current_time, 10);
}

#[test]
fn remaining_time_is_rounded_down() {
    assert_eq!(get_remaining_time(&at(100, 0), &at(130, 0), 1500), Ok(1470));
    assert_eq!(
        get_remaining_time(&at(100, 0), &at(130, 500_000_000), 1500),
        Ok(1469)
    );
    assert_eq!(get_remaining_time(&at(100, 0), &at(100, 0), 1500), Ok(1500));
    assert_eq!(get_remaining_time(&at(100, 0), &at(100, 1), 1500), Ok(1499));
    assert_eq!(get_remaining_time(&at(100, 0), &at(1600, 0), 1500), Ok(0));
    assert_eq!(
        get_remaining_time(&at(100, 0), &at(1599, 999_999_999), 1500),
        Ok(0)
    );
    assert_eq!(get_remaining_time(&at(100, 0), &at(100, 0), 0), Ok(0));
    assert_eq!(
        get_remaining_time(&at(0, 0), &at(u64::MAX, u32::MAX), u64::MAX),
        Ok(0)
    );
    assert_eq!(
        get_remaining_time(&at(0, 0), &at(0, 0), u64::MAX),
        Ok(u64::MAX)
    );
}

#[test]
fn remaining_time_fails_on_a_clock_that_went_back() {
    assert_eq!(
        get_remaining_time(&at(100, 1), &at(100, 0), 1500),
        Err(ClockError::Backwards)
    );
    assert_eq!(
        get_remaining_time(&at(101, 0), &at(100, 999_999_999), 1500),
        Err(ClockError::Backwards)
    );
}

#[test]
fn instants_are_ordered_by_their_nanoseconds() {
    assert!(at(2, 0).is_after(&at(1, 999_999_999)));
    assert!(at(1, 1).is_after(&at(1, 0)));
    assert!(!at(1, 0).is_after(&at(1, 0)));
    assert!(!at(1, 0).is_after(&at(1, 1)));
    assert!(!at(1, 0).is_after(&at(0, 1_000_000_000)));
    assert!(at(0, 1_000_000_001).is_after(&at(1, 0)));
    assert!(at(u64::MAX, u32::MAX).is_after(&at(u64::MAX, 0)));
}

#[test]
fn a_session_file_is_read_with_its_time() {
    let file = SessionFile {
        content: "ShortBreak;tea\n".to_owned(),
        modified: at(42, 7),
    };
    assert_eq!(
        get_session_info(&file),
        Ok(SessionInfo {
            label: "tea".to_owned(),
            session_type: SessionType::ShortBreak,
            start_time: at(42, 7),
        })
    );
}

#[test]
fn white_space_around_the_line_is_set_aside() {
    let file = SessionFile {
        content: " \t focus;a label  \r\n".to_owned(),
        modified: at(42, 7),
    };
    let read = get_session_info(&file).unwrap();
    assert_eq!(read.session_type, SessionType::Focus);
    assert_eq!(read.label, "a label");
}

#[test]
fn a_written_file_reads_back() {
    for session_type in [
        SessionType::Focus,
        SessionType::ShortBreak,
        SessionType::LongBreak,
    ] {
        for label in ["", "working", "  indented", "two words", "d\u{e9}jeuner"] {
            let mut idle = timer();
            idle.current_session.session_type = session_type;
            idle.current_session.label = Some(label.to_owned());
            let content = match create_session_file(&idle) {
                FileCommand::Write { content, .. } => content,
                other => panic!("{other:?}"),
            };
            let file = SessionFile {
                content,
                modified: at(9, 9),
            };
            assert_eq!(
                get_session_info(&file),
                Ok(SessionInfo {
                    label: label.to_owned(),
                    session_type,
                    start_time: at(9, 9),
                })
            );
        }
    }
    let mut idle = timer();
    idle.current_session.label = Some("trailing \t".to_owned());
    let content = match create_session_file(&idle) {
        FileCommand::Write { content, .. } => content,
        other => panic!("{other:?}"),
    };
    assert_eq!(content, "focus;trailing \t");
    let file = SessionFile {
        content,
        modified: at(9, 9),
    };
    assert_eq!(get_session_info(&file).unwrap().label, "trailing");
}

#[test]
fn a_file_that_is_no_session_line_is_an_error() {
    let file = SessionFile {
        content: "nothing to see".to_owned(),
        modified: at(42, 7),
    };
    assert_eq!(get_session_info(&file), Err(ParseError::MalformedLine));
    let file = SessionFile {
        content: "nap;now".to_owned(),
        modified: at(42, 7),
    };
    assert_eq!(
        get_session_info(&file),
        Err(ParseError::UnknownSessionType("nap".to_owned()))
    );
}

#[test]
fn the_default_info_starts_now_or_at_the_files_time() {
    let idle = timer();
    assert_eq!(
        get_session_info_with_default(None, &idle, at(77, 5)),
        SessionInfo {
            label: "Deep work".to_owned(),
            session_type: SessionType::Focus,
            start_time: at(77, 5),
        }
    );
    for content in ["a;b;c", "", "gibberish", "nap;now", ";"] {
        let broken = SessionFile {
            content: content.to_owned(),
            modified: at(42, 7),
        };
        assert_eq!(
            get_session_info_with_default(Some(&broken), &idle, at(77, 5)),
            SessionInfo {
                label: "Deep work".to_owned(),
                session_type: SessionType::Focus,
                start_time: at(42, 7),
            }
        );
    }
}

#[test]
fn resuming_a_backed_session_writes_nothing() {
    let paused = {
        let mut running = running_since(at(1000, 0), 60);
        running.current_session.status = SessionStatus::Paused;
        running
    };
    let resumed = play_with_session_file(&paused, &info("x", SessionType::LongBreak, at(1234, 5)));
    let mut expected = paused.clone();
    expected.current_session.status = SessionStatus::Running;
    expected.current_session.start_time = Some(at(1234, 5));
    assert_eq!(resumed.pomodoro, expected);
    assert_eq!(resumed.command, FileCommand::Nothing);
    assert_eq!(ensure_session_file(&paused), FileCommand::Nothing);
}

#[test]
fn resuming_an_idle_session_creates_the_file() {
    let mut idle = timer();
    idle.current_session.session_type = SessionType::LongBreak;
    idle.current_session.label = Some("walk".to_owned());
    let resumed = play_with_session_file(&idle, &info("x", SessionType::Focus, at(1234, 5)));
    assert_eq!(
        resumed.pomodoro.current_session,
        Session {
            current_time: 0,
            label: Some("walk".to_owned()),
            session_file: Some("/tmp/session_of_a_reconcile_test".to_owned()),
            session_type: SessionType::LongBreak,
            start_time: Some(at(1234, 5)),
            status: SessionStatus::Running,
        }
    );
    assert_eq!(resumed.command, create_session_file(&idle));
    assert_eq!(resumed.command, ensure_session_file(&idle));
    assert_eq!(
        resumed.command,
        FileCommand::Write {
            path: "/tmp/session_of_a_reconcile_test".to_owned(),
            content: "longbreak;walk".to_owned(),
        }
    );
}

#[test]
fn a_file_that_cannot_be_read_still_starts_a_session() {
    let idle = timer();
    let file = SessionFile {
        content: "gibberish".to_owned(),
        modified: at(10, 0),
    };
    let outcome = get_next_pomodoro_from_session_file(Some(&file), &idle, at(20, 0)).unwrap();
    assert_eq!(
        outcome.pomodoro.current_session.status,
        SessionStatus::Running
    );
    assert_eq!(
        outcome.pomodoro.current_session.label,
        Some("Deep work".to_owned())
    );
    assert_eq!(
        outcome.pomodoro.current_session.session_type,
        SessionType::Focus
    );
    assert_eq!(
        outcome.pomodoro.current_session.start_time,
        Some(at(10, 0))
    );
    assert_eq!(outcome.command, FileCommand::Nothing);
}

#[test]
fn a_file_that_cannot_be_read_is_followed_by_its_time() {
    let file = SessionFile {
        content: "garbage".to_owned(),
        modified: at(1000, 0),
    };
    let first = get_next_pomodoro_from_session_file(Some(&file), &timer(), at(1005, 0)).unwrap();
    assert_eq!(first.pomodoro.current_session.status, SessionStatus::Running);
    assert_eq!(first.pomodoro.current_session.start_time, Some(at(1000, 0)));
    assert_eq!(first.pomodoro.current_session.current_time, 0);

    // one second later the session has moved on with the clock
    let second =
        get_next_pomodoro_from_session_file(Some(&file), &first.pomodoro, at(1006, 0)).unwrap();
    assert_eq!(second.pomodoro.current_session.status, SessionStatus::Running);
    assert_eq!(second.pomodoro.current_session.start_time, Some(at(1000, 0)));
    assert_eq!(second.pomodoro.current_session.current_time, 6);
    assert_eq!(
        second.pomodoro.current_session.label,
        Some("Deep work".to_owned())
    );
    assert_eq!(second.command, FileCommand::Nothing);

    // and another second later
    let third =
        get_next_pomodoro_from_session_file(Some(&file), &second.pomodoro, at(1007, 0)).unwrap();
    assert_eq!(third.pomodoro.current_session.current_time, 7);
    assert_eq!(third.pomodoro.current_session.start_time, Some(at(1000, 0)));

    // whatever had been counted, the time is the clock's
    let mut miscounted = second.pomodoro.clone();
    miscounted.current_session.current_time = 1234;
    let again =
        get_next_pomodoro_from_session_file(Some(&file), &miscounted, at(1100, 0)).unwrap();
    assert_eq!(again.pomodoro.current_session.current_time, 100);
    assert_eq!(again.pomodoro.current_session.status, SessionStatus::Running);
}

#[test]
fn a_stale_file_that_cannot_be_read_abandons_the_session() {
    let file = SessionFile {
        content: "garbage".to_owned(),
        modified: at(1000, 0),
    };
    let running = running_since(at(1000, 0), 3);
    let outcome =
        get_next_pomodoro_from_session_file(Some(&file), &running, at(100_900, 0)).unwrap();
    assert_eq!(
        outcome.pomodoro.current_session.status,
        SessionStatus::NotStarted
    );
    assert_eq!(outcome.pomodoro.current_session.current_time, 0);
    assert_eq!(outcome.pomodoro.current_session.session_file, None);
    assert_eq!(outcome.pomodoro.current_work_round_number, 3);
    assert_eq!(
        outcome.command,
        FileCommand::Remove {
            path: "/tmp/session_of_a_reconcile_test".to_owned()
        }
    );

    // just before its time is up the session still runs
    let outcome = get_next_pomodoro_from_session_file(Some(&file), &running, at(2499, 0)).unwrap();
    assert_eq!(outcome.pomodoro.current_session.status, SessionStatus::Running);
    assert_eq!(outcome.pomodoro.current_session.current_time, 1499);
}

#[test]
fn a_clock_before_the_time_of_a_file_that_cannot_be_read_is_an_error() {
    let file = SessionFile {
        content: "garbage".to_owned(),
        modified: at(1000, 0),
    };
    let running = running_since(at(1000, 0), 3);
    assert_eq!(
        get_next_pomodoro_from_session_file(Some(&file), &running, at(999, 0)),
        Err(ClockError::Backwards)
    );
}

#[test]
fn a_counting_driver_is_started_by_a_file() {
    let idle = timer();
    let file = SessionFile {
        content: "ShortBreak;tea".to_owned(),
        modified: at(50, 0),
    };
    let started = tick_with_session_file(Some(&file), &idle, at(51, 0));
    assert_eq!(
        Ok(&started),
        get_next_pomodoro_from_session_file(Some(&file), &idle, at(51, 0)).as_ref()
    );
    assert_eq!(
        started.pomodoro.current_session,
        Session {
            current_time: 0,
            label: Some("tea".to_owned()),
            session_file: Some("/tmp/session_of_a_reconcile_test".to_owned()),
            session_type: SessionType::ShortBreak,
            start_time: Some(at(50, 0)),
            status: SessionStatus::Running,
        }
    );
    assert_eq!(started.command, FileCommand::Nothing);

    // from then on it counts by itself
    let ticked = tick_with_session_file(Some(&file), &started.pomodoro, at(52, 0));
    assert_eq!(ticked, tick(&started.pomodoro));
    assert_eq!(ticked.pomodoro.current_session.current_time, 1);
    assert_eq!(
        ticked.pomodoro.current_session.session_type,
        SessionType::ShortBreak
    );

    // also when the file has gone
    let ticked = tick_with_session_file(None, &ticked.pomodoro, at(53, 0));
    assert_eq!(ticked.pomodoro.current_session.current_time, 2);
    assert_eq!(ticked.pomodoro.current_session.status, SessionStatus::Running);
}

#[test]
fn a_counting_driver_without_a_file_just_ticks() {
    let idle = timer();
    assert_eq!(tick_with_session_file(None, &idle, at(5, 0)), tick(&idle));
    let running = play(&idle);
    assert_eq!(
        tick_with_session_file(None, &running, at(5, 0)),
        tick(&running)
    );
    let mut ending = play(&idle);
    ending.config.auto_start_short_break_timer = true;
    ending.current_session.current_time = 1499;
    assert_eq!(
        tick_with_session_file(None, &ending, at(5, 0)),
        tick(&ending)
    );
}

#[test]
fn a_session_that_starts_by_itself_takes_the_file_over() {
    let file = SessionFile {
        content: "focus;thesis".to_owned(),
        modified: at(50, 0),
    };
    let mut ending = running_since(at(50, 0), 1499);
    ending.config.auto_start_short_break_timer = true;
    let handed_over = tick_with_session_file(Some(&file), &ending, at(1550, 0));
    assert_eq!(
        handed_over.pomodoro.current_session,
        Session {
            current_time: 0,
            label: None,
            session_file: Some("/tmp/session_of_a_reconcile_test".to_owned()),
            session_type: SessionType::ShortBreak,
            start_time: Some(at(1550, 0)),
            status: SessionStatus::Running,
        }
    );
    assert_eq!(handed_over.pomodoro.current_work_round_number, 3);
    assert_eq!(
        handed_over.command,
        FileCommand::Write {
            path: "/tmp/session_of_a_reconcile_test".to_owned(),
            content: "shortbreak;working".to_owned(),
        }
    );

    // the break goes on counting; the file does not start the old session again
    let file = SessionFile {
        content: "shortbreak;working".to_owned(),
        modified: at(1550, 1),
    };
    let ticked = tick_with_session_file(Some(&file), &handed_over.pomodoro, at(1551, 0));
    assert_eq!(
        ticked.pomodoro.current_session.session_type,
        SessionType::ShortBreak
    );
    assert_eq!(ticked.pomodoro.current_session.current_time, 1);
    assert_eq!(ticked.command, FileCommand::Nothing);
}

#[test]
fn a_session_that_waits_to_be_started_leaves_no_file() {
    let file = SessionFile {
        content: "focus;thesis".to_owned(),
        modified: at(50, 0),
    };
    let ending = running_since(at(50, 0), 1499);
    let over = tick_with_session_file(Some(&file), &ending, at(1550, 0));
    assert_eq!(over, tick(&ending));
    assert_eq!(
        over.pomodoro.current_session.status,
        SessionStatus::NotStarted
    );
    assert_eq!(
        over.command,
        FileCommand::Remove {
            path: "/tmp/session_of_a_reconcile_test".to_owned()
        }
    );
}

#[test]
fn a_driver_loop_follows_an_outside_writer() {
    let mut state = timer();
    let mut file: Option<SessionFile> = None;

    // nothing on disk: nothing happens
    let outcome = get_next_pomodoro_from_session_file(file.as_ref(), &state, at(100, 0)).unwrap();
    assert_eq!(outcome.command, FileCommand::Nothing);
    state = outcome.pomodoro;
    assert_eq!(state, timer());

    // another process writes the file
    file = Some(SessionFile {
        content: "focus;thesis\n".to_owned(),
        modified: at(101, 0),
    });
    let outcome = get_next_pomodoro_from_session_file(file.as_ref(), &state, at(101, 5)).unwrap();
    assert_eq!(outcome.command, FileCommand::Nothing);
    state = outcome.pomodoro;
    assert_eq!(state.current_session.status, SessionStatus::Running);
    assert_eq!(state.current_session.label, Some("thesis".to_owned()));
    assert_eq!(state.current_session.start_time, Some(at(101, 0)));

    // from then on the time follows the clock, also across a long sleep
    let outcome = get_next_pomodoro_from_session_file(file.as_ref(), &state, at(102, 0)).unwrap();
    state = outcome.pomodoro;
    assert_eq!(state.current_session.current_time, 1);
    let outcome = get_next_pomodoro_from_session_file(file.as_ref(), &state, at(701, 0)).unwrap();
    state = outcome.pomodoro;
    assert_eq!(state.current_session.current_time, 600);

    // the other process writes the file again
    file = Some(SessionFile {
        content: "shortbreak;tea\n".to_owned(),
        modified: at(800, 0),
    });
    let outcome = get_next_pomodoro_from_session_file(file.as_ref(), &state, at(801, 0)).unwrap();
    assert_eq!(outcome.command, FileCommand::Nothing);
    state = outcome.pomodoro;
    assert_eq!(state.current_session.session_type, SessionType::ShortBreak);
    assert_eq!(state.current_session.label, Some("tea".to_owned()));
    assert_eq!(state.current_session.current_time, 0);
    assert_eq!(state.current_session.start_time, Some(at(800, 0)));

    // the other process deletes the file
    file = None;
    let outcome = get_next_pomodoro_from_session_file(file.as_ref(), &state, at(702, 0)).unwrap();
    assert_eq!(
        outcome.pomodoro.current_session.status,
        SessionStatus::NotStarted
    );
    assert_eq!(outcome.pomodoro.current_session.session_file, None);
}
