use xpm::exit_status::{decode_exit, exit_succeeded, ExitKind};
use xpm::relay::{input_step, output_step, InputNotice, InputStep, OutputStep};
use xpm::session::{Action, Lifecycle, Notice, Pty, Session, SessionEvent};

fn fresh() -> Session {
    Session::new(
        String::from("System Update"),
        String::from("pkexec"),
        vec![String::from("pacman"), String::from("-Syu")],
    )
}

fn running() -> Session {
    let mut s = fresh();
    s.step(Notice::PtyAllocated { pty: Pty { master: 7, slave: 8 } });
    s.step(Notice::Spawned { pid: 4242 });
    s
}

fn shown(actions: &Vec<Action>) -> Vec<String> {
    actions.iter().map(|a| format!("{:?}", a)).collect()
}

fn events(actions: &Vec<Action>) -> Vec<String> {
    let mut out = Vec::new();
    for a in actions {
        if let Action::Emit { event } = a {
            out.push(format!("{:?}", event));
        }
    }
    out
}

#[test]
fn a_new_session_is_spawning_and_holds_nothing() {
    let s = fresh();
    assert_eq!(s.title, "System Update");
    assert_eq!(s.command, "pkexec");
    assert_eq!(s.args, vec!["pacman", "-Syu"]);
    assert!(matches!(s.state, Lifecycle::Spawning { pty: None }));
}

#[test]
fn an_allocated_terminal_asks_for_the_spawn_on_its_slave() {
    let mut s = fresh();
    let actions = s.step(Notice::PtyAllocated { pty: Pty { master: 7, slave: 8 } });
    assert_eq!(shown(&actions), vec!["Spawn { slave: 8 }"]);
    assert!(matches!(s.state, Lifecycle::Spawning { pty: Some(Pty { master: 7, slave: 8 }) }));
}

#[test]
fn a_spawned_child_closes_the_slave_and_starts_the_session() {
    let mut s = fresh();
    s.step(Notice::PtyAllocated { pty: Pty { master: 7, slave: 8 } });
    let actions = s.step(Notice::Spawned { pid: 4242 });
    assert_eq!(
        shown(&actions),
        vec![
            "CloseDescriptor { fd: 8 }",
            "Emit { event: Started { title: \"System Update\" } }",
            "StartRelays { master: 7 }",
            "AwaitExit { pid: 4242 }",
        ]
    );
    assert!(matches!(s.state, Lifecycle::Running { master: 7, child: 4242, input_open: true }));
}

#[test]
fn no_terminal_fails_the_session_with_an_error_line() {
    let mut s = fresh();
    let actions = s.step(Notice::PtyUnavailable);
    assert_eq!(
        shown(&actions),
        vec![
            "Emit { event: Output { text: \"Error: openpty failed\\n\" } }",
            "Emit { event: Finished { success: false } }",
        ]
    );
    match s.state {
        Lifecycle::Failed { reason } => assert_eq!(reason, "openpty failed"),
        other => panic!("unexpected state {:?}", other),
    }
}

#[test]
fn a_failed_spawn_closes_both_descriptors_before_reporting() {
    let mut s = fresh();
    s.step(Notice::PtyAllocated { pty: Pty { master: 7, slave: 8 } });
    let actions =
        s.step(Notice::SpawnFailed { detail: String::from("No such file or directory") });
    assert_eq!(
        shown(&actions),
        vec![
            "CloseDescriptor { fd: 8 }",
            "CloseDescriptor { fd: 7 }",
            "Emit { event: Output { text: \"Error: Failed to spawn pkexec: No such file or directory\\n\" } }",
            "Emit { event: Finished { success: false } }",
        ]
    );
    match s.state {
        Lifecycle::Failed { reason } => {
            assert_eq!(reason, "Failed to spawn pkexec: No such file or directory")
        }
        other => panic!("unexpected state {:?}", other),
    }
}

#[test]
fn exit_with_code_zero_finishes_with_success_after_cleanup() {
    let mut s = running();
    let actions = s.step(Notice::ChildExited { status: 0 });
    assert_eq!(
        shown(&actions),
        vec![
            "ClearTarget",
            "CloseInput",
            "CloseDescriptor { fd: 7 }",
            "JoinOutputRelay",
            "JoinInputRelay",
            "Emit { event: Finished { success: true } }",
        ]
    );
    assert!(matches!(s.state, Lifecycle::Finished { success: true }));
}

#[test]
fn exit_with_another_code_finishes_with_failure() {
    let mut s = running();
    let actions = s.step(Notice::ChildExited { status: 1 << 8 });
    assert_eq!(events(&actions), vec!["Finished { success: false }"]);
    assert!(matches!(s.state, Lifecycle::Finished { success: false }));
}

#[test]
fn death_by_signal_finishes_with_failure() {
    let mut s = running();
    let actions = s.step(Notice::ChildExited { status: 15 });
    assert_eq!(events(&actions), vec!["Finished { success: false }"]);
}

#[test]
fn an_unreachable_child_finishes_with_failure_after_cleanup() {
    let mut s = running();
    let actions = s.step(Notice::ChildUnreachable);
    assert_eq!(actions.len(), 6);
    assert_eq!(shown(&actions)[2], "CloseDescriptor { fd: 7 }");
    assert_eq!(shown(&actions)[5], "Emit { event: Finished { success: false } }");
    assert!(matches!(s.state, Lifecycle::Finished { success: false }));
}

#[test]
fn cancel_signals_the_recorded_child_and_keeps_waiting() {
    let mut s = running();
    let actions = s.step(Notice::Cancel);
    assert_eq!(shown(&actions), vec!["Terminate { pid: 4242 }", "CloseInput"]);
    assert!(matches!(s.state, Lifecycle::Running { master: 7, child: 4242, input_open: false }));
    let end = s.step(Notice::ChildExited { status: 15 });
    assert_eq!(events(&end), vec!["Finished { success: false }"]);
}

#[test]
fn cancel_makes_up_no_outcome() {
    let mut s = running();
    s.step(Notice::Cancel);
    let end = s.step(Notice::ChildExited { status: 0 });
    assert_eq!(events(&end), vec!["Finished { success: true }"]);
}

#[test]
fn input_is_queued_while_running_and_dropped_otherwise() {
    let mut s = fresh();
    assert!(s.step(Notice::Input { line: String::from("y") }).is_empty());
    let mut s = running();
    assert_eq!(
        shown(&s.step(Notice::Input { line: String::from("y") })),
        vec!["QueueInput { line: \"y\" }"]
    );
    s.step(Notice::Cancel);
    assert!(s.step(Notice::Input { line: String::from("y") }).is_empty());
}

#[test]
fn nothing_happens_after_the_end() {
    let mut s = running();
    s.step(Notice::ChildExited { status: 0 });
    assert!(s.step(Notice::Input { line: String::from("late") }).is_empty());
    assert!(s.step(Notice::Cancel).is_empty());
    assert!(s.step(Notice::ChildExited { status: 256 }).is_empty());
    assert!(s.step(Notice::ChildUnreachable).is_empty());
    assert!(s.step(Notice::Spawned { pid: 1 }).is_empty());
    assert!(s.step(Notice::PtyAllocated { pty: Pty { master: 1, slave: 2 } }).is_empty());
    assert!(matches!(s.state, Lifecycle::Finished { success: true }));

    let mut f = fresh();
    f.step(Notice::PtyUnavailable);
    assert!(f.step(Notice::Input { line: String::from("late") }).is_empty());
    assert!(f.step(Notice::PtyAllocated { pty: Pty { master: 1, slave: 2 } }).is_empty());
    assert!(matches!(f.state, Lifecycle::Failed { .. }));
}

#[test]
fn notices_out_of_turn_are_ignored() {
    let mut s = fresh();
    assert!(s.step(Notice::Spawned { pid: 1 }).is_empty());
    assert!(s.step(Notice::ChildExited { status: 0 }).is_empty());
    assert!(s.step(Notice::Cancel).is_empty());
    assert!(matches!(s.state, Lifecycle::Spawning { pty: None }));
    let mut r = running();
    assert!(r.step(Notice::PtyAllocated { pty: Pty { master: 1, slave: 2 } }).is_empty());
    assert!(r.step(Notice::PtyUnavailable).is_empty());
    assert!(r.step(Notice::SpawnFailed { detail: String::new() }).is_empty());
    assert!(matches!(r.state, Lifecycle::Running { master: 7, child: 4242, input_open: true }));
}

#[test]
fn a_whole_session_delivers_started_output_finished_in_order() {
    let mut seen: Vec<String> = Vec::new();
    let mut s = Session::new(String::from("Greeting"), String::from("echo"), vec![String::from("hello")]);
    for a in s.step(Notice::PtyAllocated { pty: Pty { master: 3, slave: 4 } }) {
        if let Action::Emit { event } = a {
            seen.push(format!("{:?}", event));
        }
    }
    for a in s.step(Notice::Spawned { pid: 10 }) {
        if let Action::Emit { event } = a {
            seen.push(format!("{:?}", event));
        }
    }
    if let OutputStep::Forward { event } = output_step(Some(b"hello\n")) {
        seen.push(format!("{:?}", event));
    }
    assert!(matches!(output_step(Some(b"")), OutputStep::Stop));
    for a in s.step(Notice::ChildExited { status: 0 }) {
        if let Action::Emit { event } = a {
            seen.push(format!("{:?}", event));
        }
    }
    assert_eq!(
        seen,
        vec![
            "Started { title: \"Greeting\" }",
            "Output { text: \"hello\\n\" }",
            "Finished { success: true }",
        ]
    );
}

#[test]
fn sequential_sessions_close_every_descriptor_once() {
    for n in 0..20 {
        let master = 100 + 2 * n;
        let slave = master + 1;
        let mut s = fresh();
        let mut closed: Vec<i32> = Vec::new();
        let mut all: Vec<Action> = Vec::new();
        all.extend(s.step(Notice::PtyAllocated { pty: Pty { master, slave } }));
        if n % 3 == 0 {
            all.extend(s.step(Notice::SpawnFailed { detail: String::from("nope") }));
        } else {
            all.extend(s.step(Notice::Spawned { pid: 1 }));
            all.extend(s.step(Notice::Cancel));
            all.extend(s.step(Notice::ChildExited { status: 0 }));
        }
        for a in &all {
            if let Action::CloseDescriptor { fd } = a {
                closed.push(*fd);
            }
        }
        closed.sort();
        assert_eq!(closed, vec![master, slave]);
        assert!(matches!(all.last(), Some(Action::Emit { event: SessionEvent::Finished { .. } })));
    }
}

#[test]
fn output_relay_stops_on_end_of_stream_and_on_error() {
    assert!(matches!(output_step(None), OutputStep::Stop));
    assert!(matches!(output_step(Some(b"")), OutputStep::Stop));
}

#[test]
fn output_relay_forwards_clean_text_and_skips_empty_chunks() {
    match output_step(Some(b"\x1b[32mok\x1b[0m\n")) {
        OutputStep::Forward { event: SessionEvent::Output { text } } => assert_eq!(text, "ok\n"),
        other => panic!("unexpected step {:?}", other),
    }
    assert!(matches!(output_step(Some(b"\x1b[2K")), OutputStep::Skip));
    assert!(matches!(output_step(Some(b"progress\r")), OutputStep::Skip));
    match output_step(Some(&[0xff, b'\n'])) {
        OutputStep::Forward { event: SessionEvent::Output { text } } => {
            assert_eq!(text, "\u{ff}\n")
        }
        other => panic!("unexpected step {:?}", other),
    }
}

#[test]
fn input_relay_writes_the_line_and_a_line_feed() {
    match input_step(InputNotice::Line { line: String::from("yes") }) {
        InputStep::Write { data } => assert_eq!(data, "yes\n"),
        other => panic!("unexpected step {:?}", other),
    }
    match input_step(InputNotice::Line { line: String::new() }) {
        InputStep::Write { data } => assert_eq!(data, "\n"),
        other => panic!("unexpected step {:?}", other),
    }
    assert!(matches!(input_step(InputNotice::QueueClosed), InputStep::Stop));
    assert!(matches!(input_step(InputNotice::WriteFailed), InputStep::Stop));
}

#[test]
fn wait_status_is_decoded() {
    assert_eq!(decode_exit(0), ExitKind::Exited { code: 0 });
    assert_eq!(decode_exit(0x0100), ExitKind::Exited { code: 1 });
    assert_eq!(decode_exit(0xff00), ExitKind::Exited { code: 255 });
    assert_eq!(decode_exit(0x7f00), ExitKind::Exited { code: 127 });
    assert_eq!(decode_exit(15), ExitKind::Abnormal);
    assert_eq!(decode_exit(9 | 0x80), ExitKind::Abnormal);
    assert_eq!(decode_exit(0x137f), ExitKind::Abnormal);
    assert_eq!(decode_exit(-256), ExitKind::Exited { code: 255 });
    assert_eq!(decode_exit(i32::MIN), ExitKind::Exited { code: 0 });
    assert!(exit_succeeded(0));
    assert!(!exit_succeeded(0x0100));
    assert!(!exit_succeeded(15));
    assert!(exit_succeeded(0x10000));
}
