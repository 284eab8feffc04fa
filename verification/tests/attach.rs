use debug_here::attach::{Action, Attach, Event, Lookup, Phase};
use debug_here::guard::EntryGuard;
use debug_here::launch::Platform;
use debug_here::wrapper::{plan, WrapperPlan};

fn strings(words: &[&str]) -> Vec<String> {
    words.iter().map(|word| word.to_string()).collect()
}

fn found(alacritty: Option<&str>, xterm: Option<&str>) -> Lookup {
    Lookup {
        debugger: true,
        wrapper: true,
        alacritty: alacritty.map(|path| path.to_string()),
        xterm: xterm.map(|path| path.to_string()),
    }
}

fn begun(platform: Platform, pid: u32, debugger: Option<&str>) -> (Attach, Action) {
    let mut guard = EntryGuard::new();
    Attach::new(platform, pid, debugger).begin(&mut guard)
}

/// Feeds `events` to the request one after another and gives the state and
/// every action that was asked for, that of `begin` first.
fn drive(
    platform: Platform,
    pid: u32,
    debugger: Option<&str>,
    events: Vec<Event>,
) -> (Attach, Vec<Action>) {
    let (mut attach, first) = begun(platform, pid, debugger);
    let mut actions = vec![first];
    for event in events {
        let (next, action) = attach.step(event);
        attach = next;
        actions.push(action);
    }
    (attach, actions)
}

const PTRACE_ADVICE: &str = "\n            ptrace_scope must be set to 0 for debug-here to work.\n            This will allow any process with a given uid to rummage around\n            in the memory of any other process with the same uid, so there\n            are some security risks. To set ptrace_scope for just this\n            session you can do:\n\n            echo 0 | sudo tee /proc/sys/kernel/yama/ptrace_scope\n\n            Giving up on debugging for now.\n            ";

#[test]
fn new_request_is_idle() {
    let attach = Attach::new(Platform::Linux, 4242, None);
    assert_eq!(attach.phase(), Phase::Idle);
    assert!(!attach.flag());
    assert!(!attach.is_over());
    assert_eq!(attach.debugger(), "rust-gdb");
    assert_eq!(attach.pending_action(), Action::Return);
    assert_eq!(Attach::new(Platform::MacOs, 1, None).debugger(), "rust-lldb");
    assert_eq!(Attach::new(Platform::MacOs, 1, Some("rust-gdb")).debugger(), "rust-gdb");
    assert_eq!(Attach::new(Platform::Linux, 1, Some("rust-lldb")).debugger(), "rust-lldb");
}

#[test]
fn idle_request_ignores_events() {
    let attach = Attach::new(Platform::Linux, 4242, None);
    let (attach, action) = attach.step(Event::Done);
    assert_eq!(attach.phase(), Phase::Idle);
    assert_eq!(action, Action::Return);
}

#[test]
fn first_request_passes_the_guard() {
    let mut guard = EntryGuard::new();
    let (attach, action) = Attach::new(Platform::Linux, 4242, None).begin(&mut guard);
    assert_eq!(attach.phase(), Phase::GuardChecked);
    assert_eq!(action, Action::CheckEnvironment);
    assert!(guard.held());
    assert!(!attach.flag());
}

#[test]
fn second_request_is_a_silent_no_op() {
    let mut guard = EntryGuard::new();
    let _ = Attach::new(Platform::Linux, 4242, None).begin(&mut guard);
    let (mut attach, action) =
        Attach::new(Platform::Linux, 4242, Some("rust-lldb")).begin(&mut guard);
    assert_eq!(attach.phase(), Phase::Declined);
    assert_eq!(action, Action::Return);
    assert!(attach.is_over());
    let events = vec![
        Event::PtraceScope(Some(b"0\n".to_vec())),
        Event::Binaries(found(Some("/usr/bin/alacritty"), Some("/usr/bin/xterm"))),
        Event::Done,
        Event::Done,
        Event::Spawned(None),
        Event::Done,
        Event::Flag(true),
        Event::Flag(false),
    ];
    for event in events {
        let (next, action) = attach.step(event);
        attach = next;
        assert_eq!(attach.phase(), Phase::Declined);
        assert_eq!(action, Action::Return);
        assert!(!attach.flag());
    }
}

#[test]
fn begin_leaves_a_request_that_has_begun_alone() {
    let mut guard = EntryGuard::new();
    let (attach, _) = Attach::new(Platform::Linux, 4242, None).begin(&mut guard);
    let mut other = EntryGuard::new();
    let (attach, action) = attach.begin(&mut other);
    assert_eq!(attach.phase(), Phase::GuardChecked);
    assert_eq!(action, Action::CheckEnvironment);
    assert!(!other.held());
}

#[test]
fn end_to_end_default_backend_on_linux_through_the_wrapper() {
    let pid = 4242;
    let (attach, actions) = drive(
        Platform::Linux,
        pid,
        None,
        vec![
            Event::PtraceScope(Some(b"0\n".to_vec())),
            Event::Binaries(found(None, Some("/usr/bin/xterm"))),
            Event::Done,
            Event::Done,
            Event::Spawned(None),
            Event::Done,
            Event::Flag(true),
            Event::Flag(true),
            Event::Flag(false),
        ],
    );
    assert_eq!(
        actions,
        vec![
            Action::CheckEnvironment,
            Action::ResolveBinaries { debugger: "rust-gdb".to_string() },
            Action::ExportLifeline { value: "1,4242".to_string() },
            Action::ArmFlag,
            Action::Spawn {
                program: "/usr/bin/xterm".to_string(),
                args: strings(&["debug-here-gdb-wrapper"]),
            },
            Action::RetireLifeline,
            Action::Poll,
            Action::Poll,
            Action::Poll,
            Action::Return,
        ]
    );
    assert_eq!(attach.phase(), Phase::Released);
    assert!(!attach.flag());
    assert!(attach.is_over());
    assert_eq!(
        plan(Some("1,4242")),
        WrapperPlan::Exec {
            program: "rust-gdb".to_string(),
            args: strings(&["-pid", "4242", "-ex", "set variable looping = 0", "-ex", "finish"]),
        }
    );
}

#[test]
fn phases_follow_one_another() {
    let (attach, _) = begun(Platform::Linux, 1, None);
    assert_eq!(attach.phase(), Phase::GuardChecked);
    let (attach, _) = attach.step(Event::PtraceScope(Some(b"0".to_vec())));
    assert_eq!(attach.phase(), Phase::EnvironmentSane);
    let (attach, _) = attach.step(Event::Binaries(found(None, Some("/x/xterm"))));
    assert_eq!(attach.phase(), Phase::BinariesResolved);
    assert!(!attach.flag());
    let (attach, _) = attach.step(Event::Done);
    assert_eq!(attach.phase(), Phase::MessageEncoded);
    assert!(!attach.flag());
    let (attach, action) = attach.step(Event::Done);
    assert_eq!(attach.phase(), Phase::FlagArmed);
    assert!(attach.flag());
    assert!(matches!(action, Action::Spawn { .. }));
    let (attach, _) = attach.step(Event::Spawned(None));
    assert_eq!(attach.phase(), Phase::TerminalSpawned);
    assert!(attach.flag());
    let (attach, _) = attach.step(Event::Done);
    assert_eq!(attach.phase(), Phase::Blocked);
    assert!(attach.flag());
    let (attach, _) = attach.step(Event::Flag(false));
    assert_eq!(attach.phase(), Phase::Released);
    assert!(!attach.flag());
}

#[test]
fn flag_is_armed_before_the_terminal_is_spawned() {
    for platform in [Platform::Linux, Platform::MacOs] {
        for debugger in [None, Some("rust-gdb"), Some("rust-lldb")] {
            let probe = match platform {
                Platform::Linux => Event::PtraceScope(Some(b"0".to_vec())),
                Platform::MacOs => Event::Osascript(true),
            };
            let (mut attach, first) = begun(platform, 31337, debugger);
            let mut actions = vec![first];
            let events = vec![
                probe,
                Event::Binaries(found(Some("/usr/bin/alacritty"), None)),
                Event::Done,
                Event::Done,
            ];
            for event in events {
                let (next, action) = attach.step(event);
                attach = next;
                if matches!(action, Action::Spawn { .. }) {
                    assert!(attach.flag());
                    assert_eq!(attach.phase(), Phase::FlagArmed);
                    assert!(actions.contains(&Action::ArmFlag));
                }
                actions.push(action);
            }
            assert!(matches!(actions.last(), Some(Action::Spawn { .. })));
        }
    }
}

#[test]
fn alacritty_is_preferred_and_runs_the_debugger() {
    let (_, actions) = drive(
        Platform::Linux,
        77,
        Some("rust-lldb"),
        vec![
            Event::PtraceScope(Some(b"0\n".to_vec())),
            Event::Binaries(found(Some("/usr/bin/alacritty"), Some("/usr/bin/xterm"))),
            Event::Done,
            Event::Done,
        ],
    );
    assert_eq!(actions[2], Action::ExportLifeline { value: "2,77,rust-lldb".to_string() });
    assert_eq!(
        actions[4],
        Action::Spawn {
            program: "/usr/bin/alacritty".to_string(),
            args: strings(&[
                "-e",
                "rust-lldb",
                "-p",
                "77",
                "-o",
                "expression looping = 0",
                "-o",
                "finish",
            ]),
        }
    );
}

#[test]
fn macos_runs_the_script() {
    let (attach, actions) = drive(
        Platform::MacOs,
        9,
        None,
        vec![
            Event::Osascript(true),
            Event::Binaries(found(None, None)),
            Event::Done,
            Event::Done,
            Event::Spawned(None),
            Event::Done,
        ],
    );
    let script = "tell app \"Terminal\"\n               do script \"exec rust-lldb -p 9 -o 'expression looping = 0' -o finish\"\n           end tell";
    assert_eq!(
        actions,
        vec![
            Action::CheckEnvironment,
            Action::ResolveBinaries { debugger: "rust-lldb".to_string() },
            Action::ExportLifeline { value: "2,9,rust-lldb".to_string() },
            Action::ArmFlag,
            Action::Spawn {
                program: "osascript".to_string(),
                args: vec!["-e".to_string(), script.to_string()],
            },
            Action::RetireLifeline,
            Action::Poll,
        ]
    );
    assert_eq!(attach.phase(), Phase::Blocked);
}

#[test]
fn ptrace_policy_stops_the_request_before_anything_is_started() {
    for scope in [Some(b"1\n".to_vec()), Some(Vec::new()), None] {
        let (attach, actions) = drive(Platform::Linux, 1, None, vec![Event::PtraceScope(scope)]);
        assert_eq!(attach.phase(), Phase::Failed);
        assert!(!attach.flag());
        assert_eq!(
            actions[1],
            Action::Report { message: format!("debug-here: {}", PTRACE_ADVICE) }
        );
        let (attach, action) = attach.step(Event::Done);
        assert_eq!(attach.phase(), Phase::Failed);
        assert_eq!(action, Action::Return);
    }
}

#[test]
fn missing_osascript_stops_the_request() {
    let (attach, actions) = drive(Platform::MacOs, 1, None, vec![Event::Osascript(false)]);
    assert_eq!(attach.phase(), Phase::Failed);
    assert_eq!(
        actions[1],
        Action::Report {
            message: "debug-here: debug-here: can't find osascript. Bailing.".to_string()
        }
    );
}

#[test]
fn probe_of_another_platform_is_ignored() {
    let (attach, actions) = drive(Platform::Linux, 1, None, vec![Event::Osascript(true)]);
    assert_eq!(attach.phase(), Phase::GuardChecked);
    assert_eq!(actions[1], Action::CheckEnvironment);
    let (attach, actions) =
        drive(Platform::MacOs, 1, None, vec![Event::PtraceScope(Some(b"0".to_vec()))]);
    assert_eq!(attach.phase(), Phase::GuardChecked);
    assert_eq!(actions[1], Action::CheckEnvironment);
}

#[test]
fn missing_debugger_is_named() {
    let lookup = Lookup { debugger: false, wrapper: false, alacritty: None, xterm: None };
    let (attach, actions) = drive(
        Platform::Linux,
        1,
        Some("rust-lldb"),
        vec![Event::PtraceScope(Some(b"0".to_vec())), Event::Binaries(lookup)],
    );
    assert_eq!(attach.phase(), Phase::Failed);
    assert_eq!(
        actions[2],
        Action::Report {
            message: "debug-here: can't find rust-lldb on your path. Bailing.".to_string()
        }
    );
}

#[test]
fn missing_wrapper_is_named() {
    let lookup = Lookup {
        debugger: true,
        wrapper: false,
        alacritty: Some("/usr/bin/alacritty".to_string()),
        xterm: None,
    };
    let (attach, actions) = drive(
        Platform::Linux,
        1,
        None,
        vec![Event::PtraceScope(Some(b"0".to_vec())), Event::Binaries(lookup)],
    );
    assert_eq!(attach.phase(), Phase::Failed);
    assert_eq!(
        actions[2],
        Action::Report {
            message: "debug-here:\n            Can't find debug-here-gdb-wrapper on your path. To get it\n            you can run `cargo install debug-here-gdb-wrapper`\n            ".to_string()
        }
    );
}

#[test]
fn missing_terminal_is_named() {
    let (attach, actions) = drive(
        Platform::Linux,
        1,
        None,
        vec![Event::PtraceScope(Some(b"0".to_vec())), Event::Binaries(found(None, None))],
    );
    assert_eq!(attach.phase(), Phase::Failed);
    assert!(!attach.flag());
    assert_eq!(
        actions[2],
        Action::Report {
            message: "debug-here: \n                can't find alacritty or xterm on your path. Those are the\n                only terminal emulators currently supported on linux.\n                ".to_string()
        }
    );
}

#[test]
fn unknown_debugger_cannot_be_started_directly() {
    let (attach, actions) = drive(
        Platform::Linux,
        1,
        Some("gdb"),
        vec![
            Event::PtraceScope(Some(b"0".to_vec())),
            Event::Binaries(found(Some("/usr/bin/alacritty"), None)),
        ],
    );
    assert_eq!(attach.phase(), Phase::Failed);
    assert!(!attach.flag());
    assert_eq!(
        actions[2],
        Action::Report { message: "debug-here: unknown debugger: gdb".to_string() }
    );
    let (attach, actions) = drive(
        Platform::MacOs,
        1,
        Some("lldb"),
        vec![Event::Osascript(true), Event::Binaries(found(None, None))],
    );
    assert_eq!(attach.phase(), Phase::Failed);
    assert_eq!(
        actions[2],
        Action::Report { message: "debug-here: unknown debugger: lldb".to_string() }
    );
}

#[test]
fn unknown_debugger_goes_to_the_wrapper_through_xterm() {
    let (attach, actions) = drive(
        Platform::Linux,
        555,
        Some("bogus-debugger"),
        vec![
            Event::PtraceScope(Some(b"0".to_vec())),
            Event::Binaries(found(None, Some("/usr/bin/xterm"))),
            Event::Done,
            Event::Done,
        ],
    );
    assert_eq!(attach.phase(), Phase::FlagArmed);
    assert_eq!(actions[2], Action::ExportLifeline { value: "2,555,bogus-debugger".to_string() });
    assert_eq!(
        plan(Some("2,555,bogus-debugger")),
        WrapperPlan::Fail { message: "unknown debugger: bogus-debugger".to_string() }
    );
}

#[test]
fn spawn_failure_is_reported_and_nobody_waits() {
    let (attach, actions) = drive(
        Platform::Linux,
        1,
        None,
        vec![
            Event::PtraceScope(Some(b"0".to_vec())),
            Event::Binaries(found(None, Some("/usr/bin/xterm"))),
            Event::Done,
            Event::Done,
            Event::Spawned(Some("Permission denied (os error 13)".to_string())),
            Event::Done,
        ],
    );
    assert_eq!(actions[5], Action::RetireLifeline);
    assert_eq!(
        actions[6],
        Action::Report {
            message: "debug-here: failed to launch rust-gdb in \"/usr/bin/xterm\": Permission denied (os error 13)".to_string()
        }
    );
    assert_eq!(attach.phase(), Phase::Failed);
    assert!(attach.is_over());
    let (attach, action) = attach.step(Event::Flag(true));
    assert_eq!(action, Action::Return);
    assert_eq!(attach.phase(), Phase::Failed);
}

#[test]
fn spawn_failure_on_macos_names_the_debugger() {
    let (_, actions) = drive(
        Platform::MacOs,
        1,
        None,
        vec![
            Event::Osascript(true),
            Event::Binaries(found(None, None)),
            Event::Done,
            Event::Done,
            Event::Spawned(Some("gone".to_string())),
            Event::Done,
        ],
    );
    assert_eq!(
        actions[6],
        Action::Report {
            message: "debug-here: failed to launch rust-lldb in Terminal.app: gone".to_string()
        }
    );
}

#[test]
fn blocked_request_waits_until_the_flag_is_cleared() {
    let (mut attach, _) = drive(
        Platform::Linux,
        1,
        None,
        vec![
            Event::PtraceScope(Some(b"0".to_vec())),
            Event::Binaries(found(None, Some("/usr/bin/xterm"))),
            Event::Done,
            Event::Done,
            Event::Spawned(None),
            Event::Done,
        ],
    );
    assert_eq!(attach.phase(), Phase::Blocked);
    let others = vec![
        Event::Flag(true),
        Event::Done,
        Event::Spawned(None),
        Event::Spawned(Some("late".to_string())),
        Event::Osascript(false),
        Event::PtraceScope(None),
        Event::Binaries(found(None, None)),
        Event::Flag(true),
    ];
    for event in others {
        let (next, action) = attach.step(event);
        attach = next;
        assert_eq!(attach.phase(), Phase::Blocked);
        assert_eq!(action, Action::Poll);
        assert!(attach.flag());
    }
    let (attach, action) = attach.step(Event::Flag(false));
    assert_eq!(attach.phase(), Phase::Released);
    assert_eq!(action, Action::Return);
    assert!(!attach.flag());
}

#[test]
fn unexpected_event_asks_for_the_same_action_again() {
    let (attach, first) = begun(Platform::Linux, 1, None);
    let (attach, action) = attach.step(Event::Done);
    assert_eq!(action, first);
    assert_eq!(attach.phase(), Phase::GuardChecked);
    let (attach, _) = attach.step(Event::PtraceScope(Some(b"0".to_vec())));
    let (attach, action) = attach.step(Event::Flag(false));
    assert_eq!(action, Action::ResolveBinaries { debugger: "rust-gdb".to_string() });
    assert_eq!(attach.phase(), Phase::EnvironmentSane);
    assert_eq!(attach.pending_action(), action);
}
