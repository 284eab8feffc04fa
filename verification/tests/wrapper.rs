use debug_here::backend::{
    backend_of, debugger_args, unknown_debugger, Backend, GDB, LLDB,
};
use debug_here::protocol::ProtocolMessage;
use debug_here::wrapper::{dispatch, plan, WrapperPlan};

fn strings(words: &[&str]) -> Vec<String> {
    words.iter().map(|word| word.to_string()).collect()
}

#[test]
fn backend_names() {
    assert_eq!(GDB, "rust-gdb");
    assert_eq!(LLDB, "rust-lldb");
    assert_eq!(Backend::Gdb.name(), "rust-gdb");
    assert_eq!(Backend::Lldb.name(), "rust-lldb");
    assert_eq!(backend_of("rust-gdb"), Some(Backend::Gdb));
    assert_eq!(backend_of("rust-lldb"), Some(Backend::Lldb));
    assert_eq!(backend_of("gdb"), None);
    assert_eq!(backend_of("lldb"), None);
    assert_eq!(backend_of(""), None);
    assert_eq!(backend_of("rust-gdb "), None);
    assert_eq!(backend_of("bogus-debugger"), None);
}

#[test]
fn gdb_attach_arguments() {
    assert_eq!(
        Backend::Gdb.attach_arguments("4242"),
        strings(&["-pid", "4242", "-ex", "set variable looping = 0", "-ex", "finish"])
    );
}

#[test]
fn lldb_attach_arguments() {
    assert_eq!(
        Backend::Lldb.attach_arguments("4242"),
        strings(&["-p", "4242", "-o", "expression looping = 0", "-o", "finish"])
    );
}

#[test]
fn debugger_args_for_known_backends() {
    assert_eq!(
        debugger_args("rust-gdb", 17),
        Ok(strings(&["-pid", "17", "-ex", "set variable looping = 0", "-ex", "finish"]))
    );
    assert_eq!(
        debugger_args("rust-lldb", u32::MAX),
        Ok(strings(&["-p", "4294967295", "-o", "expression looping = 0", "-o", "finish"]))
    );
}

#[test]
fn debugger_args_turns_an_unknown_debugger_down() {
    assert_eq!(debugger_args("gdb", 17), Err("unknown debugger: gdb".to_string()));
    assert_eq!(unknown_debugger("bogus"), "unknown debugger: bogus");
}

#[test]
fn wrapper_without_lifeline_reports_the_broken_invariant() {
    assert_eq!(
        plan(None),
        WrapperPlan::Fail {
            message: "Expected RUST_DEBUG_HERE_LIFELINE to be defined.\n               This is a bug with debug-here. Please report it\n               at `https://github.com/ethanpailes/debug-here/issues`.\n               ".to_string()
        }
    );
}

#[test]
fn wrapper_version_one_defaults_to_gdb() {
    assert_eq!(
        plan(Some("1,4242")),
        WrapperPlan::Exec {
            program: "rust-gdb".to_string(),
            args: strings(&["-pid", "4242", "-ex", "set variable looping = 0", "-ex", "finish"]),
        }
    );
}

#[test]
fn wrapper_version_two_starts_the_named_backend() {
    assert_eq!(
        plan(Some("2,4242,rust-lldb")),
        WrapperPlan::Exec {
            program: "rust-lldb".to_string(),
            args: strings(&["-p", "4242", "-o", "expression looping = 0", "-o", "finish"]),
        }
    );
    assert_eq!(
        plan(Some("2,4242,rust-gdb")),
        WrapperPlan::Exec {
            program: "rust-gdb".to_string(),
            args: strings(&["-pid", "4242", "-ex", "set variable looping = 0", "-ex", "finish"]),
        }
    );
}

#[test]
fn wrapper_unknown_debugger_is_reported_and_never_started() {
    assert_eq!(
        plan(Some("2,555,bogus-debugger")),
        WrapperPlan::Fail { message: "unknown debugger: bogus-debugger".to_string() }
    );
}

#[test]
fn wrapper_reports_decode_errors() {
    assert_eq!(
        plan(Some("abc,123")),
        WrapperPlan::Fail {
            message: "Failed to parse version number: invalid digit found in string".to_string()
        }
    );
    assert_eq!(
        plan(Some("1")),
        WrapperPlan::Fail {
            message: "Failed to get the PID of the program to be debugged.".to_string()
        }
    );
    assert_eq!(
        plan(Some("2,123")),
        WrapperPlan::Fail { message: "Failed to get the name of the debugger to use.".to_string() }
    );
    assert_eq!(
        plan(Some("3,123")),
        WrapperPlan::Fail {
            message: "Don't know what to do with this debug-here protocol\n                     version (3). You might want to re-install\n                     debug-here-gdb-wrapper.".to_string()
        }
    );
}

#[test]
fn wrapper_hands_the_process_identifier_on_as_written() {
    assert_eq!(
        plan(Some("1,not-a-number")),
        WrapperPlan::Exec {
            program: "rust-gdb".to_string(),
            args: strings(&[
                "-pid",
                "not-a-number",
                "-ex",
                "set variable looping = 0",
                "-ex",
                "finish"
            ]),
        }
    );
}

#[test]
fn dispatch_starts_only_known_backends() {
    let names = ["rust-gdb", "rust-lldb", "gdb", "lldb", "", "sh", "rust-gdb;rm"];
    for name in names {
        let message = ProtocolMessage {
            version: 2,
            pid: "1".to_string(),
            debugger: Some(name.to_string()),
        };
        match dispatch(&message) {
            WrapperPlan::Exec { program, .. } => {
                assert!(program == "rust-gdb" || program == "rust-lldb");
                assert_eq!(program, name);
            }
            WrapperPlan::Fail { message } => {
                assert_eq!(message, format!("unknown debugger: {}", name));
                assert!(name != "rust-gdb" && name != "rust-lldb");
            }
        }
    }
}
