use anders::Action;
use anders::Event;
use anders::FindError;
use anders::Resolution;
use anders::Step;
use anders::find_android_executable;
use anders::find_file_in_path;
use anders::strutil::basename_of;
use anders::strutil::ensure_suffix;
use anders::strutil::split_str_on;

fn env(value: Option<&str>) -> Event {
    Event::Env { value: value.map(str::to_owned) }
}

fn entries(paths: &[&str]) -> Event {
    Event::Entries { listing: Ok(paths.iter().map(|p| (*p).to_owned()).collect()) }
}

#[test]
fn sdk_tool_in_build_tools_resolves_without_reading_path() {
    let mut env_reads: Vec<String> = Vec::new();
    let (m, a) = find_android_executable("aapt");
    match &a {
        Action::ReadEnv { name } => env_reads.push(name.clone()),
        other => panic!("unexpected action: {:?}", other),
    }
    let s = m.step(env(Some("/sdk")));
    let m = match s {
        Step::Continue { next, action } => {
            assert_eq!(
                action,
                Action::Traverse { root: "/sdk/build-tools".to_owned() },
                "the build-tools subdirectory is searched first"
            );
            next
        }
        other => panic!("unexpected step: {:?}", other),
    };
    let s = m.step(entries(&["/sdk/build-tools/x", "/sdk/build-tools/aapt"]));
    match s {
        Step::Done { value } => {
            assert_eq!(
                value,
                Resolution {
                    executable: "/sdk/build-tools/aapt".to_owned(),
                    root: "/sdk".to_owned(),
                }
            );
        }
        other => panic!("unexpected step: {:?}", other),
    }
    assert_eq!(env_reads, vec!["ANDROID_HOME".to_owned()], "PATH is never read");
}

#[test]
fn sdk_lookup_falls_back_to_the_root_and_first_match_wins() {
    let (m, _) = find_android_executable("dx");
    let m = match m.step(env(Some("/sdk"))) {
        Step::Continue { next, .. } => next,
        other => panic!("unexpected step: {:?}", other),
    };
    let m = match m.step(entries(&["/sdk/build-tools/aapt"])) {
        Step::Continue { next, action } => {
            assert_eq!(action, Action::Traverse { root: "/sdk".to_owned() });
            next
        }
        other => panic!("unexpected step: {:?}", other),
    };
    match m.step(entries(&["/sdk/platform-tools/dx", "/sdk/other/dx"])) {
        Step::Done { value } => {
            assert_eq!(value.executable, "/sdk/platform-tools/dx");
        }
        other => panic!("unexpected step: {:?}", other),
    }
}

#[test]
fn absent_sdk_tool_reports_not_found_naming_the_searched_root() {
    let (m, _) = find_android_executable("nosuch");
    let m = match m.step(env(Some("/opt/android"))) {
        Step::Continue { next, .. } => next,
        other => panic!("unexpected step: {:?}", other),
    };
    let m = match m.step(entries(&["/opt/android/build-tools/aapt"])) {
        Step::Continue { next, .. } => next,
        other => panic!("unexpected step: {:?}", other),
    };
    match m.step(entries(&["/opt/android/build-tools/aapt", "/opt/android/docs"])) {
        Step::Failed { err } => {
            assert_eq!(
                err,
                FindError::NotFound { dir: "/opt/android".to_owned(), name: "nosuch".to_owned() },
                "the actually-searched root is named, not a generic failure"
            );
        }
        other => panic!("unexpected step: {:?}", other),
    }
}

#[test]
fn missing_sdk_variable_is_its_own_error() {
    let (m, _) = find_android_executable("aapt");
    match m.step(env(None)) {
        Step::Failed { err } => {
            assert_eq!(err, FindError::Variable { name: "ANDROID_HOME".to_owned() });
        }
        other => panic!("unexpected step: {:?}", other),
    }
}

#[test]
fn unreadable_sdk_root_is_a_traversal_error() {
    let (m, _) = find_android_executable("aapt");
    let m = match m.step(env(Some("/sdk"))) {
        Step::Continue { next, .. } => next,
        other => panic!("unexpected step: {:?}", other),
    };
    // An unreadable build-tools tree falls back to the root...
    let m = match m.step(Event::Entries { listing: Err("denied".to_owned()) }) {
        Step::Continue { next, action } => {
            assert_eq!(action, Action::Traverse { root: "/sdk".to_owned() });
            next
        }
        other => panic!("unexpected step: {:?}", other),
    };
    // ...and an unreadable root ends the lookup.
    match m.step(Event::Entries { listing: Err("denied".to_owned()) }) {
        Step::Failed { err } => {
            assert_eq!(
                err,
                FindError::Iteration { dir: "/sdk".to_owned(), cause: "denied".to_owned() }
            );
        }
        other => panic!("unexpected step: {:?}", other),
    }
}

#[test]
fn path_lookup_searches_segments_in_listed_order() {
    let (m, a) = find_file_in_path("javac");
    assert_eq!(a, Action::ReadEnv { name: "PATH".to_owned() });
    let m = match m.step(env(Some("/a:/b"))) {
        Step::Continue { next, action } => {
            assert_eq!(action, Action::Traverse { root: "/a".to_owned() });
            next
        }
        other => panic!("unexpected step: {:?}", other),
    };
    // A miss in the first segment moves on to the second.
    let m = match m.step(entries(&["/a/cc"])) {
        Step::Continue { next, action } => {
            assert_eq!(action, Action::Traverse { root: "/b".to_owned() });
            next
        }
        other => panic!("unexpected step: {:?}", other),
    };
    match m.step(entries(&["/b/javac"])) {
        Step::Done { value } => assert_eq!(value, "/b/javac"),
        other => panic!("unexpected step: {:?}", other),
    }
}

#[test]
fn path_lookup_skips_unreadable_segments() {
    let (m, _) = find_file_in_path("sh");
    let m = match m.step(env(Some("/a:/bin"))) {
        Step::Continue { next, .. } => next,
        other => panic!("unexpected step: {:?}", other),
    };
    let m = match m.step(Event::Entries { listing: Err("denied".to_owned()) }) {
        Step::Continue { next, action } => {
            assert_eq!(action, Action::Traverse { root: "/bin".to_owned() });
            next
        }
        other => panic!("unexpected step: {:?}", other),
    };
    match m.step(entries(&["/bin/sh"])) {
        Step::Done { value } => assert_eq!(value, "/bin/sh"),
        other => panic!("unexpected step: {:?}", other),
    }
}

#[test]
fn exhausted_path_lookup_names_the_searched_value() {
    let (m, _) = find_file_in_path("nosuch");
    let m = match m.step(env(Some("/a:/b"))) {
        Step::Continue { next, .. } => next,
        other => panic!("unexpected step: {:?}", other),
    };
    let m = match m.step(entries(&["/a/x"])) {
        Step::Continue { next, .. } => next,
        other => panic!("unexpected step: {:?}", other),
    };
    match m.step(entries(&["/b/y"])) {
        Step::Failed { err } => {
            assert_eq!(
                err,
                FindError::NotFound { dir: "/a:/b".to_owned(), name: "nosuch".to_owned() }
            );
        }
        other => panic!("unexpected step: {:?}", other),
    }
}

#[test]
fn missing_path_variable_is_its_own_error() {
    let (m, _) = find_file_in_path("sh");
    match m.step(env(None)) {
        Step::Failed { err } => {
            assert_eq!(err, FindError::Variable { name: "PATH".to_owned() });
        }
        other => panic!("unexpected step: {:?}", other),
    }
}

#[test]
fn suffix_is_applied_exactly_once() {
    assert_eq!(ensure_suffix("tool", ".exe"), "tool.exe");
    assert_eq!(ensure_suffix("tool.exe", ".exe"), "tool.exe");
    let once = ensure_suffix("tool", ".exe");
    assert_eq!(ensure_suffix(&once, ".exe"), once, "a second application changes nothing");
    assert_eq!(ensure_suffix("tool", ""), "tool");
}

#[test]
fn basenames_are_the_last_path_component() {
    assert_eq!(basename_of("/a/b/c"), "c");
    assert_eq!(basename_of("plain"), "plain");
    assert_eq!(basename_of("/a/b/"), "");
}

#[test]
fn path_values_split_on_the_delimiter() {
    assert_eq!(split_str_on("/a:/b:/c", ':'), vec!["/a", "/b", "/c"]);
    assert_eq!(split_str_on("", ':'), vec![""]);
    assert_eq!(split_str_on("/a:", ':'), vec!["/a", ""]);
}

#[test]
fn platform_constants_are_fixed() {
    assert_eq!(anders::path_delimiter(), ":");
    assert_eq!(anders::executable_suffix(), "");
}
