use anders::Action;
use anders::BatchExecutionError;
use anders::Context;
use anders::Event;
use anders::ExecutionError;
use anders::FindError;
use anders::RunOutcome;
use anders::Stage;
use anders::Step;
use anders::Task;
use anders::compile_application;
use anders::fetch_or_create_android_keystore;
use anders::launch_application;
use anders::package_application;

/// A fake outside world: fixed environment, fixed directory listings,
/// scripted run outcomes, and a record of everything the engine asked.
struct World {
    env: Vec<(String, String)>,
    listings: Vec<(String, Result<Vec<String>, String>)>,
    keystore_exists: bool,
    sources: Result<Vec<String>, String>,
    previous_dir: String,
    enter_fails: Option<String>,
    fail_tools: Vec<String>,
    runs: Vec<(String, Vec<String>)>,
    env_reads: Vec<String>,
    restores: Vec<String>,
}

impl World {
    fn new() -> World {
        World {
            env: vec![
                ("ANDROID_HOME".to_owned(), "/sdk".to_owned()),
                ("PATH".to_owned(), "/usr/bin".to_owned()),
                ("HOME".to_owned(), "/home/u".to_owned()),
            ],
            listings: vec![
                (
                    "/sdk/build-tools".to_owned(),
                    Ok(vec![
                        "/sdk/build-tools/aapt".to_owned(),
                        "/sdk/build-tools/dx".to_owned(),
                        "/sdk/build-tools/zipalign".to_owned(),
                        "/sdk/build-tools/adb".to_owned(),
                    ]),
                ),
                (
                    "/usr/bin".to_owned(),
                    Ok(vec![
                        "/usr/bin/javac".to_owned(),
                        "/usr/bin/jarsigner".to_owned(),
                        "/usr/bin/sh".to_owned(),
                        "/usr/bin/keytool".to_owned(),
                    ]),
                ),
            ],
            keystore_exists: true,
            sources: Ok(vec!["src/Demo.java".to_owned()]),
            previous_dir: "/somewhere/else".to_owned(),
            enter_fails: None,
            fail_tools: Vec::new(),
            runs: Vec::new(),
            env_reads: Vec::new(),
            restores: Vec::new(),
        }
    }

    fn respond(&mut self, a: &Action) -> Event {
        match a {
            Action::ReadEnv { name } => {
                self.env_reads.push(name.clone());
                let value = self
                    .env
                    .iter()
                    .find(|(k, _)| k == name)
                    .map(|(_, v)| v.clone());
                Event::Env { value }
            }
            Action::Traverse { root } => {
                let listing = self
                    .listings
                    .iter()
                    .find(|(k, _)| k == root)
                    .map(|(_, v)| v.clone())
                    .unwrap_or(Ok(Vec::new()));
                Event::Entries { listing }
            }
            Action::CheckFile { path: _ } => Event::FileStatus { exists: self.keystore_exists },
            Action::EnterDir { dir: _ } => match &self.enter_fails {
                Some(cause) => Event::DirChanged { changed: Err(cause.clone()) },
                None => Event::DirChanged { changed: Ok(self.previous_dir.clone()) },
            },
            Action::RestoreDir { dir } => {
                self.restores.push(dir.clone());
                Event::DirRestored
            }
            Action::ListSources { pattern: _ } => Event::SourceList { listing: self.sources.clone() },
            Action::Run { dir: _, executable, args } => {
                self.runs.push((executable.clone(), args.clone()));
                let outcome = if self.fail_tools.iter().any(|t| t == executable) {
                    RunOutcome::NonZeroExit { code: 1 }
                } else {
                    RunOutcome::Success
                };
                Event::Ran { outcome }
            }
        }
    }
}

fn drive(stage: (Stage, Action), w: &mut World) -> Result<(), BatchExecutionError> {
    let (mut st, mut a) = stage;
    loop {
        let ev = w.respond(&a);
        match st.step(ev) {
            Step::Continue { next, action } => {
                st = next;
                a = action;
            }
            Step::Done { .. } => return Ok(()),
            Step::Failed { err } => return Err(err),
        }
    }
}

fn demo_ctx(tasks: Vec<(String, Task)>) -> Context {
    Context {
        project: "Demo".to_owned(),
        package: "com.x.demo".to_owned(),
        target: "android-25".to_owned(),
        tasks,
    }
}

fn run_names(w: &World) -> Vec<&str> {
    w.runs
        .iter()
        .map(|(exe, _)| exe.rsplit('/').next().unwrap_or(exe))
        .collect()
}

#[test]
fn end_to_end_tool_order_is_fixed() {
    let mut w = World::new();
    drive(compile_application("proj", demo_ctx(Vec::new())), &mut w).unwrap();
    drive(package_application("proj", demo_ctx(Vec::new())), &mut w).unwrap();
    drive(launch_application("proj", demo_ctx(Vec::new())), &mut w).unwrap();
    assert_eq!(
        run_names(&w),
        vec!["aapt", "javac", "dx", "aapt", "jarsigner", "zipalign", "adb"],
        "compile, package and launch invoke the tools in this literal order"
    );
    let (_, adb_args) = w.runs.last().unwrap();
    assert_eq!(
        adb_args,
        &vec!["-e".to_owned(), "install".to_owned(), "bin/Demo.apk".to_owned()],
        "the final artifact is handed to the device bridge literally"
    );
}

#[test]
fn compile_builds_the_expected_invocations() {
    let mut w = World::new();
    drive(compile_application("proj", demo_ctx(Vec::new())), &mut w).unwrap();
    assert_eq!(w.runs.len(), 2);
    let (aapt, aapt_args) = &w.runs[0];
    assert_eq!(aapt, "/sdk/build-tools/aapt");
    assert_eq!(
        aapt_args,
        &vec![
            "package".to_owned(),
            "-vfm".to_owned(),
            "-S".to_owned(),
            "res".to_owned(),
            "-J".to_owned(),
            "src".to_owned(),
            "-M".to_owned(),
            "AndroidManifest.xml".to_owned(),
            "-I".to_owned(),
            "/sdk/platforms/android-25/android.jar".to_owned(),
        ]
    );
    let (javac, javac_args) = &w.runs[1];
    assert_eq!(javac, "/usr/bin/javac");
    assert_eq!(
        javac_args,
        &vec![
            "-verbose".to_owned(),
            "-source".to_owned(),
            "1.7".to_owned(),
            "-target".to_owned(),
            "1.7".to_owned(),
            "-d".to_owned(),
            "obj".to_owned(),
            "-classpath".to_owned(),
            "/sdk/platforms/android-25/android.jar:obj".to_owned(),
            "-sourcepath".to_owned(),
            "src".to_owned(),
            "src/Demo.java".to_owned(),
        ],
        "the enumerated sources are trailing positional arguments"
    );
}

#[test]
fn package_signs_before_aligning_with_the_fixed_credentials() {
    let mut w = World::new();
    drive(package_application("proj", demo_ctx(Vec::new())), &mut w).unwrap();
    assert_eq!(run_names(&w), vec!["dx", "aapt", "jarsigner", "zipalign"]);
    let (_, sign_args) = &w.runs[2];
    assert_eq!(
        sign_args,
        &vec![
            "-verbose".to_owned(),
            "-storepass".to_owned(),
            "android".to_owned(),
            "-keypass".to_owned(),
            "android".to_owned(),
            "-keystore".to_owned(),
            "/home/u/.android/debug.keystore".to_owned(),
            "-signedjar".to_owned(),
            "bin/Demo.signed.apk".to_owned(),
            "bin/Demo.unsigned.apk".to_owned(),
            "androiddebugkey".to_owned(),
        ]
    );
    let (_, align_args) = &w.runs[3];
    assert_eq!(
        align_args,
        &vec![
            "-v".to_owned(),
            "-f".to_owned(),
            "4".to_owned(),
            "bin/Demo.signed.apk".to_owned(),
            "bin/Demo.apk".to_owned(),
        ]
    );
}

#[test]
fn stage_without_hooks_never_resolves_a_shell() {
    let mut w = World::new();
    drive(launch_application("proj", demo_ctx(Vec::new())), &mut w).unwrap();
    assert_eq!(
        w.env_reads,
        vec!["ANDROID_HOME".to_owned()],
        "no PATH-like variable is read: no shell interpreter is looked up"
    );
    assert_eq!(run_names(&w), vec!["adb"]);
}

#[test]
fn hooks_bracket_the_stage_and_run_through_the_shell() {
    let mut w = World::new();
    let tasks = vec![(
        "launch".to_owned(),
        Task { before: Some("echo before".to_owned()), after: Some("echo after".to_owned()) },
    )];
    drive(launch_application("proj", demo_ctx(tasks)), &mut w).unwrap();
    assert_eq!(run_names(&w), vec!["sh", "adb", "sh"]);
    let (_, before_args) = &w.runs[0];
    assert_eq!(before_args, &vec!["-c".to_owned(), "echo before".to_owned()]);
    let (_, after_args) = &w.runs[2];
    assert_eq!(after_args, &vec!["-c".to_owned(), "echo after".to_owned()]);
}

#[test]
fn failing_main_step_prevents_the_after_hook() {
    let mut w = World::new();
    w.fail_tools.push("/sdk/build-tools/adb".to_owned());
    let tasks = vec![(
        "launch".to_owned(),
        Task { before: Some("echo before".to_owned()), after: Some("echo after".to_owned()) },
    )];
    let r = drive(launch_application("proj", demo_ctx(tasks)), &mut w);
    assert_eq!(run_names(&w), vec!["sh", "adb"], "the after-hook never runs");
    match r {
        Err(BatchExecutionError::Execution { err: ExecutionError::Exit { executable, code, .. } }) => {
            assert_eq!(executable, "/sdk/build-tools/adb");
            assert_eq!(code, 1);
        }
        other => panic!("unexpected result: {:?}", other),
    }
}

#[test]
fn failing_before_hook_prevents_the_main_step() {
    let mut w = World::new();
    w.fail_tools.push("/usr/bin/sh".to_owned());
    let tasks = vec![(
        "compile".to_owned(),
        Task { before: Some("exit 1".to_owned()), after: None },
    )];
    let r = drive(compile_application("proj", demo_ctx(tasks)), &mut w);
    assert_eq!(run_names(&w), vec!["sh"], "nothing follows the failed hook");
    assert!(matches!(
        r,
        Err(BatchExecutionError::Execution { err: ExecutionError::Exit { .. } })
    ));
}

#[test]
fn working_directory_is_restored_when_enumeration_fails() {
    let mut w = World::new();
    w.sources = Err("denied".to_owned());
    let r = drive(compile_application("proj", demo_ctx(Vec::new())), &mut w);
    assert_eq!(
        w.restores,
        vec!["/somewhere/else".to_owned()],
        "the pre-scope directory is given back even though the scope failed"
    );
    match r {
        Err(BatchExecutionError::Program { err: FindError::Iteration { dir, cause } }) => {
            assert_eq!(dir, "proj");
            assert_eq!(cause, "denied", "the original error is not masked by the restoration");
        }
        other => panic!("unexpected result: {:?}", other),
    }
}

#[test]
fn working_directory_is_restored_on_success_too() {
    let mut w = World::new();
    drive(compile_application("proj", demo_ctx(Vec::new())), &mut w).unwrap();
    assert_eq!(w.restores, vec!["/somewhere/else".to_owned()]);
}

#[test]
fn failing_directory_change_aborts_without_restoring() {
    let mut w = World::new();
    w.enter_fails = Some("no such dir".to_owned());
    let r = drive(compile_application("proj", demo_ctx(Vec::new())), &mut w);
    match r {
        Err(BatchExecutionError::ChangeCurrentWorkingDir { path, cause }) => {
            assert_eq!(path, "proj");
            assert_eq!(cause, "no such dir");
        }
        other => panic!("unexpected result: {:?}", other),
    }
    assert_eq!(w.restores.len(), 0, "the directory never changed, nothing to give back");
}

#[test]
fn keystore_provisioning_twice_generates_exactly_once() {
    let mut w = World::new();
    w.keystore_exists = false;
    // First provisioning: the file is absent, the key generator runs.
    let first = drive_keystore(&mut w);
    assert_eq!(first, Ok("/home/u/.android/debug.keystore".to_owned()));
    // The generator created the file; provision again.
    w.keystore_exists = true;
    let second = drive_keystore(&mut w);
    assert_eq!(second, Ok("/home/u/.android/debug.keystore".to_owned()));
    let keytool_runs: Vec<_> = w
        .runs
        .iter()
        .filter(|(exe, _)| exe == "/usr/bin/keytool")
        .collect();
    assert_eq!(keytool_runs.len(), 1, "the key generator ran exactly once");
    let (_, gen_args) = keytool_runs[0];
    assert_eq!(
        gen_args,
        &vec![
            "-genkey".to_owned(),
            "-v".to_owned(),
            "-keystore".to_owned(),
            "/home/u/.android/debug.keystore".to_owned(),
            "-storepass".to_owned(),
            "android".to_owned(),
            "-keypass".to_owned(),
            "android".to_owned(),
            "-alias".to_owned(),
            "androiddebugkey".to_owned(),
            "-dname".to_owned(),
            "CN=Android Debug,O=Android,C=US".to_owned(),
        ]
    );
}

fn drive_keystore(w: &mut World) -> Result<String, BatchExecutionError> {
    let (mut m, mut a) = fetch_or_create_android_keystore();
    loop {
        let ev = w.respond(&a);
        match m.step(ev) {
            Step::Continue { next, action } => {
                m = next;
                a = action;
            }
            Step::Done { value } => return Ok(value),
            Step::Failed { err } => return Err(err),
        }
    }
}

#[test]
fn failed_generation_keeps_the_full_execution_context() {
    let mut w = World::new();
    w.keystore_exists = false;
    w.fail_tools.push("/usr/bin/keytool".to_owned());
    let r = drive_keystore(&mut w);
    match r {
        Err(BatchExecutionError::Execution {
            err: ExecutionError::Exit { executable, at, args, code },
        }) => {
            assert_eq!(executable, "/usr/bin/keytool");
            assert_eq!(at, ".");
            assert_eq!(code, 1);
            assert_eq!(args[0], "-genkey");
            assert_eq!(args[3], "/home/u/.android/debug.keystore");
        }
        other => panic!("unexpected result: {:?}", other),
    }
}

#[test]
fn failed_keytool_lookup_keeps_its_own_error() {
    let mut w = World::new();
    w.keystore_exists = false;
    w.listings[1] = ("/usr/bin".to_owned(), Ok(vec!["/usr/bin/javac".to_owned()]));
    let r = drive_keystore(&mut w);
    assert_eq!(
        r,
        Err(BatchExecutionError::Program {
            err: FindError::NotFound { dir: "/usr/bin".to_owned(), name: "keytool".to_owned() },
        })
    );
}

#[test]
fn spawn_failures_and_signals_have_their_own_errors() {
    let exe = "t".to_owned();
    let at = "d".to_owned();
    let args = vec!["a".to_owned()];
    assert_eq!(
        anders::protocol::classify_outcome(RunOutcome::Success, &exe, &at, &args),
        Ok(())
    );
    assert_eq!(
        anders::protocol::classify_outcome(
            RunOutcome::SpawnFailed { cause: "missing".to_owned() },
            &exe,
            &at,
            &args
        ),
        Err(ExecutionError::Spawn {
            executable: "t".to_owned(),
            at: "d".to_owned(),
            cause: "missing".to_owned(),
        })
    );
    assert_eq!(
        anders::protocol::classify_outcome(RunOutcome::AbnormalTermination, &exe, &at, &args),
        Err(ExecutionError::Abnormal {
            executable: "t".to_owned(),
            at: "d".to_owned(),
            args: vec!["a".to_owned()],
        })
    );
    assert_eq!(
        anders::protocol::classify_outcome(RunOutcome::NonZeroExit { code: 3 }, &exe, &at, &args),
        Err(ExecutionError::Exit {
            executable: "t".to_owned(),
            at: "d".to_owned(),
            args: vec!["a".to_owned()],
            code: 3,
        })
    );
}

#[test]
fn the_diagnostic_line_joins_arguments_with_spaces() {
    let line = anders::protocol::diagnostic_line(
        &"proj".to_owned(),
        &"/usr/bin/javac".to_owned(),
        &vec!["-d".to_owned(), "obj".to_owned()],
    );
    assert_eq!(line, "proj >>> /usr/bin/javac -d obj\n");
}

#[test]
fn artifact_paths_are_predictable_from_the_project_name() {
    let ctx = demo_ctx(Vec::new());
    assert_eq!(
        anders::android_platform_jar_path("/sdk", &ctx),
        "/sdk/platforms/android-25/android.jar"
    );
    let p = "Demo".to_owned();
    assert_eq!(anders::shared::unsigned_package_path(&p), "bin/Demo.unsigned.apk");
    assert_eq!(anders::shared::signed_package_path(&p), "bin/Demo.signed.apk");
    assert_eq!(anders::shared::final_package_path(&p), "bin/Demo.apk");
}

#[test]
fn hook_extraction_finds_the_stage_entry_or_nothing() {
    let tasks = vec![
        ("compile".to_owned(), Task { before: Some("b".to_owned()), after: None }),
        ("package".to_owned(), Task { before: None, after: Some("a".to_owned()) }),
    ];
    let ctx = demo_ctx(tasks);
    assert_eq!(
        anders::extract_tasks_for("compile", &ctx),
        (Some("b".to_owned()), None)
    );
    assert_eq!(
        anders::extract_tasks_for("package", &ctx),
        (None, Some("a".to_owned()))
    );
    assert_eq!(anders::extract_tasks_for("launch", &ctx), (None, None));
}

#[test]
fn absent_snippet_starts_nothing() {
    assert!(anders::execute_script(None, "proj").is_none());
    let snippet = "echo hi".to_owned();
    match anders::execute_script(Some(&snippet), "proj") {
        Some((_, Action::ReadEnv { name })) => assert_eq!(name, "PATH"),
        other => panic!("unexpected: {:?}", other),
    }
}
