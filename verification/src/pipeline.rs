//! The stage pipelines: compile, package and launch.
//!
//! Each stage resolves its tools in a fixed order, builds its fixed
//! instruction list and hands it to the fail-fast engine. Tools are never
//! cached: a stage needing a tool twice resolves it twice, and every
//! stage invocation starts its resolutions from scratch.

use vstd::prelude::*;
use crate::context::Context;
use crate::context::hooks_for;
use crate::engine::Engine;
use crate::engine::Instr;
use crate::engine::engine_new;
use crate::engine::engine_step_rel;
use crate::engine::engine_expects;
use crate::engine::engine_wf;
use crate::engine::next_active;
use crate::engine::skipped;
use crate::engine::start_rel;
use crate::keystore::KeystoreProvision;
use crate::keystore::fetch_or_create_android_keystore;
use crate::keystore::home_var;
use crate::keystore::keystore_expects;
use crate::keystore::keystore_step_rel;
use crate::keystore::keystore_wf;
use crate::os::exe_suffix;
use crate::protocol::Action;
use crate::protocol::BatchExecutionError;
use crate::protocol::Event;
use crate::protocol::FindError;
use crate::protocol::Step;
use crate::resolve::PathResolve;
use crate::resolve::Resolution;
use crate::resolve::SdkResolve;
use crate::resolve::find_android_executable;
use crate::resolve::find_file_in_path;
use crate::resolve::generic_path_var;
use crate::resolve::path_expects;
use crate::resolve::path_step_rel;
use crate::resolve::path_wf;
use crate::resolve::sdk_expects;
use crate::resolve::sdk_root_var;
use crate::resolve::sdk_step_rel;
use crate::shared::aapt_compile_args;
use crate::shared::aapt_compile_args_spec;
use crate::shared::aapt_package_args;
use crate::shared::aapt_package_args_spec;
use crate::shared::adb_args;
use crate::shared::adb_args_spec;
use crate::shared::android_platform_jar_path;
use crate::shared::classpath_of;
use crate::shared::classpath_spec;
use crate::shared::dx_args;
use crate::shared::dx_args_spec;
use crate::shared::extract_tasks_for;
use crate::shared::final_package;
use crate::shared::final_package_path;
use crate::shared::jarsigner_args;
use crate::shared::jarsigner_args_spec;
use crate::shared::javac_base_args;
use crate::shared::javac_base_args_spec;
use crate::shared::opt_view;
use crate::shared::platform_jar;
use crate::shared::signed_package;
use crate::shared::signed_package_path;
use crate::shared::unsigned_package;
use crate::shared::unsigned_package_path;
use crate::shared::zipalign_args;
use crate::shared::zipalign_args_spec;
use crate::strutil::seq_views;
use crate::strutil::with_suffix;

verus! {

/// Which stage a pipeline value drives.
#[derive(Debug, PartialEq, Eq, Clone, Copy)]
pub enum StageKind {
    Compile,
    Package,
    Launch,
}

/// The SDK tools a stage resolves, in order.
pub open spec fn sdk_needs(k: StageKind) -> Seq<Seq<char>> {
    match k {
        StageKind::Compile => seq!["aapt"@],
        StageKind::Package => seq!["dx"@, "aapt"@, "zipalign"@],
        StageKind::Launch => seq!["adb"@],
    }
}

/// The tools a stage resolves through the generic PATH lookup, in order,
/// after its SDK tools.
pub open spec fn path_needs(k: StageKind) -> Seq<Seq<char>> {
    match k {
        StageKind::Compile => seq!["javac"@],
        StageKind::Package => seq!["jarsigner"@],
        StageKind::Launch => Seq::empty(),
    }
}

/// Whether a stage provisions the debug keystore, after its lookups.
pub open spec fn needs_keystore(k: StageKind) -> bool {
    k is Package
}

/// The name a stage's hooks are registered under.
pub open spec fn stage_command(k: StageKind) -> Seq<char> {
    match k {
        StageKind::Compile => "compile"@,
        StageKind::Package => "package"@,
        StageKind::Launch => "launch"@,
    }
}

fn sdk_need_at(kind: &StageKind, i: usize) -> (r: &'static str)
    requires
        i < sdk_needs(*kind).len(),
    ensures
        r@ == sdk_needs(*kind)[i as int],
{
    match kind {
        StageKind::Compile => "aapt",
        StageKind::Package => if i == 0 {
            "dx"
        } else if i == 1 {
            "aapt"
        } else {
            "zipalign"
        },
        StageKind::Launch => "adb",
    }
}

fn path_need_at(kind: &StageKind, i: usize) -> (r: &'static str)
    requires
        i < path_needs(*kind).len(),
    ensures
        r@ == path_needs(*kind)[i as int],
{
    match kind {
        StageKind::Compile => "javac",
        StageKind::Package => "jarsigner",
        StageKind::Launch => unreached(),
    }
}

/// A running stage: its kind, the project root, the configuration it
/// works from, and how far it has come.
#[derive(Debug, PartialEq, Eq)]
pub struct Stage {
    pub kind: StageKind,
    pub at: String,
    pub ctx: Context,
    pub phase: StagePhase,
}

#[derive(Debug, PartialEq, Eq)]
pub enum StagePhase {
    /// An SDK tool is being resolved.
    Sdk { sdk_done: Vec<Resolution>, m: SdkResolve },
    /// A PATH tool is being resolved; all SDK tools are in.
    Path { sdk_done: Vec<Resolution>, path_done: Vec<String>, m: PathResolve },
    /// The keystore is being provisioned; all lookups are in.
    Keystore { sdk_done: Vec<Resolution>, path_done: Vec<String>, m: KeystoreProvision },
    /// The main work runs on the engine.
    Exec { engine: Engine },
}

/// Structural soundness of a stage: each resolution list is as long as
/// the phase says, and the machine in flight resolves the next need.
pub open spec fn stage_wf(st: Stage) -> bool {
    match st.phase {
        StagePhase::Sdk { sdk_done, m } => sdk_done@.len() < sdk_needs(st.kind).len() && m.name@
            == with_suffix(sdk_needs(st.kind)[sdk_done@.len() as int], exe_suffix()),
        StagePhase::Path { sdk_done, path_done, m } => sdk_done@.len() == sdk_needs(
            st.kind,
        ).len() && path_done@.len() < path_needs(st.kind).len() && m.name@ == with_suffix(
            path_needs(st.kind)[path_done@.len() as int],
            exe_suffix(),
        ) && path_wf(m),
        StagePhase::Keystore { sdk_done, path_done, m } => needs_keystore(st.kind)
            && sdk_done@.len() == sdk_needs(st.kind).len() && path_done@.len() == path_needs(
            st.kind,
        ).len() && keystore_wf(m),
        StagePhase::Exec { engine } => engine_wf(engine),
    }
}

/// Which events a stage in this phase accepts.
pub open spec fn stage_expects(st: Stage, ev: Event) -> bool {
    match st.phase {
        StagePhase::Sdk { m, .. } => sdk_expects(m, ev),
        StagePhase::Path { m, .. } => path_expects(m, ev),
        StagePhase::Keystore { m, .. } => keystore_expects(m, ev),
        StagePhase::Exec { engine } => engine_expects(engine, ev),
    }
}

/// The unchanged parts of a stage across one step.
pub open spec fn stage_frame(pre: Stage, next: Stage) -> bool {
    next.kind == pre.kind && next.at == pre.at && next.ctx == pre.ctx
}

/// The instruction list of the compile stage: before-hook, the resource
/// packager generating sources against the platform archive, the scoped
/// source enumeration, the compiler over the enumerated sources, and the
/// after-hook.
pub open spec fn compile_instrs_rel(
    ctx: Context,
    aapt_exe: Seq<char>,
    sdk_root: Seq<char>,
    javac: Seq<char>,
    instrs: Seq<Instr>,
) -> bool {
    let jar = platform_jar(sdk_root, ctx.target@);
    let hooks = hooks_for(ctx, "compile"@);
    instrs.len() == 5 && (instrs[0] matches Instr::Hook { snippet } && opt_view(snippet)
        == hooks.0) && (instrs[1] matches Instr::Tool { executable, args } && executable@
        == aapt_exe && seq_views(args@) == aapt_compile_args_spec(jar)) && (
    instrs[2] matches Instr::CollectSources { pattern } && pattern@ == "src/**/*.java"@) && (
    instrs[3] matches Instr::ToolWithSources { executable, args } && executable@ == javac
        && seq_views(args@) == javac_base_args_spec(classpath_spec(jar))) && (
    instrs[4] matches Instr::Hook { snippet } && opt_view(snippet) == hooks.1)
}

/// The instruction list of the package stage: the dex converter, the
/// resource packager bundling the unsigned package, the signer, and the
/// zip aligner producing the final artifact, that last step bracketed by
/// the stage's hooks. Signing precedes aligning because each step
/// consumes the previous step's output.
pub open spec fn package_instrs_rel(
    ctx: Context,
    dx_exe: Seq<char>,
    sdk_root: Seq<char>,
    aapt_exe: Seq<char>,
    zipalign_exe: Seq<char>,
    jarsigner: Seq<char>,
    keystore: Seq<char>,
    instrs: Seq<Instr>,
) -> bool {
    let jar = platform_jar(sdk_root, ctx.target@);
    let unsigned = unsigned_package(ctx.project@);
    let signed = signed_package(ctx.project@);
    let out = final_package(ctx.project@);
    let hooks = hooks_for(ctx, "package"@);
    instrs.len() == 6 && (instrs[0] matches Instr::Tool { executable, args } && executable@
        == dx_exe && seq_views(args@) == dx_args_spec()) && (instrs[1] matches Instr::Tool {
        executable,
        args,
    } && executable@ == aapt_exe && seq_views(args@) == aapt_package_args_spec(jar, unsigned))
        && (instrs[2] matches Instr::Tool { executable, args } && executable@ == jarsigner
        && seq_views(args@) == jarsigner_args_spec(keystore, signed, unsigned)) && (
    instrs[3] matches Instr::Hook { snippet } && opt_view(snippet) == hooks.0) && (
    instrs[4] matches Instr::Tool { executable, args } && executable@ == zipalign_exe && seq_views(
        args@,
    ) == zipalign_args_spec(signed, out)) && (instrs[5] matches Instr::Hook { snippet }
        && opt_view(snippet) == hooks.1)
}

/// The instruction list of the launch stage: before-hook, the device
/// bridge installing the final artifact, after-hook.
pub open spec fn launch_instrs_rel(ctx: Context, adb_exe: Seq<char>, instrs: Seq<Instr>) -> bool {
    let hooks = hooks_for(ctx, "launch"@);
    instrs.len() == 3 && (instrs[0] matches Instr::Hook { snippet } && opt_view(snippet)
        == hooks.0) && (instrs[1] matches Instr::Tool { executable, args } && executable@
        == adb_exe && seq_views(args@) == adb_args_spec(final_package(ctx.project@))) && (
    instrs[2] matches Instr::Hook { snippet } && opt_view(snippet) == hooks.1)
}

/// The instruction list a stage runs, given its resolutions.
pub open spec fn instrs_rel_for(
    kind: StageKind,
    ctx: Context,
    sdk: Seq<Resolution>,
    path: Seq<String>,
    keystore: Option<Seq<char>>,
    instrs: Seq<Instr>,
) -> bool {
    match kind {
        StageKind::Compile => sdk.len() == 1 && path.len() == 1 && keystore is None
            && compile_instrs_rel(ctx, sdk[0].executable@, sdk[0].root@, path[0]@, instrs),
        StageKind::Package => sdk.len() == 3 && path.len() == 1 && (keystore matches Some(k)
            && package_instrs_rel(
            ctx,
            sdk[0].executable@,
            sdk[0].root@,
            sdk[1].executable@,
            sdk[2].executable@,
            path[0]@,
            k,
            instrs,
        )),
        StageKind::Launch => sdk.len() == 1 && path.len() == 0 && keystore is None
            && launch_instrs_rel(ctx, sdk[0].executable@, instrs),
    }
}

/// A stage whose resolutions are all in starts its engine: the successor
/// holds a well-formed engine on the stage's instruction list, started
/// at its first active instruction.
pub open spec fn stage_started_rel(
    pre: Stage,
    sdk: Seq<Resolution>,
    path: Seq<String>,
    keystore: Option<Seq<char>>,
    r: Step<Stage, (), BatchExecutionError>,
) -> bool {
    r matches Step::Continue { next, action } && stage_frame(pre, next) && (
    next.phase matches StagePhase::Exec { engine } && engine_wf(engine) && engine.at@ == pre.at@
        && instrs_rel_for(pre.kind, pre.ctx, sdk, path, keystore, engine.instrs@) && engine.idx
        == next_active(engine.instrs@, 0) && engine.idx < engine.instrs@.len() && seq_views(
        engine.sources@,
    ) == Seq::<Seq<char>>::empty() && start_rel(
        engine.at@,
        Seq::empty(),
        engine.instrs@[engine.idx as int],
        engine.sub,
        action,
    ))
}

/// What follows a finished resolution: the next need of the stage, or —
/// with everything resolved — the started engine.
pub open spec fn resolutions_after_rel(
    pre: Stage,
    sdk: Seq<Resolution>,
    path: Seq<String>,
    keystore: Option<Seq<char>>,
    r: Step<Stage, (), BatchExecutionError>,
) -> bool {
    if sdk.len() < sdk_needs(pre.kind).len() {
        r matches Step::Continue { next, action } && stage_frame(pre, next) && (
        next.phase matches StagePhase::Sdk { sdk_done, m } && sdk_done@ == sdk && m.name@
            == with_suffix(sdk_needs(pre.kind)[sdk.len() as int], exe_suffix())
            && m.state is AwaitEnv) && (action matches Action::ReadEnv { name } && name@
            == sdk_root_var())
    } else if path.len() < path_needs(pre.kind).len() {
        r matches Step::Continue { next, action } && stage_frame(pre, next) && (
        next.phase matches StagePhase::Path { sdk_done, path_done, m } && sdk_done@ == sdk
            && path_done@ == path && m.name@ == with_suffix(
            path_needs(pre.kind)[path.len() as int],
            exe_suffix(),
        ) && m.state is AwaitEnv) && (action matches Action::ReadEnv { name } && name@
            == generic_path_var())
    } else if needs_keystore(pre.kind) && keystore is None {
        r matches Step::Continue { next, action } && stage_frame(pre, next) && (
        next.phase matches StagePhase::Keystore { sdk_done, path_done, m } && sdk_done@ == sdk
            && path_done@ == path && m.state is AwaitHome) && (
        action matches Action::ReadEnv { name } && name@ == home_var())
    } else {
        stage_started_rel(pre, sdk, path, keystore, r)
    }
}

/// How one SDK resolver step becomes one stage step.
pub open spec fn stage_sdk_lift(
    pre: Stage,
    sdk_done: Seq<Resolution>,
    s: Step<SdkResolve, Resolution, FindError>,
    r: Step<Stage, (), BatchExecutionError>,
) -> bool {
    match s {
        Step::Continue { next: m2, action } => r matches Step::Continue { next, action: a2 }
            && stage_frame(pre, next) && (next.phase matches StagePhase::Sdk { sdk_done: d2, m }
            && d2@ == sdk_done && m == m2) && a2 == action,
        Step::Done { value } => resolutions_after_rel(
            pre,
            sdk_done.push(value),
            Seq::empty(),
            None,
            r,
        ),
        Step::Failed { err } => r matches Step::Failed {
            err: BatchExecutionError::Program { err: e2 },
        } && e2 == err,
    }
}

/// How one PATH resolver step becomes one stage step.
pub open spec fn stage_path_lift(
    pre: Stage,
    sdk_done: Seq<Resolution>,
    path_done: Seq<String>,
    s: Step<PathResolve, String, FindError>,
    r: Step<Stage, (), BatchExecutionError>,
) -> bool {
    match s {
        Step::Continue { next: m2, action } => r matches Step::Continue { next, action: a2 }
            && stage_frame(pre, next) && (next.phase matches StagePhase::Path {
            sdk_done: d2,
            path_done: p2,
            m,
        } && d2@ == sdk_done && p2@ == path_done && m == m2) && a2 == action,
        Step::Done { value } => resolutions_after_rel(pre, sdk_done, path_done.push(value), None, r),
        Step::Failed { err } => r matches Step::Failed {
            err: BatchExecutionError::Program { err: e2 },
        } && e2 == err,
    }
}

/// How one keystore provisioning step becomes one stage step: a
/// provisioning failure already carries its real cause and passes
/// through unchanged.
pub open spec fn stage_keystore_lift(
    pre: Stage,
    sdk_done: Seq<Resolution>,
    path_done: Seq<String>,
    s: Step<KeystoreProvision, String, BatchExecutionError>,
    r: Step<Stage, (), BatchExecutionError>,
) -> bool {
    match s {
        Step::Continue { next: m2, action } => r matches Step::Continue { next, action: a2 }
            && stage_frame(pre, next) && (next.phase matches StagePhase::Keystore {
            sdk_done: d2,
            path_done: p2,
            m,
        } && d2@ == sdk_done && p2@ == path_done && m == m2) && a2 == action,
        Step::Done { value } => resolutions_after_rel(pre, sdk_done, path_done, Some(value@), r),
        Step::Failed { err } => r matches Step::Failed { err: e2 } && e2 == err,
    }
}

/// How one engine step becomes one stage step.
pub open spec fn stage_engine_lift(
    pre: Stage,
    s: Step<Engine, (), BatchExecutionError>,
    r: Step<Stage, (), BatchExecutionError>,
) -> bool {
    match s {
        Step::Continue { next: eng, action } => r matches Step::Continue { next, action: a2 }
            && stage_frame(pre, next) && (next.phase matches StagePhase::Exec { engine } && engine
            == eng) && a2 == action,
        Step::Done { .. } => r matches Step::Done { .. },
        Step::Failed { err } => r matches Step::Failed { err: e2 } && e2 == err,
    }
}

/// The transition relation of [`Stage::step`].
pub open spec fn stage_step_rel(
    pre: Stage,
    ev: Event,
    r: Step<Stage, (), BatchExecutionError>,
) -> bool {
    match pre.phase {
        StagePhase::Sdk { sdk_done, m } => exists|s: Step<SdkResolve, Resolution, FindError>|
            sdk_step_rel(m, ev, s) && stage_sdk_lift(pre, sdk_done@, s, r),
        StagePhase::Path { sdk_done, path_done, m } => exists|
            s: Step<PathResolve, String, FindError>,
        | path_step_rel(m, ev, s) && stage_path_lift(pre, sdk_done@, path_done@, s, r),
        StagePhase::Keystore { sdk_done, path_done, m } => exists|
            s: Step<KeystoreProvision, String, BatchExecutionError>,
        | keystore_step_rel(m, ev, s) && stage_keystore_lift(pre, sdk_done@, path_done@, s, r),
        StagePhase::Exec { engine } => exists|s: Step<Engine, (), BatchExecutionError>|
            engine_step_rel(engine, ev, s) && stage_engine_lift(pre, s, r),
    }
}

/// Builds the compile stage's instruction list from its resolutions.
pub fn compile_instrs(ctx: &Context, aapt: &Resolution, javac: &String) -> (r: Vec<Instr>)
    ensures
        compile_instrs_rel(*ctx, aapt.executable@, aapt.root@, javac@, r@),
{
    let jar = android_platform_jar_path(aapt.root.as_str(), ctx);
    let cp = classpath_of(&jar);
    let (before, after) = extract_tasks_for("compile", ctx);
    let mut r: Vec<Instr> = Vec::new();
    r.push(Instr::Hook { snippet: before });
    r.push(Instr::Tool { executable: aapt.executable.clone(), args: aapt_compile_args(&jar) });
    r.push(Instr::CollectSources { pattern: String::from_str("src/**/*.java") });
    r.push(Instr::ToolWithSources { executable: javac.clone(), args: javac_base_args(&cp) });
    r.push(Instr::Hook { snippet: after });
    r
}

/// Builds the package stage's instruction list from its resolutions.
pub fn package_instrs(
    ctx: &Context,
    dx: &Resolution,
    aapt: &Resolution,
    zipalign: &Resolution,
    jarsigner: &String,
    keystore: &String,
) -> (r: Vec<Instr>)
    ensures
        package_instrs_rel(
            *ctx,
            dx.executable@,
            dx.root@,
            aapt.executable@,
            zipalign.executable@,
            jarsigner@,
            keystore@,
            r@,
        ),
{
    let jar = android_platform_jar_path(dx.root.as_str(), ctx);
    let unsigned = unsigned_package_path(&ctx.project);
    let signed = signed_package_path(&ctx.project);
    let out = final_package_path(&ctx.project);
    let (before, after) = extract_tasks_for("package", ctx);
    let mut r: Vec<Instr> = Vec::new();
    r.push(Instr::Tool { executable: dx.executable.clone(), args: dx_args() });
    r.push(
        Instr::Tool {
            executable: aapt.executable.clone(),
            args: aapt_package_args(&jar, &unsigned),
        },
    );
    r.push(
        Instr::Tool {
            executable: jarsigner.clone(),
            args: jarsigner_args(keystore, &signed, &unsigned),
        },
    );
    r.push(Instr::Hook { snippet: before });
    r.push(
        Instr::Tool { executable: zipalign.executable.clone(), args: zipalign_args(&signed, &out) },
    );
    r.push(Instr::Hook { snippet: after });
    r
}

/// Builds the launch stage's instruction list from its resolution.
pub fn launch_instrs(ctx: &Context, adb: &Resolution) -> (r: Vec<Instr>)
    ensures
        launch_instrs_rel(*ctx, adb.executable@, r@),
{
    let out = final_package_path(&ctx.project);
    let (before, after) = extract_tasks_for("launch", ctx);
    let mut r: Vec<Instr> = Vec::new();
    r.push(Instr::Hook { snippet: before });
    r.push(Instr::Tool { executable: adb.executable.clone(), args: adb_args(&out) });
    r.push(Instr::Hook { snippet: after });
    r
}

fn stage_new(kind: StageKind, at: &str, ctx: Context) -> (r: (Stage, Action))
    ensures
        r.0.kind == kind,
        r.0.at@ == at@,
        r.0.ctx == ctx,
        r.0.phase matches StagePhase::Sdk { sdk_done, m } && sdk_done@.len() == 0 && m.name@
            == with_suffix(sdk_needs(kind)[0], exe_suffix()) && m.state is AwaitEnv,
        stage_wf(r.0),
        r.1 matches Action::ReadEnv { name } && name@ == sdk_root_var(),
{
    let name = sdk_need_at(&kind, 0);
    let (m, action) = find_android_executable(name);
    let sdk_done: Vec<Resolution> = Vec::new();
    let st = Stage {
        kind,
        at: String::from_str(at),
        ctx,
        phase: StagePhase::Sdk { sdk_done, m },
    };
    (st, action)
}

/// Starts the compile stage on the project at `at`: resource packager
/// and compiler are resolved, then before-hook, source generation,
/// scoped source enumeration, compilation and after-hook run in order.
pub fn compile_application(at: &str, ctx: Context) -> (r: (Stage, Action))
    requires
        crate::context::valid_context(ctx),
    ensures
        r.0.kind == StageKind::Compile,
        r.0.at@ == at@,
        r.0.ctx == ctx,
        stage_wf(r.0),
        r.0.phase matches StagePhase::Sdk { sdk_done, m } && sdk_done@.len() == 0 && m.name@
            == with_suffix("aapt"@, exe_suffix()) && m.state is AwaitEnv,
        r.1 matches Action::ReadEnv { name } && name@ == sdk_root_var(),
{
    stage_new(StageKind::Compile, at, ctx)
}

/// Starts the package stage on the project at `at`: dex converter,
/// resource packager, zip aligner, signer and the debug keystore are
/// brought in, then dexing, bundling, signing and hook-bracketed
/// aligning run in order.
pub fn package_application(at: &str, ctx: Context) -> (r: (Stage, Action))
    requires
        crate::context::valid_context(ctx),
    ensures
        r.0.kind == StageKind::Package,
        r.0.at@ == at@,
        r.0.ctx == ctx,
        stage_wf(r.0),
        r.0.phase matches StagePhase::Sdk { sdk_done, m } && sdk_done@.len() == 0 && m.name@
            == with_suffix("dx"@, exe_suffix()) && m.state is AwaitEnv,
        r.1 matches Action::ReadEnv { name } && name@ == sdk_root_var(),
{
    stage_new(StageKind::Package, at, ctx)
}

/// Starts the launch stage on the project at `at`: the device bridge is
/// resolved, then before-hook, the install of the final artifact and the
/// after-hook run in order.
pub fn launch_application(at: &str, ctx: Context) -> (r: (Stage, Action))
    requires
        crate::context::valid_context(ctx),
    ensures
        r.0.kind == StageKind::Launch,
        r.0.at@ == at@,
        r.0.ctx == ctx,
        stage_wf(r.0),
        r.0.phase matches StagePhase::Sdk { sdk_done, m } && sdk_done@.len() == 0 && m.name@
            == with_suffix("adb"@, exe_suffix()) && m.state is AwaitEnv,
        r.1 matches Action::ReadEnv { name } && name@ == sdk_root_var(),
{
    stage_new(StageKind::Launch, at, ctx)
}

proof fn lemma_next_active_step(instrs: Seq<Instr>, i: int, k: int)
    requires
        0 <= i <= k < instrs.len(),
        !skipped(instrs[k]),
        forall|j: int| i <= j < k ==> skipped(instrs[j]),
    ensures
        next_active(instrs, i) == k,
    decreases k - i,
{
    if i < k {
        lemma_next_active_step(instrs, i + 1, k);
    }
}

/// Builds the engine for the resolved stage and starts it.
fn start_stage(
    kind: StageKind,
    at: String,
    ctx: Context,
    instrs: Vec<Instr>,
    Ghost(sdk): Ghost<Seq<Resolution>>,
    Ghost(path): Ghost<Seq<String>>,
    Ghost(keystore): Ghost<Option<Seq<char>>>,
) -> (r: (Stage, Action))
    requires
        instrs_rel_for(kind, ctx, sdk, path, keystore, instrs@),
        instrs@.len() >= 2,
        !skipped(instrs@[0]) || !skipped(instrs@[1]),
    ensures
        r.0.kind == kind,
        r.0.at == at,
        r.0.ctx == ctx,
        stage_wf(r.0),
        r.0.phase matches StagePhase::Exec { engine } && engine_wf(engine) && engine.at@ == at@
            && instrs_rel_for(kind, ctx, sdk, path, keystore, engine.instrs@) && engine.idx
            == next_active(engine.instrs@, 0) && engine.idx < engine.instrs@.len() && seq_views(
            engine.sources@,
        ) == Seq::<Seq<char>>::empty() && start_rel(
            engine.at@,
            Seq::empty(),
            engine.instrs@[engine.idx as int],
            engine.sub,
            r.1,
        ),
{
    let ghost instrs_view = instrs@;
    let at2 = at.clone();
    let er = engine_new(at2, instrs);
    proof {
        if !skipped(instrs_view[0]) {
            lemma_next_active_step(instrs_view, 0, 0);
        } else {
            lemma_next_active_step(instrs_view, 0, 1);
        }
    }
    match er {
        Step::Continue { next: engine, action } => {
            let st = Stage { kind, at, ctx, phase: StagePhase::Exec { engine } };
            (st, action)
        },
        _ => unreached(),
    }
}

impl Stage {
    /// Feeds the answer to the last emitted action into the stage.
    pub fn step(self, ev: Event) -> (r: Step<Stage, (), BatchExecutionError>)
        requires
            stage_wf(self),
            stage_expects(self, ev),
        ensures
            stage_step_rel(self, ev, r),
            r matches Step::Continue { next, .. } ==> stage_wf(next),
    {
        let ghost pre = self;
        let Stage { kind, at, ctx, phase } = self;
        match phase {
            StagePhase::Sdk { sdk_done, m } => {
                let s = m.step(ev);
                let ghost s_ghost = s;
                let r = match s {
                    Step::Continue { next: m2, action } => Step::Continue {
                        next: Stage {
                            kind,
                            at,
                            ctx,
                            phase: StagePhase::Sdk { sdk_done, m: m2 },
                        },
                        action,
                    },
                    Step::Done { value } => {
                        let mut sdk_done = sdk_done;
                        sdk_done.push(value);
                        let n: usize = sdk_done.len();
                        if n < sdk_needs_len(&kind) {
                            let (m2, action) = find_android_executable(sdk_need_at(&kind, n));
                            Step::Continue {
                                next: Stage {
                                    kind,
                                    at,
                                    ctx,
                                    phase: StagePhase::Sdk { sdk_done, m: m2 },
                                },
                                action,
                            }
                        } else if path_needs_len(&kind) > 0 {
                            let (m2, action) = find_file_in_path(path_need_at(&kind, 0));
                            let path_done: Vec<String> = Vec::new();
                            Step::Continue {
                                next: Stage {
                                    kind,
                                    at,
                                    ctx,
                                    phase: StagePhase::Path { sdk_done, path_done, m: m2 },
                                },
                                action,
                            }
                        } else {
                            let adb = &sdk_done[0];
                            let instrs = launch_instrs(&ctx, adb);
                            proof {
                                assert(!skipped(instrs@[1]));
                            }
                            let (st, action) = start_stage(
                                kind,
                                at,
                                ctx,
                                instrs,
                                Ghost(sdk_done@),
                                Ghost(Seq::empty()),
                                Ghost(None),
                            );
                            Step::Continue { next: st, action }
                        }
                    },
                    Step::Failed { err } => Step::Failed {
                        err: BatchExecutionError::Program { err },
                    },
                };
                proof {
                    assert(pre.phase matches StagePhase::Sdk { sdk_done: d, .. }
                        && stage_sdk_lift(pre, d@, s_ghost, r));
                }
                r
            },
            StagePhase::Path { sdk_done, path_done, m } => {
                let s = m.step(ev);
                let ghost s_ghost = s;
                let r = match s {
                    Step::Continue { next: m2, action } => Step::Continue {
                        next: Stage {
                            kind,
                            at,
                            ctx,
                            phase: StagePhase::Path { sdk_done, path_done, m: m2 },
                        },
                        action,
                    },
                    Step::Done { value } => {
                        let mut path_done = path_done;
                        path_done.push(value);
                        if needs_keystore_exec(&kind) {
                            let (m2, action) = fetch_or_create_android_keystore();
                            Step::Continue {
                                next: Stage {
                                    kind,
                                    at,
                                    ctx,
                                    phase: StagePhase::Keystore { sdk_done, path_done, m: m2 },
                                },
                                action,
                            }
                        } else {
                            let aapt = &sdk_done[0];
                            let javac = &path_done[0];
                            let instrs = compile_instrs(&ctx, aapt, javac);
                            proof {
                                assert(!skipped(instrs@[1]));
                            }
                            let (st, action) = start_stage(
                                kind,
                                at,
                                ctx,
                                instrs,
                                Ghost(sdk_done@),
                                Ghost(path_done@),
                                Ghost(None),
                            );
                            Step::Continue { next: st, action }
                        }
                    },
                    Step::Failed { err } => Step::Failed {
                        err: BatchExecutionError::Program { err },
                    },
                };
                proof {
                    assert(pre.phase matches StagePhase::Path { sdk_done: d, path_done: p, .. }
                        && stage_path_lift(pre, d@, p@, s_ghost, r));
                }
                r
            },
            StagePhase::Keystore { sdk_done, path_done, m } => {
                let s = m.step(ev);
                let ghost s_ghost = s;
                let r = match s {
                    Step::Continue { next: m2, action } => Step::Continue {
                        next: Stage {
                            kind,
                            at,
                            ctx,
                            phase: StagePhase::Keystore { sdk_done, path_done, m: m2 },
                        },
                        action,
                    },
                    Step::Done { value } => {
                        let dx = &sdk_done[0];
                        let aapt = &sdk_done[1];
                        let zipalign = &sdk_done[2];
                        let jarsigner = &path_done[0];
                        let instrs = package_instrs(&ctx, dx, aapt, zipalign, jarsigner, &value);
                        proof {
                            assert(!skipped(instrs@[0]));
                        }
                        let (st, action) = start_stage(
                            kind,
                            at,
                            ctx,
                            instrs,
                            Ghost(sdk_done@),
                            Ghost(path_done@),
                            Ghost(Some(value@)),
                        );
                        Step::Continue { next: st, action }
                    },
                    Step::Failed { err } => Step::Failed { err },
                };
                proof {
                    assert(pre.phase matches StagePhase::Keystore { sdk_done: d, path_done: p, .. }
                        && stage_keystore_lift(pre, d@, p@, s_ghost, r));
                }
                r
            },
            StagePhase::Exec { engine } => {
                let s = engine.step(ev);
                let ghost s_ghost = s;
                let r = match s {
                    Step::Continue { next: eng, action } => Step::Continue {
                        next: Stage { kind, at, ctx, phase: StagePhase::Exec { engine: eng } },
                        action,
                    },
                    Step::Done { value } => Step::Done { value },
                    Step::Failed { err } => Step::Failed { err },
                };
                proof {
                    assert(stage_engine_lift(pre, s_ghost, r));
                }
                r
            },
        }
    }
}

/// A stage with no hooks configured builds an instruction list without a
/// single hook instruction. Together with the engine's law that such a
/// list never puts the engine inside a hook, this says that a stage with
/// no hooks never attempts to resolve a shell interpreter.
pub proof fn lemma_no_hooks_configured_no_hook_instrs(
    kind: StageKind,
    ctx: Context,
    sdk: Seq<Resolution>,
    path: Seq<String>,
    keystore: Option<Seq<char>>,
    instrs: Seq<Instr>,
)
    requires
        instrs_rel_for(kind, ctx, sdk, path, keystore, instrs),
        hooks_for(ctx, stage_command(kind)) == (None::<Seq<char>>, None::<Seq<char>>),
    ensures
        crate::engine::no_configured_hooks(instrs),
{
    assert forall|j: int| 0 <= j < instrs.len() implies !(#[trigger] instrs[j] matches Instr::Hook {
        snippet: Some(..),
    }) by {
        match kind {
            StageKind::Compile => {
                assert(j == 0 || j == 1 || j == 2 || j == 3 || j == 4);
            },
            StageKind::Package => {
                assert(j == 0 || j == 1 || j == 2 || j == 3 || j == 4 || j == 5);
            },
            StageKind::Launch => {
                assert(j == 0 || j == 1 || j == 2);
            },
        }
    }
}

fn sdk_needs_len(kind: &StageKind) -> (r: usize)
    ensures
        r == sdk_needs(*kind).len(),
{
    match kind {
        StageKind::Compile => 1,
        StageKind::Package => 3,
        StageKind::Launch => 1,
    }
}

fn path_needs_len(kind: &StageKind) -> (r: usize)
    ensures
        r == path_needs(*kind).len(),
{
    match kind {
        StageKind::Compile => 1,
        StageKind::Package => 1,
        StageKind::Launch => 0,
    }
}

fn needs_keystore_exec(kind: &StageKind) -> (r: bool)
    ensures
        r == needs_keystore(*kind),
{
    match kind {
        StageKind::Package => true,
        _ => false,
    }
}

} // verus!
