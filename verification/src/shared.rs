//! Paths and argument lists the stages build, all with exact contracts.
//!
//! Every artifact location is predictable from the configuration alone:
//! `bin/<project>.unsigned.apk`, `bin/<project>.signed.apk` and
//! `bin/<project>.apk`. Every tool invocation's argument list is a fixed
//! shape around those paths.

use vstd::prelude::*;
use crate::context::Context;
use crate::context::Task;
use crate::context::hooks_for;
use crate::context::tasks_for;
use crate::os::path_delim;
use crate::strutil::seq_views;
use crate::strutil::str_eq;

verus! {

/// The view of an optional string.
pub open spec fn opt_view(o: Option<String>) -> Option<Seq<char>> {
    match o {
        None => None,
        Some(s) => Some(s@),
    }
}

/// The platform archive for `target` under the SDK root `root`.
pub open spec fn platform_jar(root: Seq<char>, target: Seq<char>) -> Seq<char> {
    root + "/platforms/"@ + target + "/android.jar"@
}

/// The path of the platform archive (`android.jar`) that compiling and
/// packaging reference for the configured target.
pub fn android_platform_jar_path(android_home_dir: &str, ctx: &Context) -> (r: String)
    ensures
        r@ == platform_jar(android_home_dir@, ctx.target@),
{
    String::from_str(android_home_dir).concat("/platforms/").concat(ctx.target.as_str()).concat(
        "/android.jar",
    )
}

/// The compiler classpath: the platform archive joined with the class
/// output directory by the OS path delimiter.
pub open spec fn classpath_spec(jar: Seq<char>) -> Seq<char> {
    jar + path_delim() + "obj"@
}

pub fn classpath_of(jar: &String) -> (r: String)
    ensures
        r@ == classpath_spec(jar@),
{
    String::from_str(jar.as_str()).concat(":").concat("obj")
}

/// `bin/<project>.unsigned.apk`.
pub open spec fn unsigned_package(project: Seq<char>) -> Seq<char> {
    "bin/"@ + project + ".unsigned.apk"@
}

pub fn unsigned_package_path(project: &String) -> (r: String)
    ensures
        r@ == unsigned_package(project@),
{
    String::from_str("bin/").concat(project.as_str()).concat(".unsigned.apk")
}

/// `bin/<project>.signed.apk`.
pub open spec fn signed_package(project: Seq<char>) -> Seq<char> {
    "bin/"@ + project + ".signed.apk"@
}

pub fn signed_package_path(project: &String) -> (r: String)
    ensures
        r@ == signed_package(project@),
{
    String::from_str("bin/").concat(project.as_str()).concat(".signed.apk")
}

/// `bin/<project>.apk`: the final artifact, also what the device bridge
/// installs.
pub open spec fn final_package(project: Seq<char>) -> Seq<char> {
    "bin/"@ + project + ".apk"@
}

pub fn final_package_path(project: &String) -> (r: String)
    ensures
        r@ == final_package(project@),
{
    String::from_str("bin/").concat(project.as_str()).concat(".apk")
}

pub proof fn lemma_tasks_for_found(tasks: Seq<(String, Task)>, command: Seq<char>, k: int)
    requires
        0 <= k < tasks.len(),
        tasks[k].0@ == command,
        forall|j: int| 0 <= j < k ==> tasks[j].0@ != command,
    ensures
        tasks_for(tasks, command) == Some(tasks[k].1),
    decreases tasks.len(),
{
    if k > 0 {
        lemma_tasks_for_found(tasks.drop_first(), command, k - 1);
    }
}

pub proof fn lemma_tasks_for_none(tasks: Seq<(String, Task)>, command: Seq<char>)
    requires
        forall|j: int| 0 <= j < tasks.len() ==> tasks[j].0@ != command,
    ensures
        tasks_for(tasks, command) is None,
    decreases tasks.len(),
{
    if tasks.len() > 0 {
        lemma_tasks_for_none(tasks.drop_first(), command);
    }
}

fn clone_opt_string(o: &Option<String>) -> (r: Option<String>)
    ensures
        opt_view(r) == opt_view(*o),
{
    match o {
        None => None,
        Some(s) => Some(s.clone()),
    }
}

/// The before/after hook snippets configured for `command`: those of the
/// first entry registered under that name, or none at all.
pub fn extract_tasks_for(command: &str, ctx: &Context) -> (r: (Option<String>, Option<String>))
    ensures
        opt_view(r.0) == hooks_for(*ctx, command@).0,
        opt_view(r.1) == hooks_for(*ctx, command@).1,
{
    let len: usize = ctx.tasks.len();
    let mut i: usize = 0;
    while i < len
        invariant
            i <= len,
            len == ctx.tasks@.len(),
            forall|j: int| 0 <= j < i ==> ctx.tasks@[j].0@ != command@,
        decreases len - i,
    {
        if str_eq(ctx.tasks[i].0.as_str(), command) {
            proof {
                lemma_tasks_for_found(ctx.tasks@, command@, i as int);
            }
            let before = clone_opt_string(&ctx.tasks[i].1.before);
            let after = clone_opt_string(&ctx.tasks[i].1.after);
            return (before, after);
        }
        i = i + 1;
    }
    proof {
        lemma_tasks_for_none(ctx.tasks@, command@);
    }
    (None, None)
}

fn push_lit(v: &mut Vec<String>, s: &str)
    ensures
        final(v)@.len() == old(v)@.len() + 1,
        seq_views(final(v)@) == seq_views(old(v)@).push(s@),
{
    let ghost prev = v@;
    v.push(String::from_str(s));
    proof {
        assert(seq_views(v@) =~= seq_views(prev).push(s@));
    }
}

fn push_string(v: &mut Vec<String>, s: &String)
    ensures
        final(v)@.len() == old(v)@.len() + 1,
        seq_views(final(v)@) == seq_views(old(v)@).push(s@),
{
    let ghost prev = v@;
    v.push(s.clone());
    proof {
        assert(seq_views(v@) =~= seq_views(prev).push(s@));
    }
}

/// Arguments of the resource packager when it generates sources during
/// compilation.
pub open spec fn aapt_compile_args_spec(jar: Seq<char>) -> Seq<Seq<char>> {
    seq![
        "package"@,
        "-vfm"@,
        "-S"@,
        "res"@,
        "-J"@,
        "src"@,
        "-M"@,
        "AndroidManifest.xml"@,
        "-I"@,
        jar,
    ]
}

pub fn aapt_compile_args(jar: &String) -> (r: Vec<String>)
    ensures
        seq_views(r@) == aapt_compile_args_spec(jar@),
{
    let mut r: Vec<String> = Vec::new();
    push_lit(&mut r, "package");
    push_lit(&mut r, "-vfm");
    push_lit(&mut r, "-S");
    push_lit(&mut r, "res");
    push_lit(&mut r, "-J");
    push_lit(&mut r, "src");
    push_lit(&mut r, "-M");
    push_lit(&mut r, "AndroidManifest.xml");
    push_lit(&mut r, "-I");
    push_string(&mut r, jar);
    proof {
        assert(seq_views(r@) =~= aapt_compile_args_spec(jar@));
    }
    r
}

/// Arguments of the compiler, before the enumerated source files are
/// appended as trailing positional arguments.
pub open spec fn javac_base_args_spec(classpath: Seq<char>) -> Seq<Seq<char>> {
    seq![
        "-verbose"@,
        "-source"@,
        "1.7"@,
        "-target"@,
        "1.7"@,
        "-d"@,
        "obj"@,
        "-classpath"@,
        classpath,
        "-sourcepath"@,
        "src"@,
    ]
}

pub fn javac_base_args(classpath: &String) -> (r: Vec<String>)
    ensures
        seq_views(r@) == javac_base_args_spec(classpath@),
{
    let mut r: Vec<String> = Vec::new();
    push_lit(&mut r, "-verbose");
    push_lit(&mut r, "-source");
    push_lit(&mut r, "1.7");
    push_lit(&mut r, "-target");
    push_lit(&mut r, "1.7");
    push_lit(&mut r, "-d");
    push_lit(&mut r, "obj");
    push_lit(&mut r, "-classpath");
    push_string(&mut r, classpath);
    push_lit(&mut r, "-sourcepath");
    push_lit(&mut r, "src");
    proof {
        assert(seq_views(r@) =~= javac_base_args_spec(classpath@));
    }
    r
}

/// Arguments of the dex converter.
pub open spec fn dx_args_spec() -> Seq<Seq<char>> {
    seq!["--dex"@, "--verbose"@, "--output"@, "bin/classes.dex"@, "obj"@, "lib"@]
}

pub fn dx_args() -> (r: Vec<String>)
    ensures
        seq_views(r@) == dx_args_spec(),
{
    let mut r: Vec<String> = Vec::new();
    push_lit(&mut r, "--dex");
    push_lit(&mut r, "--verbose");
    push_lit(&mut r, "--output");
    push_lit(&mut r, "bin/classes.dex");
    push_lit(&mut r, "obj");
    push_lit(&mut r, "lib");
    proof {
        assert(seq_views(r@) =~= dx_args_spec());
    }
    r
}

/// Arguments of the resource packager when it bundles the unsigned
/// package.
pub open spec fn aapt_package_args_spec(jar: Seq<char>, unsigned: Seq<char>) -> Seq<Seq<char>> {
    seq![
        "package"@,
        "-vf"@,
        "-M"@,
        "AndroidManifest.xml"@,
        "-S"@,
        "res"@,
        "-I"@,
        jar,
        "-F"@,
        unsigned,
        "bin"@,
    ]
}

pub fn aapt_package_args(jar: &String, unsigned: &String) -> (r: Vec<String>)
    ensures
        seq_views(r@) == aapt_package_args_spec(jar@, unsigned@),
{
    let mut r: Vec<String> = Vec::new();
    push_lit(&mut r, "package");
    push_lit(&mut r, "-vf");
    push_lit(&mut r, "-M");
    push_lit(&mut r, "AndroidManifest.xml");
    push_lit(&mut r, "-S");
    push_lit(&mut r, "res");
    push_lit(&mut r, "-I");
    push_string(&mut r, jar);
    push_lit(&mut r, "-F");
    push_string(&mut r, unsigned);
    push_lit(&mut r, "bin");
    proof {
        assert(seq_views(r@) =~= aapt_package_args_spec(jar@, unsigned@));
    }
    r
}

/// Arguments of the signer: debug credentials, the debug keystore, the
/// signed output and the unsigned input.
pub open spec fn jarsigner_args_spec(
    keystore: Seq<char>,
    signed: Seq<char>,
    unsigned: Seq<char>,
) -> Seq<Seq<char>> {
    seq![
        "-verbose"@,
        "-storepass"@,
        "android"@,
        "-keypass"@,
        "android"@,
        "-keystore"@,
        keystore,
        "-signedjar"@,
        signed,
        unsigned,
        "androiddebugkey"@,
    ]
}

pub fn jarsigner_args(keystore: &String, signed: &String, unsigned: &String) -> (r: Vec<String>)
    ensures
        seq_views(r@) == jarsigner_args_spec(keystore@, signed@, unsigned@),
{
    let mut r: Vec<String> = Vec::new();
    push_lit(&mut r, "-verbose");
    push_lit(&mut r, "-storepass");
    push_lit(&mut r, "android");
    push_lit(&mut r, "-keypass");
    push_lit(&mut r, "android");
    push_lit(&mut r, "-keystore");
    push_string(&mut r, keystore);
    push_lit(&mut r, "-signedjar");
    push_string(&mut r, signed);
    push_string(&mut r, unsigned);
    push_lit(&mut r, "androiddebugkey");
    proof {
        assert(seq_views(r@) =~= jarsigner_args_spec(keystore@, signed@, unsigned@));
    }
    r
}

/// Arguments of the zip aligner: signed input, final artifact output.
pub open spec fn zipalign_args_spec(signed: Seq<char>, out: Seq<char>) -> Seq<Seq<char>> {
    seq!["-v"@, "-f"@, "4"@, signed, out]
}

pub fn zipalign_args(signed: &String, out: &String) -> (r: Vec<String>)
    ensures
        seq_views(r@) == zipalign_args_spec(signed@, out@),
{
    let mut r: Vec<String> = Vec::new();
    push_lit(&mut r, "-v");
    push_lit(&mut r, "-f");
    push_lit(&mut r, "4");
    push_string(&mut r, signed);
    push_string(&mut r, out);
    proof {
        assert(seq_views(r@) =~= zipalign_args_spec(signed@, out@));
    }
    r
}

/// Arguments of the device bridge: install the final artifact.
pub open spec fn adb_args_spec(out: Seq<char>) -> Seq<Seq<char>> {
    seq!["-e"@, "install"@, out]
}

pub fn adb_args(out: &String) -> (r: Vec<String>)
    ensures
        seq_views(r@) == adb_args_spec(out@),
{
    let mut r: Vec<String> = Vec::new();
    push_lit(&mut r, "-e");
    push_lit(&mut r, "install");
    push_string(&mut r, out);
    proof {
        assert(seq_views(r@) =~= adb_args_spec(out@));
    }
    r
}

/// Arguments of the key generator: the fixed debug credentials, alias
/// and subject used to provision the debug keystore.
pub open spec fn keytool_args_spec(keystore: Seq<char>) -> Seq<Seq<char>> {
    seq![
        "-genkey"@,
        "-v"@,
        "-keystore"@,
        keystore,
        "-storepass"@,
        "android"@,
        "-keypass"@,
        "android"@,
        "-alias"@,
        "androiddebugkey"@,
        "-dname"@,
        "CN=Android Debug,O=Android,C=US"@,
    ]
}

pub fn keytool_args(keystore: &String) -> (r: Vec<String>)
    ensures
        seq_views(r@) == keytool_args_spec(keystore@),
{
    let mut r: Vec<String> = Vec::new();
    push_lit(&mut r, "-genkey");
    push_lit(&mut r, "-v");
    push_lit(&mut r, "-keystore");
    push_string(&mut r, keystore);
    push_lit(&mut r, "-storepass");
    push_lit(&mut r, "android");
    push_lit(&mut r, "-keypass");
    push_lit(&mut r, "android");
    push_lit(&mut r, "-alias");
    push_lit(&mut r, "androiddebugkey");
    push_lit(&mut r, "-dname");
    push_lit(&mut r, "CN=Android Debug,O=Android,C=US");
    proof {
        assert(seq_views(r@) =~= keytool_args_spec(keystore@));
    }
    r
}

/// Arguments handing a hook snippet to the shell interpreter.
pub open spec fn shell_args_spec(snippet: Seq<char>) -> Seq<Seq<char>> {
    seq!["-c"@, snippet]
}

pub fn shell_args(snippet: &String) -> (r: Vec<String>)
    ensures
        seq_views(r@) == shell_args_spec(snippet@),
{
    let mut r: Vec<String> = Vec::new();
    push_lit(&mut r, "-c");
    push_string(&mut r, snippet);
    proof {
        assert(seq_views(r@) =~= shell_args_spec(snippet@));
    }
    r
}

/// `base` with `tail` appended.
pub fn append_args(base: Vec<String>, tail: &Vec<String>) -> (r: Vec<String>)
    ensures
        seq_views(r@) == seq_views(base@) + seq_views(tail@),
{
    let ghost base_views = seq_views(base@);
    let mut r = base;
    let len: usize = tail.len();
    let mut i: usize = 0;
    while i < len
        invariant
            i <= len,
            len == tail@.len(),
            seq_views(r@) == base_views + seq_views(tail@).take(i as int),
        decreases len - i,
    {
        let ghost prev = r@;
        r.push(tail[i].clone());
        proof {
            assert(seq_views(r@) =~= seq_views(prev).push(tail@[i as int]@));
            assert(seq_views(r@) =~= base_views + seq_views(tail@).take(i as int + 1));
        }
        i = i + 1;
    }
    proof {
        assert(seq_views(tail@).take(len as int) =~= seq_views(tail@));
    }
    r
}

} // verus!
