//! Verified core of an Android build pipeline driver.
//!
//! The library contains the decision logic of the pipeline: executable
//! resolution, outcome classification, hook bracketing, fail-fast stage
//! sequencing and the working-directory guard protocol. All interaction
//! with the outside world (environment variables, directory traversal,
//! process spawning, the process-wide current directory) is expressed as
//! [`protocol::Action`] values that an unverified driver performs, feeding
//! the observed [`protocol::Event`] back into the state machines.

pub mod context;
pub mod engine;
pub mod guard;
pub mod hook;
pub mod keystore;
pub mod os;
pub mod pipeline;
pub mod protocol;
pub mod resolve;
pub mod scaffolding;
pub mod shared;
pub mod strutil;

pub use context::Context;
pub use context::ContextVerificationError;
pub use context::Task;
pub use engine::Engine;
pub use engine::Instr;
pub use guard::ChangeCWD;
pub use hook::HookRun;
pub use hook::execute_script;
pub use hook::execute_shell_script_verbosely;
pub use keystore::KeystoreProvision;
pub use keystore::fetch_or_create_android_keystore;
pub use os::executable_suffix;
pub use os::path_delimiter;
pub use pipeline::Stage;
pub use pipeline::StageKind;
pub use pipeline::compile_application;
pub use pipeline::launch_application;
pub use pipeline::package_application;
pub use protocol::Action;
pub use protocol::BatchExecutionError;
pub use protocol::Event;
pub use protocol::ExecutionError;
pub use protocol::FindError;
pub use protocol::RunOutcome;
pub use protocol::Step;
pub use resolve::PathResolve;
pub use resolve::Resolution;
pub use resolve::SdkResolve;
pub use resolve::find_android_executable;
pub use resolve::find_file_in_path;
pub use scaffolding::dotted_package_name_to_package_path;
pub use shared::android_platform_jar_path;
pub use shared::extract_tasks_for;
