//! Process launcher: path resolution and launch-outcome classification.
//!
//! The backend's executable is resolved against a well-defined anchor —
//! the shell's own installation directory — never against the ambient
//! current directory, so the right binary is found however the shell was
//! invoked. The launcher itself only creates the process; it never waits
//! for readiness.

use vstd::prelude::*;
use vstd::string::StringExecFns;

verus! {

/// Why a launch attempt failed.
#[derive(Clone, Copy, Debug, PartialEq, Eq, Structural)]
pub enum LaunchError {
    /// The resolved executable path does not exist or is not executable.
    ExecutableNotFound,
    /// The operating system refused to create the process.
    SpawnFailed,
}

/// Resolve a path relative to the shell's installation anchor by joining
/// the two with a single separator.
pub fn resolve_path(anchor: &str, relative: &str) -> (r: String)
    ensures
        r@ == anchor@ + "/"@ + relative@,
{
    let mut r = String::from_str(anchor);
    r.append("/");
    r.append(relative);
    r
}

/// Classify a launch attempt from what the operating system reported:
/// a missing or non-executable path fails with ExecutableNotFound before
/// any process is created; an existing path whose spawn the OS refused
/// fails with SpawnFailed; otherwise the launch succeeded.
pub open spec fn classify_launch_spec(path_exists: bool, spawn_ok: bool) -> Result<
    (),
    LaunchError,
> {
    if !path_exists {
        Err(LaunchError::ExecutableNotFound)
    } else if !spawn_ok {
        Err(LaunchError::SpawnFailed)
    } else {
        Ok(())
    }
}

/// Turn the launcher's observations into the launch outcome.
pub fn classify_launch(path_exists: bool, spawn_ok: bool) -> (r: Result<(), LaunchError>)
    ensures
        r == classify_launch_spec(path_exists, spawn_ok),
        !path_exists <==> r == Result::<(), LaunchError>::Err(LaunchError::ExecutableNotFound),
        path_exists && !spawn_ok <==> r == Result::<(), LaunchError>::Err(
            LaunchError::SpawnFailed,
        ),
        path_exists && spawn_ok <==> r is Ok,
{
    if !path_exists {
        Err(LaunchError::ExecutableNotFound)
    } else if !spawn_ok {
        Err(LaunchError::SpawnFailed)
    } else {
        Ok(())
    }
}

} // verus!
