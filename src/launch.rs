use vstd::prelude::*;
use vstd::string::*;
use crate::run::RunError;

verus! {

/// The state directory: a base directory and the name of the entry under it.
pub struct HomeRoot {
    pub base: String,
    pub leaf: String,
}

/// Where persisted state lives: on Windows `Ink` under the application-data
/// directory (the user's home when that is unset); elsewhere `.ink` under the
/// user's home.
pub fn ink_home(windows: bool, appdata: Option<String>, home: String) -> (r: HomeRoot)
    ensures
        windows ==> r.leaf@ == "Ink"@ && r.base@ == match appdata {
            Some(a) => a@,
            None => home@,
        },
        !windows ==> r.leaf@ == ".ink"@ && r.base@ == home@,
{
    if windows {
        let base = match appdata {
            Some(a) => a,
            None => home,
        };
        HomeRoot { base, leaf: String::from_str("Ink") }
    } else {
        HomeRoot { base: home, leaf: String::from_str(".ink") }
    }
}

/// The script path tried last, relative to the working directory.
pub open spec fn default_script() -> Seq<char> {
    "scripts/sidecar_main.py"@
}

/// Picks the worker script: the one beside the application's resources when
/// it exists, else the one under the working directory when it exists, else
/// that relative path regardless, leaving a missing file to fail at start.
/// Both of the last two cases name the same relative path.
pub fn resolve_script_path(resource_candidate: Option<String>, resource_exists: bool) -> (r: String)
    ensures
        resource_exists ==> (resource_candidate matches Some(c) ==> r@ == c@),
        !(resource_candidate is Some && resource_exists) ==> r@ == default_script(),
{
    match resource_candidate {
        Some(c) => {
            if resource_exists {
                return c;
            }
        },
        None => {},
    }
    String::from_str("scripts/sidecar_main.py")
}

/// One way to start the worker.
pub enum LaunchStrategy {
    /// The packaged, self-contained executable.
    Packaged,
    /// The interpreter, running the script at this path.
    Script(String),
}

/// The ways to start the worker, in the order they are tried: the packaged
/// executable first, then the script; in development only the script.
pub fn launch_strategies(dev: bool, script: String) -> (r: Vec<LaunchStrategy>)
    ensures
        dev ==> r@.len() == 1 && (r@[0] matches LaunchStrategy::Script(p) && p@ == script@),
        !dev ==> r@.len() == 2 && r@[0] is Packaged && (r@[1] matches LaunchStrategy::Script(p) && p@ == script@),
{
    let mut v: Vec<LaunchStrategy> = Vec::new();
    if !dev {
        v.push(LaunchStrategy::Packaged);
    }
    v.push(LaunchStrategy::Script(script));
    v
}

/// The failure when the last way tried could not start the worker: it names
/// which form of the worker failed, with the cause.
pub fn spawn_error(strategy: &LaunchStrategy, cause: String) -> (r: RunError)
    ensures
        strategy is Packaged ==> (r matches RunError::PackagedSpawnFailed(d) && d@ == cause@),
        strategy is Script ==> (r matches RunError::SpawnFailed(d) && d@ == cause@),
{
    match strategy {
        LaunchStrategy::Packaged => RunError::PackagedSpawnFailed(cause),
        LaunchStrategy::Script(_) => RunError::SpawnFailed(cause),
    }
}

} // verus!
