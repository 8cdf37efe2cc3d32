//! Resolution of the connection target: the filesystem path of the
//! compositor's event socket, derived from two pieces of runtime
//! environment — the runtime directory and the compositor instance
//! identifier.  Either may be absent, and the path may not exist yet; the
//! caller then stays in the resolving phase and retries, so the environment
//! is read afresh on every attempt.
use vstd::prelude::*;
use vstd::string::*;

verus! {

/// The two socket file names the compositor has used, newest first.  Each
/// candidate is `<runtime_dir>/hypr/<instance>/<name>`; the caller picks
/// the first one that exists.
pub fn socket_candidates(runtime_dir: &str, instance: &str) -> (r: Vec<String>)
    ensures
        r@.len() == 2,
        r@[0]@ == runtime_dir@ + "/hypr/"@ + instance@ + "/.socket2.sock"@,
        r@[1]@ == runtime_dir@ + "/hypr/"@ + instance@ + "/hyprland.sock2"@,
{
    let mut base = String::from_str(runtime_dir);
    base.append("/hypr/");
    base.append(instance);
    let first = base.clone().concat("/.socket2.sock");
    let second = base.concat("/hyprland.sock2");
    let mut r: Vec<String> = Vec::new();
    r.push(first);
    r.push(second);
    r
}

/// Compute the candidate socket paths from the environment, when both
/// pieces are present.  `None` means the client cannot start and must retry
/// resolution later; the environment can change between attempts.
pub fn resolve_connection_target(runtime_dir: &Option<String>, instance: &Option<String>) -> (r:
    Option<Vec<String>>)
    ensures
        (r is Some) == (runtime_dir is Some && instance is Some),
        r matches Some(v) ==> (runtime_dir matches Some(rd) && instance matches Some(ins)
            && v@.len() == 2 && v@[0]@ == rd@ + "/hypr/"@ + ins@ + "/.socket2.sock"@ && v@[1]@
            == rd@ + "/hypr/"@ + ins@ + "/hyprland.sock2"@),
{
    match (runtime_dir, instance) {
        (Some(rd), Some(ins)) => Some(socket_candidates(rd.as_str(), ins.as_str())),
        _ => None,
    }
}

} // verus!
