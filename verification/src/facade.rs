use vstd::prelude::*;

use crate::errors::spec_exit_status;
use crate::errors::Error;
use crate::errors::OpenFailure;
use crate::registry::container_dir_for;
use crate::registry::container_dir_seq;
use crate::registry::is_simple_name;
use crate::registry::registry_root_path;
use crate::registry::registry_root_seq;
use crate::registry::tool_home_path;
use crate::registry::tool_home_seq;

verus! {

/// Relies on home::home_dir: the operator's home directory as the
/// environment gives it, or nothing when it cannot be determined (or does
/// not form valid text).
#[verifier::external_body]
fn home_dir_string() -> (r: Option<String>) {
    home::home_dir().and_then(|p| p.to_str().map(|s| s.to_owned()))
}

/// A path of the shape the tool home resolver produces: the tool directory
/// below some home directory.
pub open spec fn is_tool_home(p: Seq<char>) -> bool {
    exists|home: Seq<char>| p == tool_home_seq(home)
}

/// Resolve the process-wide tool home from the environment. Fails exactly
/// when no home directory can be determined, which is fatal for every
/// subsequent operation. The directory itself is ensured by the driver,
/// following `dir_plan`.
pub fn resolve_tool_home() -> (r: Result<String, Error>)
    ensures
        r matches Ok(p) ==> is_tool_home(p@),
        r matches Err(e) ==> e == Error::Environment,
{
    match home_dir_string() {
        Some(home) => {
            let p = tool_home_path(home.as_str());
            proof {
                assert(p@ == tool_home_seq(home@));
            }
            Ok(p)
        },
        None => Err(Error::Environment),
    }
}

/// Everything the driver needs to open a named container: the directories to
/// ensure, in order, and where the container lives.
pub struct OpenRequest {
    /// The process-wide tool directory; ensured first.
    pub tool_home: String,
    /// The registry directory holding one subdirectory per container;
    /// ensured second.
    pub registry_root: String,
    /// Where the named container lives. Never created here: the container
    /// collaborator initializes its storage on first open.
    pub container_dir: String,
}

/// The request's paths all derive from one home directory and the name.
pub open spec fn request_consistent(q: OpenRequest, home: Seq<char>, name: Seq<char>) -> bool {
    &&& q.tool_home@ == tool_home_seq(home)
    &&& q.registry_root@ == registry_root_seq(q.tool_home@)
    &&& q.container_dir@ == container_dir_seq(q.tool_home@, name)
}

/// The directories a request plans to ensure, in the order the driver must
/// create them; a failed resolution plans none.
pub open spec fn dirs_to_ensure(r: Result<OpenRequest, Error>) -> Seq<Seq<char>> {
    match r {
        Ok(q) => seq![q.tool_home@, q.registry_root@],
        Err(_) => Seq::empty(),
    }
}

/// Build the open request for a named container below the given home
/// directory, if one was determined: no home yields the environment error
/// and plans nothing, a name unfit for a path segment is rejected, and
/// otherwise every path of the request derives from the home and the name.
pub fn open_request_with_home(home: Option<&String>, name: &str) -> (r: Result<
    OpenRequest,
    Error,
>)
    ensures
        home is None ==> r == Err::<OpenRequest, Error>(Error::Environment),
        (home is Some && !is_simple_name(name@)) ==> r == Err::<OpenRequest, Error>(
            Error::InvalidName,
        ),
        home matches Some(h) ==> (is_simple_name(name@) ==> (r matches Ok(q)
            && request_consistent(q, h@, name@))),
        home is None ==> dirs_to_ensure(r).len() == 0,
{
    match home {
        None => Err(Error::Environment),
        Some(h) => {
            let tool_home = tool_home_path(h.as_str());
            let registry_root = registry_root_path(tool_home.as_str());
            match container_dir_for(tool_home.as_str(), name) {
                Err(e) => Err(e),
                Ok(container_dir) => Ok(
                    OpenRequest { tool_home, registry_root, container_dir },
                ),
            }
        },
    }
}

/// Build the open request for a named container, resolving the home
/// directory from the environment.
pub fn open_container_request(name: &str) -> (r: Result<OpenRequest, Error>)
    ensures
        r matches Ok(q) ==> is_simple_name(name@) && (exists|home: Seq<char>|
            request_consistent(q, home, name@)),
        r matches Err(e) ==> (e == Error::Environment || e == Error::InvalidName),
        !is_simple_name(name@) ==> r is Err,
        r matches Err(e) ==> (is_simple_name(name@) ==> e == Error::Environment),
{
    let home = home_dir_string();
    match &home {
        None => Err(Error::Environment),
        Some(h) => {
            let r = open_request_with_home(Some(h), name);
            proof {
                if is_simple_name(name@) {
                    let q = r->Ok_0;
                    assert(request_consistent(q, h@, name@));
                }
            }
            r
        },
    }
}

/// Law: a failed home-directory resolution is fatal and silent on disk — it
/// plans no directory creation at all, and the run's status is non-zero.
pub proof fn lemma_home_failure_is_fatal(r: Result<OpenRequest, Error>)
    requires
        r is Err,
    ensures
        dirs_to_ensure(r).len() == 0,
        spec_exit_status(r is Ok) != 0,
{
}

/// What the driver observed from the container collaborator's open routine,
/// as a plain value.
pub enum OpenOutcome {
    /// The container opened.
    Opened,
    /// The collaborator refused to open the container.
    Failed(OpenFailure),
    /// The credential prompt itself failed; carries the description.
    PromptFailed(String),
}

/// Fold the collaborator's outcome into this layer's single unified open
/// result, preserving the underlying cause for diagnostics.
pub fn open_result(outcome: OpenOutcome) -> (r: Result<(), Error>)
    ensures
        outcome is Opened <==> r is Ok,
        outcome matches OpenOutcome::Failed(f) ==> r == Err::<(), Error>(Error::Open(f)),
        outcome matches OpenOutcome::PromptFailed(m) ==> r == Err::<(), Error>(
            Error::Prompt(m),
        ),
{
    match outcome {
        OpenOutcome::Opened => Ok(()),
        OpenOutcome::Failed(f) => Err(Error::Open(f)),
        OpenOutcome::PromptFailed(m) => Err(Error::Prompt(m)),
    }
}

} // verus!
