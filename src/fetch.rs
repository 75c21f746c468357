//! Decisions of a repository clone.
//!
//! A clone runs in phases: the URL is parsed, refs and objects are fetched,
//! the default worktree is checked out, and the default fetch remote is
//! read. The caller performs each phase and reports how it ended; the
//! functions here say what comes next, so that remote information is only
//! ever reported for a clone whose every phase completed uninterrupted.
use vstd::prelude::*;

verus! {

#[verifier::external_type_specification]
#[verifier::external_body]
pub struct ExUrl(gix::Url);

/// Whether git's URL syntax accepts `s`.
pub uninterp spec fn url_parses(s: Seq<char>) -> bool;

/// Relies on `gix::url::parse`: it succeeds exactly on the locations it
/// accepts, and rejects the empty string.
#[verifier::external_body]
fn parse_url(s: &str) -> (r: Option<gix::Url>)
    ensures
        r is Some <==> url_parses(s@),
        s@.len() == 0 ==> r is None,
{
    gix::url::parse(s.as_bytes()).ok()
}

/// Why a clone failed.
#[derive(Debug, Clone, Copy, PartialEq, Eq, Structural)]
pub enum FetchError {
    /// The process-wide interrupt handler could not be installed.
    InterruptHandler,
    /// The destination directory could not be created.
    Destination,
    /// The repository location could not be parsed.
    InvalidUrl,
    /// Fetching refs and objects failed.
    Transport,
    /// Checking out the worktree failed.
    Checkout,
    /// The interrupt signal was raised.
    Cancelled,
    /// The cloned repository has no default fetch remote.
    MissingRemote,
    /// The default remote's name or URL could not be read.
    UnreadableRemote,
}

/// The default remote of a cloned repository.
pub struct RemoteInfo {
    pub name: String,
    pub url: String,
}

/// How a fetch or checkout phase ended.
#[derive(Debug, Clone, Copy, PartialEq, Eq, Structural)]
pub enum PhaseOutcome {
    Completed,
    Failed,
    Interrupted,
}

/// What reading the default fetch remote gave.
pub enum RemoteLookup {
    /// There is none.
    Missing,
    /// Looking it up failed.
    Failed,
    /// It exists; its name and fetch URL, where they could be read.
    Found { name: Option<String>, url: Option<String> },
}

/// What the caller does next.
pub enum CloneAction {
    /// Fetch from this location.
    Fetch(gix::Url),
    /// Check out the default worktree.
    Checkout,
    /// Read the default fetch remote.
    ResolveRemote,
    /// The clone is over, with this result.
    Done(Result<RemoteInfo, FetchError>),
}

/// The error that ends a phase, if it did not complete uninterrupted.
pub open spec fn phase_error(outcome: PhaseOutcome, interrupted: bool, failure: FetchError) -> Option<FetchError> {
    if interrupted || outcome == PhaseOutcome::Interrupted {
        Some(FetchError::Cancelled)
    } else if outcome == PhaseOutcome::Failed {
        Some(failure)
    } else {
        None
    }
}

fn end_of_phase(outcome: PhaseOutcome, interrupted: bool, failure: FetchError) -> (r: Option<FetchError>)
    ensures
        r == phase_error(outcome, interrupted, failure),
{
    if interrupted {
        return Some(FetchError::Cancelled);
    }
    match outcome {
        PhaseOutcome::Interrupted => Some(FetchError::Cancelled),
        PhaseOutcome::Failed => Some(failure),
        PhaseOutcome::Completed => None,
    }
}

/// The first step of a clone, from the parsed location, or `None` where
/// the location did not parse.
pub fn first_action(parsed: Option<gix::Url>) -> (r: CloneAction)
    ensures
        match parsed {
            Some(u) => r == CloneAction::Fetch(u),
            None => r == CloneAction::Done(Err(FetchError::InvalidUrl)),
        },
{
    match parsed {
        Some(u) => CloneAction::Fetch(u),
        None => CloneAction::Done(Err(FetchError::InvalidUrl)),
    }
}

/// The first step of a clone of `url`: fetch from it when it parses.
pub fn start_clone(url: &str) -> (r: CloneAction)
    ensures
        r is Fetch <==> url_parses(url@),
        !url_parses(url@) ==> r == CloneAction::Done(Err(FetchError::InvalidUrl)),
{
    first_action(parse_url(url))
}

/// The step after the fetch phase; `interrupted` is the interrupt signal
/// read when the phase ended.
pub fn after_fetch(outcome: PhaseOutcome, interrupted: bool) -> (r: CloneAction)
    ensures
        r == match phase_error(outcome, interrupted, FetchError::Transport) {
            Some(e) => CloneAction::Done(Err(e)),
            None => CloneAction::Checkout,
        },
{
    match end_of_phase(outcome, interrupted, FetchError::Transport) {
        Some(e) => CloneAction::Done(Err(e)),
        None => CloneAction::Checkout,
    }
}

/// The step after the checkout phase.
pub fn after_checkout(outcome: PhaseOutcome, interrupted: bool) -> (r: CloneAction)
    ensures
        r == match phase_error(outcome, interrupted, FetchError::Checkout) {
            Some(e) => CloneAction::Done(Err(e)),
            None => CloneAction::ResolveRemote,
        },
{
    match end_of_phase(outcome, interrupted, FetchError::Checkout) {
        Some(e) => CloneAction::Done(Err(e)),
        None => CloneAction::ResolveRemote,
    }
}

/// The result of the clone, from what reading the default remote gave.
pub fn after_remote(lookup: RemoteLookup) -> (r: Result<RemoteInfo, FetchError>)
    ensures
        match lookup {
            RemoteLookup::Missing => r == Err::<RemoteInfo, FetchError>(FetchError::MissingRemote),
            RemoteLookup::Failed => r == Err::<RemoteInfo, FetchError>(FetchError::UnreadableRemote),
            RemoteLookup::Found { name, url } => match (name, url) {
                (Some(n), Some(u)) => r matches Ok(info) && info.name@ == n@ && info.url@ == u@,
                _ => r == Err::<RemoteInfo, FetchError>(FetchError::UnreadableRemote),
            },
        },
{
    match lookup {
        RemoteLookup::Missing => Err(FetchError::MissingRemote),
        RemoteLookup::Failed => Err(FetchError::UnreadableRemote),
        RemoteLookup::Found { name, url } => match (name, url) {
            (Some(n), Some(u)) => Ok(RemoteInfo { name: n, url: u }),
            _ => Err(FetchError::UnreadableRemote),
        },
    }
}

/// A fetch or checkout phase that does not complete uninterrupted yields an
/// error, so the step after it is `Done(Err(..))` and the remote, the only
/// step that yields remote information, is never read; an interrupt always
/// gives `Cancelled`.
pub proof fn lemma_incomplete_phase_ends_clone(outcome: PhaseOutcome, interrupted: bool, failure: FetchError)
    ensures
        (outcome != PhaseOutcome::Completed || interrupted) <==> phase_error(outcome, interrupted, failure) is Some,
        interrupted ==> phase_error(outcome, interrupted, failure) == Some(FetchError::Cancelled),
{
}

} // verus!
