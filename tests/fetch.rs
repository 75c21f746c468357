use tix::fetch::{
    after_checkout, after_fetch, after_remote, first_action, start_clone, CloneAction, FetchError, PhaseOutcome,
    RemoteLookup,
};

#[test]
fn empty_url_fails_without_remote_info() {
    assert!(matches!(start_clone(""), CloneAction::Done(Err(FetchError::InvalidUrl))));
}

#[test]
fn malformed_url_fails_without_remote_info() {
    assert!(matches!(start_clone("ssh://host:notaport/repo"), CloneAction::Done(Err(FetchError::InvalidUrl))));
}

#[test]
fn well_formed_url_starts_the_fetch() {
    assert!(matches!(start_clone("https://example.invalid/repo.git"), CloneAction::Fetch(_)));
    assert!(matches!(start_clone("/tmp/some/repo"), CloneAction::Fetch(_)));
}

#[test]
fn unreachable_remote_ends_with_a_transport_error() {
    assert!(matches!(after_fetch(PhaseOutcome::Failed, false), CloneAction::Done(Err(FetchError::Transport))));
}

#[test]
fn interruption_cancels_either_phase() {
    assert!(matches!(after_fetch(PhaseOutcome::Completed, true), CloneAction::Done(Err(FetchError::Cancelled))));
    assert!(matches!(after_fetch(PhaseOutcome::Interrupted, false), CloneAction::Done(Err(FetchError::Cancelled))));
    assert!(matches!(after_checkout(PhaseOutcome::Failed, true), CloneAction::Done(Err(FetchError::Cancelled))));
}

#[test]
fn completed_phases_move_on() {
    assert!(matches!(after_fetch(PhaseOutcome::Completed, false), CloneAction::Checkout));
    assert!(matches!(after_checkout(PhaseOutcome::Completed, false), CloneAction::ResolveRemote));
    assert!(matches!(after_checkout(PhaseOutcome::Failed, false), CloneAction::Done(Err(FetchError::Checkout))));
}

#[test]
fn remote_lookup_results() {
    assert!(matches!(after_remote(RemoteLookup::Missing), Err(FetchError::MissingRemote)));
    assert!(matches!(after_remote(RemoteLookup::Failed), Err(FetchError::UnreadableRemote)));
    let partial = RemoteLookup::Found { name: Some("origin".to_string()), url: None };
    assert!(matches!(after_remote(partial), Err(FetchError::UnreadableRemote)));
    let full = RemoteLookup::Found {
        name: Some("origin".to_string()),
        url: Some("https://example.invalid/repo.git".to_string()),
    };
    let info = after_remote(full).ok().unwrap();
    assert_eq!(info.name, "origin");
    assert_eq!(info.url, "https://example.invalid/repo.git");
}

#[test]
fn first_action_follows_the_parse_result() {
    let url = gix::url::parse("https://example.invalid/repo.git".as_bytes()).unwrap();
    match first_action(Some(url.clone())) {
        CloneAction::Fetch(u) => assert_eq!(u, url),
        _ => panic!("expected a fetch"),
    }
    assert!(matches!(first_action(None), CloneAction::Done(Err(FetchError::InvalidUrl))));
}
