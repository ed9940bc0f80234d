use account_link::endpoint::{
    confirm_step, display_step, ConfirmAction, ConfirmEvent, ConfirmState,
};
use account_link::error::VerificationError;
use account_link::store::TokenStore;

fn store_with(token: &str, subject: &str, name: &str, realm: &str) -> TokenStore {
    let mut store = TokenStore::new();
    let inserted = store.insert_token(
        token.to_string(),
        subject.to_string(),
        name.to_string(),
        realm.to_string(),
    );
    assert!(inserted.is_ok());
    store
}

fn request(token: &str, identity: Option<&str>) -> ConfirmEvent {
    ConfirmEvent::Request {
        token: token.to_string(),
        external_identity: identity.map(|s| s.to_string()),
    }
}

#[test]
fn display_is_idempotent_and_never_mutates() {
    let store = store_with("T1", "alice#1", "alice", "R");
    let token = "T1".to_string();
    let ident = "alice_ocf".to_string();
    let first = match display_step(&store, &token, Some(&ident)) {
        Ok(view) => view,
        Err(_) => panic!("pending token must display"),
    };
    let second = match display_step(&store, &token, Some(&ident)) {
        Ok(view) => view,
        Err(_) => panic!("pending token must still display"),
    };
    assert_eq!(first.service, second.service);
    assert_eq!(first.token, second.token);
    assert_eq!(first.discord_name, second.discord_name);
    assert_eq!(first.external_name, second.external_name);
    // `completed` was never flipped: the token is still pending.
    assert!(store.lookup_pending_token(&token).is_some());
}

#[test]
fn display_of_unknown_token_is_not_found_with_or_without_header() {
    let store = TokenStore::new();
    let token = "does-not-exist".to_string();
    let ident = "alice_ocf".to_string();
    let with_header = display_step(&store, &token, Some(&ident));
    assert!(matches!(with_header, Err(VerificationError::NotFound)));
    let without_header = display_step(&store, &token, None);
    assert!(matches!(without_header, Err(VerificationError::NotFound)));
}

#[test]
fn display_not_found_error_maps_to_client_status() {
    let store = TokenStore::new();
    match display_step(&store, &"gone".to_string(), None) {
        Err(err) => {
            assert_eq!(err.status_code(), 404);
            assert_eq!(
                err.page_body(),
                "Unable to link your accounts: invalid or already-used token"
            );
        }
        Ok(_) => panic!("unknown token must not display"),
    }
}

/// Drives one confirm request through the machine, answering the
/// membership lookup and the grant as directed, and returns the actions
/// the machine emitted, in order.
fn run_confirm(
    store: &mut TokenStore,
    token: &str,
    identity: Option<&str>,
    member_present: bool,
    grant_succeeds: bool,
    completion_commits: bool,
    notify_delivered: bool,
) -> Vec<ConfirmAction> {
    let mut actions = Vec::new();
    let (mut state, mut action) = confirm_step(store, ConfirmState::Idle, request(token, identity));
    loop {
        let next_event = match &action {
            ConfirmAction::ResolveMember { .. } => {
                Some(ConfirmEvent::MemberResolved { present: member_present })
            }
            ConfirmAction::GrantPrivilege { .. } => {
                Some(ConfirmEvent::PrivilegeGranted { granted: grant_succeeds })
            }
            ConfirmAction::PersistCompletion { .. } => {
                Some(ConfirmEvent::CompletionPersisted { committed: completion_commits })
            }
            ConfirmAction::Notify { .. } => {
                Some(ConfirmEvent::NotificationSent { delivered: notify_delivered })
            }
            ConfirmAction::RespondSuccess | ConfirmAction::RespondError { .. } => None,
        };
        actions.push(action);
        match next_event {
            Some(event) => {
                let step = confirm_step(store, state, event);
                state = step.0;
                action = step.1;
            }
            None => break,
        }
    }
    actions
}

#[test]
fn end_to_end_scenario() {
    let mut store = store_with("T1", "alice#1", "alice#1", "R");
    let token = "T1".to_string();
    let ident = "alice_ocf".to_string();

    // Step A: the view pairs the platform name with the external identity.
    let view = match display_step(&store, &token, Some(&ident)) {
        Ok(view) => view,
        Err(_) => panic!("pending token must display"),
    };
    assert_eq!(view.discord_name, "alice#1");
    assert_eq!(view.external_name, "alice_ocf");
    assert_eq!(view.token, "T1");

    // Step B: full success grants to the subject and notifies once.
    let actions = run_confirm(&mut store, "T1", Some("alice_ocf"), true, true, true, true);
    assert!(matches!(
        &actions[0],
        ConfirmAction::ResolveMember { subject_id, .. } if subject_id == "alice#1"
    ));
    assert!(matches!(
        &actions[1],
        ConfirmAction::GrantPrivilege { subject_id, realm_id } if subject_id == "alice#1" && realm_id == "R"
    ));
    assert!(matches!(
        &actions[2],
        ConfirmAction::PersistCompletion { token } if token == "T1"
    ));
    assert!(matches!(
        &actions[3],
        ConfirmAction::Notify { subject_display_name, token, external_identity }
            if subject_display_name == "alice#1" && token == "T1" && external_identity == "alice_ocf"
    ));
    assert!(matches!(&actions[4], ConfirmAction::RespondSuccess));

    // A second confirmation of the same token fails as not-found.
    let retry = run_confirm(&mut store, "T1", Some("alice_ocf"), true, true, true, true);
    assert_eq!(retry.len(), 1);
    assert!(matches!(
        &retry[0],
        ConfirmAction::RespondError { error: VerificationError::NotFound }
    ));
}

#[test]
fn confirm_of_unknown_token_is_not_found() {
    let mut store = TokenStore::new();
    let actions = run_confirm(&mut store, "does-not-exist", Some("alice_ocf"), true, true, true, true);
    assert_eq!(actions.len(), 1);
    assert!(matches!(
        &actions[0],
        ConfirmAction::RespondError { error: VerificationError::NotFound }
    ));
}

#[test]
fn member_no_longer_present_fails_without_consuming() {
    let mut store = store_with("T2", "alice#1", "alice", "R");
    let actions = run_confirm(&mut store, "T2", Some("alice_ocf"), false, true, true, true);
    assert!(matches!(
        actions.last(),
        Some(ConfirmAction::RespondError {
            error: VerificationError::ExternalService { detail }
        }) if detail == "member no longer present"
    ));
    // The token was not consumed.
    assert!(store.lookup_pending_token(&"T2".to_string()).is_some());
}

#[test]
fn grant_failure_leaves_token_pending_and_retryable() {
    let mut store = store_with("T3", "alice#1", "alice", "R");
    let token = "T3".to_string();
    let ident = "alice_ocf".to_string();

    // The grant fails mid-sequence: the request errors, nothing is consumed.
    let actions = run_confirm(&mut store, "T3", Some("alice_ocf"), true, false, true, true);
    assert!(matches!(
        actions.last(),
        Some(ConfirmAction::RespondError {
            error: VerificationError::ExternalService { detail }
        }) if detail == "privilege grant failed"
    ));
    assert!(!actions.iter().any(|a| matches!(a, ConfirmAction::Notify { .. })));

    // A subsequent display still succeeds.
    assert!(display_step(&store, &token, Some(&ident)).is_ok());

    // A retried confirmation completes the token.
    let retry = run_confirm(&mut store, "T3", Some("alice_ocf"), true, true, true, true);
    assert!(matches!(retry.last(), Some(ConfirmAction::RespondSuccess)));
    assert!(store.lookup_pending_token(&token).is_none());
}

#[test]
fn racing_confirmations_notify_at_most_once() {
    // Two requests race past the grant; the store's conditional update
    // serializes them. Model the loser: its completion reports zero rows,
    // so it responds success without notifying.
    let mut store = store_with("T4", "alice#1", "alice", "R");

    // First request walks to the grant stage.
    let (s1, a1) = confirm_step(&mut store, ConfirmState::Idle, request("T4", Some("alice_ocf")));
    assert!(matches!(a1, ConfirmAction::ResolveMember { .. }));
    let (s1, a1) = confirm_step(&mut store, s1, ConfirmEvent::MemberResolved { present: true });
    assert!(matches!(a1, ConfirmAction::GrantPrivilege { .. }));

    // Second request also walks to the grant stage before the first completes.
    let (s2, a2) = confirm_step(&mut store, ConfirmState::Idle, request("T4", Some("alice_ocf")));
    assert!(matches!(a2, ConfirmAction::ResolveMember { .. }));
    let (s2, a2) = confirm_step(&mut store, s2, ConfirmEvent::MemberResolved { present: true });
    assert!(matches!(a2, ConfirmAction::GrantPrivilege { .. }));

    // The first grant lands and its completion write commits: it owns
    // the completion and notifies.
    let (s1, a1) = confirm_step(&mut store, s1, ConfirmEvent::PrivilegeGranted { granted: true });
    assert!(matches!(a1, ConfirmAction::PersistCompletion { .. }));
    let (s1, a1) =
        confirm_step(&mut store, s1, ConfirmEvent::CompletionPersisted { committed: true });
    assert!(matches!(a1, ConfirmAction::Notify { .. }));
    let (_, a1) = confirm_step(&mut store, s1, ConfirmEvent::NotificationSent { delivered: true });
    assert!(matches!(a1, ConfirmAction::RespondSuccess));

    // The second grant also lands and commits, but its conditional
    // update reports zero rows: a benign race — success for the user,
    // no second notification.
    let (s2, a2) = confirm_step(&mut store, s2, ConfirmEvent::PrivilegeGranted { granted: true });
    assert!(matches!(a2, ConfirmAction::PersistCompletion { .. }));
    let (s2, a2) =
        confirm_step(&mut store, s2, ConfirmEvent::CompletionPersisted { committed: true });
    assert!(matches!(a2, ConfirmAction::RespondSuccess));
    assert!(matches!(s2, ConfirmState::Done));
}

#[test]
fn notification_failure_does_not_fail_the_response() {
    let mut store = store_with("T5", "alice#1", "alice", "R");
    let actions = run_confirm(&mut store, "T5", Some("alice_ocf"), true, true, true, false);
    assert!(matches!(actions.last(), Some(ConfirmAction::RespondSuccess)));
    // The grant stood: the token stays consumed.
    assert!(store.lookup_pending_token(&"T5".to_string()).is_none());
}

#[test]
fn completion_write_failure_is_storage_error_and_retryable() {
    let mut store = store_with("T6", "alice#1", "alice", "R");
    let token = "T6".to_string();
    let ident = "alice_ocf".to_string();

    // The durable completion write fails: the request errors with the
    // retryable storage error, nothing is consumed, nobody is notified.
    let actions = run_confirm(&mut store, "T6", Some("alice_ocf"), true, true, false, true);
    match actions.last() {
        Some(ConfirmAction::RespondError { error }) => {
            assert!(matches!(error, VerificationError::Storage));
            assert_eq!(error.status_code(), 500);
        }
        other => panic!("expected an error response, got {:?}", other.is_some()),
    }
    assert!(!actions.iter().any(|a| matches!(a, ConfirmAction::Notify { .. })));
    assert!(store.lookup_pending_token(&token).is_some());

    // The display step still succeeds and a retried confirmation, whose
    // write commits, completes the token.
    assert!(display_step(&store, &token, Some(&ident)).is_ok());
    let retry = run_confirm(&mut store, "T6", Some("alice_ocf"), true, true, true, true);
    assert!(matches!(retry.last(), Some(ConfirmAction::RespondSuccess)));
    assert!(store.lookup_pending_token(&token).is_none());
}
