//! The two-step verification endpoint, keyed by the token value carried
//! in the URL path.
//!
//! Step A ([`display_step`]) looks the token up and renders a
//! confirmation view; it never mutates the table and may be repeated
//! freely. Step B is the confirm state machine ([`confirm_step`]): a
//! transition function from the in-flight state and the latest event to
//! the next state and the next action. The caller performs each emitted
//! action (the membership lookup, the privilege grant, the audit
//! notification, the HTTP response) and feeds the result back as the
//! next event; every decision in between is made — and proved — here.

use vstd::prelude::*;

use crate::error::VerificationError;
use crate::store::{
    TokenStore, TokenData, spec_pending, spec_lookup_pending, spec_complete_map,
    spec_complete_count,
};

verus! {

/// The name of the external account service shown on the confirmation
/// view.
pub open spec fn service_name() -> Seq<char> {
    "OCF"@
}

/// The confirmation view of the display step: what the user sees before
/// linking — the platform display name captured at issuance and the
/// externally-authenticated identity — so they can visually confirm the
/// pair. No secret beyond the token they already hold is echoed.
pub struct VerifyView {
    pub service: String,
    pub token: String,
    pub discord_name: String,
    pub external_name: String,
}

/// The spec-level content of a confirmation view.
pub ghost struct ViewData {
    pub service: Seq<char>,
    pub token: Seq<char>,
    pub discord_name: Seq<char>,
    pub external_name: Seq<char>,
}

impl VerifyView {
    /// The view's content at the spec level.
    pub open spec fn data(&self) -> ViewData {
        ViewData {
            service: self.service@,
            token: self.token@,
            discord_name: self.discord_name@,
            external_name: self.external_name@,
        }
    }
}

/// What the display step returns, as a function of the table content,
/// the token and the authenticated identity alone: the confirmation view
/// while the token is pending, the not-found error otherwise.
pub open spec fn spec_display(
    m: Map<Seq<char>, TokenData>,
    t: Seq<char>,
    ident: Seq<char>,
) -> Result<ViewData, VerificationError> {
    match spec_lookup_pending(m, t) {
        Some(d) => Ok(
            (ViewData {
                service: service_name(),
                token: t,
                discord_name: d.subject_display_name,
                external_name: ident,
            }),
        ),
        None => Err(VerificationError::NotFound),
    }
}

/// Step A: look the token up and render the confirmation view. Never
/// mutates the table (the store is taken immutably) and succeeds exactly
/// while the token is pending; an absent and an already-used token are
/// answered identically. A missing identity header is a precondition
/// failure upstream and is only tolerated when the token lookup fails
/// anyway, where the answer does not depend on it.
pub fn display_step(
    store: &TokenStore,
    token: &String,
    external_identity: Option<&String>,
) -> (result: Result<VerifyView, VerificationError>)
    requires
        store.wf(),
        spec_pending(store@, token@) ==> external_identity is Some,
    ensures
        result is Ok <==> spec_pending(store@, token@),
        match result {
            Ok(view) => external_identity matches Some(ident) && Ok::<
                ViewData,
                VerificationError,
            >(view.data()) == spec_display(store@, token@, ident@),
            Err(e) => e == VerificationError::NotFound,
        },
{
    match store.lookup_pending_token(token) {
        Some(row) => match external_identity {
            Some(ident) => Ok(
                VerifyView {
                    service: String::from_str("OCF"),
                    token: token.clone(),
                    discord_name: row.subject_display_name,
                    external_name: ident.clone(),
                },
            ),
            None => Err(VerificationError::NotFound),
        },
        None => Err(VerificationError::NotFound),
    }
}

/// Law: the display step is idempotent. It takes the store immutably, so
/// no repetition can flip `completed`, and while the token stays pending
/// every repetition returns the one successful view determined by the
/// table content, the token and the identity.
pub proof fn lemma_display_idempotent(m: Map<Seq<char>, TokenData>, t: Seq<char>, ident: Seq<char>)
    requires
        spec_pending(m, t),
    ensures
        spec_display(m, t, ident) == Ok::<ViewData, VerificationError>(
            (ViewData {
                service: service_name(),
                token: t,
                discord_name: m[t].subject_display_name,
                external_name: ident,
            }),
        ),
{
}

/// The row data a confirm request carries between its external calls.
pub struct PendingConfirm {
    pub token: String,
    pub subject_id: String,
    pub subject_display_name: String,
    pub realm_id: String,
    pub external_identity: String,
}

/// Where one confirm request stands between events.
pub enum ConfirmState {
    /// No request in flight yet.
    Idle,
    /// Token looked up; waiting for the membership lookup.
    ResolvingMember { pending: PendingConfirm },
    /// Member present; waiting for the privilege grant.
    GrantingPrivilege { pending: PendingConfirm },
    /// Privilege granted; waiting for the durable commit of the
    /// completion flip. Nothing has been consumed yet, so a failure
    /// here leaves the token pending and the request retryable.
    CompletingToken { pending: PendingConfirm },
    /// This request owns the completion; waiting for the audit
    /// notification, whose outcome cannot change the response.
    Notifying,
    /// A response has been chosen; the request is over.
    Done,
}

/// What the outside world reports to the confirm machine.
pub enum ConfirmEvent {
    /// A confirm request arrived with this token and identity header.
    Request { token: String, external_identity: Option<String> },
    /// The membership lookup finished; `present` says whether the
    /// subject is still a member of the realm.
    MemberResolved { present: bool },
    /// The privilege grant finished, successfully or not.
    PrivilegeGranted { granted: bool },
    /// The durable write of the completion flip finished; `committed`
    /// says whether it was durably committed.
    CompletionPersisted { committed: bool },
    /// The audit notification finished, successfully or not.
    NotificationSent { delivered: bool },
}

/// What the confirm machine asks its caller to do next.
pub enum ConfirmAction {
    /// Resolve the subject's current membership in the realm.
    ResolveMember { realm_id: String, subject_id: String },
    /// Grant the target privilege to the subject.
    GrantPrivilege { realm_id: String, subject_id: String },
    /// Durably commit the completion flip for this token.
    PersistCompletion { token: String },
    /// Announce the completed link to the audit channel (best effort).
    Notify { subject_display_name: String, token: String, external_identity: String },
    /// Answer the user with the success page.
    RespondSuccess,
    /// Answer the user with the error page for this error.
    RespondError { error: VerificationError },
}

/// The state/event pairings the confirm protocol can produce: each state
/// waits for exactly one kind of event.
pub open spec fn compatible(state: ConfirmState, event: ConfirmEvent) -> bool {
    match (state, event) {
        (ConfirmState::Idle, ConfirmEvent::Request { .. }) => true,
        (ConfirmState::ResolvingMember { .. }, ConfirmEvent::MemberResolved { .. }) => true,
        (ConfirmState::GrantingPrivilege { .. }, ConfirmEvent::PrivilegeGranted { .. }) => true,
        (ConfirmState::CompletingToken { .. }, ConfirmEvent::CompletionPersisted { .. }) => true,
        (ConfirmState::Notifying, ConfirmEvent::NotificationSent { .. }) => true,
        _ => false,
    }
}

/// Step B, one transition at a time. The contract walks the sequence the
/// design fixes: lookup, membership, grant, durable commit of the
/// completion, conditional completion, notification — and pins down two
/// things above all. First, the table is touched in exactly one arm, the
/// commit-success arm, and there only by the conditional completion
/// update; every failure before it — a missing member, a failed grant,
/// a completion write that could not be durably committed — leaves the
/// token pending, answers with the matching error, and so keeps the
/// request retryable. Second, the notification is requested exactly when
/// the conditional update reports one row affected — the report that
/// names this request the single owner of the completion — and a lost
/// race or a failed notification still answers the user with success.
pub fn confirm_step(
    store: &mut TokenStore,
    state: ConfirmState,
    event: ConfirmEvent,
) -> (outcome: (ConfirmState, ConfirmAction))
    requires
        old(store).wf(),
        compatible(state, event),
        event matches ConfirmEvent::Request { token, external_identity } ==> (spec_pending(
            old(store)@,
            token@,
        ) ==> external_identity is Some),
    ensures
        final(store).wf(),
        match (state, event) {
            (ConfirmState::Idle, ConfirmEvent::Request { token, external_identity }) => {
                &&& final(store)@ == old(store)@
                &&& match spec_lookup_pending(old(store)@, token@) {
                    Some(d) => {
                        &&& external_identity matches Some(ident) && outcome.0 matches
                            ConfirmState::ResolvingMember { pending } && pending.token@ == token@
                            && pending.subject_id@ == d.subject_id
                            && pending.subject_display_name@ == d.subject_display_name
                            && pending.realm_id@ == d.realm_id && pending.external_identity@
                            == ident@
                        &&& outcome.1 matches ConfirmAction::ResolveMember {
                            realm_id,
                            subject_id,
                        } && realm_id@ == d.realm_id && subject_id@ == d.subject_id
                    },
                    None => {
                        &&& outcome.0 is Done
                        &&& outcome.1 matches ConfirmAction::RespondError { error } && error
                            == VerificationError::NotFound
                    },
                }
            },
            (
                ConfirmState::ResolvingMember { pending },
                ConfirmEvent::MemberResolved { present },
            ) => {
                &&& final(store)@ == old(store)@
                &&& if present {
                    &&& outcome.0 matches ConfirmState::GrantingPrivilege { pending: p } && p
                        == pending
                    &&& outcome.1 matches ConfirmAction::GrantPrivilege { realm_id, subject_id }
                        && realm_id@ == pending.realm_id@ && subject_id@ == pending.subject_id@
                } else {
                    &&& outcome.0 is Done
                    &&& outcome.1 matches ConfirmAction::RespondError { error } && error matches
                        VerificationError::ExternalService { detail } && detail@
                        == "member no longer present"@
                }
            },
            (
                ConfirmState::GrantingPrivilege { pending },
                ConfirmEvent::PrivilegeGranted { granted },
            ) => {
                &&& final(store)@ == old(store)@
                &&& if granted {
                    &&& outcome.0 matches ConfirmState::CompletingToken { pending: p } && p
                        == pending
                    &&& outcome.1 matches ConfirmAction::PersistCompletion { token } && token@
                        == pending.token@
                } else {
                    &&& outcome.0 is Done
                    &&& outcome.1 matches ConfirmAction::RespondError { error } && error matches
                        VerificationError::ExternalService { detail } && detail@
                        == "privilege grant failed"@
                }
            },
            (
                ConfirmState::CompletingToken { pending },
                ConfirmEvent::CompletionPersisted { committed },
            ) => {
                if committed {
                    &&& final(store)@ == spec_complete_map(old(store)@, pending.token@)
                    &&& if spec_complete_count(old(store)@, pending.token@) == 1 {
                        &&& outcome.0 is Notifying
                        &&& outcome.1 matches ConfirmAction::Notify {
                            subject_display_name,
                            token,
                            external_identity,
                        } && subject_display_name@ == pending.subject_display_name@ && token@
                            == pending.token@ && external_identity@ == pending.external_identity@
                    } else {
                        outcome.0 is Done && outcome.1 is RespondSuccess
                    }
                } else {
                    &&& final(store)@ == old(store)@
                    &&& outcome.0 is Done
                    &&& outcome.1 matches ConfirmAction::RespondError { error } && error
                        == VerificationError::Storage
                }
            },
            (ConfirmState::Notifying, ConfirmEvent::NotificationSent { .. }) => {
                &&& final(store)@ == old(store)@
                &&& outcome.0 is Done && outcome.1 is RespondSuccess
            },
            _ => true,
        },
{
    match (state, event) {
        (ConfirmState::Idle, ConfirmEvent::Request { token, external_identity }) => {
            match store.lookup_pending_token(&token) {
                Some(row) => match external_identity {
                    Some(ident) => {
                        let action = ConfirmAction::ResolveMember {
                            realm_id: row.realm_id.clone(),
                            subject_id: row.subject_id.clone(),
                        };
                        let pending = PendingConfirm {
                            token,
                            subject_id: row.subject_id,
                            subject_display_name: row.subject_display_name,
                            realm_id: row.realm_id,
                            external_identity: ident,
                        };
                        (ConfirmState::ResolvingMember { pending }, action)
                    },
                    None => (
                        ConfirmState::Done,
                        ConfirmAction::RespondError { error: VerificationError::NotFound },
                    ),
                },
                None => (
                    ConfirmState::Done,
                    ConfirmAction::RespondError { error: VerificationError::NotFound },
                ),
            }
        },
        (ConfirmState::ResolvingMember { pending }, ConfirmEvent::MemberResolved { present }) => {
            if present {
                let action = ConfirmAction::GrantPrivilege {
                    realm_id: pending.realm_id.clone(),
                    subject_id: pending.subject_id.clone(),
                };
                (ConfirmState::GrantingPrivilege { pending }, action)
            } else {
                (
                    ConfirmState::Done,
                    ConfirmAction::RespondError {
                        error: VerificationError::ExternalService {
                            detail: String::from_str("member no longer present"),
                        },
                    },
                )
            }
        },
        (
            ConfirmState::GrantingPrivilege { pending },
            ConfirmEvent::PrivilegeGranted { granted },
        ) => {
            if granted {
                let action = ConfirmAction::PersistCompletion { token: pending.token.clone() };
                (ConfirmState::CompletingToken { pending }, action)
            } else {
                (
                    ConfirmState::Done,
                    ConfirmAction::RespondError {
                        error: VerificationError::ExternalService {
                            detail: String::from_str("privilege grant failed"),
                        },
                    },
                )
            }
        },
        (
            ConfirmState::CompletingToken { pending },
            ConfirmEvent::CompletionPersisted { committed },
        ) => {
            if committed {
                let rows_affected = store.complete_token(&pending.token);
                if rows_affected == 1 {
                    let action = ConfirmAction::Notify {
                        subject_display_name: pending.subject_display_name,
                        token: pending.token,
                        external_identity: pending.external_identity,
                    };
                    (ConfirmState::Notifying, action)
                } else {
                    (ConfirmState::Done, ConfirmAction::RespondSuccess)
                }
            } else {
                (
                    ConfirmState::Done,
                    ConfirmAction::RespondError { error: VerificationError::Storage },
                )
            }
        },
        (ConfirmState::Notifying, ConfirmEvent::NotificationSent { .. }) => {
            (ConfirmState::Done, ConfirmAction::RespondSuccess)
        },
        _ => {
            // Ruled out by `compatible`: each state waits for exactly one
            // kind of event.
            proof {
                assert(false);
            }
            (ConfirmState::Done, ConfirmAction::RespondSuccess)
        },
    }
}

/// Law: a confirm request that fails at the privilege grant, or whose
/// completion write could not be durably committed, leaves the token
/// exactly as pending as it was — the table is untouched, so a later
/// display still succeeds and a retried confirmation can still complete
/// the token.
pub proof fn lemma_grant_failure_leaves_pending(m: Map<Seq<char>, TokenData>, t: Seq<char>)
    requires
        spec_pending(m, t),
    ensures
        spec_lookup_pending(m, t) is Some,
        spec_complete_count(m, t) == 1,
{
}

} // verus!
