//! The token issuer: decides whether a platform event warrants a new
//! verification token, creates it, and prepares the out-of-band delivery
//! (a deep link embedded in a private welcome message). Sending the
//! message, and every platform API call behind the event itself, happens
//! outside; the decision and the token's creation are proved here.

use vstd::prelude::*;

use crate::error::VerificationError;
use crate::store::{TokenStore, TokenData};

verus! {

/// The issuer's fixed configuration: the designated reaction message,
/// the privilege role whose holders are not re-issued tokens via the
/// reaction path, and the base URL that deep links are built on.
pub struct IssuerConfig {
    pub designated_message_id: u64,
    pub privilege_role_id: u64,
    pub base_url: String,
}

/// A platform event the issuer reacts to. Role data the reaction path
/// needs is carried in the event: `None` means the membership or role
/// lookup itself failed, which aborts issuance for the event.
pub enum PlatformEvent {
    /// A subject newly joined the realm.
    MemberJoined { subject_id: String, subject_display_name: String, realm_id: String },
    /// A subject added the designated reaction to some message;
    /// `subject_role_ids` holds the subject's current roles, or nothing
    /// if they could not be fetched.
    ReactionAdded {
        subject_id: String,
        subject_display_name: String,
        realm_id: String,
        message_id: u64,
        subject_role_ids: Option<Vec<u64>>,
    },
}

impl PlatformEvent {
    /// The subject the event is about.
    pub open spec fn subject_id_spec(&self) -> Seq<char> {
        match self {
            PlatformEvent::MemberJoined { subject_id, .. } => subject_id@,
            PlatformEvent::ReactionAdded { subject_id, .. } => subject_id@,
        }
    }

    /// The subject's display name at the time of the event.
    pub open spec fn subject_display_name_spec(&self) -> Seq<char> {
        match self {
            PlatformEvent::MemberJoined { subject_display_name, .. } => subject_display_name@,
            PlatformEvent::ReactionAdded { subject_display_name, .. } => subject_display_name@,
        }
    }

    /// The realm the event happened in.
    pub open spec fn realm_id_spec(&self) -> Seq<char> {
        match self {
            PlatformEvent::MemberJoined { realm_id, .. } => realm_id@,
            PlatformEvent::ReactionAdded { realm_id, .. } => realm_id@,
        }
    }
}

/// The trigger conditions, each independently sufficient: a join always
/// issues (the join path carries no already-verified guard); a reaction
/// issues only when it targets the designated message and the subject's
/// roles were fetched and do not already hold the privilege.
pub open spec fn spec_should_issue(config: IssuerConfig, event: PlatformEvent) -> bool {
    match event {
        PlatformEvent::MemberJoined { .. } => true,
        PlatformEvent::ReactionAdded { message_id, subject_role_ids, .. } => {
            &&& message_id == config.designated_message_id
            &&& subject_role_ids matches Some(roles) && !roles@.contains(
                config.privilege_role_id,
            )
        },
    }
}

fn contains_role(roles: &Vec<u64>, role: u64) -> (held: bool)
    ensures
        held == roles@.contains(role),
{
    let mut i: usize = 0;
    while i < roles.len()
        invariant
            i <= roles@.len(),
            forall|j: int| 0 <= j < i ==> roles@[j] != role,
        decreases roles@.len() - i,
    {
        if roles[i] == role {
            assert(roles@[i as int] == role);
            return true;
        }
        i = i + 1;
    }
    false
}

/// Decides whether the event warrants issuing a new verification token.
pub fn should_issue(config: &IssuerConfig, event: &PlatformEvent) -> (issue: bool)
    ensures
        issue == spec_should_issue(*config, *event),
{
    match event {
        PlatformEvent::MemberJoined { .. } => true,
        PlatformEvent::ReactionAdded { message_id, subject_role_ids, .. } => {
            if *message_id != config.designated_message_id {
                false
            } else {
                match subject_role_ids {
                    Some(roles) => !contains_role(roles, config.privilege_role_id),
                    None => false,
                }
            }
        },
    }
}

/// The deep link a delivered token is embedded in.
pub open spec fn spec_verification_link(base_url: Seq<char>, token: Seq<char>) -> Seq<char> {
    base_url + "/verify/"@ + token
}

/// Builds the deep link for a token: the base URL, the verification
/// path, the token.
pub fn build_verification_link(base_url: &String, token: &String) -> (link: String)
    ensures
        link@ == spec_verification_link(base_url@, token@),
{
    let mut link = base_url.clone();
    link.append("/verify/");
    link.append(token.as_str());
    link
}

/// The explanatory text a delivered link is wrapped in.
pub open spec fn spec_welcome_message(link: Seq<char>) -> Seq<char> {
    "Welcome to the OCF Discord Server! To see every channel, you'll need to verify your Discord account with your OCF account at the link below. \n"@
        + link
}

/// Builds the private welcome message that carries the deep link.
pub fn welcome_message(link: &String) -> (message: String)
    ensures
        message@ == spec_welcome_message(link@),
{
    let mut message = String::from_str(
        "Welcome to the OCF Discord Server! To see every channel, you'll need to verify your Discord account with your OCF account at the link below. \n",
    );
    message.append(link.as_str());
    message
}

/// Everything the caller needs to deliver a freshly issued token: whom
/// to message, and the link and message text to send. Delivery failure
/// is logged outside and never retried — the subject re-triggers to get
/// a new token.
pub struct IssuedDelivery {
    pub subject_id: String,
    pub token: String,
    pub link: String,
    pub message: String,
}

/// Reacts to one platform event end to end, short of delivery: decide,
/// create the token, build the link and the message. Returns nothing
/// when the event warrants no token (and then touches nothing), and the
/// prepared delivery when a token was created. The storage error — with
/// the table untouched, so no partial token exists without a delivery —
/// can only come from the random token draws colliding with existing
/// rows, so a warranted event against an empty table always issues.
pub fn handle_platform_event(
    store: &mut TokenStore,
    config: &IssuerConfig,
    event: &PlatformEvent,
) -> (outcome: Result<Option<IssuedDelivery>, VerificationError>)
    requires
        old(store).wf(),
    ensures
        final(store).wf(),
        !spec_should_issue(*config, *event) ==> (outcome matches Ok(d) && d is None
            && final(store)@ == old(store)@),
        spec_should_issue(*config, *event) ==> match outcome {
            Ok(d) => {
                &&& d matches Some(delivery)
                &&& delivery.subject_id@ == event.subject_id_spec()
                &&& delivery.token@.len() == 36
                &&& !old(store)@.contains_key(delivery.token@)
                &&& final(store)@ == old(store)@.insert(
                    delivery.token@,
                    (TokenData {
                        subject_id: event.subject_id_spec(),
                        subject_display_name: event.subject_display_name_spec(),
                        realm_id: event.realm_id_spec(),
                        completed: false,
                    }),
                )
                &&& delivery.link@ == spec_verification_link(config.base_url@, delivery.token@)
                &&& delivery.message@ == spec_welcome_message(delivery.link@)
            },
            Err(e) => e == VerificationError::Storage && final(store)@ == old(store)@
                && old(store)@ != Map::<Seq<char>, TokenData>::empty(),
        },
{
    if !should_issue(config, event) {
        return Ok(None);
    }
    let (subject_id, subject_display_name, realm_id) = match event {
        PlatformEvent::MemberJoined { subject_id, subject_display_name, realm_id } => (
            subject_id,
            subject_display_name,
            realm_id,
        ),
        PlatformEvent::ReactionAdded { subject_id, subject_display_name, realm_id, .. } => (
            subject_id,
            subject_display_name,
            realm_id,
        ),
    };
    match store.create_token(subject_id, subject_display_name, realm_id) {
        Ok(token) => {
            let link = build_verification_link(&config.base_url, &token);
            let message = welcome_message(&link);
            Ok(
                Some(
                    IssuedDelivery {
                        subject_id: subject_id.clone(),
                        token,
                        link,
                        message,
                    },
                ),
            )
        },
        Err(e) => Err(e),
    }
}

/// Decides whether a freshly issued token may be delivered, given the
/// outcome of its durable commit: only a committed row goes out. When
/// the write was not durably committed, issuance fails with the storage
/// error and nothing must be sent — the caller may not assume the token
/// was delivered or is valid; the undelivered row stays behind as an
/// unclaimed token and the subject re-triggers to get a new one.
pub fn release_delivery(delivery: IssuedDelivery, committed: bool) -> (outcome: Result<
    IssuedDelivery,
    VerificationError,
>)
    ensures
        committed ==> (outcome matches Ok(d) && d == delivery),
        !committed ==> (outcome matches Err(e) && e == VerificationError::Storage),
{
    if committed {
        Ok(delivery)
    } else {
        Err(VerificationError::Storage)
    }
}

} // verus!
