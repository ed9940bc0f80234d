//! The token store: the process's in-memory table of verification
//! tokens, modelled as a map from token value to row content.
//!
//! The store is the sole source of truth for idempotency. Its single
//! mutating update, [`TokenStore::complete_token`], is the conditional
//! flip `completed := true where token = t and not completed`, reporting
//! how many rows changed; a zero report is what lets concurrent
//! confirmations of the same token resolve to exactly one winner.
//! Durability is the caller's concern: a caller that needs the table to
//! survive restarts mirrors each change to durable storage and re-admits
//! the surviving pending rows through [`TokenStore::insert_token`] at
//! startup.

use vstd::prelude::*;
use vstd::pervasive::VecAdditionalExecFns;

use crate::error::VerificationError;

verus! {

/// The spec-level content of one token row, keyed elsewhere by the token
/// value itself.
pub ghost struct TokenData {
    pub subject_id: Seq<char>,
    pub subject_display_name: Seq<char>,
    pub realm_id: Seq<char>,
    pub completed: bool,
}

/// One issued verification token: the opaque token value, the platform
/// identity captured at issuance, the realm it belongs to, and whether
/// the token has been consumed. The display name is denormalized at
/// issuance and allowed to go stale.
pub struct VerificationToken {
    pub token: String,
    pub subject_id: String,
    pub subject_display_name: String,
    pub realm_id: String,
    pub completed: bool,
}

impl VerificationToken {
    /// The row's content with the token key left out.
    pub open spec fn data(&self) -> TokenData {
        TokenData {
            subject_id: self.subject_id@,
            subject_display_name: self.subject_display_name@,
            realm_id: self.realm_id@,
            completed: self.completed,
        }
    }
}

impl Clone for VerificationToken {
    fn clone(&self) -> (other: Self)
        ensures
            other == *self,
    {
        let other = VerificationToken {
            token: self.token.clone(),
            subject_id: self.subject_id.clone(),
            subject_display_name: self.subject_display_name.clone(),
            realm_id: self.realm_id.clone(),
            completed: self.completed,
        };
        assert(other == *self);
        other
    }
}

/// The table content as a map from token value to row content, built row
/// by row; later rows with the same key would shadow earlier ones, which
/// well-formedness rules out.
pub open spec fn map_of(rows: Seq<VerificationToken>) -> Map<Seq<char>, TokenData>
    decreases rows.len(),
{
    if rows.len() == 0 {
        Map::empty()
    } else {
        map_of(rows.drop_last()).insert(rows.last().token@, rows.last().data())
    }
}

/// Token values are globally unique for the lifetime of their rows.
pub open spec fn unique_tokens(rows: Seq<VerificationToken>) -> bool {
    forall|i: int, j: int|
        0 <= i < j < rows.len() ==> rows[i].token@ != rows[j].token@
}

/// A token is pending when a row for it exists and is not yet completed.
pub open spec fn spec_pending(m: Map<Seq<char>, TokenData>, t: Seq<char>) -> bool {
    m.contains_key(t) && !m[t].completed
}

/// What a pending lookup returns: the row content while the token is
/// pending, nothing once it is completed or if it never existed — the
/// two failures are indistinguishable to the caller.
pub open spec fn spec_lookup_pending(m: Map<Seq<char>, TokenData>, t: Seq<char>) -> Option<
    TokenData,
> {
    if spec_pending(m, t) {
        Some(m[t])
    } else {
        None
    }
}

/// The table after the conditional completion update: the one pending row
/// flips to completed; a completed or absent token leaves the table
/// untouched.
pub open spec fn spec_complete_map(m: Map<Seq<char>, TokenData>, t: Seq<char>) -> Map<
    Seq<char>,
    TokenData,
> {
    if spec_pending(m, t) {
        m.insert(
            t,
            TokenData {
                subject_id: m[t].subject_id,
                subject_display_name: m[t].subject_display_name,
                realm_id: m[t].realm_id,
                completed: true,
            },
        )
    } else {
        m
    }
}

/// How many rows the conditional completion update reports as changed:
/// one while the token is pending, zero otherwise.
pub open spec fn spec_complete_count(m: Map<Seq<char>, TokenData>, t: Seq<char>) -> u64 {
    if spec_pending(m, t) {
        1u64
    } else {
        0u64
    }
}

proof fn lemma_map_of_contains(rows: Seq<VerificationToken>, k: Seq<char>)
    ensures
        map_of(rows).contains_key(k) <==> exists|i: int|
            0 <= i < rows.len() && rows[i].token@ == k,
    decreases rows.len(),
{
    if rows.len() == 0 {
    } else {
        lemma_map_of_contains(rows.drop_last(), k);
        if rows.last().token@ == k {
            assert(rows[rows.len() - 1].token@ == k);
        } else {
            if map_of(rows).contains_key(k) {
                let i = choose|i: int|
                    0 <= i < rows.drop_last().len() && rows.drop_last()[i].token@ == k;
                assert(rows[i].token@ == k);
            }
            if exists|i: int| 0 <= i < rows.len() && rows[i].token@ == k {
                let i = choose|i: int| 0 <= i < rows.len() && rows[i].token@ == k;
                assert(i < rows.len() - 1);
                assert(rows.drop_last()[i].token@ == k);
            }
        }
    }
}

proof fn lemma_map_of_index(rows: Seq<VerificationToken>, i: int)
    requires
        unique_tokens(rows),
        0 <= i < rows.len(),
    ensures
        map_of(rows).contains_key(rows[i].token@),
        map_of(rows)[rows[i].token@] == rows[i].data(),
    decreases rows.len(),
{
    if i == rows.len() - 1 {
    } else {
        assert(unique_tokens(rows.drop_last())) by {
            assert(forall|p: int, q: int|
                0 <= p < q < rows.drop_last().len() ==> rows.drop_last()[p] == rows[p]
                    && rows.drop_last()[q] == rows[q]);
        }
        lemma_map_of_index(rows.drop_last(), i);
        assert(rows.drop_last()[i] == rows[i]);
        assert(rows.last().token@ != rows[i].token@);
    }
}

proof fn lemma_unique_drop_last(rows: Seq<VerificationToken>)
    requires
        unique_tokens(rows),
        rows.len() > 0,
    ensures
        unique_tokens(rows.drop_last()),
{
    assert(forall|p: int, q: int|
        0 <= p < q < rows.drop_last().len() ==> rows.drop_last()[p] == rows[p]
            && rows.drop_last()[q] == rows[q]);
}

proof fn lemma_map_of_update(rows: Seq<VerificationToken>, i: int, row2: VerificationToken)
    requires
        unique_tokens(rows),
        0 <= i < rows.len(),
        row2.token@ == rows[i].token@,
    ensures
        map_of(rows.update(i, row2)) == map_of(rows).insert(row2.token@, row2.data()),
    decreases rows.len(),
{
    let r2 = rows.update(i, row2);
    if i == rows.len() - 1 {
        assert(r2.drop_last() =~= rows.drop_last());
        assert(r2.last() == row2);
        assert(map_of(r2) =~= map_of(rows).insert(row2.token@, row2.data()));
    } else {
        lemma_unique_drop_last(rows);
        lemma_map_of_update(rows.drop_last(), i, row2);
        assert(r2.drop_last() =~= rows.drop_last().update(i, row2));
        assert(r2.last() == rows.last());
        assert(rows.last().token@ != row2.token@);
        assert(map_of(r2) =~= map_of(rows).insert(row2.token@, row2.data()));
    }
}

/// The in-memory table of verification tokens, the process's single
/// serialization point. Rows are appended at issuance and mutated only
/// by the one conditional completion flip; nothing is ever deleted, so
/// completed rows remain as an audit trail for the life of the process,
/// and a caller that needs more mirrors the table to durable storage.
pub struct TokenStore {
    rows: Vec<VerificationToken>,
}

impl View for TokenStore {
    type V = Map<Seq<char>, TokenData>;

    closed spec fn view(&self) -> Map<Seq<char>, TokenData> {
        map_of(self.rows@)
    }
}

impl TokenStore {
    /// Token values are unique across all rows, live and completed alike.
    pub closed spec fn wf(&self) -> bool {
        unique_tokens(self.rows@)
    }

    /// An empty table, as migration on a fresh deployment leaves it.
    pub fn new() -> (store: TokenStore)
        ensures
            store.wf(),
            store@ == Map::<Seq<char>, TokenData>::empty(),
    {
        TokenStore { rows: Vec::new() }
    }

    fn find_index(&self, token: &String) -> (found: Option<usize>)
        ensures
            match found {
                Some(i) => i < self.rows@.len() && self.rows@[i as int].token@ == token@,
                None => forall|i: int|
                    0 <= i < self.rows@.len() ==> self.rows@[i].token@ != token@,
            },
    {
        let mut i: usize = 0;
        while i < self.rows.len()
            invariant
                i <= self.rows@.len(),
                forall|j: int| 0 <= j < i ==> self.rows@[j].token@ != token@,
            decreases self.rows@.len() - i,
        {
            if self.rows[i].token == *token {
                return Some(i);
            }
            i = i + 1;
        }
        None
    }

    /// Inserts an uncompleted row under the given token value. Succeeds
    /// exactly when the token value is not already taken; a collision is
    /// reported as a storage failure and leaves the table untouched, so
    /// the row is never silently overwritten.
    pub fn insert_token(
        &mut self,
        token: String,
        subject_id: String,
        subject_display_name: String,
        realm_id: String,
    ) -> (result: Result<(), VerificationError>)
        requires
            old(self).wf(),
        ensures
            final(self).wf(),
            match result {
                Ok(()) => !old(self)@.contains_key(token@) && final(self)@ == old(self)@.insert(
                    token@,
                    (TokenData {
                        subject_id: subject_id@,
                        subject_display_name: subject_display_name@,
                        realm_id: realm_id@,
                        completed: false,
                    }),
                ),
                Err(e) => old(self)@.contains_key(token@) && final(self)@ == old(self)@ && e
                    == VerificationError::Storage,
            },
    {
        proof {
            lemma_map_of_contains(self.rows@, token@);
        }
        match self.find_index(&token) {
            Some(_) => Err(VerificationError::Storage),
            None => {
                let ghost rows0 = self.rows@;
                let row = VerificationToken {
                    token,
                    subject_id,
                    subject_display_name,
                    realm_id,
                    completed: false,
                };
                self.rows.push(row);
                proof {
                    assert(self.rows@.drop_last() =~= rows0);
                    assert(self.rows@.last() == row);
                }
                Ok(())
            },
        }
    }

    /// Returns a copy of the row for the token while it is still pending;
    /// a completed or unknown token is answered with nothing, the two
    /// being indistinguishable so that lookups leak nothing about used
    /// tokens. Never mutates the table.
    pub fn lookup_pending_token(&self, token: &String) -> (found: Option<VerificationToken>)
        requires
            self.wf(),
        ensures
            match found {
                Some(row) => spec_lookup_pending(self@, token@) == Some(row.data())
                    && row.token@ == token@ && !row.completed,
                None => spec_lookup_pending(self@, token@) is None,
            },
    {
        proof {
            lemma_map_of_contains(self.rows@, token@);
        }
        match self.find_index(token) {
            Some(i) => {
                proof {
                    lemma_map_of_index(self.rows@, i as int);
                }
                if self.rows[i].completed {
                    None
                } else {
                    Some(self.rows[i].clone())
                }
            },
            None => None,
        }
    }

    /// The conditional completion update: set `completed` on the one row
    /// whose token matches and is still pending, and report how many rows
    /// changed. The zero-or-one report is the store's serialization
    /// point: of any number of confirmations racing on the same token,
    /// exactly one observes a count of one.
    pub fn complete_token(&mut self, token: &String) -> (rows_affected: u64)
        requires
            old(self).wf(),
        ensures
            final(self).wf(),
            rows_affected == spec_complete_count(old(self)@, token@),
            final(self)@ == spec_complete_map(old(self)@, token@),
    {
        proof {
            lemma_map_of_contains(self.rows@, token@);
        }
        match self.find_index(token) {
            Some(i) => {
                proof {
                    lemma_map_of_index(self.rows@, i as int);
                }
                if self.rows[i].completed {
                    0
                } else {
                    let ghost rows0 = self.rows@;
                    let row = VerificationToken {
                        token: self.rows[i].token.clone(),
                        subject_id: self.rows[i].subject_id.clone(),
                        subject_display_name: self.rows[i].subject_display_name.clone(),
                        realm_id: self.rows[i].realm_id.clone(),
                        completed: true,
                    };
                    proof {
                        lemma_map_of_update(rows0, i as int, row);
                    }
                    self.rows.set(i, row);
                    proof {
                        assert(forall|p: int, q: int|
                            0 <= p < q < self.rows@.len() ==> self.rows@[p].token@ == rows0[p].token@
                                && self.rows@[q].token@ == rows0[q].token@);
                    }
                    1
                }
            },
            None => 0,
        }
    }

    /// Issues a new token: draws a fresh random token value, inserts an
    /// uncompleted row for it, and returns the token for out-of-band
    /// delivery. Failure can only come from the random draws colliding
    /// with existing rows — so issuance into an empty table always
    /// succeeds — and (vanishingly unlikely as it is) reports a storage
    /// failure with the table untouched, so a caller never sees a
    /// half-issued token.
    pub fn create_token(
        &mut self,
        subject_id: &String,
        subject_display_name: &String,
        realm_id: &String,
    ) -> (result: Result<String, VerificationError>)
        requires
            old(self).wf(),
        ensures
            final(self).wf(),
            match result {
                Ok(token) => token@.len() == 36 && !old(self)@.contains_key(token@)
                    && final(self)@ == old(self)@.insert(
                    token@,
                    (TokenData {
                        subject_id: subject_id@,
                        subject_display_name: subject_display_name@,
                        realm_id: realm_id@,
                        completed: false,
                    }),
                ),
                Err(e) => final(self)@ == old(self)@ && e == VerificationError::Storage
                    && old(self)@ != Map::<Seq<char>, TokenData>::empty(),
            },
    {
        let mut attempts: usize = 0;
        while attempts < 8
            invariant
                self.wf(),
                self@ == old(self)@,
                attempts > 0 ==> old(self)@ != Map::<Seq<char>, TokenData>::empty(),
            decreases 8 - attempts,
        {
            let token = fresh_token_string();
            match self.insert_token(
                token.clone(),
                subject_id.clone(),
                subject_display_name.clone(),
                realm_id.clone(),
            ) {
                Ok(()) => {
                    return Ok(token);
                },
                Err(_) => {
                    proof {
                        assert(!Map::<Seq<char>, TokenData>::empty().contains_key(token@));
                    }
                    attempts = attempts + 1;
                },
            }
        }
        Err(VerificationError::Storage)
    }
}

/// Law: a token just created is pending, and a pending lookup against it
/// returns exactly the subject identity, display name and realm that
/// were supplied at issuance.
pub proof fn lemma_lookup_after_create(m: Map<Seq<char>, TokenData>, t: Seq<char>, d: TokenData)
    requires
        !d.completed,
    ensures
        spec_lookup_pending(m.insert(t, d), t) == Some(d),
{
}

/// Law: completing the same token twice reports exactly one row affected
/// on the first call and zero on the second.
pub proof fn lemma_complete_twice(m: Map<Seq<char>, TokenData>, t: Seq<char>)
    requires
        spec_pending(m, t),
    ensures
        spec_complete_count(m, t) == 1,
        spec_complete_count(spec_complete_map(m, t), t) == 0,
{
}

/// Law: once a completion has succeeded (reported one row affected), a
/// pending lookup of that token returns nothing from then on.
pub proof fn lemma_lookup_after_complete(m: Map<Seq<char>, TokenData>, t: Seq<char>)
    requires
        spec_complete_count(m, t) == 1,
    ensures
        spec_lookup_pending(spec_complete_map(m, t), t) is None,
{
}

/// The table after `n` completion updates of the same token applied in
/// sequence — the store's atomic conditional update serializes
/// concurrent confirmations into exactly such a sequence.
pub open spec fn spec_complete_n(m: Map<Seq<char>, TokenData>, t: Seq<char>, n: nat) -> Map<
    Seq<char>,
    TokenData,
>
    decreases n,
{
    if n == 0 {
        m
    } else {
        spec_complete_n(spec_complete_map(m, t), t, (n - 1) as nat)
    }
}

/// The total number of rows reported affected over `n` completion
/// updates of the same token applied in sequence.
pub open spec fn spec_success_count(m: Map<Seq<char>, TokenData>, t: Seq<char>, n: nat) -> nat
    decreases n,
{
    if n == 0 {
        0
    } else {
        (spec_complete_count(m, t) + spec_success_count(spec_complete_map(m, t), t, (n - 1) as nat)) as nat
    }
}

/// Law: completions of a token that is not pending all report zero rows
/// and leave the table untouched.
pub proof fn lemma_no_success_when_not_pending(m: Map<Seq<char>, TokenData>, t: Seq<char>, n: nat)
    requires
        !spec_pending(m, t),
    ensures
        spec_success_count(m, t, n) == 0,
        spec_complete_n(m, t, n) == m,
    decreases n,
{
    if n > 0 {
        lemma_no_success_when_not_pending(m, t, (n - 1) as nat);
    }
}

/// Law: of any number of completion updates racing on the same pending
/// token, exactly one reports success (one row affected) and all the
/// others report zero. Since the confirm step grants and notifies only
/// on a success report, the privilege grant and the notification are
/// owed to at most one of the racing confirmations.
pub proof fn lemma_exactly_one_success(m: Map<Seq<char>, TokenData>, t: Seq<char>, n: nat)
    requires
        spec_pending(m, t),
        n >= 1,
    ensures
        spec_success_count(m, t, n) == 1,
    decreases n,
{
    lemma_no_success_when_not_pending(spec_complete_map(m, t), t, (n - 1) as nat);
}

/// Law: the completion flag moves only from pending to completed. The
/// conditional update never reverses a completed row, never touches any
/// row but the one matching the token, and never adds or removes rows.
pub proof fn lemma_complete_monotone(m: Map<Seq<char>, TokenData>, t: Seq<char>, k: Seq<char>)
    ensures
        m.contains_key(k) && m[k].completed ==> spec_complete_map(m, t).contains_key(k)
            && spec_complete_map(m, t)[k].completed,
        k != t && m.contains_key(k) ==> spec_complete_map(m, t)[k] == m[k],
        spec_complete_map(m, t).dom() == m.dom(),
{
    assert(spec_complete_map(m, t).dom() =~= m.dom());
}

/// Relies on `uuid::Uuid::new_v4` and the `Display` rendering of `Uuid`:
/// a version-4 UUID drawn from cryptographically strong randomness,
/// rendered in the hyphenated lowercase form, which is always 36 ASCII
/// characters. The value is random, so nothing is promised beyond its
/// shape; uniqueness is enforced by the store, not assumed here.
#[verifier::external_body]
fn fresh_token_string() -> (token: String)
    ensures
        token@.len() == 36,
{
    uuid::Uuid::new_v4().to_string()
}

} // verus!
