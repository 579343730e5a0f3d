//! In-memory storage of intents, attempts and business profiles. Every update
//! is conditional on the caller's prior version of the record and on the
//! lifecycle graph, so lost-update races surface as explicit conflicts.
use vstd::prelude::*;
use crate::domain::{
    apply_attempt_update, apply_intent_update, attempt_update_status, intent_update_status,
    routing_consistent, AttemptId, MerchantId, PaymentAttempt, PaymentAttemptUpdate, PaymentId,
    PaymentIntent, PaymentIntentUpdate, ProfileId,
};
use crate::status::{
    attempt_step, intent_is_terminal, intent_reachable, intent_step, lemma_intent_reachable_transitive,
    lemma_terminal_intent_stays,
};

verus! {

/// A merchant's business profile.
#[derive(Clone, Copy, Debug, PartialEq, Eq, Structural)]
pub struct Profile {
    pub id: ProfileId,
    pub merchant_id: MerchantId,
}

#[derive(Clone, Copy, Debug, PartialEq, Eq, Structural)]
pub enum StorageError {
    /// No record has the requested id.
    ValueNotFound,
    /// A record with the same id is already stored.
    DuplicateValue,
    /// The stored record changed since the caller read it.
    Conflict,
    /// The delta would move the record against its lifecycle graph.
    InvalidTransition,
    /// An attempt would be stored with only one of its routing fields set.
    InconsistentRouting,
}

/// What the store holds.
pub struct StoreView {
    pub intents: Seq<PaymentIntent>,
    pub attempts: Seq<PaymentAttempt>,
    pub profiles: Seq<Profile>,
}

impl StoreView {
    pub open spec fn has_intent(self, id: PaymentId) -> bool {
        exists|k: int| 0 <= k < self.intents.len() && #[trigger] self.intents[k].id == id
    }

    pub open spec fn intent_index(self, id: PaymentId) -> int {
        choose|k: int| 0 <= k < self.intents.len() && #[trigger] self.intents[k].id == id
    }

    pub open spec fn intent(self, id: PaymentId) -> PaymentIntent {
        self.intents[self.intent_index(id)]
    }

    pub open spec fn has_attempt(self, id: AttemptId) -> bool {
        exists|k: int| 0 <= k < self.attempts.len() && #[trigger] self.attempts[k].id == id
    }

    pub open spec fn attempt_index(self, id: AttemptId) -> int {
        choose|k: int| 0 <= k < self.attempts.len() && #[trigger] self.attempts[k].id == id
    }

    pub open spec fn attempt(self, id: AttemptId) -> PaymentAttempt {
        self.attempts[self.attempt_index(id)]
    }

    pub open spec fn has_profile(self, id: ProfileId) -> bool {
        exists|k: int| 0 <= k < self.profiles.len() && #[trigger] self.profiles[k].id == id
    }

    pub open spec fn profile_index(self, id: ProfileId) -> int {
        choose|k: int| 0 <= k < self.profiles.len() && #[trigger] self.profiles[k].id == id
    }

    pub open spec fn profile(self, id: ProfileId) -> Profile {
        self.profiles[self.profile_index(id)]
    }

    /// Ids are unique per record kind, and every stored attempt is routed on
    /// both of its routing fields or on neither.
    pub open spec fn wf(self) -> bool {
        &&& forall|i: int, j: int|
            0 <= i < j < self.intents.len() ==> #[trigger] self.intents[i].id
                != #[trigger] self.intents[j].id
        &&& forall|i: int, j: int|
            0 <= i < j < self.attempts.len() ==> #[trigger] self.attempts[i].id
                != #[trigger] self.attempts[j].id
        &&& forall|i: int, j: int|
            0 <= i < j < self.profiles.len() ==> #[trigger] self.profiles[i].id
                != #[trigger] self.profiles[j].id
        &&& forall|i: int| 0 <= i < self.attempts.len() ==> routing_consistent(#[trigger] self.attempts[i])
    }

    /// The outcome of a conditional update of the intent that `prior` was read as.
    pub open spec fn intent_update_outcome(self, prior: PaymentIntent, d: PaymentIntentUpdate) -> Result<
        PaymentIntent,
        StorageError,
    > {
        if !self.has_intent(prior.id) {
            Err(StorageError::ValueNotFound)
        } else {
            let cur = self.intent(prior.id);
            if cur.version != prior.version || cur.version == u64::MAX {
                Err(StorageError::Conflict)
            } else if !intent_step(cur.status, intent_update_status(d)) {
                Err(StorageError::InvalidTransition)
            } else {
                Ok(PaymentIntent { version: (cur.version + 1) as u64, ..apply_intent_update(cur, d) })
            }
        }
    }

    /// The outcome of a conditional update of the attempt that `prior` was read as.
    pub open spec fn attempt_update_outcome(self, prior: PaymentAttempt, d: PaymentAttemptUpdate) -> Result<
        PaymentAttempt,
        StorageError,
    > {
        if !self.has_attempt(prior.id) {
            Err(StorageError::ValueNotFound)
        } else {
            let cur = self.attempt(prior.id);
            if cur.version != prior.version || cur.version == u64::MAX {
                Err(StorageError::Conflict)
            } else if !attempt_step(cur.status, attempt_update_status(d)) {
                Err(StorageError::InvalidTransition)
            } else {
                Ok(PaymentAttempt { version: (cur.version + 1) as u64, ..apply_attempt_update(cur, d) })
            }
        }
    }

    /// The outcome of updating an intent and one of its attempts together:
    /// both updates are checked against this store, and either both apply or
    /// neither does.
    pub open spec fn joint_update_outcome(
        self,
        prior_intent: PaymentIntent,
        intent_update: PaymentIntentUpdate,
        prior_attempt: PaymentAttempt,
        attempt_update: PaymentAttemptUpdate,
    ) -> Result<(PaymentIntent, PaymentAttempt), StorageError> {
        match self.intent_update_outcome(prior_intent, intent_update) {
            Err(e) => Err(e),
            Ok(i) => match self.attempt_update_outcome(prior_attempt, attempt_update) {
                Err(e) => Err(e),
                Ok(a) => Ok((i, a)),
            },
        }
    }

    /// The store with the intent of `n`'s id replaced by `n`.
    pub open spec fn with_intent(self, n: PaymentIntent) -> StoreView {
        StoreView { intents: self.intents.update(self.intent_index(n.id), n), ..self }
    }

    /// The store with the attempt of `n`'s id replaced by `n`.
    pub open spec fn with_attempt(self, n: PaymentAttempt) -> StoreView {
        StoreView { attempts: self.attempts.update(self.attempt_index(n.id), n), ..self }
    }
}

/// `new` keeps every record of `old` in place, and every intent of `old` has
/// only moved forward along the lifecycle graph.
pub open spec fn store_advanced(old: StoreView, new: StoreView) -> bool {
    &&& old.intents.len() <= new.intents.len()
    &&& old.attempts.len() <= new.attempts.len()
    &&& old.profiles == new.profiles
    &&& forall|i: int|
        #![trigger new.intents[i]]
        0 <= i < old.intents.len() ==> new.intents[i].id == old.intents[i].id && intent_reachable(
            old.intents[i].status,
            new.intents[i].status,
        )
    &&& forall|i: int|
        #![trigger new.attempts[i]]
        0 <= i < old.attempts.len() ==> new.attempts[i].id == old.attempts[i].id
}

/// Advancing composes: a store reached by two advancing steps has advanced
/// from the first.
pub proof fn lemma_store_advanced_transitive(a: StoreView, b: StoreView, c: StoreView)
    requires
        store_advanced(a, b),
        store_advanced(b, c),
    ensures
        store_advanced(a, c),
{
    assert forall|i: int|
        #![trigger c.intents[i]]
        0 <= i < a.intents.len() implies c.intents[i].id == a.intents[i].id && intent_reachable(
            a.intents[i].status,
            c.intents[i].status,
        ) by {
        assert(b.intents[i].id == a.intents[i].id);
        lemma_intent_reachable_transitive(
            a.intents[i].status,
            b.intents[i].status,
            c.intents[i].status,
        );
    }
    assert forall|i: int|
        #![trigger c.attempts[i]]
        0 <= i < a.attempts.len() implies c.attempts[i].id == a.attempts[i].id by {
        assert(b.attempts[i].id == a.attempts[i].id);
    }
}

/// An intent that was terminal in a store keeps its status in every store
/// that has advanced from it.
pub proof fn lemma_terminal_intent_never_reopens(a: StoreView, b: StoreView, i: int)
    requires
        store_advanced(a, b),
        0 <= i < a.intents.len(),
        intent_is_terminal(a.intents[i].status),
    ensures
        b.intents[i].status == a.intents[i].status,
{
    lemma_terminal_intent_stays(a.intents[i].status, b.intents[i].status);
}

/// Every attempt of a well-formed store has a connector exactly when it has
/// a merchant connector account.
pub proof fn lemma_stored_attempt_routing_consistent(s: StoreView, id: AttemptId)
    requires
        s.wf(),
        s.has_attempt(id),
    ensures
        s.attempt(id).connector.is_some() == s.attempt(id).merchant_connector_id.is_some(),
{
    let k = s.attempt_index(id);
    assert(routing_consistent(s.attempts[k]));
}

/// Once an update read as `prior` has been committed, the same update read
/// as the same `prior` is refused as a conflict.
pub proof fn lemma_update_commits_once(s: StoreView, prior: PaymentIntent, d: PaymentIntentUpdate)
    requires
        s.wf(),
        s.intent_update_outcome(prior, d) is Ok,
    ensures
        s.with_intent(s.intent_update_outcome(prior, d)->Ok_0).intent_update_outcome(prior, d)
            == Err::<PaymentIntent, StorageError>(StorageError::Conflict),
{
    let n = s.intent_update_outcome(prior, d)->Ok_0;
    let k = s.intent_index(prior.id);
    let t = s.with_intent(n);
    assert(n.id == prior.id);
    assert(t.intents[k].id == prior.id);
    assert(t.has_intent(prior.id));
    let k2 = t.intent_index(prior.id);
    if k2 != k {
        assert(s.intents[k2].id == prior.id);
        if k2 < k {
            assert(s.intents[k2].id != s.intents[k].id);
        } else {
            assert(s.intents[k].id != s.intents[k2].id);
        }
    }
    assert(t.intent(prior.id) == n);
}

pub struct InMemoryStore {
    intents: Vec<PaymentIntent>,
    attempts: Vec<PaymentAttempt>,
    profiles: Vec<Profile>,
}

impl View for InMemoryStore {
    type V = StoreView;

    closed spec fn view(&self) -> StoreView {
        StoreView { intents: self.intents@, attempts: self.attempts@, profiles: self.profiles@ }
    }
}

impl InMemoryStore {
    pub fn new() -> (r: InMemoryStore)
        ensures
            r@.wf(),
            r@.intents.len() == 0,
            r@.attempts.len() == 0,
            r@.profiles.len() == 0,
    {
        InMemoryStore { intents: Vec::new(), attempts: Vec::new(), profiles: Vec::new() }
    }

    fn intent_position(&self, id: PaymentId) -> (r: Option<usize>)
        requires
            self@.wf(),
        ensures
            r is None <==> !self@.has_intent(id),
            r matches Some(k) ==> k == self@.intent_index(id) && k < self@.intents.len(),
    {
        let mut i: usize = 0;
        while i < self.intents.len()
            invariant
                i <= self.intents@.len(),
                self@.wf(),
                self@.intents == self.intents@,
                forall|j: int| 0 <= j < i ==> self.intents@[j].id != id,
            decreases self.intents@.len() - i,
        {
            if self.intents[i].id == id {
                proof {
                    let k = self@.intent_index(id);
                    assert(self@.intents[i as int].id == id);
                    assert(0 <= k < self@.intents.len() && self@.intents[k].id == id);
                    if k < i {
                        assert(self.intents@[k].id != id);
                    } else if k > i {
                        assert(self@.intents[i as int].id != self@.intents[k].id);
                    }
                }
                return Some(i);
            }
            i += 1;
        }
        None
    }

    fn attempt_position(&self, id: AttemptId) -> (r: Option<usize>)
        requires
            self@.wf(),
        ensures
            r is None <==> !self@.has_attempt(id),
            r matches Some(k) ==> k == self@.attempt_index(id) && k < self@.attempts.len(),
    {
        let mut i: usize = 0;
        while i < self.attempts.len()
            invariant
                i <= self.attempts@.len(),
                self@.wf(),
                self@.attempts == self.attempts@,
                forall|j: int| 0 <= j < i ==> self.attempts@[j].id != id,
            decreases self.attempts@.len() - i,
        {
            if self.attempts[i].id == id {
                proof {
                    let k = self@.attempt_index(id);
                    assert(self@.attempts[i as int].id == id);
                    assert(0 <= k < self@.attempts.len() && self@.attempts[k].id == id);
                    if k < i {
                        assert(self.attempts@[k].id != id);
                    } else if k > i {
                        assert(self@.attempts[i as int].id != self@.attempts[k].id);
                    }
                }
                return Some(i);
            }
            i += 1;
        }
        None
    }

    fn profile_position(&self, id: ProfileId) -> (r: Option<usize>)
        requires
            self@.wf(),
        ensures
            r is None <==> !self@.has_profile(id),
            r matches Some(k) ==> k == self@.profile_index(id) && k < self@.profiles.len(),
    {
        let mut i: usize = 0;
        while i < self.profiles.len()
            invariant
                i <= self.profiles@.len(),
                self@.wf(),
                self@.profiles == self.profiles@,
                forall|j: int| 0 <= j < i ==> self.profiles@[j].id != id,
            decreases self.profiles@.len() - i,
        {
            if self.profiles[i].id == id {
                proof {
                    let k = self@.profile_index(id);
                    assert(self@.profiles[i as int].id == id);
                    assert(0 <= k < self@.profiles.len() && self@.profiles[k].id == id);
                    if k < i {
                        assert(self.profiles@[k].id != id);
                    } else if k > i {
                        assert(self@.profiles[i as int].id != self@.profiles[k].id);
                    }
                }
                return Some(i);
            }
            i += 1;
        }
        None
    }

    pub fn find_payment_intent_by_id(&self, id: PaymentId) -> (r: Result<PaymentIntent, StorageError>)
        requires
            self@.wf(),
        ensures
            r is Err <==> !self@.has_intent(id),
            r matches Err(e) ==> e == StorageError::ValueNotFound,
            r matches Ok(i) ==> i == self@.intent(id) && i.id == id,
    {
        match self.intent_position(id) {
            Some(k) => Ok(self.intents[k]),
            None => Err(StorageError::ValueNotFound),
        }
    }

    /// Stores a newly created intent.
    pub fn insert_payment_intent(&mut self, intent: PaymentIntent) -> (r: Result<PaymentIntent, StorageError>)
        requires
            old(self)@.wf(),
        ensures
            final(self)@.wf(),
            store_advanced(old(self)@, final(self)@),
            r is Err <==> old(self)@.has_intent(intent.id),
            r matches Err(e) ==> e == StorageError::DuplicateValue && final(self)@ == old(self)@,
            r matches Ok(i) ==> i == intent && final(self)@ == (StoreView {
                intents: old(self)@.intents.push(intent),
                ..old(self)@
            }),
    {
        if self.intent_position(intent.id).is_some() {
            return Err(StorageError::DuplicateValue);
        }
        self.intents.push(intent);
        proof {
            assert(self@.intents =~= old(self)@.intents.push(intent));
        }
        Ok(intent)
    }

    pub fn find_payment_attempt_by_id(&self, id: AttemptId) -> (r: Result<PaymentAttempt, StorageError>)
        requires
            self@.wf(),
        ensures
            r is Err <==> !self@.has_attempt(id),
            r matches Err(e) ==> e == StorageError::ValueNotFound,
            r matches Ok(a) ==> a == self@.attempt(id) && a.id == id,
    {
        match self.attempt_position(id) {
            Some(k) => Ok(self.attempts[k]),
            None => Err(StorageError::ValueNotFound),
        }
    }

    /// Stores a new attempt. This is the one unconditional write: an attempt,
    /// once stored, is never removed.
    pub fn insert_payment_attempt(&mut self, attempt: PaymentAttempt) -> (r: Result<PaymentAttempt, StorageError>)
        requires
            old(self)@.wf(),
        ensures
            final(self)@.wf(),
            store_advanced(old(self)@, final(self)@),
            r is Ok <==> !old(self)@.has_attempt(attempt.id) && routing_consistent(attempt),
            r matches Err(e) ==> final(self)@ == old(self)@ && (e == if old(self)@.has_attempt(
                attempt.id,
            ) {
                StorageError::DuplicateValue
            } else {
                StorageError::InconsistentRouting
            }),
            r matches Ok(a) ==> a == attempt && final(self)@ == (StoreView {
                attempts: old(self)@.attempts.push(attempt),
                ..old(self)@
            }),
    {
        if self.attempt_position(attempt.id).is_some() {
            return Err(StorageError::DuplicateValue);
        }
        if !attempt.has_consistent_routing() {
            return Err(StorageError::InconsistentRouting);
        }
        self.attempts.push(attempt);
        proof {
            assert(self@.attempts =~= old(self)@.attempts.push(attempt));
        }
        Ok(attempt)
    }

    pub fn find_business_profile_by_profile_id(&self, id: ProfileId) -> (r: Result<Profile, StorageError>)
        requires
            self@.wf(),
        ensures
            r is Err <==> !self@.has_profile(id),
            r matches Err(e) ==> e == StorageError::ValueNotFound,
            r matches Ok(p) ==> p == self@.profile(id) && p.id == id,
    {
        match self.profile_position(id) {
            Some(k) => Ok(self.profiles[k]),
            None => Err(StorageError::ValueNotFound),
        }
    }

    pub fn insert_business_profile(&mut self, profile: Profile) -> (r: Result<Profile, StorageError>)
        requires
            old(self)@.wf(),
        ensures
            final(self)@.wf(),
            r is Err <==> old(self)@.has_profile(profile.id),
            r matches Err(e) ==> e == StorageError::DuplicateValue && final(self)@ == old(self)@,
            r matches Ok(p) ==> p == profile && final(self)@ == (StoreView {
                profiles: old(self)@.profiles.push(profile),
                ..old(self)@
            }),
    {
        if self.profile_position(profile.id).is_some() {
            return Err(StorageError::DuplicateValue);
        }
        self.profiles.push(profile);
        proof {
            assert(self@.profiles =~= old(self)@.profiles.push(profile));
        }
        Ok(profile)
    }

    /// Applies `update` to the intent that the caller read as `prior`. It
    /// fails with a conflict when the stored version is no longer the one of
    /// `prior`, and never moves the intent against its lifecycle graph.
    pub fn update_payment_intent(&mut self, prior: PaymentIntent, update: PaymentIntentUpdate) -> (r: Result<
        PaymentIntent,
        StorageError,
    >)
        requires
            old(self)@.wf(),
        ensures
            final(self)@.wf(),
            store_advanced(old(self)@, final(self)@),
            r == old(self)@.intent_update_outcome(prior, update),
            r matches Ok(n) ==> final(self)@ == old(self)@.with_intent(n),
            r is Err ==> final(self)@ == old(self)@,
    {
        let k = match self.intent_position(prior.id) {
            Some(k) => k,
            None => return Err(StorageError::ValueNotFound),
        };
        let cur = self.intents[k];
        if cur.version != prior.version || cur.version == u64::MAX {
            return Err(StorageError::Conflict);
        }
        if !cur.status.can_transition_to(update.new_status()) {
            return Err(StorageError::InvalidTransition);
        }
        let applied = update.apply_to(cur);
        let n = PaymentIntent { version: cur.version + 1, ..applied };
        self.intents.set(k, n);
        proof {
            assert(self@.intents =~= old(self)@.intents.update(k as int, n));
            assert(self@.profiles == old(self)@.profiles);
            assert(n.id == cur.id);
            assert(self@.intents[k as int] == n);
            assert(self@.attempts == old(self)@.attempts);
            assert forall|i: int, j: int|
                0 <= i < j < self@.intents.len() implies #[trigger] self@.intents[i].id
                != #[trigger] self@.intents[j].id by {
                assert(old(self)@.intents[i].id != old(self)@.intents[j].id);
            }
        }
        Ok(n)
    }

    /// Applies `update` to the attempt that the caller read as `prior`, on
    /// the same terms as an intent update.
    pub fn update_payment_attempt(&mut self, prior: PaymentAttempt, update: PaymentAttemptUpdate) -> (r: Result<
        PaymentAttempt,
        StorageError,
    >)
        requires
            old(self)@.wf(),
        ensures
            final(self)@.wf(),
            store_advanced(old(self)@, final(self)@),
            r == old(self)@.attempt_update_outcome(prior, update),
            r matches Ok(n) ==> final(self)@ == old(self)@.with_attempt(n),
            r is Err ==> final(self)@ == old(self)@,
    {
        let k = match self.attempt_position(prior.id) {
            Some(k) => k,
            None => return Err(StorageError::ValueNotFound),
        };
        let cur = self.attempts[k];
        if cur.version != prior.version || cur.version == u64::MAX {
            return Err(StorageError::Conflict);
        }
        if !cur.status.can_transition_to(update.new_status()) {
            return Err(StorageError::InvalidTransition);
        }
        let applied = update.apply_to(cur);
        let n = PaymentAttempt { version: cur.version + 1, ..applied };
        self.attempts.set(k, n);
        proof {
            assert(self@.attempts =~= old(self)@.attempts.update(k as int, n));
            assert(self@.profiles == old(self)@.profiles);
            assert(n.id == cur.id);
            assert(self@.attempts[k as int] == n);
            assert(routing_consistent(n));
            assert(self@.intents == old(self)@.intents);
            assert forall|i: int, j: int|
                0 <= i < j < self@.attempts.len() implies #[trigger] self@.attempts[i].id
                != #[trigger] self@.attempts[j].id by {
                assert(old(self)@.attempts[i].id != old(self)@.attempts[j].id);
            }
        }
        Ok(n)
    }

    /// Applies `intent_update` to the intent read as `prior_intent` and
    /// `attempt_update` to the attempt read as `prior_attempt` in one step:
    /// when either would be refused, nothing is written.
    pub fn update_payment_intent_and_attempt(
        &mut self,
        prior_intent: PaymentIntent,
        intent_update: PaymentIntentUpdate,
        prior_attempt: PaymentAttempt,
        attempt_update: PaymentAttemptUpdate,
    ) -> (r: Result<(PaymentIntent, PaymentAttempt), StorageError>)
        requires
            old(self)@.wf(),
        ensures
            final(self)@.wf(),
            store_advanced(old(self)@, final(self)@),
            r == old(self)@.joint_update_outcome(
                prior_intent,
                intent_update,
                prior_attempt,
                attempt_update,
            ),
            r matches Ok((i, a)) ==> final(self)@ == old(self)@.with_intent(i).with_attempt(a),
            r is Err ==> final(self)@ == old(self)@,
    {
        let k = match self.intent_position(prior_intent.id) {
            Some(k) => k,
            None => return Err(StorageError::ValueNotFound),
        };
        let cur_intent = self.intents[k];
        if cur_intent.version != prior_intent.version || cur_intent.version == u64::MAX {
            return Err(StorageError::Conflict);
        }
        if !cur_intent.status.can_transition_to(intent_update.new_status()) {
            return Err(StorageError::InvalidTransition);
        }
        let j = match self.attempt_position(prior_attempt.id) {
            Some(j) => j,
            None => return Err(StorageError::ValueNotFound),
        };
        let cur_attempt = self.attempts[j];
        if cur_attempt.version != prior_attempt.version || cur_attempt.version == u64::MAX {
            return Err(StorageError::Conflict);
        }
        if !cur_attempt.status.can_transition_to(attempt_update.new_status()) {
            return Err(StorageError::InvalidTransition);
        }
        let applied_intent = intent_update.apply_to(cur_intent);
        let n = PaymentIntent { version: cur_intent.version + 1, ..applied_intent };
        let applied_attempt = attempt_update.apply_to(cur_attempt);
        let a = PaymentAttempt { version: cur_attempt.version + 1, ..applied_attempt };
        let ghost s0 = self@;
        self.intents.set(k, n);
        let ghost s1 = self@;
        proof {
            assert(s1.intents =~= s0.intents.update(k as int, n));
            assert(s1.attempts == s0.attempts);
            assert(s1.profiles == s0.profiles);
            assert(n.id == cur_intent.id);
            assert(s1 == s0.with_intent(n));
        }
        self.attempts.set(j, a);
        proof {
            let s2 = self@;
            assert(s2.attempts =~= s1.attempts.update(j as int, a));
            assert(s2.intents == s1.intents);
            assert(s2.profiles == s1.profiles);
            assert(a.id == cur_attempt.id);
            assert(routing_consistent(a));
            assert(s1.attempt_index(a.id) == s0.attempt_index(a.id));
            assert(s2 == s1.with_attempt(a));
            assert(s2.intents[k as int] == n);
            assert(s2.attempts[j as int] == a);
            assert forall|x: int, y: int|
                0 <= x < y < s2.intents.len() implies #[trigger] s2.intents[x].id
                != #[trigger] s2.intents[y].id by {
                assert(s0.intents[x].id != s0.intents[y].id);
            }
            assert forall|x: int, y: int|
                0 <= x < y < s2.attempts.len() implies #[trigger] s2.attempts[x].id
                != #[trigger] s2.attempts[y].id by {
                assert(s0.attempts[x].id != s0.attempts[y].id);
            }
        }
        Ok((n, a))
    }
}

} // verus!
