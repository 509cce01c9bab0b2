use vstd::prelude::*;
use crate::status::{ANY_EVENT_ID, ANY_SOURCE, ESP_OK, EventLoopError};

verus! {

/// How a loop is scheduled.
#[derive(Clone, Copy, Debug, PartialEq, Eq, Structural)]
pub enum LoopMode {
    /// The one process-wide default loop, with its own worker.
    System,
    /// A loop with a dedicated worker task.
    Background,
    /// A loop that delivers events only while pumped.
    Explicit,
    /// A pumped loop meant to be driven from one fixed thread or core.
    Pinned,
}

impl LoopMode {
    /// Whether this is the process-wide default loop.
    pub fn is_system(&self) -> (r: bool)
        ensures
            r == (*self is System),
    {
        match self {
            LoopMode::System => true,
            _ => false,
        }
    }
}

/// Whether an event matches a subscription's filter: the same source unless
/// the filter's source is the wildcard, and the same event id unless the
/// filter's id is the wildcard.
pub open spec fn spec_event_matches(
    filter_source: u64,
    filter_event_id: i32,
    source: u64,
    event_id: i32,
) -> bool {
    (filter_source == ANY_SOURCE || source == filter_source) && (filter_event_id == ANY_EVENT_ID
        || event_id == filter_event_id)
}

/// Whether an event matches a subscription's filter.
pub fn event_matches(filter_source: u64, filter_event_id: i32, source: u64, event_id: i32) -> (r:
    bool)
    ensures
        r == spec_event_matches(filter_source, filter_event_id, source, event_id),
{
    (filter_source == ANY_SOURCE || source == filter_source) && (filter_event_id == ANY_EVENT_ID
        || event_id == filter_event_id)
}

/// One native loop and the references that keep it alive.
#[derive(Clone, Copy, Debug)]
pub struct LoopRecord {
    pub mode: LoopMode,
    /// The native handle (unused for the default loop).
    pub native: u64,
    /// Live event-loop values that share this loop.
    pub handles: u64,
    /// Subscriptions on this loop not yet retired.
    pub subscriptions: u64,
    /// Whether the last reference is gone, so the native loop is to be deleted.
    pub deleted: bool,
    /// Whether the facility has reported the native deletion as done.
    pub confirmed: bool,
}

/// One registration of a callback on a loop.
#[derive(Clone, Copy, Debug)]
pub struct SubscriptionRecord {
    pub loop_id: usize,
    pub source: u64,
    pub event_id: i32,
    /// The token the facility handed out at registration.
    pub token: u64,
    pub live: bool,
    /// Whether the facility has finished unregistering it, so that its slot
    /// may be given to a new subscription.
    pub retired: bool,
}

/// What dropping a reference to a loop asks of the caller.
#[derive(Clone, Copy, Debug, PartialEq, Eq, Structural)]
pub enum Release {
    /// Other references remain; nothing to do.
    Retained,
    /// That was the last reference: delete this native loop.
    Delete { mode: LoopMode, native: u64 },
}

/// What ending a subscription asks of the caller: unregister it natively
/// with these values.
#[derive(Clone, Copy, Debug, PartialEq, Eq, Structural)]
pub struct Unregistration {
    pub mode: LoopMode,
    pub native: u64,
    pub source: u64,
    pub event_id: i32,
    pub token: u64,
}

/// The state of all loops and subscriptions of a process.
pub struct RegistryModel {
    pub loops: Seq<LoopRecord>,
    pub subs: Seq<SubscriptionRecord>,
    pub singleton_taken: bool,
}

/// Subscriptions among `subs` that still hold loop `l`: those not yet
/// retired.
pub open spec fn count_subs(subs: Seq<SubscriptionRecord>, l: int) -> nat
    decreases subs.len(),
{
    if subs.len() == 0 {
        0
    } else {
        count_subs(subs.drop_last(), l) + if !subs.last().retired && subs.last().loop_id == l {
            1nat
        } else {
            0nat
        }
    }
}

/// `x` placed at `at`: appended when `at` is just past the end, else
/// replacing the element there.
pub open spec fn place<T>(s: Seq<T>, at: int, x: T) -> Seq<T> {
    if at == s.len() {
        s.push(x)
    } else {
        s.update(at, x)
    }
}

impl RegistryModel {
    /// Whether a new loop may take slot `at`: a fresh one, or one whose
    /// loop the facility has deleted.
    pub open spec fn free_loop_slot(self, at: int) -> bool {
        at == self.loops.len() || (0 <= at < self.loops.len() && self.loops[at].confirmed)
    }

    /// Whether a new subscription may take slot `at`: a fresh one, or a
    /// retired one.
    pub open spec fn free_sub_slot(self, at: int) -> bool {
        at == self.subs.len() || (0 <= at < self.subs.len() && self.subs[at].retired)
    }

    pub open spec fn loop_live(self, l: int) -> bool {
        0 <= l < self.loops.len() && !self.loops[l].deleted
    }

    /// Whether `l` is a default loop whose native deletion is not yet
    /// confirmed; while one exists, no other default loop may be created.
    pub open spec fn holds_singleton(self, l: int) -> bool {
        0 <= l < self.loops.len() && self.loops[l].mode is System && !self.loops[l].confirmed
    }

    pub open spec fn sub_live(self, s: int) -> bool {
        0 <= s < self.subs.len() && self.subs[s].live
    }

    /// Whether an event posted now would reach subscription `s`.
    pub open spec fn delivers(self, s: int, source: u64, event_id: i32) -> bool {
        self.sub_live(s) && spec_event_matches(
            self.subs[s].source,
            self.subs[s].event_id,
            source,
            event_id,
        )
    }

    pub open spec fn wf(self) -> bool {
        &&& self.loops.len() <= usize::MAX
        &&& forall|s: int|
            0 <= s < self.subs.len() && !#[trigger] self.subs[s].retired ==> self.loop_live(
                self.subs[s].loop_id as int,
            )
        &&& forall|l: int|
            0 <= l < self.loops.len() ==> #[trigger] self.loops[l].subscriptions == count_subs(
                self.subs,
                l,
            )
        &&& forall|l: int|
            0 <= l < self.loops.len() ==> (#[trigger] self.loops[l].deleted <==> (
            self.loops[l].handles == 0 && self.loops[l].subscriptions == 0))
        &&& forall|l: int|
            0 <= l < self.loops.len() && #[trigger] self.loops[l].confirmed ==> self.loops[l].deleted
        &&& forall|s: int| 0 <= s < self.subs.len() && #[trigger] self.subs[s].retired ==> !self.subs[s].live
        &&& self.singleton_taken <==> exists|l: int| #[trigger] self.holds_singleton(l)
        &&& forall|a: int, b: int|
            #[trigger] self.holds_singleton(a) && #[trigger] self.holds_singleton(b) ==> a == b
    }

    pub open spec fn empty() -> RegistryModel {
        RegistryModel { loops: Seq::empty(), subs: Seq::empty(), singleton_taken: false }
    }

    /// A new loop in slot `at`, held by one event-loop value.
    pub open spec fn after_add_loop(self, mode: LoopMode, native: u64, at: int) -> RegistryModel {
        RegistryModel {
            loops: place(
                self.loops,
                at,
                LoopRecord {
                    mode,
                    native,
                    handles: 1,
                    subscriptions: 0,
                    deleted: false,
                    confirmed: false,
                },
            ),
            subs: self.subs,
            singleton_taken: self.singleton_taken || mode is System,
        }
    }

    /// Loop `l` with its counts set to `handles` and `subscriptions`; its
    /// native deletion is owed once both are zero.
    pub open spec fn with_counts(self, l: int, handles: u64, subscriptions: u64) -> RegistryModel {
        let deleted = handles == 0 && subscriptions == 0;
        RegistryModel {
            loops: self.loops.update(
                l,
                LoopRecord { handles, subscriptions, deleted, ..self.loops[l] },
            ),
            subs: self.subs,
            singleton_taken: self.singleton_taken,
        }
    }

    /// The facility has deleted loop `l`; for the default loop the flag is
    /// cleared only now.
    pub open spec fn after_finish_delete(self, l: int) -> RegistryModel {
        RegistryModel {
            loops: self.loops.update(l, LoopRecord { confirmed: true, ..self.loops[l] }),
            subs: self.subs,
            singleton_taken: if self.loops[l].mode is System {
                false
            } else {
                self.singleton_taken
            },
        }
    }

    /// One more event-loop value shares loop `l`.
    pub open spec fn after_clone(self, l: int) -> RegistryModel {
        self.with_counts(l, (self.loops[l].handles + 1) as u64, self.loops[l].subscriptions)
    }

    /// One event-loop value of loop `l` is gone.
    pub open spec fn after_release(self, l: int) -> RegistryModel {
        self.with_counts(l, (self.loops[l].handles - 1) as u64, self.loops[l].subscriptions)
    }

    /// A new live subscription on loop `l`, in slot `at`.
    pub open spec fn after_subscribe(self, l: int, at: int, source: u64, event_id: i32, token: u64) -> RegistryModel {
        let m = self.with_counts(l, self.loops[l].handles, (self.loops[l].subscriptions + 1) as u64);
        RegistryModel {
            subs: place(
                self.subs,
                at,
                SubscriptionRecord {
                    loop_id: l as usize,
                    source,
                    event_id,
                    token,
                    live: true,
                    retired: false,
                },
            ),
            ..m
        }
    }

    /// The facility has finished unregistering ended subscription `s`: it
    /// gives up its hold on its loop, and its slot may be reused.
    pub open spec fn after_retire(self, s: int) -> RegistryModel {
        let l = self.subs[s].loop_id as int;
        let m = self.with_counts(l, self.loops[l].handles, (self.loops[l].subscriptions - 1) as u64);
        RegistryModel { subs: self.subs.update(s, SubscriptionRecord { retired: true, ..self.subs[s] }), ..m }
    }

    /// Subscription `s` has ended: nothing is delivered to it any more.
    pub open spec fn after_unsubscribe(self, s: int) -> RegistryModel {
        RegistryModel { subs: self.subs.update(s, SubscriptionRecord { live: false, ..self.subs[s] }), ..self }
    }

    /// What the caller must do once loop `l` went from `self` to `next`.
    pub open spec fn release_of(self, next: RegistryModel, l: int) -> Release {
        if next.loops[l].deleted {
            Release::Delete { mode: self.loops[l].mode, native: self.loops[l].native }
        } else {
            Release::Retained
        }
    }
}

pub open spec fn counts_toward(r: SubscriptionRecord, l: int) -> int {
    if !r.retired && r.loop_id == l {
        1
    } else {
        0
    }
}

proof fn lemma_count_push(subs: Seq<SubscriptionRecord>, r: SubscriptionRecord, l: int)
    ensures
        count_subs(subs.push(r), l) == count_subs(subs, l) + counts_toward(r, l),
{
    assert(subs.push(r).drop_last() =~= subs);
}

proof fn lemma_count_update(subs: Seq<SubscriptionRecord>, i: int, r: SubscriptionRecord, l: int)
    requires
        0 <= i < subs.len(),
    ensures
        count_subs(subs.update(i, r), l) == count_subs(subs, l) - counts_toward(subs[i], l)
            + counts_toward(r, l),
    decreases subs.len(),
{
    let u = subs.update(i, r);
    if i == subs.len() - 1 {
        assert(u.drop_last() =~= subs.drop_last());
    } else {
        assert(u.drop_last() =~= subs.drop_last().update(i, r));
        lemma_count_update(subs.drop_last(), i, r, l);
    }
}

pub(crate) proof fn lemma_count_zero(subs: Seq<SubscriptionRecord>, l: int, s: int)
    requires
        count_subs(subs, l) == 0,
        0 <= s < subs.len(),
        !subs[s].retired,
    ensures
        subs[s].loop_id != l,
    decreases subs.len(),
{
    if s < subs.len() - 1 {
        assert(subs.drop_last()[s] == subs[s]);
        lemma_count_zero(subs.drop_last(), l, s);
    }
}

proof fn lemma_count_absent(subs: Seq<SubscriptionRecord>, l: int)
    requires
        forall|s: int| 0 <= s < subs.len() && !#[trigger] subs[s].retired ==> subs[s].loop_id != l,
    ensures
        count_subs(subs, l) == 0,
    decreases subs.len(),
{
    if subs.len() > 0 {
        let d = subs.drop_last();
        assert forall|s: int| 0 <= s < d.len() && !#[trigger] d[s].retired implies d[s].loop_id != l by {
            assert(d[s] == subs[s]);
        }
        lemma_count_absent(d, l);
    }
}

impl RegistryModel {
    /// The singleton flag stays exact when one live loop's counts change.
    proof fn lemma_with_counts_singleton(self, l: int, handles: u64, subscriptions: u64)
        requires
            self.wf(),
            self.loop_live(l),
        ensures
            ({
                let m = self.with_counts(l, handles, subscriptions);
                &&& m.singleton_taken <==> exists|x: int| #[trigger] m.holds_singleton(x)
                &&& forall|a: int, b: int|
                    #[trigger] m.holds_singleton(a) && #[trigger] m.holds_singleton(b) ==> a == b
                &&& forall|x: int| 0 <= x < m.loops.len() && #[trigger] m.loops[x].confirmed ==> m.loops[x].deleted
            }),
    {
        let m = self.with_counts(l, handles, subscriptions);
        assert forall|x: int| #[trigger] m.holds_singleton(x) == self.holds_singleton(x) by {}
        if m.singleton_taken {
            let w = choose|x: int| self.holds_singleton(x);
            assert(m.holds_singleton(w));
        }
        assert forall|x: int| 0 <= x < m.loops.len() && #[trigger] m.loops[x].confirmed implies m.loops[x].deleted by {
            if x != l {
                assert(m.loops[x] == self.loops[x]);
            }
        }
    }

    /// Confirming the deletion of a loop that is owed it keeps the model well
    /// formed.
    pub proof fn lemma_finish_delete_wf(self, l: int)
        requires
            self.wf(),
            0 <= l < self.loops.len(),
            self.loops[l].deleted,
            !self.loops[l].confirmed,
        ensures
            self.after_finish_delete(l).wf(),
    {
        let m = self.after_finish_delete(l);
        assert forall|x: int| 0 <= x < m.loops.len() && x != l implies #[trigger] m.loops[x] == self.loops[x] by {}
        assert(m.loops[l].deleted && m.loops[l].handles == self.loops[l].handles
            && m.loops[l].subscriptions == self.loops[l].subscriptions);
        assert forall|x: int| #[trigger] m.holds_singleton(x) implies self.holds_singleton(x) && x != l by {}
        if m.singleton_taken {
            let w = choose|x: int| self.holds_singleton(x);
            assert(w != l);
            assert(m.holds_singleton(w));
        }
        assert forall|t: int| 0 <= t < m.subs.len() && !#[trigger] m.subs[t].retired implies m.loop_live(m.subs[t].loop_id as int) by {}
        assert forall|x: int| 0 <= x < m.loops.len() implies #[trigger] m.loops[x].subscriptions == count_subs(m.subs, x) by {}
        if self.loops[l].mode is System {
            assert(self.holds_singleton(l));
        }
    }

    /// Adding a loop keeps the model well formed.
    pub proof fn lemma_add_loop_wf(self, mode: LoopMode, native: u64, at: int)
        requires
            self.wf(),
            mode is System ==> !self.singleton_taken,
            self.free_loop_slot(at),
            self.loops.len() < usize::MAX,
        ensures
            self.after_add_loop(mode, native, at).wf(),
    {
        let m = self.after_add_loop(mode, native, at);
        assert forall|s: int| 0 <= s < self.subs.len() && !#[trigger] self.subs[s].retired implies self.subs[s].loop_id != at by {}
        lemma_count_absent(self.subs, at);
        assert forall|x: int| 0 <= x < self.loops.len() && x != at implies #[trigger] m.loops[x] == self.loops[x] by {}
        assert forall|x: int| #[trigger] self.holds_singleton(x) implies x != at && m.holds_singleton(x) by {}
        assert forall|x: int| #[trigger] m.holds_singleton(x) && x != at implies self.holds_singleton(x) by {}
        if m.singleton_taken {
            if mode is System {
                assert(m.holds_singleton(at));
            } else {
                let w = choose|x: int| self.holds_singleton(x);
                assert(m.holds_singleton(w));
            }
        }
        assert forall|s: int| 0 <= s < m.subs.len() && !#[trigger] m.subs[s].retired implies m.loop_live(m.subs[s].loop_id as int) by {}
        assert(m.wf());
    }

    /// Another event-loop value for a live loop keeps the model well formed.
    pub proof fn lemma_clone_wf(self, l: int)
        requires
            self.wf(),
            self.loop_live(l),
            self.loops[l].handles < u64::MAX,
        ensures
            self.after_clone(l).wf(),
    {
        self.lemma_with_counts_singleton(l, (self.loops[l].handles + 1) as u64, self.loops[l].subscriptions);
    }

    /// Dropping an event-loop value keeps the model well formed.
    pub proof fn lemma_release_wf(self, l: int)
        requires
            self.wf(),
            self.loop_live(l),
            self.loops[l].handles > 0,
        ensures
            self.after_release(l).wf(),
    {
        let m = self.after_release(l);
        self.lemma_with_counts_singleton(l, (self.loops[l].handles - 1) as u64, self.loops[l].subscriptions);
        assert forall|s: int| 0 <= s < m.subs.len() && !#[trigger] m.subs[s].retired implies m.loop_live(m.subs[s].loop_id as int) by {
            if m.loops[l].deleted {
                lemma_count_zero(self.subs, l, s);
            }
        }
    }

    /// A new subscription on a live loop keeps the model well formed.
    pub proof fn lemma_subscribe_wf(self, l: int, at: int, source: u64, event_id: i32, token: u64)
        requires
            self.wf(),
            self.loop_live(l),
            self.free_sub_slot(at),
            self.loops[l].subscriptions < u64::MAX,
        ensures
            self.after_subscribe(l, at, source, event_id, token).wf(),
    {
        let m = self.after_subscribe(l, at, source, event_id, token);
        let r = SubscriptionRecord { loop_id: l as usize, source, event_id, token, live: true, retired: false };
        self.lemma_with_counts_singleton(l, self.loops[l].handles, (self.loops[l].subscriptions + 1) as u64);
        let w = self.with_counts(l, self.loops[l].handles, (self.loops[l].subscriptions + 1) as u64);
        assert forall|x: int| #[trigger] m.holds_singleton(x) == w.holds_singleton(x) by {}
        assert forall|x: int| 0 <= x < m.loops.len() implies #[trigger] m.loops[x].subscriptions == count_subs(m.subs, x) by {
            if at == self.subs.len() {
                lemma_count_push(self.subs, r, x);
            } else {
                lemma_count_update(self.subs, at, r, x);
            }
        }
        assert forall|s: int| 0 <= s < m.subs.len() && !#[trigger] m.subs[s].retired implies m.loop_live(m.subs[s].loop_id as int) by {
            if s < self.subs.len() && s != at {
                assert(m.subs[s] == self.subs[s]);
            }
        }
        assert forall|s: int| 0 <= s < m.subs.len() && #[trigger] m.subs[s].retired implies !m.subs[s].live by {
            if s < self.subs.len() && s != at {
                assert(m.subs[s] == self.subs[s]);
            }
        }
        if m.singleton_taken {
            let x = choose|x: int| w.holds_singleton(x);
            assert(m.holds_singleton(x));
        }
    }


    /// Ending a live subscription keeps the model well formed.
    pub proof fn lemma_unsubscribe_wf(self, s: int)
        requires
            self.wf(),
            self.sub_live(s),
        ensures
            self.after_unsubscribe(s).wf(),
    {
        let m = self.after_unsubscribe(s);
        let r = SubscriptionRecord { live: false, ..self.subs[s] };
        assert(m.loops == self.loops);
        assert forall|x: int| #[trigger] m.holds_singleton(x) == self.holds_singleton(x) by {}
        assert forall|x: int| 0 <= x < m.loops.len() implies #[trigger] m.loops[x].subscriptions == count_subs(m.subs, x) by {
            lemma_count_update(self.subs, s, r, x);
        }
        assert forall|t: int| 0 <= t < m.subs.len() && !#[trigger] m.subs[t].retired implies m.loop_live(m.subs[t].loop_id as int) by {
            if t != s {
                assert(m.subs[t] == self.subs[t]);
            }
        }
        assert forall|t: int| 0 <= t < m.subs.len() && #[trigger] m.subs[t].retired implies !m.subs[t].live by {
            if t != s {
                assert(m.subs[t] == self.subs[t]);
            }
        }
        if m.singleton_taken {
            let x = choose|x: int| self.holds_singleton(x);
            assert(m.holds_singleton(x));
        }
    }

    /// Retiring an ended subscription keeps the model well formed.
    pub proof fn lemma_retire_wf(self, s: int)
        requires
            self.wf(),
            0 <= s < self.subs.len(),
            !self.subs[s].live,
            !self.subs[s].retired,
        ensures
            self.after_retire(s).wf(),
            self.loops[self.subs[s].loop_id as int].subscriptions > 0,
    {
        let m = self.after_retire(s);
        let l = self.subs[s].loop_id as int;
        let r = SubscriptionRecord { retired: true, ..self.subs[s] };
        assert(self.loop_live(l));
        lemma_count_update(self.subs, s, r, l);
        assert(self.loops[l].subscriptions > 0);
        self.lemma_with_counts_singleton(l, self.loops[l].handles, (self.loops[l].subscriptions - 1) as u64);
        let w = self.with_counts(l, self.loops[l].handles, (self.loops[l].subscriptions - 1) as u64);
        assert forall|x: int| #[trigger] m.holds_singleton(x) == w.holds_singleton(x) by {}
        assert forall|x: int| 0 <= x < m.loops.len() implies #[trigger] m.loops[x].subscriptions == count_subs(m.subs, x) by {
            lemma_count_update(self.subs, s, r, x);
        }
        assert forall|t: int| 0 <= t < m.subs.len() && !#[trigger] m.subs[t].retired implies m.loop_live(m.subs[t].loop_id as int) by {
            assert(t != s);
            assert(m.subs[t] == self.subs[t]);
            if m.loops[l].deleted {
                lemma_count_zero(m.subs, l, t);
            }
        }
        assert forall|t: int| 0 <= t < m.subs.len() && #[trigger] m.subs[t].retired implies !m.subs[t].live by {
            if t != s {
                assert(m.subs[t] == self.subs[t]);
            }
        }
        if m.singleton_taken {
            let x = choose|x: int| w.holds_singleton(x);
            assert(m.holds_singleton(x));
        }
    }
}

/// Loops and subscriptions of a process, with the references that keep each
/// native loop alive and the flag that allows one default loop at a time.
pub struct LoopRegistry {
    loops: Vec<LoopRecord>,
    subs: Vec<SubscriptionRecord>,
    singleton_taken: bool,
}

impl View for LoopRegistry {
    type V = RegistryModel;

    closed spec fn view(&self) -> RegistryModel {
        RegistryModel { loops: self.loops@, subs: self.subs@, singleton_taken: self.singleton_taken }
    }
}

impl LoopRegistry {
    /// A registry with no loops.
    pub fn new() -> (r: Self)
        ensures
            r@ == RegistryModel::empty(),
            r@.wf(),
    {
        let r = LoopRegistry { loops: Vec::new(), subs: Vec::new(), singleton_taken: false };
        assert(r@.loops =~= Seq::<LoopRecord>::empty());
        assert(r@.subs =~= Seq::<SubscriptionRecord>::empty());
        r
    }

    /// The number of loops ever created.
    pub fn loop_count(&self) -> (r: usize)
        ensures
            r == self@.loops.len(),
    {
        self.loops.len()
    }

    /// The record of loop `l`, if there is one.
    pub fn loop_record(&self, l: usize) -> (r: Option<LoopRecord>)
        ensures
            l < self@.loops.len() ==> r == Some(self@.loops[l as int]),
            l >= self@.loops.len() ==> r.is_none(),
    {
        if l < self.loops.len() {
            Some(self.loops[l])
        } else {
            None
        }
    }

    /// Whether the default loop may be created now: it may not while another
    /// one is live.
    pub fn check_singleton_free(&self) -> (r: Result<(), EventLoopError>)
        ensures
            r == if self@.singleton_taken {
                Err::<(), EventLoopError>(EventLoopError::AlreadyExists)
            } else {
                Ok::<(), EventLoopError>(())
            },
    {
        if self.singleton_taken {
            Err(EventLoopError::AlreadyExists)
        } else {
            Ok(())
        }
    }

    /// A slot for a new loop: the first whose loop the facility has
    /// deleted, else a fresh one.
    fn free_loop(&self) -> (r: usize)
        requires
            self@.loops.len() < usize::MAX,
        ensures
            self@.free_loop_slot(r as int),
    {
        let mut i: usize = 0;
        while i < self.loops.len()
            invariant
                i <= self.loops@.len(),
            decreases self.loops@.len() - i,
        {
            if self.loops[i].confirmed {
                return i;
            }
            i = i + 1;
        }
        i
    }

    /// Records the outcome of a native loop creation. On success the new
    /// loop takes a free slot, is held by one event-loop value, and the
    /// slot is returned as its id; on failure nothing changes.
    pub fn add_loop(&mut self, mode: LoopMode, status: i32, native: u64) -> (r: Result<usize, EventLoopError>)
        requires
            old(self)@.wf(),
            mode is System ==> !old(self)@.singleton_taken,
            old(self)@.loops.len() < usize::MAX,
        ensures
            final(self)@.wf(),
            status == ESP_OK ==> r is Ok && old(self)@.free_loop_slot(r->Ok_0 as int)
                && final(self)@ == old(self)@.after_add_loop(mode, native, r->Ok_0 as int),
            status != ESP_OK ==> r == Err::<usize, EventLoopError>(EventLoopError::NativeFailure(status))
                && final(self)@ == old(self)@,
    {
        if status != ESP_OK {
            return Err(EventLoopError::NativeFailure(status));
        }
        let id = self.free_loop();
        proof {
            self@.lemma_add_loop_wf(mode, native, id as int);
        }
        let rec = LoopRecord {
            mode,
            native,
            handles: 1,
            subscriptions: 0,
            deleted: false,
            confirmed: false,
        };
        if id == self.loops.len() {
            self.loops.push(rec);
        } else {
            self.loops.set(id, rec);
        }
        if mode.is_system() {
            self.singleton_taken = true;
        }
        Ok(id)
    }

    fn set_counts(&mut self, l: usize, handles: u64, subscriptions: u64)
        requires
            l < old(self)@.loops.len(),
        ensures
            final(self)@ == old(self)@.with_counts(l as int, handles, subscriptions),
    {
        let rec = self.loops[l];
        let deleted = handles == 0 && subscriptions == 0;
        self.loops.set(l, LoopRecord { handles, subscriptions, deleted, ..rec });
    }

    /// One more event-loop value now shares loop `l`.
    pub fn clone_handle(&mut self, l: usize)
        requires
            old(self)@.wf(),
            old(self)@.loop_live(l as int),
            old(self)@.loops[l as int].handles < u64::MAX,
        ensures
            final(self)@.wf(),
            final(self)@ == old(self)@.after_clone(l as int),
    {
        proof {
            self@.lemma_clone_wf(l as int);
        }
        let rec = self.loops[l];
        self.set_counts(l, rec.handles + 1, rec.subscriptions);
    }

    /// An event-loop value of loop `l` is gone. When that was the last
    /// reference, the caller is told to delete the native loop.
    pub fn release_handle(&mut self, l: usize) -> (r: Release)
        requires
            old(self)@.wf(),
            old(self)@.loop_live(l as int),
            old(self)@.loops[l as int].handles > 0,
        ensures
            final(self)@.wf(),
            final(self)@ == old(self)@.after_release(l as int),
            r == old(self)@.release_of(final(self)@, l as int),
    {
        proof {
            self@.lemma_release_wf(l as int);
        }
        let rec = self.loops[l];
        self.set_counts(l, rec.handles - 1, rec.subscriptions);
        if self.loops[l].deleted {
            Release::Delete { mode: rec.mode, native: rec.native }
        } else {
            Release::Retained
        }
    }

    /// Records the status of the native deletion that loop `l` was owed.
    /// Only a successful deletion completes it; for the default loop, that
    /// is also when another default loop may be created again.
    pub fn finish_delete(&mut self, l: usize, status: i32) -> (r: Result<(), EventLoopError>)
        requires
            old(self)@.wf(),
            l < old(self)@.loops.len(),
            old(self)@.loops[l as int].deleted,
            !old(self)@.loops[l as int].confirmed,
        ensures
            final(self)@.wf(),
            status == ESP_OK ==> r == Ok::<(), EventLoopError>(()) && final(self)@
                == old(self)@.after_finish_delete(l as int),
            status == ESP_OK && old(self)@.loops[l as int].mode is System
                ==> !final(self)@.singleton_taken,
            status != ESP_OK ==> r == Err::<(), EventLoopError>(EventLoopError::NativeFailure(status))
                && final(self)@ == old(self)@,
    {
        if status != ESP_OK {
            return Err(EventLoopError::NativeFailure(status));
        }
        proof {
            self@.lemma_finish_delete_wf(l as int);
        }
        let rec = self.loops[l];
        self.loops.set(l, LoopRecord { confirmed: true, ..rec });
        if rec.mode.is_system() {
            self.singleton_taken = false;
        }
        Ok(())
    }

    /// A slot for the next subscription: the first retired one, else a
    /// fresh one. It is handed to the facility as the registration's context
    /// before the registration is recorded in it.
    pub fn next_subscription_id(&self) -> (r: usize)
        requires
            self@.subs.len() < usize::MAX,
        ensures
            self@.free_sub_slot(r as int),
    {
        let mut i: usize = 0;
        while i < self.subs.len()
            invariant
                i <= self.subs@.len(),
            decreases self.subs@.len() - i,
        {
            if self.subs[i].retired {
                return i;
            }
            i = i + 1;
        }
        i
    }

    /// Records the outcome of a native registration on loop `l`, made with
    /// free slot `at` as its context. On success the subscription is live in
    /// that slot and holds the loop; on failure nothing changes.
    pub fn subscribe(&mut self, l: usize, at: usize, source: u64, event_id: i32, status: i32, token: u64) -> (r:
        Result<usize, EventLoopError>)
        requires
            old(self)@.wf(),
            old(self)@.loop_live(l as int),
            old(self)@.free_sub_slot(at as int),
            old(self)@.loops[l as int].subscriptions < u64::MAX,
        ensures
            final(self)@.wf(),
            status == ESP_OK ==> r == Ok::<usize, EventLoopError>(at)
                && final(self)@ == old(self)@.after_subscribe(l as int, at as int, source, event_id, token),
            status != ESP_OK ==> r == Err::<usize, EventLoopError>(EventLoopError::NativeFailure(status))
                && final(self)@ == old(self)@,
    {
        if status != ESP_OK {
            return Err(EventLoopError::NativeFailure(status));
        }
        proof {
            self@.lemma_subscribe_wf(l as int, at as int, source, event_id, token);
        }
        let rec = self.loops[l];
        self.set_counts(l, rec.handles, rec.subscriptions + 1);
        let sub = SubscriptionRecord { loop_id: l, source, event_id, token, live: true, retired: false };
        if at == self.subs.len() {
            self.subs.push(sub);
        } else {
            self.subs.set(at, sub);
        }
        Ok(at)
    }

    /// Records that the facility has finished unregistering ended
    /// subscription `s`: no callback through its slot can run any more, so
    /// it gives up its hold on its loop and its slot may be reused. When that
    /// was the loop's last reference, the caller is told to delete it.
    pub fn retire(&mut self, s: usize) -> (r: Release)
        requires
            old(self)@.wf(),
            s < old(self)@.subs.len(),
            !old(self)@.subs[s as int].live,
            !old(self)@.subs[s as int].retired,
        ensures
            final(self)@.wf(),
            final(self)@ == old(self)@.after_retire(s as int),
            r == old(self)@.release_of(final(self)@, old(self)@.subs[s as int].loop_id as int),
    {
        proof {
            self@.lemma_retire_wf(s as int);
        }
        let sub = self.subs[s];
        let l = sub.loop_id;
        let rec = self.loops[l];
        self.set_counts(l, rec.handles, rec.subscriptions - 1);
        self.subs.set(s, SubscriptionRecord { retired: true, ..sub });
        if self.loops[l].deleted {
            Release::Delete { mode: rec.mode, native: rec.native }
        } else {
            Release::Retained
        }
    }

    /// Ends subscription `s`: from now on nothing is delivered to it. The
    /// caller unregisters it natively with the values returned, then
    /// retires it.
    pub fn unsubscribe(&mut self, s: usize) -> (r: Unregistration)
        requires
            old(self)@.wf(),
            old(self)@.sub_live(s as int),
        ensures
            final(self)@.wf(),
            final(self)@ == old(self)@.after_unsubscribe(s as int),
            ({
                let sub = old(self)@.subs[s as int];
                let rec = old(self)@.loops[sub.loop_id as int];
                r == Unregistration {
                    mode: rec.mode,
                    native: rec.native,
                    source: sub.source,
                    event_id: sub.event_id,
                    token: sub.token,
                }
            }),
    {
        proof {
            self@.lemma_unsubscribe_wf(s as int);
        }
        let sub = self.subs[s];
        let rec = self.loops[sub.loop_id];
        self.subs.set(s, SubscriptionRecord { live: false, ..sub });
        Unregistration {
            mode: rec.mode,
            native: rec.native,
            source: sub.source,
            event_id: sub.event_id,
            token: sub.token,
        }
    }

    /// Whether an event from `source` with `event_id` is to be handed to the
    /// callback of subscription `s`: only while it is live, and only when the
    /// event matches its filter.
    pub fn delivers(&self, s: usize, source: u64, event_id: i32) -> (r: bool)
        ensures
            r == self@.delivers(s as int, source, event_id),
    {
        if s < self.subs.len() {
            let sub = self.subs[s];
            sub.live && event_matches(sub.source, sub.event_id, source, event_id)
        } else {
            false
        }
    }
}

} // verus!
