use vstd::prelude::*;
use crate::status::{ANY_EVENT_ID, ANY_SOURCE};
use crate::registry::{count_subs, lemma_count_zero, LoopMode, RegistryModel};

verus! {

/// Loop `l` shared by `n` more event-loop values.
pub open spec fn clone_n(m: RegistryModel, l: int, n: nat) -> RegistryModel
    decreases n,
{
    if n == 0 {
        m
    } else {
        clone_n(m, l, (n - 1) as nat).after_clone(l)
    }
}

/// `n` event-loop values of loop `l` dropped, one after another.
pub open spec fn release_n(m: RegistryModel, l: int, n: nat) -> RegistryModel
    decreases n,
{
    if n == 0 {
        m
    } else {
        release_n(m, l, (n - 1) as nat).after_release(l)
    }
}

/// While a default loop exists (live, or owed a deletion not yet confirmed)
/// no second one may be created. Dropping its last reference leaves the flag
/// set; only a confirmed native deletion clears it, and then creation is
/// allowed again.
pub proof fn singleton_law(m: RegistryModel, l: int, s: int)
    requires
        m.wf(),
        m.holds_singleton(l),
    ensures
        m.singleton_taken,
        m.loop_live(l) && m.loops[l].handles > 0 ==> m.after_release(l).singleton_taken,
        0 <= s < m.subs.len() && !m.subs[s].live && !m.subs[s].retired ==> m.after_retire(
            s,
        ).singleton_taken,
        m.loops[l].deleted ==> !m.after_finish_delete(l).singleton_taken
            && m.after_finish_delete(l).wf(),
{
    if m.loops[l].deleted {
        m.lemma_finish_delete_wf(l);
    }
}

/// From a fresh registry: once a default loop is created, another is refused;
/// dropping its only value leaves it refused until the facility confirms the
/// deletion, after which a default loop may be created again, in the same
/// slot.
pub proof fn singleton_from_fresh(native: u64)
    ensures
        ({
            let m1 = RegistryModel::empty().after_add_loop(LoopMode::System, native, 0);
            let m2 = m1.after_release(0);
            let m3 = m2.after_finish_delete(0);
            &&& m1.wf() && m1.singleton_taken
            &&& m2.wf() && m2.singleton_taken && m2.loops[0].deleted
            &&& m3.wf() && !m3.singleton_taken && m3.free_loop_slot(0)
            &&& m3.after_add_loop(LoopMode::System, native, 0).wf()
        }),
{
    let m0 = RegistryModel::empty();
    assert(m0.wf());
    m0.lemma_add_loop_wf(LoopMode::System, native, 0);
    let m1 = m0.after_add_loop(LoopMode::System, native, 0);
    assert(m1.holds_singleton(0));
    m1.lemma_release_wf(0);
    let m2 = m1.after_release(0);
    assert(m2.holds_singleton(0));
    m2.lemma_finish_delete_wf(0);
    let m3 = m2.after_finish_delete(0);
    m3.lemma_add_loop_wf(LoopMode::System, native, 0);
}

/// A live subscription holds its loop: dropping the last event-loop value
/// of that loop deletes nothing, and the subscription delivers as before.
pub proof fn subscription_pins_loop(m: RegistryModel, s: int, source: u64, event_id: i32)
    requires
        m.wf(),
        m.sub_live(s),
        m.loops[m.subs[s].loop_id as int].handles > 0,
    ensures
        ({
            let l = m.subs[s].loop_id as int;
            let n = m.after_release(l);
            &&& n.wf()
            &&& n.loop_live(l)
            &&& n.delivers(s, source, event_id) == m.delivers(s, source, event_id)
        }),
{
    let l = m.subs[s].loop_id as int;
    assert(!m.subs[s].retired);
    if count_subs(m.subs, l) == 0 {
        lemma_count_zero(m.subs, l, s);
    }
    m.lemma_release_wf(l);
}

/// A subscription with the wildcard id receives every event of its source;
/// one with a specific id receives exactly the events with that id; none
/// receives events of another source unless its source is the wildcard.
pub proof fn wildcard_law(m: RegistryModel, s: int, source: u64, event_id: i32)
    requires
        m.sub_live(s),
    ensures
        m.subs[s].source != ANY_SOURCE && source != m.subs[s].source ==> !m.delivers(
            s,
            source,
            event_id,
        ),
        (source == m.subs[s].source || m.subs[s].source == ANY_SOURCE) && m.subs[s].event_id
            == ANY_EVENT_ID ==> m.delivers(s, source, event_id),
        (source == m.subs[s].source || m.subs[s].source == ANY_SOURCE) && m.subs[s].event_id
            != ANY_EVENT_ID ==> (m.delivers(s, source, event_id) <==> event_id
            == m.subs[s].event_id),
{
}

/// Once a subscription has ended, no event reaches it.
pub proof fn unsubscribe_law(m: RegistryModel, s: int, source: u64, event_id: i32)
    requires
        m.wf(),
        m.sub_live(s),
    ensures
        m.after_unsubscribe(s).wf(),
        !m.after_unsubscribe(s).delivers(s, source, event_id),
{
    m.lemma_unsubscribe_wf(s);
}

/// An ended subscription stays ended whatever happens next: new loops,
/// shared or dropped loop values, other subscriptions made or ended, its own
/// retirement. Only a new subscription placed in its slot once it is
/// retired makes the slot live again.
pub proof fn ended_stays_ended(
    m: RegistryModel,
    s: int,
    l: int,
    at: int,
    t: int,
    mode: LoopMode,
    native: u64,
    source: u64,
    event_id: i32,
    token: u64,
)
    requires
        0 <= s < m.subs.len(),
        !m.subs[s].live,
        0 <= t < m.subs.len(),
        m.free_sub_slot(at),
        at != s,
    ensures
        !m.after_add_loop(mode, native, at).sub_live(s),
        !m.after_clone(l).sub_live(s),
        !m.after_release(l).sub_live(s),
        !m.after_subscribe(l, at, source, event_id, token).sub_live(s),
        !m.after_unsubscribe(t).sub_live(s),
        !m.after_retire(t).sub_live(s),
        !m.after_finish_delete(l).sub_live(s),
{
    assert(m.after_subscribe(l, at, source, event_id, token).subs[s] == m.subs[s]);
}

proof fn lemma_clone_n(m: RegistryModel, l: int, n: nat)
    requires
        m.wf(),
        m.loop_live(l),
        m.loops[l].handles + n <= u64::MAX,
    ensures
        ({
            let c = clone_n(m, l, n);
            &&& c.wf()
            &&& c.loop_live(l)
            &&& c.loops[l].handles == m.loops[l].handles + n
            &&& c.loops[l].subscriptions == m.loops[l].subscriptions
            &&& c.loops[l].mode == m.loops[l].mode
            &&& c.loops[l].native == m.loops[l].native
            &&& c.loops[l].confirmed == m.loops[l].confirmed
            &&& c.loops.len() == m.loops.len()
            &&& forall|x: int| 0 <= x < m.loops.len() && x != l ==> c.loops[x] == m.loops[x]
            &&& c.subs == m.subs
            &&& c.singleton_taken == m.singleton_taken
        }),
    decreases n,
{
    if n > 0 {
        lemma_clone_n(m, l, (n - 1) as nat);
        clone_n(m, l, (n - 1) as nat).lemma_clone_wf(l);
    }
}

proof fn lemma_release_n(m: RegistryModel, c: RegistryModel, l: int, n: nat, k: nat)
    requires
        m.wf(),
        m.loop_live(l),
        k <= n,
        c == clone_n(m, l, n),
        m.loops[l].handles + n <= u64::MAX,
    ensures
        ({
            let r = release_n(c, l, k);
            &&& r.wf()
            &&& r.loop_live(l)
            &&& r.loops[l].handles == m.loops[l].handles + n - k
            &&& r.loops[l].subscriptions == m.loops[l].subscriptions
            &&& r.loops[l].mode == m.loops[l].mode
            &&& r.loops[l].native == m.loops[l].native
            &&& r.loops[l].confirmed == m.loops[l].confirmed
            &&& r.loops.len() == m.loops.len()
            &&& forall|x: int| 0 <= x < m.loops.len() && x != l ==> r.loops[x] == m.loops[x]
            &&& r.subs == m.subs
            &&& r.singleton_taken == m.singleton_taken
        }),
    decreases k,
{
    if k == 0 {
        lemma_clone_n(m, l, n);
    } else {
        lemma_release_n(m, c, l, n, (k - 1) as nat);
        release_n(c, l, (k - 1) as nat).lemma_release_wf(l);
    }
}

/// Sharing a loop `n` more times and then dropping `k <= n` of those values
/// never deletes it: `n - k` extra references remain, and after dropping
/// all `n` the registry is exactly as it was.
pub proof fn clone_release_law(m: RegistryModel, l: int, n: nat, k: nat)
    requires
        m.wf(),
        m.loop_live(l),
        m.loops[l].handles + n <= u64::MAX,
        k <= n,
    ensures
        ({
            let r = release_n(clone_n(m, l, n), l, k);
            &&& r.wf()
            &&& r.loop_live(l)
            &&& r.loops[l].handles == m.loops[l].handles + n - k
            &&& (k == n ==> r == m)
        }),
{
    let c = clone_n(m, l, n);
    lemma_release_n(m, c, l, n, k);
    let r = release_n(c, l, k);
    if k == n {
        assert(r.loops[l] == m.loops[l]);
        assert(r.loops =~= m.loops);
    }
}

/// A loop is deleted by the drop of its last reference, an event-loop value
/// or a retired subscription, and by no other; a deleted loop has no
/// reference left.
pub proof fn last_reference_law(m: RegistryModel, l: int, s: int)
    requires
        m.wf(),
        m.loop_live(l),
    ensures
        m.loops[l].handles > 0 ==> (m.after_release(l).loops[l].deleted <==> (m.loops[l].handles
            == 1 && m.loops[l].subscriptions == 0)),
        0 <= s < m.subs.len() && !m.subs[s].live && !m.subs[s].retired && m.subs[s].loop_id == l
            ==> (m.after_retire(s).loops[l].deleted <==> (m.loops[l].handles == 0
            && m.loops[l].subscriptions == 1)),
        m.loops[l].handles > 0 && m.after_release(l).loops[l].deleted ==> m.after_release(
            l,
        ).loops[l].handles == 0 && count_subs(m.after_release(l).subs, l) == 0,
{
}

} // verus!
