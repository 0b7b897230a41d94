//! Messages WebSocket: control and server frames, and the set of active
//! subscriptions a recovering connection re-establishes after a reconnect.
use vstd::prelude::*;
use crate::sdk_core::error::SdkError;
use crate::sdk_core::order::{
    lex_lt, str_lt, lemma_lex_irreflexive, lemma_lex_total, lemma_lex_asymmetric,
    lemma_lex_transitive,
};
use crate::sdk_core::pagination::str_eq;
use crate::systems::types::Timeframe;
use crate::streaming::subscription::{
    BackoffStep, ExponentialBackoffConfig, ReconnectBackoff, next_delay_spec, base_delay_spec,
};

verus! {

/// Where the messages stream is served.
pub const MESSAGES_WS_PATH: &'static str = "/v1/ws/messages";

/// Starts a rule-based notification on this connection.
#[derive(Debug, Clone, PartialEq)]
pub struct MessagesWsSubscribeFrame {
    pub id: String,
    pub tfs: Option<Vec<Timeframe>>,
    pub predicate: String,
    pub message: String,
    pub payload: Option<String>,
}

/// Stops a notification.
#[derive(Debug, Clone, PartialEq, Eq)]
pub struct MessagesWsUnsubscribeFrame {
    pub id: String,
}

/// A control frame the client sends.
#[derive(Debug, Clone, PartialEq)]
pub enum MessagesWsClientFrame {
    Subscribe(MessagesWsSubscribeFrame),
    Unsubscribe(MessagesWsUnsubscribeFrame),
}

/// The service accepted a subscription.
#[derive(Debug, Clone, PartialEq, Eq)]
pub struct MessagesWsSubscribedFrame {
    pub id: String,
    pub tfs: Vec<String>,
    pub predicate_pairs: Vec<String>,
    pub normalized_predicate: String,
}

/// A notification of a subscription whose predicate held.
#[derive(Debug, Clone, PartialEq)]
pub struct MessagesWsMessageFrame {
    pub id: String,
    pub tf: String,
    pub close_ms: i64,
    pub close_utc: String,
    pub at_ms: i64,
    pub message: String,
    pub predicate: String,
    pub payload: Option<String>,
}

/// A liveness frame naming the active subscriptions.
#[derive(Debug, Clone, PartialEq, Eq)]
pub struct MessagesWsHeartbeatFrame {
    pub at_ms: i64,
    pub watermark_end_ms: Option<i64>,
    pub subscription_ids: Vec<String>,
}

/// An error the service reports, for one subscription or the connection.
#[derive(Debug, Clone, PartialEq, Eq)]
pub struct MessagesWsErrorFrame {
    pub id: Option<String>,
    pub kind: String,
    pub error: String,
}

/// A frame the service sends.
#[derive(Debug, Clone, PartialEq)]
pub enum MessagesWsServerFrame {
    Subscribed(MessagesWsSubscribedFrame),
    Message(MessagesWsMessageFrame),
    Heartbeat(MessagesWsHeartbeatFrame),
    Error(MessagesWsErrorFrame),
}

/// The stream carries text only: a binary frame is contract drift.
pub fn unexpected_binary_frame() -> (r: SdkError)
    ensures
        r matches SdkError::ContractDrift { message } && message@
            == "messages ws server sent unexpected binary frame"@,
{
    SdkError::contract_drift(String::from_str("messages ws server sent unexpected binary frame"))
}

/// The ids of subscribe frames.
pub open spec fn frame_ids(s: Seq<MessagesWsSubscribeFrame>) -> Seq<Seq<char>> {
    Seq::new(s.len(), |i: int| s[i].id@)
}

/// Whether the ids are in strictly increasing order: sorted, none twice.
pub open spec fn strictly_sorted(ids: Seq<Seq<char>>) -> bool {
    forall|i: int, j: int| 0 <= i < j < ids.len() ==> lex_lt(#[trigger] ids[i], #[trigger] ids[j])
}

/// Whether some subscription has this id.
pub open spec fn has_id(s: Seq<MessagesWsSubscribeFrame>, id: Seq<char>) -> bool {
    exists|i: int| 0 <= i < s.len() && #[trigger] s[i].id@ == id
}

/// A subscribe frame with this id.
pub open spec fn frame_for(s: Seq<MessagesWsSubscribeFrame>, id: Seq<char>) -> MessagesWsSubscribeFrame {
    s[choose|i: int| 0 <= i < s.len() && #[trigger] s[i].id@ == id]
}

/// The subscriptions as a map from id to the subscribe frame.
pub open spec fn subscription_map(s: Seq<MessagesWsSubscribeFrame>) -> Map<Seq<char>, MessagesWsSubscribeFrame> {
    Map::new(|id: Seq<char>| has_id(s, id), |id: Seq<char>| frame_for(s, id))
}

/// Strictly sorted ids occur once each.
proof fn lemma_sorted_ids_unique(s: Seq<MessagesWsSubscribeFrame>, i: int, j: int)
    requires
        strictly_sorted(frame_ids(s)),
        0 <= i < s.len(),
        0 <= j < s.len(),
        s[i].id@ == s[j].id@,
    ensures
        i == j,
{
    if i < j {
        assert(lex_lt(frame_ids(s)[i], frame_ids(s)[j]));
        lemma_lex_irreflexive(s[i].id@, 0);
    } else if j < i {
        assert(lex_lt(frame_ids(s)[j], frame_ids(s)[i]));
        lemma_lex_irreflexive(s[i].id@, 0);
    }
}

/// In a registry with ids once each, the map gives the frame of each id.
proof fn lemma_map_entry(s: Seq<MessagesWsSubscribeFrame>, i: int)
    requires
        strictly_sorted(frame_ids(s)),
        0 <= i < s.len(),
    ensures
        subscription_map(s).dom().contains(s[i].id@),
        subscription_map(s)[s[i].id@] == s[i],
{
    let id = s[i].id@;
    assert(has_id(s, id));
    assert forall|c: int| 0 <= c < s.len() && #[trigger] s[c].id@ == id implies c == i by {
        lemma_sorted_ids_unique(s, i, c);
    }
    assert(frame_for(s, id) == s[i]);
    assert(subscription_map(s).dom().contains(id));
    assert(subscription_map(s)[id] == frame_for(s, id));
}

/// What `insert` leaves, as a map: the frame under its id, the rest kept.
proof fn lemma_map_after_insert(
    old_s: Seq<MessagesWsSubscribeFrame>,
    new_s: Seq<MessagesWsSubscribeFrame>,
    frame: MessagesWsSubscribeFrame,
)
    requires
        strictly_sorted(frame_ids(old_s)),
        strictly_sorted(frame_ids(new_s)),
        exists|i: int| 0 <= i < new_s.len() && #[trigger] new_s[i] == frame,
        forall|i: int|
            0 <= i < old_s.len() && #[trigger] old_s[i].id@ != frame.id@ ==> new_s.contains(old_s[i]),
        forall|i: int|
            0 <= i < new_s.len() ==> #[trigger] new_s[i] == frame || (old_s.contains(new_s[i])
                && new_s[i].id@ != frame.id@),
    ensures
        subscription_map(new_s) == subscription_map(old_s).insert(frame.id@, frame),
{
    let m0 = subscription_map(old_s);
    let m1 = subscription_map(new_s);
    let key = frame.id@;
    let fi = choose|i: int| 0 <= i < new_s.len() && #[trigger] new_s[i] == frame;
    lemma_map_entry(new_s, fi);
    assert forall|id: Seq<char>| #[trigger] m1.dom().contains(id) <==> m0.insert(key, frame).dom().contains(id) by {
        if m1.dom().contains(id) {
            let k = choose|k: int| 0 <= k < new_s.len() && #[trigger] new_s[k].id@ == id;
            if new_s[k] != frame {
                let j = choose|j: int| 0 <= j < old_s.len() && old_s[j] == new_s[k];
                assert(old_s[j].id@ == id);
                assert(has_id(old_s, id));
            }
        }
        if m0.dom().contains(id) && id != key {
            let j = choose|j: int| 0 <= j < old_s.len() && #[trigger] old_s[j].id@ == id;
            assert(new_s.contains(old_s[j]));
            let k = choose|k: int| 0 <= k < new_s.len() && new_s[k] == old_s[j];
            assert(new_s[k].id@ == id);
            assert(has_id(new_s, id));
        }
    }
    assert forall|id: Seq<char>| #[trigger] m1.dom().contains(id) implies m1[id] == m0.insert(key, frame)[id] by {
        if id == key {
        } else {
            let k = choose|k: int| 0 <= k < new_s.len() && #[trigger] new_s[k].id@ == id;
            lemma_map_entry(new_s, k);
            assert(new_s[k] != frame);
            let j = choose|j: int| 0 <= j < old_s.len() && old_s[j] == new_s[k];
            lemma_map_entry(old_s, j);
        }
    }
    assert(m1 =~= m0.insert(key, frame));
}

/// What `remove` leaves, as a map: the id gone, the rest kept.
proof fn lemma_map_after_remove(
    old_s: Seq<MessagesWsSubscribeFrame>,
    new_s: Seq<MessagesWsSubscribeFrame>,
    id: Seq<char>,
)
    requires
        strictly_sorted(frame_ids(old_s)),
        strictly_sorted(frame_ids(new_s)),
        !has_id(new_s, id),
        forall|i: int| 0 <= i < old_s.len() && #[trigger] old_s[i].id@ != id ==> new_s.contains(old_s[i]),
        forall|i: int| 0 <= i < new_s.len() ==> old_s.contains(#[trigger] new_s[i]),
    ensures
        subscription_map(new_s) == subscription_map(old_s).remove(id),
{
    let m0 = subscription_map(old_s);
    let m1 = subscription_map(new_s);
    assert forall|x: Seq<char>| #[trigger] m1.dom().contains(x) <==> m0.remove(id).dom().contains(x) by {
        if m1.dom().contains(x) {
            let k = choose|k: int| 0 <= k < new_s.len() && #[trigger] new_s[k].id@ == x;
            assert(old_s.contains(new_s[k]));
            let j = choose|j: int| 0 <= j < old_s.len() && old_s[j] == new_s[k];
            assert(old_s[j].id@ == x);
            assert(has_id(old_s, x));
        }
        if m0.dom().contains(x) && x != id {
            let j = choose|j: int| 0 <= j < old_s.len() && #[trigger] old_s[j].id@ == x;
            assert(new_s.contains(old_s[j]));
            let k = choose|k: int| 0 <= k < new_s.len() && new_s[k] == old_s[j];
            assert(new_s[k].id@ == x);
            assert(has_id(new_s, x));
        }
    }
    assert forall|x: Seq<char>| #[trigger] m1.dom().contains(x) implies m1[x] == m0.remove(id)[x] by {
        let k = choose|k: int| 0 <= k < new_s.len() && #[trigger] new_s[k].id@ == x;
        lemma_map_entry(new_s, k);
        assert(old_s.contains(new_s[k]));
        let j = choose|j: int| 0 <= j < old_s.len() && old_s[j] == new_s[k];
        lemma_map_entry(old_s, j);
    }
    assert(m1 =~= m0.remove(id));
}

/// The subscriptions after a run of subscribe (`Some` frame) and
/// unsubscribe (`None`) steps, each naming an id.
pub open spec fn apply_subscription_steps(
    m: Map<Seq<char>, MessagesWsSubscribeFrame>,
    steps: Seq<(Seq<char>, Option<MessagesWsSubscribeFrame>)>,
) -> Map<Seq<char>, MessagesWsSubscribeFrame>
    decreases steps.len(),
{
    if steps.len() == 0 {
        m
    } else {
        let last = steps.last();
        let before = apply_subscription_steps(m, steps.drop_last());
        match last.1 {
            Some(f) => before.insert(last.0, f),
            None => before.remove(last.0),
        }
    }
}

/// The index of the last step that names `id`, if one does.
pub open spec fn last_step_for(steps: Seq<(Seq<char>, Option<MessagesWsSubscribeFrame>)>, id: Seq<char>) -> Option<int>
    decreases steps.len(),
{
    if steps.len() == 0 {
        None
    } else if steps.last().0 == id {
        Some(steps.len() - 1)
    } else {
        last_step_for(steps.drop_last(), id)
    }
}

/// The last step naming an id lies within the run and names that id.
proof fn lemma_last_step_for(steps: Seq<(Seq<char>, Option<MessagesWsSubscribeFrame>)>, id: Seq<char>)
    ensures
        last_step_for(steps, id) matches Some(k) ==> 0 <= k < steps.len() && steps[k].0 == id,
    decreases steps.len(),
{
    if steps.len() > 0 && steps.last().0 != id {
        lemma_last_step_for(steps.drop_last(), id);
    }
}

/// What a reconnect sends again, after any run of subscribe and
/// unsubscribe steps from no subscription: an id is replayed exactly when
/// the last step naming it subscribed, and with that step's frame.
pub proof fn law_replay_is_last_subscription(
    steps: Seq<(Seq<char>, Option<MessagesWsSubscribeFrame>)>,
    id: Seq<char>,
)
    ensures
        apply_subscription_steps(Map::empty(), steps).dom().contains(id) <==> (last_step_for(steps, id) matches Some(k)
            && steps[k].1 is Some),
        match last_step_for(steps, id) {
            Some(k) => match steps[k].1 {
                Some(f) => apply_subscription_steps(Map::empty(), steps)[id] == f,
                None => true,
            },
            None => true,
        },
    decreases steps.len(),
{
    if steps.len() > 0 {
        let d = steps.drop_last();
        law_replay_is_last_subscription(d, id);
        lemma_last_step_for(d, id);
        let before = apply_subscription_steps(Map::empty(), d);
        let last = steps.last();
        let after = apply_subscription_steps(Map::empty(), steps);
        assert(after == match last.1 {
            Some(f) => before.insert(last.0, f),
            None => before.remove(last.0),
        });
        if last.0 != id {
            assert(last_step_for(steps, id) == last_step_for(d, id));
            if let Some(k) = last_step_for(d, id) {
                assert(steps[k] == d[k]);
                if let Some(f) = d[k].1 {
                    assert(before.dom().contains(id) && before[id] == f);
                    match last.1 {
                        Some(g) => assert(before.insert(last.0, g)[id] == f),
                        None => assert(before.remove(last.0)[id] == f),
                    }
                    assert(after[id] == f);
                }
            }
        } else {
            assert(last_step_for(steps, id) == Some(steps.len() - 1));
            if let Some(f) = last.1 {
                assert(after[id] == f);
            }
        }
    }
}

/// One subscribe (`Some` frame) or unsubscribe (`None`) step taken into
/// the subscriptions.
pub open spec fn apply_subscription_step(
    m: Map<Seq<char>, MessagesWsSubscribeFrame>,
    step: (Seq<char>, Option<MessagesWsSubscribeFrame>),
) -> Map<Seq<char>, MessagesWsSubscribeFrame> {
    match step.1 {
        Some(f) => m.insert(step.0, f),
        None => m.remove(step.0),
    }
}

/// What a reconnect sends again after a run of registry states, each the
/// one before with a subscribe (`insert`) or unsubscribe (`remove`) step
/// taken in, from no subscription: the frames are in strictly increasing id
/// order, and they are exactly the subscriptions the steps leave, so an id
/// is sent again exactly when its last step subscribed, with that step's
/// frame.
pub proof fn law_reconnect_replays_in_id_order(
    states: Seq<Seq<MessagesWsSubscribeFrame>>,
    steps: Seq<(Seq<char>, Option<MessagesWsSubscribeFrame>)>,
)
    requires
        states.len() == steps.len() + 1,
        subscription_map(states[0]) == Map::<Seq<char>, MessagesWsSubscribeFrame>::empty(),
        forall|i: int|
            0 <= i < steps.len() ==> subscription_map(#[trigger] states[i + 1]) == apply_subscription_step(
                subscription_map(states[i]),
                steps[i],
            ),
        strictly_sorted(frame_ids(states.last())),
    ensures
        subscription_map(states.last()) == apply_subscription_steps(Map::empty(), steps),
        forall|i: int, j: int|
            0 <= i < j < states.last().len() ==> lex_lt(#[trigger] states.last()[i].id@, #[trigger] states.last()[j].id@),
        forall|i: int|
            0 <= i < states.last().len() ==> (last_step_for(steps, #[trigger] states.last()[i].id@) matches Some(k)
                && steps[k].1 == Some(states.last()[i])),
    decreases steps.len(),
{
    lemma_states_follow_steps(states, steps, steps.len() as int);
    assert(steps.subrange(0, steps.len() as int) =~= steps);
    let fin = states.last();
    assert(fin == states[steps.len() as int]);
    assert forall|i: int, j: int| 0 <= i < j < fin.len() implies lex_lt(#[trigger] fin[i].id@, #[trigger] fin[j].id@) by {
        assert(frame_ids(fin)[i] == fin[i].id@ && frame_ids(fin)[j] == fin[j].id@);
    }
    assert forall|i: int| 0 <= i < fin.len() implies (last_step_for(steps, #[trigger] fin[i].id@) matches Some(k)
        && steps[k].1 == Some(fin[i])) by {
        lemma_map_entry(fin, i);
        law_replay_is_last_subscription(steps, fin[i].id@);
        lemma_last_step_for(steps, fin[i].id@);
        let k = last_step_for(steps, fin[i].id@).unwrap();
        assert(steps[k].1 is Some);
        assert(apply_subscription_steps(Map::empty(), steps)[fin[i].id@] == steps[k].1.unwrap());
    }
}

proof fn lemma_states_follow_steps(
    states: Seq<Seq<MessagesWsSubscribeFrame>>,
    steps: Seq<(Seq<char>, Option<MessagesWsSubscribeFrame>)>,
    n: int,
)
    requires
        states.len() == steps.len() + 1,
        subscription_map(states[0]) == Map::<Seq<char>, MessagesWsSubscribeFrame>::empty(),
        forall|i: int|
            0 <= i < steps.len() ==> subscription_map(#[trigger] states[i + 1]) == apply_subscription_step(
                subscription_map(states[i]),
                steps[i],
            ),
        0 <= n <= steps.len(),
    ensures
        subscription_map(states[n]) == apply_subscription_steps(Map::empty(), steps.subrange(0, n)),
    decreases n,
{
    if n == 0 {
        assert(steps.subrange(0, 0).len() == 0);
    } else {
        lemma_states_follow_steps(states, steps, n - 1);
        let sub = steps.subrange(0, n);
        assert(sub.drop_last() =~= steps.subrange(0, n - 1));
        assert(sub.last() == steps[n - 1]);
        let i = n - 1;
        assert(subscription_map(states[i + 1]) == apply_subscription_step(subscription_map(states[i]), steps[i]));
    }
}

/// The active subscriptions of a connection, one per id, in id order.
#[derive(Debug)]
pub struct SubscriptionRegistry {
    entries: Vec<MessagesWsSubscribeFrame>,
}

impl SubscriptionRegistry {
    #[verifier::type_invariant]
    spec fn well_formed(self) -> bool {
        strictly_sorted(frame_ids(self.entries@))
    }

    /// The active subscribe frames, in id order.
    pub closed spec fn spec_frames(&self) -> Seq<MessagesWsSubscribeFrame> {
        self.entries@
    }

    /// A registry with no subscription.
    pub fn new() -> (r: Self)
        ensures
            r.spec_frames().len() == 0,
            subscription_map(r.spec_frames()) == Map::<Seq<char>, MessagesWsSubscribeFrame>::empty(),
    {
        let r = SubscriptionRegistry { entries: Vec::new() };
        assert(subscription_map(r.entries@) =~= Map::<Seq<char>, MessagesWsSubscribeFrame>::empty());
        r
    }

    /// How many subscriptions are active.
    pub fn len(&self) -> (r: usize)
        ensures
            r == self.spec_frames().len(),
    {
        self.entries.len()
    }

    /// The active subscribe frames, in id order: what a reconnect sends again.
    pub fn frames(&self) -> (r: &Vec<MessagesWsSubscribeFrame>)
        ensures
            r@ == self.spec_frames(),
            strictly_sorted(frame_ids(r@)),
    {
        proof {
            use_type_invariant(self);
        }
        &self.entries
    }

    /// The active subscription ids, in order.
    pub fn ids(&self) -> (r: Vec<String>)
        ensures
            r.deep_view() == frame_ids(self.spec_frames()),
            strictly_sorted(r.deep_view()),
    {
        proof {
            use_type_invariant(self);
        }
        let mut out: Vec<String> = Vec::new();
        let mut i: usize = 0;
        while i < self.entries.len()
            invariant
                i <= self.entries.len(),
                out@.len() == i,
                forall|j: int| 0 <= j < i ==> out@[j]@ == #[trigger] frame_ids(self.entries@)[j],
            decreases self.entries.len() - i,
        {
            out.push(self.entries[i].id.clone());
            i = i + 1;
        }
        assert(out.deep_view() =~= frame_ids(self.entries@));
        out
    }

    /// Records a subscription; one with the same id is replaced.
    pub fn insert(&mut self, frame: MessagesWsSubscribeFrame)
        ensures
            subscription_map(final(self).spec_frames()) == subscription_map(old(self).spec_frames()).insert(
                frame.id@,
                frame,
            ),
            strictly_sorted(frame_ids(final(self).spec_frames())),
            has_id(final(self).spec_frames(), frame.id@),
            exists|i: int| 0 <= i < final(self).spec_frames().len() && #[trigger] final(self).spec_frames()[i] == frame,
            forall|i: int|
                0 <= i < old(self).spec_frames().len() && #[trigger] old(self).spec_frames()[i].id@ != frame.id@
                    ==> final(self).spec_frames().contains(old(self).spec_frames()[i]),
            forall|i: int|
                0 <= i < final(self).spec_frames().len() ==> #[trigger] final(self).spec_frames()[i] == frame
                    || (old(self).spec_frames().contains(final(self).spec_frames()[i])
                    && final(self).spec_frames()[i].id@ != frame.id@),
    {
        proof {
            use_type_invariant(&*self);
        }
        let mut entries: Vec<MessagesWsSubscribeFrame> = Vec::new();
        std::mem::swap(&mut entries, &mut self.entries);
        let ghost old_entries = entries@;
        let ghost key = frame.id@;
        let n = entries.len();
        let mut p: usize = 0;
        while p < n && str_lt(entries[p].id.as_str(), frame.id.as_str())
            invariant
                n == entries@.len(),
                entries@ == old_entries,
                strictly_sorted(frame_ids(old_entries)),
                key == frame.id@,
                p <= n,
                forall|i: int| 0 <= i < p ==> lex_lt(#[trigger] frame_ids(old_entries)[i], key),
            decreases n - p,
        {
            p = p + 1;
        }
        let ids = Ghost(frame_ids(old_entries));
        proof {
            // every id from p on is not below the key
            if p < n {
                assert(!lex_lt(ids@[p as int], key));
                assert forall|j: int| p < j < n implies !lex_lt(#[trigger] ids@[j], key) by {
                    assert(lex_lt(ids@[p as int], ids@[j]));
                    if lex_lt(ids@[j], key) {
                        lemma_lex_transitive(ids@[p as int], ids@[j], key, 0);
                    }
                }
            }
        }
        if p < n && str_eq(entries[p].id.as_str(), frame.id.as_str()) {
            entries.set(p, frame);
            proof {
                let fin = entries@;
                assert(frame_ids(fin) =~= frame_ids(old_entries));
                assert(fin[p as int] == frame);
                assert forall|i: int|
                    0 <= i < old_entries.len() && #[trigger] old_entries[i].id@ != key implies fin.contains(
                    old_entries[i],
                ) by {
                    assert(i != p);
                    assert(fin[i] == old_entries[i]);
                }
                assert forall|i: int| 0 <= i < fin.len() implies #[trigger] fin[i] == frame || (old_entries.contains(
                    fin[i],
                ) && fin[i].id@ != key) by {
                    if i != p {
                        assert(fin[i] == old_entries[i]);
                        assert(old_entries.contains(old_entries[i]));
                        if i < p {
                            assert(lex_lt(ids@[i], key));
                            lemma_lex_irreflexive(key, 0);
                        } else {
                            assert(lex_lt(ids@[p as int], ids@[i]));
                            assert(ids@[p as int] == key);
                            lemma_lex_irreflexive(key, 0);
                        }
                    }
                }
            }
        } else {
            proof {
                if p < n {
                    assert(ids@[p as int] != key);
                    lemma_lex_total(ids@[p as int], key, 0);
                    assert(lex_lt(key, ids@[p as int]));
                }
            }
            entries.insert(p, frame);
            proof {
                let fin = entries@;
                assert(fin == old_entries.insert(p as int, frame));
                assert forall|i: int, j: int| 0 <= i < j < fin.len() implies lex_lt(
                    #[trigger] frame_ids(fin)[i],
                    #[trigger] frame_ids(fin)[j],
                ) by {
                    assert(frame_ids(fin)[i] == (if i < p { ids@[i] } else if i == p { key } else { ids@[i - 1] }));
                    assert(frame_ids(fin)[j] == (if j < p { ids@[j] } else if j == p { key } else { ids@[j - 1] }));
                    if j < p {
                    } else if j == p {
                    } else if i == p {
                        if j - 1 > p {
                            assert(lex_lt(ids@[p as int], ids@[j - 1]));
                            lemma_lex_transitive(key, ids@[p as int], ids@[j - 1], 0);
                        }
                    } else if i < p {
                        assert(lex_lt(ids@[i], key));
                        if p < n {
                            assert(lex_lt(key, ids@[p as int]));
                            lemma_lex_transitive(ids@[i], key, ids@[p as int], 0);
                            if j - 1 > p {
                                assert(lex_lt(ids@[p as int], ids@[j - 1]));
                                lemma_lex_transitive(ids@[i], ids@[p as int], ids@[j - 1], 0);
                            }
                        }
                    } else {
                        assert(lex_lt(ids@[i - 1], ids@[j - 1]));
                    }
                }
                assert(fin[p as int] == frame);
                assert forall|i: int|
                    0 <= i < old_entries.len() && #[trigger] old_entries[i].id@ != key implies fin.contains(
                    old_entries[i],
                ) by {
                    if i < p {
                        assert(fin[i] == old_entries[i]);
                    } else {
                        assert(fin[i + 1] == old_entries[i]);
                    }
                }
                assert forall|i: int| 0 <= i < fin.len() implies #[trigger] fin[i] == frame || (old_entries.contains(
                    fin[i],
                ) && fin[i].id@ != key) by {
                    if i < p {
                        assert(fin[i] == old_entries[i]);
                        assert(old_entries.contains(old_entries[i]));
                        assert(lex_lt(ids@[i], key));
                        lemma_lex_irreflexive(key, 0);
                    } else if i > p {
                        assert(fin[i] == old_entries[i - 1]);
                        assert(old_entries.contains(old_entries[i - 1]));
                        assert(!lex_lt(ids@[i - 1], key));
                        if ids@[i - 1] == key {
                            if i - 1 == p {
                            } else {
                                assert(lex_lt(ids@[p as int], ids@[i - 1]));
                                lemma_lex_asymmetric(ids@[p as int], key, 0);
                            }
                        }
                    }
                }
            }
        }
        proof {
            assert(entries@[p as int] == frame);
            lemma_map_after_insert(old_entries, entries@, frame);
        }
        self.entries = entries;
    }

    /// Forgets the subscription with this id, if there is one.
    pub fn remove(&mut self, id: &str)
        ensures
            subscription_map(final(self).spec_frames()) == subscription_map(old(self).spec_frames()).remove(id@),
            strictly_sorted(frame_ids(final(self).spec_frames())),
            !has_id(final(self).spec_frames(), id@),
            forall|i: int|
                0 <= i < old(self).spec_frames().len() && #[trigger] old(self).spec_frames()[i].id@ != id@
                    ==> final(self).spec_frames().contains(old(self).spec_frames()[i]),
            forall|i: int|
                0 <= i < final(self).spec_frames().len() ==> old(self).spec_frames().contains(
                    #[trigger] final(self).spec_frames()[i],
                ),
    {
        proof {
            use_type_invariant(&*self);
        }
        let mut entries: Vec<MessagesWsSubscribeFrame> = Vec::new();
        std::mem::swap(&mut entries, &mut self.entries);
        let ghost old_entries = entries@;
        let n = entries.len();
        let mut i: usize = 0;
        while i < n
            invariant
                old(self).spec_frames() == old_entries,
                n == entries@.len(),
                entries@ == old_entries,
                strictly_sorted(frame_ids(old_entries)),
                i <= n,
                forall|j: int| 0 <= j < i ==> #[trigger] frame_ids(old_entries)[j] != id@,
            decreases n - i,
        {
            if str_eq(entries[i].id.as_str(), id) {
                let ghost ids = frame_ids(old_entries);
                entries.remove(i);
                proof {
                    let fin = entries@;
                    assert(fin == old_entries.remove(i as int));
                    assert forall|a: int, b: int| 0 <= a < b < fin.len() implies lex_lt(
                        #[trigger] frame_ids(fin)[a],
                        #[trigger] frame_ids(fin)[b],
                    ) by {
                        let a0 = if a < i { a } else { a + 1 };
                        let b0 = if b < i { b } else { b + 1 };
                        assert(frame_ids(fin)[a] == ids[a0]);
                        assert(frame_ids(fin)[b] == ids[b0]);
                    }
                    assert forall|k: int| 0 <= k < fin.len() && #[trigger] fin[k].id@ == id@ implies false by {
                        let k0 = if k < i { k } else { k + 1 };
                        assert(fin[k] == old_entries[k0]);
                        assert(frame_ids(old_entries)[k0] == old_entries[k0].id@);
                        if k0 < i {
                        } else {
                            assert(lex_lt(ids[i as int], ids[k0]));
                            lemma_lex_irreflexive(id@, 0);
                        }
                    }
                    assert forall|k: int|
                        0 <= k < old_entries.len() && #[trigger] old_entries[k].id@ != id@ implies fin.contains(
                        old_entries[k],
                    ) by {
                        if k < i {
                            assert(fin[k] == old_entries[k]);
                        } else {
                            assert(k != i);
                            assert(fin[k - 1] == old_entries[k]);
                        }
                    }
                    assert forall|k: int| 0 <= k < fin.len() implies old_entries.contains(#[trigger] fin[k]) by {
                        let k0 = if k < i { k } else { k + 1 };
                        assert(fin[k] == old_entries[k0]);
                    }
                    lemma_map_after_remove(old_entries, fin, id@);
                }
                self.entries = entries;
                return;
            }
            i = i + 1;
        }
        self.entries = entries;
        proof {
            assert forall|k: int| 0 <= k < old_entries.len() implies old_entries.contains(#[trigger] old_entries[k]) by {
            }
            assert forall|k: int| 0 <= k < old_entries.len() && #[trigger] old_entries[k].id@ == id@ implies false by {
                assert(frame_ids(old_entries)[k] != id@);
            }
            lemma_map_after_remove(old_entries, old_entries, id@);
        }
    }
}


/// Where a messages connection that recovers stands.
#[derive(Debug, Clone, Copy, PartialEq, Eq)]
pub enum MessagesRecoveryPhase {
    /// Frames are read from the open socket.
    Live,
    /// Waiting before the next reconnect.
    Waiting,
    /// A reconnect is under way.
    Connecting,
    /// Sending the active subscriptions again on the new socket; `next` is
    /// the one just sent.
    Resubscribing { next: usize },
}

/// What the connection has just seen.
#[derive(Debug, Clone, Copy, PartialEq, Eq)]
pub enum MessagesRecoveryEvent {
    /// A frame arrived on the open socket.
    Frame,
    /// The socket closed or a receive failed.
    StreamEnded,
    /// The wait before a reconnect is over.
    WaitDone,
    /// A reconnect opened a new socket.
    Connected,
    /// A reconnect failed.
    ConnectFailed,
    /// A subscribe frame was sent on the new socket.
    FrameSent,
}

/// What the connection does next.
#[derive(Debug, Clone, Copy, PartialEq, Eq)]
pub enum MessagesRecoveryAction {
    /// Hand the frame that arrived to the caller.
    Deliver,
    /// Wait this reconnect's delay (before jitter), then report `WaitDone`.
    Wait(BackoffStep),
    /// Open a new socket.
    Connect,
    /// Send the active subscription at this index (in id order).
    Send { index: usize },
    /// Read frames from the new socket again.
    Resume,
    /// The attempts are spent: fail.
    GiveUp,
    /// The event does not fit the phase: nothing changes.
    Ignore,
}

/// The state of a recovering messages connection, as values.
pub struct MessagesRecoveryView {
    pub frames: Seq<MessagesWsSubscribeFrame>,
    pub phase: MessagesRecoveryPhase,
    pub config: ExponentialBackoffConfig,
    pub next_attempt: u32,
}

/// The next state and action for an event: a frame is delivered only while
/// live; an ended stream (also one that ended while subscriptions were being
/// sent again) or a failed reconnect waits the next delay (or gives up once
/// the attempts are spent); a new socket first gets every
/// active subscription again, in id order, and only then is read, with the
/// attempts counted from 1 again.
pub open spec fn recovery_step(v: MessagesRecoveryView, e: MessagesRecoveryEvent) -> (
    MessagesRecoveryView,
    MessagesRecoveryAction,
) {
    match (v.phase, e) {
        (MessagesRecoveryPhase::Live, MessagesRecoveryEvent::Frame) => (v, MessagesRecoveryAction::Deliver),
        (MessagesRecoveryPhase::Live, MessagesRecoveryEvent::StreamEnded)
        | (MessagesRecoveryPhase::Resubscribing { .. }, MessagesRecoveryEvent::StreamEnded)
        | (MessagesRecoveryPhase::Connecting, MessagesRecoveryEvent::ConnectFailed) => {
            let next = next_delay_spec(v.config, v.next_attempt);
            match next.0 {
                Some(step) => (
                    MessagesRecoveryView { phase: MessagesRecoveryPhase::Waiting, next_attempt: next.1, ..v },
                    MessagesRecoveryAction::Wait(step),
                ),
                None => (v, MessagesRecoveryAction::GiveUp),
            }
        },
        (MessagesRecoveryPhase::Waiting, MessagesRecoveryEvent::WaitDone) => (
            MessagesRecoveryView { phase: MessagesRecoveryPhase::Connecting, ..v },
            MessagesRecoveryAction::Connect,
        ),
        (MessagesRecoveryPhase::Connecting, MessagesRecoveryEvent::Connected) => if v.frames.len() == 0 {
            (
                MessagesRecoveryView { phase: MessagesRecoveryPhase::Live, next_attempt: 1, ..v },
                MessagesRecoveryAction::Resume,
            )
        } else {
            (
                MessagesRecoveryView { phase: MessagesRecoveryPhase::Resubscribing { next: 0 }, ..v },
                MessagesRecoveryAction::Send { index: 0 },
            )
        },
        (MessagesRecoveryPhase::Resubscribing { next }, MessagesRecoveryEvent::FrameSent) => if next + 1
            < v.frames.len() {
            (
                MessagesRecoveryView {
                    phase: MessagesRecoveryPhase::Resubscribing { next: (next + 1) as usize },
                    ..v
                },
                MessagesRecoveryAction::Send { index: (next + 1) as usize },
            )
        } else {
            (
                MessagesRecoveryView { phase: MessagesRecoveryPhase::Live, next_attempt: 1, ..v },
                MessagesRecoveryAction::Resume,
            )
        },
        _ => (v, MessagesRecoveryAction::Ignore),
    }
}

/// The state and the actions after a run of events, taken in order.
pub open spec fn recovery_run(v: MessagesRecoveryView, events: Seq<MessagesRecoveryEvent>) -> (
    MessagesRecoveryView,
    Seq<MessagesRecoveryAction>,
)
    decreases events.len(),
{
    if events.len() == 0 {
        (v, Seq::empty())
    } else {
        let before = recovery_run(v, events.drop_last());
        let next = recovery_step(before.0, events.last());
        (next.0, before.1.push(next.1))
    }
}

/// A new socket and then one `FrameSent` per active subscription.
pub open spec fn reconnect_events(n: nat) -> Seq<MessagesRecoveryEvent> {
    seq![MessagesRecoveryEvent::Connected] + Seq::new(n, |i: int| MessagesRecoveryEvent::FrameSent)
}

proof fn lemma_resubscribe_prefix(v: MessagesRecoveryView, i: nat)
    requires
        v.phase == MessagesRecoveryPhase::Connecting,
        i < v.frames.len(),
        v.frames.len() <= usize::MAX,
    ensures
        recovery_run(v, reconnect_events(v.frames.len()).subrange(0, i + 1 as int)) == (
            MessagesRecoveryView { phase: MessagesRecoveryPhase::Resubscribing { next: i as usize }, ..v },
            Seq::new(i + 1, |j: int| MessagesRecoveryAction::Send { index: j as usize }),
        ),
    decreases i,
{
    let evs = reconnect_events(v.frames.len());
    let pre = evs.subrange(0, i + 1 as int);
    if i == 0 {
        assert(pre.drop_last().len() == 0);
        assert(pre.last() == MessagesRecoveryEvent::Connected);
        assert(recovery_run(v, pre.drop_last()) == (v, Seq::<MessagesRecoveryAction>::empty()));
        assert(Seq::<MessagesRecoveryAction>::empty().push(MessagesRecoveryAction::Send { index: 0 }) =~= Seq::new(
            1,
            |j: int| MessagesRecoveryAction::Send { index: j as usize },
        ));
    } else {
        lemma_resubscribe_prefix(v, (i - 1) as nat);
        assert(pre.drop_last() =~= evs.subrange(0, i as int));
        assert(pre.last() == MessagesRecoveryEvent::FrameSent);
        assert(Seq::new(i as nat, |j: int| MessagesRecoveryAction::Send { index: j as usize }).push(
            MessagesRecoveryAction::Send { index: i as usize },
        ) =~= Seq::new(i + 1, |j: int| MessagesRecoveryAction::Send { index: j as usize }));
    }
}

/// After a reconnect, every active subscription is sent again before any
/// frame is read: from a reconnect under way, a new socket and one sent
/// frame per subscription give the actions `Send` of each index in turn
/// (the frames in id order), then `Resume`, with no `Deliver` among them;
/// afterwards the connection is live, with the same subscriptions, and its
/// attempts count from 1 again.
pub proof fn law_resubscribe_before_delivery(v: MessagesRecoveryView)
    requires
        v.phase == MessagesRecoveryPhase::Connecting,
        v.frames.len() <= usize::MAX,
    ensures
        recovery_run(v, reconnect_events(v.frames.len())) == (
            MessagesRecoveryView { phase: MessagesRecoveryPhase::Live, next_attempt: 1, ..v },
            Seq::new(v.frames.len(), |j: int| MessagesRecoveryAction::Send { index: j as usize }).push(
                MessagesRecoveryAction::Resume,
            ),
        ),
{
    let n = v.frames.len();
    let evs = reconnect_events(n);
    if n == 0 {
        assert(evs.drop_last().len() == 0);
        assert(evs.last() == MessagesRecoveryEvent::Connected);
        assert(recovery_run(v, evs.drop_last()) == (v, Seq::<MessagesRecoveryAction>::empty()));
        assert(Seq::new(0, |j: int| MessagesRecoveryAction::Send { index: j as usize }) =~= Seq::<
            MessagesRecoveryAction,
        >::empty());
    } else {
        lemma_resubscribe_prefix(v, (n - 1) as nat);
        assert(evs.drop_last() =~= evs.subrange(0, n as int));
        assert(evs.last() == MessagesRecoveryEvent::FrameSent);
    }
}

/// A messages connection's recovery decisions: its subscriptions, its
/// reconnect schedule and its phase.
#[derive(Debug)]
pub struct MessagesRecovery {
    registry: SubscriptionRegistry,
    backoff: ReconnectBackoff,
    phase: MessagesRecoveryPhase,
}

impl MessagesRecovery {
    /// The state as values.
    pub closed spec fn spec_view(&self) -> MessagesRecoveryView {
        MessagesRecoveryView {
            frames: self.registry.spec_frames(),
            phase: self.phase,
            config: self.backoff.spec_config(),
            next_attempt: self.backoff.spec_next_attempt(),
        }
    }

    /// A live connection with no subscription and this schedule.
    pub fn new(backoff: ReconnectBackoff) -> (r: Self)
        ensures
            r.spec_view().frames.len() == 0,
            r.spec_view().phase == MessagesRecoveryPhase::Live,
            r.spec_view().config == backoff.spec_config(),
            r.spec_view().next_attempt == backoff.spec_next_attempt(),
    {
        MessagesRecovery { registry: SubscriptionRegistry::new(), backoff, phase: MessagesRecoveryPhase::Live }
    }

    /// Records a subscription; the schedule and the phase stay.
    pub fn subscribe(&mut self, frame: MessagesWsSubscribeFrame)
        ensures
            subscription_map(final(self).spec_view().frames) == subscription_map(old(self).spec_view().frames).insert(
                frame.id@,
                frame,
            ),
            final(self).spec_view().phase == old(self).spec_view().phase,
            final(self).spec_view().config == old(self).spec_view().config,
            final(self).spec_view().next_attempt == old(self).spec_view().next_attempt,
    {
        self.registry.insert(frame);
    }

    /// Forgets a subscription; the schedule and the phase stay.
    pub fn unsubscribe(&mut self, id: &str)
        ensures
            subscription_map(final(self).spec_view().frames) == subscription_map(old(self).spec_view().frames).remove(
                id@,
            ),
            final(self).spec_view().phase == old(self).spec_view().phase,
            final(self).spec_view().config == old(self).spec_view().config,
            final(self).spec_view().next_attempt == old(self).spec_view().next_attempt,
    {
        self.registry.remove(id);
    }

    /// The active subscribe frames, in id order.
    pub fn frames(&self) -> (r: &Vec<MessagesWsSubscribeFrame>)
        ensures
            r@ == self.spec_view().frames,
            strictly_sorted(frame_ids(r@)),
    {
        self.registry.frames()
    }

    /// The active subscription ids, in order.
    pub fn ids(&self) -> (r: Vec<String>)
        ensures
            r.deep_view() == frame_ids(self.spec_view().frames),
    {
        self.registry.ids()
    }

    /// The number of the next reconnect attempt.
    pub fn next_attempt(&self) -> (r: u32)
        ensures
            r == self.spec_view().next_attempt,
    {
        self.backoff.next_attempt()
    }

    /// The reconnect configuration.
    pub fn config(&self) -> (r: ExponentialBackoffConfig)
        ensures
            r == self.spec_view().config,
    {
        self.backoff.config()
    }

    /// The current phase.
    pub fn phase(&self) -> (r: MessagesRecoveryPhase)
        ensures
            r == self.spec_view().phase,
    {
        self.phase
    }

    /// Takes an event in: the next state and the action, as
    /// `recovery_step` says.
    pub fn on_event(&mut self, event: MessagesRecoveryEvent) -> (r: MessagesRecoveryAction)
        ensures
            (final(self).spec_view(), r) == recovery_step(old(self).spec_view(), event),
    {
        match (self.phase, event) {
            (MessagesRecoveryPhase::Live, MessagesRecoveryEvent::Frame) => MessagesRecoveryAction::Deliver,
            (MessagesRecoveryPhase::Live, MessagesRecoveryEvent::StreamEnded)
            | (MessagesRecoveryPhase::Resubscribing { .. }, MessagesRecoveryEvent::StreamEnded)
            | (MessagesRecoveryPhase::Connecting, MessagesRecoveryEvent::ConnectFailed) => {
                match self.backoff.next_delay() {
                    Some(step) => {
                        self.phase = MessagesRecoveryPhase::Waiting;
                        MessagesRecoveryAction::Wait(step)
                    },
                    None => MessagesRecoveryAction::GiveUp,
                }
            },
            (MessagesRecoveryPhase::Waiting, MessagesRecoveryEvent::WaitDone) => {
                self.phase = MessagesRecoveryPhase::Connecting;
                MessagesRecoveryAction::Connect
            },
            (MessagesRecoveryPhase::Connecting, MessagesRecoveryEvent::Connected) => {
                if self.registry.len() == 0 {
                    self.backoff.reset();
                    self.phase = MessagesRecoveryPhase::Live;
                    MessagesRecoveryAction::Resume
                } else {
                    self.phase = MessagesRecoveryPhase::Resubscribing { next: 0 };
                    MessagesRecoveryAction::Send { index: 0 }
                }
            },
            (MessagesRecoveryPhase::Resubscribing { next }, MessagesRecoveryEvent::FrameSent) => {
                if self.registry.len() > 0 && next < self.registry.len() - 1 {
                    self.phase = MessagesRecoveryPhase::Resubscribing { next: next + 1 };
                    MessagesRecoveryAction::Send { index: next + 1 }
                } else {
                    self.backoff.reset();
                    self.phase = MessagesRecoveryPhase::Live;
                    MessagesRecoveryAction::Resume
                }
            },
            _ => MessagesRecoveryAction::Ignore,
        }
    }
}


/// Whether the schedule has an attempt left.
pub open spec fn attempts_left(v: MessagesRecoveryView) -> bool {
    match v.config.max_attempts {
        Some(m) => v.next_attempt <= m,
        None => true,
    }
}

/// How a recovering messages connection answers each event:
/// - a frame is delivered exactly when one arrives while live;
/// - an ended stream (live, or while subscriptions are sent again) and a
///   failed reconnect both wait the next scheduled delay, `Wait` of the
///   attempt numbered `next_attempt` with its delay before jitter, while an
///   attempt is left, and give up, changing nothing, only once none is;
/// - the end of a wait opens a new socket;
/// - a new socket gets the subscription at index 0 first, or, with none,
///   is read at once; each sent frame is followed by the next index, and the
///   last by reading, with the attempts counted from 1 again;
/// - any other event changes nothing;
/// - the subscriptions and the configuration never change.
pub proof fn law_recovery_transitions(v: MessagesRecoveryView, e: MessagesRecoveryEvent)
    ensures
        ({
            let out = recovery_step(v, e);
            &&& out.0.frames == v.frames
            &&& out.0.config == v.config
            &&& (out.1 == MessagesRecoveryAction::Deliver <==> (v.phase == MessagesRecoveryPhase::Live && e
                == MessagesRecoveryEvent::Frame))
            &&& (out.1 == MessagesRecoveryAction::Deliver ==> out.0 == v)
            &&& (((v.phase == MessagesRecoveryPhase::Live && e == MessagesRecoveryEvent::StreamEnded) || ((
            v.phase matches MessagesRecoveryPhase::Resubscribing { .. }) && e == MessagesRecoveryEvent::StreamEnded)
                || (v.phase == MessagesRecoveryPhase::Connecting && e == MessagesRecoveryEvent::ConnectFailed))
                ==> if attempts_left(v) {
                &&& out.1 == MessagesRecoveryAction::Wait(
                    BackoffStep {
                        attempt: v.next_attempt,
                        base_delay_nanos: base_delay_spec(v.config, v.next_attempt as nat) as u128,
                    },
                )
                &&& out.0.phase == MessagesRecoveryPhase::Waiting
                &&& out.0.next_attempt == (if v.next_attempt == u32::MAX {
                    u32::MAX
                } else {
                    (v.next_attempt + 1) as u32
                })
            } else {
                out.1 == MessagesRecoveryAction::GiveUp && out.0 == v
            })
            &&& (v.phase == MessagesRecoveryPhase::Waiting && e == MessagesRecoveryEvent::WaitDone ==> (out.1
                == MessagesRecoveryAction::Connect && out.0.phase == MessagesRecoveryPhase::Connecting
                && out.0.next_attempt == v.next_attempt))
            &&& (v.phase == MessagesRecoveryPhase::Connecting && e == MessagesRecoveryEvent::Connected ==> if v.frames.len()
                == 0 {
                out.1 == MessagesRecoveryAction::Resume && out.0.phase == MessagesRecoveryPhase::Live
                    && out.0.next_attempt == 1
            } else {
                out.1 == MessagesRecoveryAction::Send { index: 0 } && out.0.phase
                    == MessagesRecoveryPhase::Resubscribing { next: 0 } && out.0.next_attempt == v.next_attempt
            })
            &&& (match v.phase {
                MessagesRecoveryPhase::Resubscribing { next } => e == MessagesRecoveryEvent::FrameSent ==> if next + 1
                    < v.frames.len() {
                    out.1 == MessagesRecoveryAction::Send { index: (next + 1) as usize } && out.0.phase
                        == MessagesRecoveryPhase::Resubscribing { next: (next + 1) as usize } && out.0.next_attempt
                        == v.next_attempt
                } else {
                    out.1 == MessagesRecoveryAction::Resume && out.0.phase == MessagesRecoveryPhase::Live
                        && out.0.next_attempt == 1
                },
                _ => true,
            })
            &&& (out.1 == MessagesRecoveryAction::Ignore ==> out.0 == v)
        }),
{
}

} // verus!
