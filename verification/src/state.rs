//! The two pieces of state a session owns: which channels are known to be
//! live, and the identity of the current session.

use vstd::hash_set::StringHashSet;
use vstd::prelude::*;
use vstd::string::*;

verus! {

/// The channels known to be live on the current connection.
///
/// The upstream may deliver an online event for a channel more than once;
/// the set remembers which channels have been announced, so that only the
/// first delivery counts. It is scoped to one connection and is emptied
/// when a new one is established.
pub struct OnlineChannels {
    live: StringHashSet,
}

impl View for OnlineChannels {
    type V = Set<Seq<char>>;

    closed spec fn view(&self) -> Set<Seq<char>> {
        self.live@
    }
}

/// The identity of the session that subscriptions are bound to.
#[derive(Debug, Clone, PartialEq, Eq)]
pub struct SessionIdentity {
    pub session_id: String,
    pub live: bool,
}

/// What a `SessionIdentity` holds, as plain values.
pub struct SessionIdentityView {
    pub session_id: Seq<char>,
    pub live: bool,
}

impl View for SessionIdentity {
    type V = SessionIdentityView;

    open spec fn view(&self) -> SessionIdentityView {
        SessionIdentityView { session_id: self.session_id@, live: self.live }
    }
}

/// The known set after a run of online deliveries, one channel each.
pub open spec fn after_deliveries(known: Set<Seq<char>>, deliveries: Seq<Seq<char>>) -> Set<
    Seq<char>,
>
    decreases deliveries.len(),
{
    if deliveries.len() == 0 {
        known
    } else {
        after_deliveries(known, deliveries.drop_last()).insert(deliveries.last())
    }
}

/// What `mark_online` answers to delivery number `index` of a run that
/// starts from `known`.
pub open spec fn answer_to_delivery(
    known: Set<Seq<char>>,
    deliveries: Seq<Seq<char>>,
    index: int,
) -> bool
    recommends
        0 <= index < deliveries.len(),
{
    !after_deliveries(known, deliveries.take(index)).contains(deliveries[index])
}

impl OnlineChannels {
    /// A tracker that knows of no live channel.
    pub fn new() -> (tracker: OnlineChannels)
        ensures
            tracker@ == Set::<Seq<char>>::empty(),
    {
        OnlineChannels { live: StringHashSet::new() }
    }

    /// Records that `channel` is live. Answers `true` exactly when the
    /// channel was not known before, that is on the first delivery.
    pub fn mark_online(&mut self, channel: &str) -> (first: bool)
        ensures
            final(self)@ == old(self)@.insert(channel@),
            first == !old(self)@.contains(channel@),
    {
        self.live.insert(String::from_str(channel))
    }

    /// Forgets `channel`, whether or not it was known.
    pub fn mark_offline(&mut self, channel: &str)
        ensures
            final(self)@ == old(self)@.remove(channel@),
    {
        self.live.remove(channel);
    }

    /// Forgets every channel.
    pub fn reset(&mut self)
        ensures
            final(self)@ == Set::<Seq<char>>::empty(),
    {
        self.live.clear();
    }

    /// Tells whether `channel` is known as live.
    pub fn is_online(&self, channel: &str) -> (known: bool)
        ensures
            known == self@.contains(channel@),
    {
        self.live.contains(channel)
    }
}

/// After any run of deliveries, exactly the delivered channels have been
/// added to the known set.
pub proof fn lemma_after_deliveries_contains(
    known: Set<Seq<char>>,
    deliveries: Seq<Seq<char>>,
    channel: Seq<char>,
)
    ensures
        after_deliveries(known, deliveries).contains(channel) <==> known.contains(channel)
            || deliveries.contains(channel),
    decreases deliveries.len(),
{
    if deliveries.len() > 0 {
        let front = deliveries.drop_last();
        lemma_after_deliveries_contains(known, front, channel);
        if deliveries.contains(channel) {
            let i = choose|i: int| 0 <= i < deliveries.len() && deliveries[i] == channel;
            if i < front.len() {
                assert(front[i] == channel);
            }
        }
        if front.contains(channel) {
            let i = choose|i: int| 0 <= i < front.len() && front[i] == channel;
            assert(deliveries[i] == channel);
        }
        assert(deliveries[deliveries.len() - 1] == deliveries.last());
    }
}

/// Between two resets, however often a channel's online event is
/// delivered, `mark_online` answers `true` to its first delivery and to no
/// later one.
pub proof fn lemma_first_delivery_only(deliveries: Seq<Seq<char>>, index: int)
    requires
        0 <= index < deliveries.len(),
    ensures
        answer_to_delivery(Set::empty(), deliveries, index) <==> (forall|earlier: int|
            0 <= earlier < index ==> deliveries[earlier] != deliveries[index]),
{
    let before = deliveries.take(index);
    lemma_after_deliveries_contains(Set::empty(), before, deliveries[index]);
    if before.contains(deliveries[index]) {
        let i = choose|i: int| 0 <= i < before.len() && before[i] == deliveries[index];
        assert(deliveries[i] == deliveries[index]);
    } else {
        assert forall|earlier: int| 0 <= earlier < index implies deliveries[earlier]
            != deliveries[index] by {
            assert(before[earlier] == deliveries[earlier]);
        }
    }
}

/// A channel that was delivered before is answered with `false`: of all
/// the deliveries of one channel between two resets, only the first is
/// answered with `true`.
pub proof fn lemma_later_delivery_is_no_news(deliveries: Seq<Seq<char>>, first: int, second: int)
    requires
        0 <= first < second < deliveries.len(),
        deliveries[first] == deliveries[second],
    ensures
        !answer_to_delivery(Set::empty(), deliveries, second),
{
    lemma_first_delivery_only(deliveries, second);
}

/// After a reset nothing is known: the next online event of any channel
/// counts as its first.
pub proof fn lemma_reset_forgets(channel: Seq<char>)
    ensures
        answer_to_delivery(Set::empty(), seq![channel], 0),
{
    assert(seq![channel].take(0) =~= Seq::<Seq<char>>::empty());
}

} // verus!
