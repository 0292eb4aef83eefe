//! Reconciling twice is safe.
//!
//! The upstream is modelled by the subscriptions it holds, and a pass is
//! run against it step by step with the transition functions of the
//! subscription machines. The laws say how many creates such runs ask for
//! and how many the upstream accepts.

use crate::twitch::subscription::{
    initial_pass, next_pass, next_step, CreateError, EventKind, LookupError,
    PassStageView, ReconcileEventView, ReconcilerView, SubscribeError, SubscribeStepView,
    UpstreamReplyView,
};
use vstd::prelude::*;

verus! {

/// The subscriptions that the upstream holds, by the broadcaster they are
/// about: enough of the upstream to say what a pass does to it.
pub struct UpstreamModel {
    pub online: Set<Seq<char>>,
    pub offline: Set<Seq<char>>,
}

/// What the upstream answers during one pass over a channel: the outcome
/// of the lookup and of each create, should it be asked.
pub struct PassAnswers {
    pub lookup: Result<Seq<char>, LookupError>,
    pub online: Result<(), CreateError>,
    pub offline: Result<(), CreateError>,
}

/// What one pass over a channel did.
pub struct ChannelRun {
    /// The upstream after the pass.
    pub upstream: UpstreamModel,
    /// The step the pass ended in.
    pub end: SubscribeStepView,
    /// How many creates of each kind were asked for.
    pub asked_online: nat,
    pub asked_offline: nat,
    /// How many creates of each kind the upstream accepted.
    pub created_online: nat,
    pub created_offline: nat,
}

/// What an upstream that answers the existence check truthfully replies
/// to the call a step awaits, and what it holds afterwards. A create that
/// is accepted adds the subscription; nothing else changes the upstream.
pub open spec fn upstream_reply(
    upstream: UpstreamModel,
    answers: PassAnswers,
    step: SubscribeStepView,
) -> (UpstreamReplyView, UpstreamModel) {
    match step {
        SubscribeStepView::Resolving => (UpstreamReplyView::Resolved(answers.lookup), upstream),
        SubscribeStepView::Checking { broadcaster_id } => (
            UpstreamReplyView::Existing(upstream.online.contains(broadcaster_id)),
            upstream,
        ),
        SubscribeStepView::Creating { kind: EventKind::Online, broadcaster_id } => (
            UpstreamReplyView::Created(answers.online),
            if answers.online is Ok {
                UpstreamModel {
                    online: upstream.online.insert(broadcaster_id),
                    offline: upstream.offline,
                }
            } else {
                upstream
            },
        ),
        SubscribeStepView::Creating { kind: EventKind::Offline, broadcaster_id } => (
            UpstreamReplyView::Created(answers.offline),
            if answers.offline is Ok {
                UpstreamModel {
                    online: upstream.online,
                    offline: upstream.offline.insert(broadcaster_id),
                }
            } else {
                upstream
            },
        ),
        SubscribeStepView::Done(_) => (UpstreamReplyView::Existing(false), upstream),
    }
}

/// Runs the subscription of one channel from `step` against the upstream
/// for at most `calls` calls, and counts the creates.
pub open spec fn run_channel(
    step: SubscribeStepView,
    upstream: UpstreamModel,
    answers: PassAnswers,
    calls: nat,
) -> ChannelRun
    decreases calls,
{
    if calls == 0 || step is Done {
        ChannelRun {
            upstream,
            end: step,
            asked_online: 0,
            asked_offline: 0,
            created_online: 0,
            created_offline: 0,
        }
    } else {
        let (reply, after) = upstream_reply(upstream, answers, step);
        let rest = run_channel(next_step(step, reply), after, answers, (calls - 1) as nat);
        let online = step is Creating && step->Creating_kind == EventKind::Online;
        let offline = step is Creating && step->Creating_kind == EventKind::Offline;
        ChannelRun {
            upstream: rest.upstream,
            end: rest.end,
            asked_online: rest.asked_online + if online { 1nat } else { 0nat },
            asked_offline: rest.asked_offline + if offline { 1nat } else { 0nat },
            created_online: rest.created_online + if online && answers.online is Ok {
                1nat
            } else {
                0nat
            },
            created_offline: rest.created_offline + if offline && answers.offline is Ok {
                1nat
            } else {
                0nat
            },
        }
    }
}

/// One whole pass over a channel: lookup, check, and up to two creates.
pub open spec fn channel_pass(upstream: UpstreamModel, answers: PassAnswers) -> ChannelRun {
    run_channel(SubscribeStepView::Resolving, upstream, answers, 4)
}

/// A pass over a channel ends after at most four calls, asks for at most
/// one create of each kind, and creates nothing when the channel does not
/// resolve or its online subscription is already there.
pub proof fn lemma_pass_creates_at_most_once(upstream: UpstreamModel, answers: PassAnswers)
    ensures
        ({
            let run = channel_pass(upstream, answers);
            &&& run.end is Done
            &&& run.asked_online <= 1
            &&& run.asked_offline <= 1
            &&& run.created_online <= run.asked_online
            &&& run.created_offline <= run.asked_offline
            &&& answers.lookup is Err ==> run.asked_online + run.asked_offline == 0 && run.end == (
            SubscribeStepView::Done(Err(SubscribeError::Lookup(answers.lookup->Err_0))))
            &&& answers.lookup is Ok && upstream.online.contains(answers.lookup->Ok_0)
                ==> run.asked_online + run.asked_offline == 0 && run.upstream == upstream
                && run.end == SubscribeStepView::Done(Ok(answers.lookup->Ok_0))
            &&& answers.lookup is Ok && run.created_online == 1 ==> run.upstream.online.contains(
                answers.lookup->Ok_0,
            )
            &&& answers.lookup is Ok && !upstream.online.contains(answers.lookup->Ok_0)
                ==> run.asked_online == 1 && (run.created_online == 1 <==> answers.online is Ok)
        }),
{
    reveal_with_fuel(run_channel, 5);
}

/// Reconciling twice is safe. Take any upstream and two passes over the
/// same channel, one after the other, with the channel resolving alike in
/// both and whatever the upstream answers to the creates. Then for each
/// kind at most one create is accepted over both passes; and if the first
/// pass found or made the online subscription, the second asks for no
/// create at all.
pub proof fn lemma_reconcile_twice(upstream: UpstreamModel, first: PassAnswers, second: PassAnswers)
    requires
        first.lookup == second.lookup,
    ensures
        ({
            let one = channel_pass(upstream, first);
            let two = channel_pass(one.upstream, second);
            &&& one.created_online + two.created_online <= 1
            &&& one.created_offline + two.created_offline <= 1
            &&& first.lookup is Ok && one.upstream.online.contains(first.lookup->Ok_0)
                ==> two.asked_online + two.asked_offline == 0 && two.upstream == one.upstream
            &&& first.lookup is Ok && (upstream.online.contains(first.lookup->Ok_0)
                || one.created_online == 1) ==> two.asked_online + two.asked_offline == 0
        }),
{
    reveal_with_fuel(run_channel, 5);
    lemma_pass_creates_at_most_once(upstream, first);
    lemma_pass_creates_at_most_once(channel_pass(upstream, first).upstream, second);
}

/// What one pass over the wanted channels did for one kind of
/// subscription of one broadcaster.
pub struct PassRun {
    /// The upstream after the run.
    pub upstream: UpstreamModel,
    /// The pass after the run.
    pub end: ReconcilerView,
    /// How many creates of that kind for that broadcaster were asked for.
    pub asked: nat,
    /// How many of them the upstream accepted.
    pub created: nat,
}

/// What the upstream answers during one pass, channel by channel.
pub type AnswersByChannel = spec_fn(Seq<char>) -> PassAnswers;

/// Whether the upstream accepts a create of the given kind.
pub open spec fn accepts(answers: PassAnswers, kind: EventKind) -> bool {
    match kind {
        EventKind::Online => answers.online is Ok,
        EventKind::Offline => answers.offline is Ok,
    }
}

/// Whether the pass awaits the answer to a create of the given kind for
/// the given broadcaster.
pub open spec fn asks_for(pass: ReconcilerView, kind: EventKind, broadcaster_id: Seq<char>) -> bool {
    pass.stage == PassStageView::Subscribing(SubscribeStepView::Creating { kind, broadcaster_id })
}

/// What a caller who does as told reports next, and what the upstream
/// holds then: the upstream's answer to the call that is awaited, or that
/// the removal or the pause is done.
pub open spec fn honest_event(
    pass: ReconcilerView,
    upstream: UpstreamModel,
    answers: AnswersByChannel,
) -> (ReconcileEventView, UpstreamModel) {
    match pass.stage {
        PassStageView::Subscribing(step) => {
            let (reply, after) = upstream_reply(
                upstream,
                answers(pass.channels[pass.position as int]),
                step,
            );
            (ReconcileEventView::Upstream(reply), after)
        },
        PassStageView::Removing => (ReconcileEventView::Removed, upstream),
        _ => (ReconcileEventView::Paused, upstream),
    }
}

/// Runs the pass while the channel at position `turn` has the turn, for
/// at most `steps` events.
pub open spec fn run_turn(
    pass: ReconcilerView,
    upstream: UpstreamModel,
    answers: AnswersByChannel,
    kind: EventKind,
    broadcaster_id: Seq<char>,
    turn: nat,
    steps: nat,
) -> PassRun
    decreases steps,
{
    if steps == 0 || pass.stage is Finished || pass.position != turn {
        PassRun { upstream, end: pass, asked: 0, created: 0 }
    } else {
        let (event, after) = honest_event(pass, upstream, answers);
        let rest = run_turn(
            next_pass(pass, event),
            after,
            answers,
            kind,
            broadcaster_id,
            turn,
            (steps - 1) as nat,
        );
        let asks = asks_for(pass, kind, broadcaster_id);
        let accepted = asks && accepts(answers(pass.channels[pass.position as int]), kind);
        PassRun {
            upstream: rest.upstream,
            end: rest.end,
            asked: rest.asked + if asks { 1nat } else { 0nat },
            created: rest.created + if accepted { 1nat } else { 0nat },
        }
    }
}

/// Runs the pass for the turns of at most `turns` channels. A turn takes
/// at most six events: four answers of the upstream, the removal, and the
/// pause.
pub open spec fn run_turns(
    pass: ReconcilerView,
    upstream: UpstreamModel,
    answers: AnswersByChannel,
    kind: EventKind,
    broadcaster_id: Seq<char>,
    turns: nat,
) -> PassRun
    decreases turns,
{
    if turns == 0 || pass.stage is Finished {
        PassRun { upstream, end: pass, asked: 0, created: 0 }
    } else {
        let turn = run_turn(pass, upstream, answers, kind, broadcaster_id, pass.position, 6);
        let rest = run_turns(
            turn.end,
            turn.upstream,
            answers,
            kind,
            broadcaster_id,
            (turns - 1) as nat,
        );
        PassRun {
            upstream: rest.upstream,
            end: rest.end,
            asked: turn.asked + rest.asked,
            created: turn.created + rest.created,
        }
    }
}

/// One whole pass over the wanted channels.
pub open spec fn whole_pass(
    channels: Seq<Seq<char>>,
    session_id: Seq<char>,
    upstream: UpstreamModel,
    answers: AnswersByChannel,
    kind: EventKind,
    broadcaster_id: Seq<char>,
) -> PassRun {
    run_turns(
        initial_pass(channels, session_id),
        upstream,
        answers,
        kind,
        broadcaster_id,
        channels.len(),
    )
}

/// No two of the wanted channels from position `from` on resolve to the
/// same broadcaster.
pub open spec fn resolve_apart(channels: Seq<Seq<char>>, answers: AnswersByChannel, from: int) -> bool {
    forall|i: int, j: int|
        from <= i < j < channels.len() && (#[trigger] answers(channels[i])).lookup is Ok
            ==> answers(channels[i]).lookup != (#[trigger] answers(channels[j])).lookup
}

/// Whether a channel at or after position `from` resolves to the
/// broadcaster.
pub open spec fn resolves_later(
    channels: Seq<Seq<char>>,
    answers: AnswersByChannel,
    from: int,
    broadcaster_id: Seq<char>,
) -> bool {
    exists|i: int|
        from <= i < channels.len() && (#[trigger] answers(channels[i])).lookup == Ok::<
            Seq<char>,
            LookupError,
        >(broadcaster_id)
}

/// The pass at the start of the turn of the channel at `position`.
pub open spec fn turn_start(
    channels: Seq<Seq<char>>,
    session_id: Seq<char>,
    position: nat,
) -> ReconcilerView {
    ReconcilerView {
        channels,
        session_id,
        position,
        stage: PassStageView::Subscribing(SubscribeStepView::Resolving),
    }
}

/// The pass when the turn of the channel at `position` is over: the next
/// channel's turn starts, or the pass is finished.
pub open spec fn turn_end(
    channels: Seq<Seq<char>>,
    session_id: Seq<char>,
    position: nat,
) -> ReconcilerView {
    if position + 1 < channels.len() {
        turn_start(channels, session_id, position + 1)
    } else {
        ReconcilerView { channels, session_id, position, stage: PassStageView::Finished }
    }
}

/// The turn of a channel in a pass is one pass over that channel: it does
/// to the upstream what `channel_pass` does, asks for creates only for the
/// broadcaster the channel resolves to, and hands the turn on.
pub proof fn lemma_turn_is_channel_pass(
    channels: Seq<Seq<char>>,
    session_id: Seq<char>,
    position: nat,
    upstream: UpstreamModel,
    answers: AnswersByChannel,
    kind: EventKind,
    broadcaster_id: Seq<char>,
)
    requires
        position < channels.len(),
    ensures
        ({
            let turn = run_turn(
                turn_start(channels, session_id, position),
                upstream,
                answers,
                kind,
                broadcaster_id,
                position,
                6,
            );
            let alone = channel_pass(upstream, answers(channels[position as int]));
            let about = answers(channels[position as int]).lookup == Ok::<Seq<char>, LookupError>(
                broadcaster_id,
            );
            &&& turn.end == turn_end(channels, session_id, position)
            &&& turn.upstream == alone.upstream
            &&& turn.asked == if !about {
                0
            } else if kind == EventKind::Online {
                alone.asked_online
            } else {
                alone.asked_offline
            }
            &&& turn.created == if !about {
                0
            } else if kind == EventKind::Online {
                alone.created_online
            } else {
                alone.created_offline
            }
        }),
{
    reveal_with_fuel(run_turn, 7);
    reveal_with_fuel(run_channel, 5);
}

/// What a pass does from the turn of the channel at `position` on, for
/// one kind of subscription of one broadcaster: it finishes; it takes no
/// online subscription away; at most one create is accepted; it asks for
/// no create if no channel left resolves to the broadcaster, nor if the
/// broadcaster's online subscription is there, and for at most one if no
/// two channels left resolve to the same broadcaster; and where a create
/// was accepted, the online subscription is there afterwards.
pub proof fn lemma_pass_from(
    channels: Seq<Seq<char>>,
    session_id: Seq<char>,
    position: nat,
    upstream: UpstreamModel,
    answers: AnswersByChannel,
    kind: EventKind,
    broadcaster_id: Seq<char>,
)
    requires
        position < channels.len(),
    ensures
        ({
            let run = run_turns(
                turn_start(channels, session_id, position),
                upstream,
                answers,
                kind,
                broadcaster_id,
                (channels.len() - position) as nat,
            );
            &&& run.end.stage is Finished
            &&& upstream.online.subset_of(run.upstream.online)
            &&& run.created <= run.asked
            &&& run.created <= 1
            &&& !resolves_later(channels, answers, position as int, broadcaster_id) ==> run.asked
                == 0
            &&& upstream.online.contains(broadcaster_id) ==> run.asked == 0
            &&& resolve_apart(channels, answers, position as int) ==> run.asked <= 1
            &&& run.created >= 1 ==> run.upstream.online.contains(broadcaster_id)
        }),
    decreases channels.len() - position,
{
    let start = turn_start(channels, session_id, position);
    let turns = (channels.len() - position) as nat;
    let turn = run_turn(start, upstream, answers, kind, broadcaster_id, position, 6);
    let mine = answers(channels[position as int]);
    lemma_turn_is_channel_pass(
        channels,
        session_id,
        position,
        upstream,
        answers,
        kind,
        broadcaster_id,
    );
    lemma_pass_creates_at_most_once(upstream, mine);
    lemma_channel_pass_keeps_online(upstream, mine);
    let about = mine.lookup == Ok::<Seq<char>, LookupError>(broadcaster_id);
    if position + 1 < channels.len() {
        lemma_pass_from(
            channels,
            session_id,
            position + 1,
            turn.upstream,
            answers,
            kind,
            broadcaster_id,
        );
        let rest = run_turns(
            turn.end,
            turn.upstream,
            answers,
            kind,
            broadcaster_id,
            (turns - 1) as nat,
        );
        assert(run_turns(start, upstream, answers, kind, broadcaster_id, turns).asked == turn.asked
            + rest.asked);
        if about {
            if resolve_apart(channels, answers, position as int) {
                // No later channel resolves to the same broadcaster.
                assert(!resolves_later(channels, answers, position + 1 as int, broadcaster_id)) by {
                    if resolves_later(channels, answers, position + 1 as int, broadcaster_id) {
                        let j = choose|j: int|
                            position + 1 <= j < channels.len() && (#[trigger] answers(
                                channels[j],
                            )).lookup == Ok::<Seq<char>, LookupError>(broadcaster_id);
                        assert(answers(channels[position as int]).lookup != answers(
                            channels[j],
                        ).lookup);
                    }
                }
            }
        } else if resolves_later(channels, answers, position + 1 as int, broadcaster_id) {
            let j = choose|j: int|
                position + 1 <= j < channels.len() && (#[trigger] answers(channels[j])).lookup
                    == Ok::<Seq<char>, LookupError>(broadcaster_id);
            assert(resolves_later(channels, answers, position as int, broadcaster_id));
        }
    } else {
        reveal_with_fuel(run_turns, 2);
        if about {
            assert(resolves_later(channels, answers, position as int, broadcaster_id));
        }
    }
}

/// A pass over a channel takes no online subscription away, and an
/// accepted create of either kind leaves the broadcaster's online
/// subscription in place.
pub proof fn lemma_channel_pass_keeps_online(upstream: UpstreamModel, answers: PassAnswers)
    ensures
        ({
            let run = channel_pass(upstream, answers);
            &&& upstream.online.subset_of(run.upstream.online)
            &&& answers.lookup is Ok && run.created_online + run.created_offline >= 1
                ==> run.upstream.online.contains(answers.lookup->Ok_0)
        }),
{
    reveal_with_fuel(run_channel, 5);
}

/// Reconciling the wanted channels twice creates nothing twice. Take any
/// upstream and two whole passes over the same channels for the same
/// session, one after the other, whatever the channels resolve to and
/// whatever the upstream answers to the creates. Then for each broadcaster
/// and each kind at most one create is accepted over both passes, and the
/// second pass asks for none where the first one had a create accepted.
pub proof fn lemma_reconcile_all_twice(
    channels: Seq<Seq<char>>,
    session_id: Seq<char>,
    upstream: UpstreamModel,
    first: AnswersByChannel,
    second: AnswersByChannel,
    kind: EventKind,
    broadcaster_id: Seq<char>,
)
    ensures
        ({
            let one = whole_pass(channels, session_id, upstream, first, kind, broadcaster_id);
            let two = whole_pass(channels, session_id, one.upstream, second, kind, broadcaster_id);
            &&& one.end.stage is Finished
            &&& two.end.stage is Finished
            &&& one.created + two.created <= 1
            &&& one.created == 1 ==> two.asked == 0
        }),
{
    if channels.len() > 0 {
        lemma_pass_from(channels, session_id, 0, upstream, first, kind, broadcaster_id);
        let one = whole_pass(channels, session_id, upstream, first, kind, broadcaster_id);
        lemma_pass_from(channels, session_id, 0, one.upstream, second, kind, broadcaster_id);
    }
}

/// Where no two of the wanted channels resolve to the same broadcaster, a
/// whole pass asks for at most one create of each kind for each
/// broadcaster, and for none for a broadcaster whose online subscription
/// is there already.
pub proof fn lemma_pass_asks_at_most_once(
    channels: Seq<Seq<char>>,
    session_id: Seq<char>,
    upstream: UpstreamModel,
    answers: AnswersByChannel,
    kind: EventKind,
    broadcaster_id: Seq<char>,
)
    requires
        resolve_apart(channels, answers, 0),
    ensures
        ({
            let run = whole_pass(channels, session_id, upstream, answers, kind, broadcaster_id);
            &&& run.asked <= 1
            &&& upstream.online.contains(broadcaster_id) ==> run.asked == 0
        }),
{
    if channels.len() > 0 {
        lemma_pass_from(channels, session_id, 0, upstream, answers, kind, broadcaster_id);
    }
}

} // verus!
