//! Keeping the upstream subscriptions in line with the channels that are
//! wanted.
//!
//! Every upstream call is made by the caller. The machines here say which
//! call comes next and what follows from its answer.

use crate::config::RATE_LIMIT_DELAY_MS;
use crate::text::{join_text, same_text, texts_of};
use crate::twitch::types::{
    nested_text, read_nested_text, read_text, text_member, Condition, CreateSubscription,
    CreateSubscriptionView, Transport,
};
use crate::twitch::validation::{broadcaster_id_in, data_items, read_data, validate_twitch_channel};
use vstd::prelude::*;
use vstd::string::*;

verus! {

/// The two events a channel is subscribed to.
#[derive(Debug, Clone, Copy, PartialEq, Eq, Structural)]
pub enum EventKind {
    Online,
    Offline,
}

/// The upstream's name for an event.
pub open spec fn kind_name(kind: EventKind) -> Seq<char> {
    match kind {
        EventKind::Online => "stream.online"@,
        EventKind::Offline => "stream.offline"@,
    }
}

impl EventKind {
    /// The upstream's name for this event.
    pub fn name(self) -> (name: &'static str)
        ensures
            name@ == kind_name(self),
    {
        match self {
            EventKind::Online => "stream.online",
            EventKind::Offline => "stream.offline",
        }
    }
}

/// The address that looks a channel up by its login.
pub open spec fn lookup_url_of(channel: Seq<char>) -> Seq<char> {
    "https://api.twitch.tv/helix/users?login="@ + channel
}

/// The address that lists a broadcaster's online subscriptions.
pub open spec fn existing_url_of(broadcaster_id: Seq<char>) -> Seq<char> {
    "https://api.twitch.tv/helix/eventsub/subscriptions?type=stream.online&user_id="@
        + broadcaster_id
}

/// The address that deletes one subscription.
pub open spec fn delete_url_of(subscription_id: Seq<char>) -> Seq<char> {
    "https://api.twitch.tv/helix/eventsub/subscriptions?id="@ + subscription_id
}

/// Builds the address that looks a channel up by its login.
pub fn lookup_url(channel: &str) -> (url: String)
    ensures
        url@ == lookup_url_of(channel@),
{
    join_text("https://api.twitch.tv/helix/users?login=", channel)
}

/// Builds the address that lists a broadcaster's online subscriptions.
pub fn existing_url(broadcaster_id: &str) -> (url: String)
    ensures
        url@ == existing_url_of(broadcaster_id@),
{
    join_text(
        "https://api.twitch.tv/helix/eventsub/subscriptions?type=stream.online&user_id=",
        broadcaster_id,
    )
}

/// The address where subscriptions are listed and created.
pub fn subscriptions_url() -> (url: String)
    ensures
        url@ == "https://api.twitch.tv/helix/eventsub/subscriptions"@,
{
    String::from_str("https://api.twitch.tv/helix/eventsub/subscriptions")
}

/// Builds the address that deletes one subscription.
pub fn delete_url(subscription_id: &str) -> (url: String)
    ensures
        url@ == delete_url_of(subscription_id@),
{
    join_text("https://api.twitch.tv/helix/eventsub/subscriptions?id=", subscription_id)
}

/// The request that subscribes a session to one event of one broadcaster.
pub open spec fn subscription_for(
    kind: EventKind,
    broadcaster_id: Seq<char>,
    session_id: Seq<char>,
) -> CreateSubscriptionView {
    CreateSubscriptionView {
        sub_type: kind_name(kind),
        version: "1"@,
        broadcaster_user_id: broadcaster_id,
        method: "websocket"@,
        session_id,
    }
}

/// Builds the request that subscribes a session to one event of one
/// broadcaster.
pub fn subscribe_to_event(kind: EventKind, broadcaster_id: &str, session_id: &str) -> (request:
    CreateSubscription)
    ensures
        request@ == subscription_for(kind, broadcaster_id@, session_id@),
{
    CreateSubscription {
        sub_type: String::from_str(kind.name()),
        version: String::from_str("1"),
        condition: Condition { broadcaster_user_id: String::from_str(broadcaster_id) },
        transport: Transport {
            method: String::from_str("websocket"),
            session_id: String::from_str(session_id),
        },
    }
}

/// Why a channel could not be resolved to a broadcaster.
#[derive(Debug, Clone, Copy, PartialEq, Eq, Structural)]
pub enum LookupError {
    /// The request failed, retries included.
    RequestFailed,
    /// The response was no JSON.
    ParseFailed,
    /// The upstream knows no such channel.
    NotFound,
}

/// Reads a channel lookup made for a subscription: the broadcaster id, or
/// `NotFound` when the response names none.
pub fn get_broadcaster_id(body: &serde_json::Value) -> (id: Result<String, LookupError>)
    ensures
        match id {
            Ok(text) => broadcaster_id_in(*body) == Some(text@),
            Err(error) => broadcaster_id_in(*body) is None && error == LookupError::NotFound,
        },
{
    match validate_twitch_channel(body) {
        Some(text) => Ok(text),
        None => Err(LookupError::NotFound),
    }
}

/// One subscription as a listing shows it: its id and the broadcaster it
/// is about, each only if the listing holds it as a string.
#[derive(Debug, Clone, PartialEq, Eq)]
pub struct SubscriptionEntry {
    pub id: Option<String>,
    pub broadcaster_user_id: Option<String>,
}

/// What a `SubscriptionEntry` holds, as plain values.
pub struct SubscriptionEntryView {
    pub id: Option<Seq<char>>,
    pub broadcaster_user_id: Option<Seq<char>>,
}

/// An optional text, as a plain value.
pub open spec fn text_view(text: Option<String>) -> Option<Seq<char>> {
    match text {
        Some(t) => Some(t@),
        None => None,
    }
}

impl View for SubscriptionEntry {
    type V = SubscriptionEntryView;

    open spec fn view(&self) -> SubscriptionEntryView {
        SubscriptionEntryView {
            id: text_view(self.id),
            broadcaster_user_id: text_view(self.broadcaster_user_id),
        }
    }
}

/// The entry a listed item stands for: its `id` and its
/// `condition.broadcaster_user_id`.
pub open spec fn entry_in(item: serde_json::Value) -> SubscriptionEntryView {
    SubscriptionEntryView {
        id: text_member(item, "id"@),
        broadcaster_user_id: nested_text(item, "condition"@, "broadcaster_user_id"@),
    }
}

/// The entries of a listing, in its order.
pub open spec fn entries_in(body: serde_json::Value) -> Seq<SubscriptionEntryView> {
    data_items(body).map_values(|item: serde_json::Value| entry_in(item))
}

/// The entries of a list, as plain values.
pub open spec fn entries_view(entries: Seq<SubscriptionEntry>) -> Seq<SubscriptionEntryView> {
    entries.map_values(|entry: SubscriptionEntry| entry@)
}

/// Reads a listing of subscriptions. A body without a list under `data`
/// lists nothing.
pub fn list_subscriptions(body: &serde_json::Value) -> (entries: Vec<SubscriptionEntry>)
    ensures
        entries_view(entries@) == entries_in(*body),
{
    let mut entries: Vec<SubscriptionEntry> = Vec::new();
    match read_data(body) {
        Some(items) => {
            let mut i: usize = 0;
            while i < items.len()
                invariant
                    i <= items@.len(),
                    items@ == data_items(*body),
                    entries@.len() == i,
                    forall|j: int| 0 <= j < i ==> (#[trigger] entries@[j])@ == entry_in(items@[j]),
                decreases items@.len() - i,
            {
                let item = &items[i];
                let id = read_text(item, "id");
                let broadcaster_user_id = read_nested_text(item, "condition", "broadcaster_user_id");
                entries.push(SubscriptionEntry { id, broadcaster_user_id });
                i += 1;
            }
            assert(entries_view(entries@) =~= entries_in(*body));
        },
        None => {
            assert(entries_view(entries@) =~= entries_in(*body));
        },
    }
    entries
}

/// Whether an entry is about the given broadcaster.
pub open spec fn is_about(entry: SubscriptionEntryView, broadcaster_id: Seq<char>) -> bool {
    entry.broadcaster_user_id == Some(broadcaster_id)
}

/// Whether a listing holds an entry about the given broadcaster.
pub open spec fn lists_broadcaster(
    entries: Seq<SubscriptionEntryView>,
    broadcaster_id: Seq<char>,
) -> bool {
    exists|i: int| 0 <= i < entries.len() && is_about(#[trigger] entries[i], broadcaster_id)
}

/// Tells whether an entry is about the given broadcaster.
pub fn entry_is_about(entry: &SubscriptionEntry, broadcaster_id: &str) -> (about: bool)
    ensures
        about == is_about(entry@, broadcaster_id@),
{
    match &entry.broadcaster_user_id {
        Some(owner) => same_text(owner.as_str(), broadcaster_id),
        None => false,
    }
}

/// Tells whether a listing of online subscriptions already holds one for
/// the given broadcaster.
pub fn is_already_subscribed(body: &serde_json::Value, broadcaster_id: &str) -> (found: bool)
    ensures
        found == lists_broadcaster(entries_in(*body), broadcaster_id@),
{
    let entries = list_subscriptions(body);
    let mut i: usize = 0;
    while i < entries.len()
        invariant
            i <= entries@.len(),
            entries_view(entries@) == entries_in(*body),
            forall|j: int| 0 <= j < i ==> !is_about(#[trigger] entries_in(*body)[j], broadcaster_id@),
        decreases entries@.len() - i,
    {
        assert(entries_view(entries@)[i as int] == entries@[i as int]@);
        if entry_is_about(&entries[i], broadcaster_id) {
            return true;
        }
        i += 1;
    }
    assert(entries_view(entries@).len() == entries@.len());
    false
}

/// Why a subscription could not be created.
#[derive(Debug, Clone, Copy, PartialEq, Eq, Structural)]
pub enum CreateError {
    /// The request did not get through.
    RequestFailed,
    /// The upstream answered with a status that is no success.
    Rejected { status: u16 },
}

/// Why a channel could not be subscribed.
#[derive(Debug, Clone, Copy, PartialEq, Eq, Structural)]
pub enum SubscribeError {
    /// The channel could not be resolved to a broadcaster.
    Lookup(LookupError),
    /// The subscription of this kind could not be created.
    Create { kind: EventKind, error: CreateError },
}

/// A call the caller is to make upstream.
#[derive(Debug, Clone, PartialEq, Eq)]
pub enum UpstreamRequest {
    /// Resolve the channel to a broadcaster id, retrying with backoff.
    Resolve { channel: String },
    /// Ask whether an online subscription exists for the broadcaster.
    CheckExisting { broadcaster_id: String },
    /// Create this subscription.
    Create(CreateSubscription),
}

/// What an `UpstreamRequest` holds, as plain values.
pub enum UpstreamRequestView {
    Resolve { channel: Seq<char> },
    CheckExisting { broadcaster_id: Seq<char> },
    Create(CreateSubscriptionView),
}

impl View for UpstreamRequest {
    type V = UpstreamRequestView;

    open spec fn view(&self) -> UpstreamRequestView {
        match *self {
            UpstreamRequest::Resolve { channel } => UpstreamRequestView::Resolve {
                channel: channel@,
            },
            UpstreamRequest::CheckExisting { broadcaster_id } => UpstreamRequestView::CheckExisting {
                broadcaster_id: broadcaster_id@,
            },
            UpstreamRequest::Create(request) => UpstreamRequestView::Create(request@),
        }
    }
}

/// What the upstream answered.
#[derive(Debug, PartialEq, Eq)]
pub enum UpstreamReply {
    /// The outcome of a lookup, after its retries.
    Resolved(Result<String, LookupError>),
    /// Whether an online subscription exists. A check that failed counts
    /// as `false`.
    Existing(bool),
    /// The outcome of a create.
    Created(Result<(), CreateError>),
}

/// What an `UpstreamReply` holds, as plain values.
pub enum UpstreamReplyView {
    Resolved(Result<Seq<char>, LookupError>),
    Existing(bool),
    Created(Result<(), CreateError>),
}

impl View for UpstreamReply {
    type V = UpstreamReplyView;

    open spec fn view(&self) -> UpstreamReplyView {
        match *self {
            UpstreamReply::Resolved(Ok(id)) => UpstreamReplyView::Resolved(Ok(id@)),
            UpstreamReply::Resolved(Err(error)) => UpstreamReplyView::Resolved(Err(error)),
            UpstreamReply::Existing(found) => UpstreamReplyView::Existing(found),
            UpstreamReply::Created(outcome) => UpstreamReplyView::Created(outcome),
        }
    }
}

/// How far the subscription of one channel has come.
#[derive(Debug, PartialEq, Eq)]
pub enum SubscribeStep {
    /// The lookup of the channel is awaited.
    Resolving,
    /// The check for an existing online subscription is awaited.
    Checking { broadcaster_id: String },
    /// The creation of a subscription of this kind is awaited.
    Creating { kind: EventKind, broadcaster_id: String },
    /// Done: the broadcaster id, or why it failed.
    Done(Result<String, SubscribeError>),
}

/// What a `SubscribeStep` holds, as plain values.
pub enum SubscribeStepView {
    Resolving,
    Checking { broadcaster_id: Seq<char> },
    Creating { kind: EventKind, broadcaster_id: Seq<char> },
    Done(Result<Seq<char>, SubscribeError>),
}

impl View for SubscribeStep {
    type V = SubscribeStepView;

    open spec fn view(&self) -> SubscribeStepView {
        match *self {
            SubscribeStep::Resolving => SubscribeStepView::Resolving,
            SubscribeStep::Checking { broadcaster_id } => SubscribeStepView::Checking {
                broadcaster_id: broadcaster_id@,
            },
            SubscribeStep::Creating { kind, broadcaster_id } => SubscribeStepView::Creating {
                kind,
                broadcaster_id: broadcaster_id@,
            },
            SubscribeStep::Done(Ok(id)) => SubscribeStepView::Done(Ok(id@)),
            SubscribeStep::Done(Err(error)) => SubscribeStepView::Done(Err(error)),
        }
    }
}

/// What the caller is to do for a channel's subscription.
#[derive(Debug, PartialEq, Eq)]
pub enum SubscribeProgress {
    /// Make this call and hand back the answer.
    Ask(UpstreamRequest),
    /// Nothing more: the broadcaster id, or why the subscription failed.
    Done(Result<String, SubscribeError>),
}

/// What a `SubscribeProgress` holds, as plain values.
pub enum SubscribeProgressView {
    Ask(UpstreamRequestView),
    Done(Result<Seq<char>, SubscribeError>),
}

impl View for SubscribeProgress {
    type V = SubscribeProgressView;

    open spec fn view(&self) -> SubscribeProgressView {
        match *self {
            SubscribeProgress::Ask(request) => SubscribeProgressView::Ask(request@),
            SubscribeProgress::Done(Ok(id)) => SubscribeProgressView::Done(Ok(id@)),
            SubscribeProgress::Done(Err(error)) => SubscribeProgressView::Done(Err(error)),
        }
    }
}

/// The step that follows an answer.
///
/// A resolved channel is checked for an existing online subscription. If
/// there is one, nothing is created. Otherwise the online subscription is
/// created and then the offline one; the first failure ends the attempt,
/// and what was created stays. An answer to a call that is not awaited
/// changes nothing.
pub open spec fn next_step(step: SubscribeStepView, reply: UpstreamReplyView) -> SubscribeStepView {
    match (step, reply) {
        (SubscribeStepView::Resolving, UpstreamReplyView::Resolved(Ok(broadcaster_id))) => {
            SubscribeStepView::Checking { broadcaster_id }
        },
        (SubscribeStepView::Resolving, UpstreamReplyView::Resolved(Err(error))) => {
            SubscribeStepView::Done(Err(SubscribeError::Lookup(error)))
        },
        (SubscribeStepView::Checking { broadcaster_id }, UpstreamReplyView::Existing(true)) => {
            SubscribeStepView::Done(Ok(broadcaster_id))
        },
        (SubscribeStepView::Checking { broadcaster_id }, UpstreamReplyView::Existing(false)) => {
            SubscribeStepView::Creating { kind: EventKind::Online, broadcaster_id }
        },
        (
            SubscribeStepView::Creating { kind: EventKind::Online, broadcaster_id },
            UpstreamReplyView::Created(Ok(())),
        ) => SubscribeStepView::Creating { kind: EventKind::Offline, broadcaster_id },
        (
            SubscribeStepView::Creating { kind: EventKind::Offline, broadcaster_id },
            UpstreamReplyView::Created(Ok(())),
        ) => SubscribeStepView::Done(Ok(broadcaster_id)),
        (SubscribeStepView::Creating { kind, broadcaster_id }, UpstreamReplyView::Created(Err(error))) => {
            SubscribeStepView::Done(Err(SubscribeError::Create { kind, error }))
        },
        _ => step,
    }
}

/// What a step asks of the caller.
pub open spec fn progress_at(
    channel: Seq<char>,
    session_id: Seq<char>,
    step: SubscribeStepView,
) -> SubscribeProgressView {
    match step {
        SubscribeStepView::Resolving => SubscribeProgressView::Ask(
            UpstreamRequestView::Resolve { channel },
        ),
        SubscribeStepView::Checking { broadcaster_id } => SubscribeProgressView::Ask(
            UpstreamRequestView::CheckExisting { broadcaster_id },
        ),
        SubscribeStepView::Creating { kind, broadcaster_id } => SubscribeProgressView::Ask(
            UpstreamRequestView::Create(subscription_for(kind, broadcaster_id, session_id)),
        ),
        SubscribeStepView::Done(outcome) => SubscribeProgressView::Done(outcome),
    }
}

/// Computes the step that follows an answer.
pub fn advance_step(step: SubscribeStep, reply: UpstreamReply) -> (next: SubscribeStep)
    ensures
        next@ == next_step(step@, reply@),
{
    match (step, reply) {
        (SubscribeStep::Resolving, UpstreamReply::Resolved(Ok(broadcaster_id))) => {
            SubscribeStep::Checking { broadcaster_id }
        },
        (SubscribeStep::Resolving, UpstreamReply::Resolved(Err(error))) => {
            SubscribeStep::Done(Err(SubscribeError::Lookup(error)))
        },
        (SubscribeStep::Checking { broadcaster_id }, UpstreamReply::Existing(true)) => {
            SubscribeStep::Done(Ok(broadcaster_id))
        },
        (SubscribeStep::Checking { broadcaster_id }, UpstreamReply::Existing(false)) => {
            SubscribeStep::Creating { kind: EventKind::Online, broadcaster_id }
        },
        (
            SubscribeStep::Creating { kind: EventKind::Online, broadcaster_id },
            UpstreamReply::Created(Ok(())),
        ) => SubscribeStep::Creating { kind: EventKind::Offline, broadcaster_id },
        (
            SubscribeStep::Creating { kind: EventKind::Offline, broadcaster_id },
            UpstreamReply::Created(Ok(())),
        ) => SubscribeStep::Done(Ok(broadcaster_id)),
        (SubscribeStep::Creating { kind, broadcaster_id }, UpstreamReply::Created(Err(error))) => {
            SubscribeStep::Done(Err(SubscribeError::Create { kind, error }))
        },
        (step, _) => step,
    }
}

/// Says what a step asks of the caller.
pub fn progress(channel: &str, session_id: &str, step: &SubscribeStep) -> (out: SubscribeProgress)
    ensures
        out@ == progress_at(channel@, session_id@, step@),
{
    match step {
        SubscribeStep::Resolving => SubscribeProgress::Ask(
            UpstreamRequest::Resolve { channel: String::from_str(channel) },
        ),
        SubscribeStep::Checking { broadcaster_id } => SubscribeProgress::Ask(
            UpstreamRequest::CheckExisting { broadcaster_id: broadcaster_id.clone() },
        ),
        SubscribeStep::Creating { kind, broadcaster_id } => SubscribeProgress::Ask(
            UpstreamRequest::Create(subscribe_to_event(*kind, broadcaster_id.as_str(), session_id)),
        ),
        SubscribeStep::Done(Ok(id)) => SubscribeProgress::Done(Ok(id.clone())),
        SubscribeStep::Done(Err(error)) => SubscribeProgress::Done(Err(*error)),
    }
}

/// The subscription of one channel to a session, under way.
#[derive(Debug, PartialEq, Eq)]
pub struct ChannelSubscriber {
    pub channel: String,
    pub session_id: String,
    pub step: SubscribeStep,
}

/// What a `ChannelSubscriber` holds, as plain values.
pub struct ChannelSubscriberView {
    pub channel: Seq<char>,
    pub session_id: Seq<char>,
    pub step: SubscribeStepView,
}

impl View for ChannelSubscriber {
    type V = ChannelSubscriberView;

    open spec fn view(&self) -> ChannelSubscriberView {
        ChannelSubscriberView {
            channel: self.channel@,
            session_id: self.session_id@,
            step: self.step@,
        }
    }
}

/// Starts subscribing one channel to a session: the first call resolves
/// the channel.
pub fn subscribe_single_channel(channel: &str, session_id: &str) -> (start: (
    ChannelSubscriber,
    SubscribeProgress,
))
    ensures
        start.0@ == (ChannelSubscriberView {
            channel: channel@,
            session_id: session_id@,
            step: SubscribeStepView::Resolving,
        }),
        start.1@ == SubscribeProgressView::Ask(UpstreamRequestView::Resolve { channel: channel@ }),
{
    let subscriber = ChannelSubscriber {
        channel: String::from_str(channel),
        session_id: String::from_str(session_id),
        step: SubscribeStep::Resolving,
    };
    let first = SubscribeProgress::Ask(UpstreamRequest::Resolve { channel: String::from_str(channel) });
    (subscriber, first)
}

impl ChannelSubscriber {
    /// Takes the upstream's answer and says what comes next.
    pub fn advance(self, reply: UpstreamReply) -> (next: (ChannelSubscriber, SubscribeProgress))
        ensures
            next.0@ == (ChannelSubscriberView {
                channel: self@.channel,
                session_id: self@.session_id,
                step: next_step(self@.step, reply@),
            }),
            next.1@ == progress_at(self@.channel, self@.session_id, next_step(self@.step, reply@)),
    {
        let ChannelSubscriber { channel, session_id, step } = self;
        let step = advance_step(step, reply);
        let out = progress(channel.as_str(), session_id.as_str(), &step);
        (ChannelSubscriber { channel, session_id, step }, out)
    }
}

/// The ids to delete so that no listed subscription is about the
/// broadcaster any more: the ids of the entries about it, in the order of
/// the listing. An entry without an id is passed over.
pub open spec fn ids_about(entries: Seq<SubscriptionEntryView>, broadcaster_id: Seq<char>) -> Seq<
    Seq<char>,
>
    decreases entries.len(),
{
    if entries.len() == 0 {
        Seq::empty()
    } else {
        let front = ids_about(entries.drop_last(), broadcaster_id);
        let entry = entries.last();
        if is_about(entry, broadcaster_id) && entry.id is Some {
            front.push(entry.id->0)
        } else {
            front
        }
    }
}

/// Picks from a listing the subscriptions to delete for a channel that is
/// no longer wanted. When nothing listed is about the broadcaster there is
/// nothing to delete, which is no failure.
pub fn unsubscribe_single_channel(listing: &serde_json::Value, broadcaster_id: &str) -> (ids: Vec<
    String,
>)
    ensures
        texts_of(ids@) == ids_about(entries_in(*listing), broadcaster_id@),
{
    let entries = list_subscriptions(listing);
    let mut ids: Vec<String> = Vec::new();
    let mut i: usize = 0;
    assert(entries_view(entries@).take(0) =~= Seq::empty());
    assert(texts_of(ids@) =~= Seq::empty());
    while i < entries.len()
        invariant
            i <= entries@.len(),
            entries_view(entries@) == entries_in(*listing),
            texts_of(ids@) == ids_about(entries_view(entries@).take(i as int), broadcaster_id@),
        decreases entries@.len() - i,
    {
        let ghost before = texts_of(ids@);
        let ghost all = entries_view(entries@);
        assert(all.take(i + 1).drop_last() =~= all.take(i as int));
        assert(all.take(i + 1).last() == entries@[i as int]@);
        let entry = &entries[i];
        if entry_is_about(entry, broadcaster_id) {
            match &entry.id {
                Some(id) => {
                    ids.push(id.clone());
                    assert(texts_of(ids@) =~= before.push(id@));
                },
                None => {},
            }
        }
        i += 1;
    }
    assert(entries_view(entries@).take(entries@.len() as int) =~= entries_view(entries@));
    ids
}

/// Unsubscribing a channel that has no subscription deletes nothing.
pub proof fn lemma_nothing_to_unsubscribe(
    entries: Seq<SubscriptionEntryView>,
    broadcaster_id: Seq<char>,
)
    requires
        !lists_broadcaster(entries, broadcaster_id),
    ensures
        ids_about(entries, broadcaster_id) == Seq::<Seq<char>>::empty(),
    decreases entries.len(),
{
    if entries.len() > 0 {
        let front = entries.drop_last();
        assert forall|i: int| 0 <= i < front.len() implies !is_about(
            #[trigger] front[i],
            broadcaster_id,
        ) by {
            assert(front[i] == entries[i]);
        }
        lemma_nothing_to_unsubscribe(front, broadcaster_id);
        assert(entries.last() == entries[entries.len() - 1]);
    }
}

/// Where a reconciliation pass stands within its current channel.
#[derive(Debug, PartialEq, Eq)]
pub enum PassStage {
    /// The channel is being subscribed.
    Subscribing(SubscribeStep),
    /// The channel did not resolve and is being taken off the list of
    /// wanted channels.
    Removing,
    /// The pause after the channel is under way.
    Pausing,
    /// Every channel has had its turn.
    Finished,
}

/// What a `PassStage` holds, as plain values.
pub enum PassStageView {
    Subscribing(SubscribeStepView),
    Removing,
    Pausing,
    Finished,
}

impl View for PassStage {
    type V = PassStageView;

    open spec fn view(&self) -> PassStageView {
        match *self {
            PassStage::Subscribing(step) => PassStageView::Subscribing(step@),
            PassStage::Removing => PassStageView::Removing,
            PassStage::Pausing => PassStageView::Pausing,
            PassStage::Finished => PassStageView::Finished,
        }
    }
}

/// What happened since the last action of a pass.
#[derive(Debug, PartialEq, Eq)]
pub enum ReconcileEvent {
    /// The upstream answered the call.
    Upstream(UpstreamReply),
    /// The channel has been taken off the list of wanted channels.
    Removed,
    /// The pause is over.
    Paused,
}

/// What a `ReconcileEvent` holds, as plain values.
pub enum ReconcileEventView {
    Upstream(UpstreamReplyView),
    Removed,
    Paused,
}

impl View for ReconcileEvent {
    type V = ReconcileEventView;

    open spec fn view(&self) -> ReconcileEventView {
        match *self {
            ReconcileEvent::Upstream(reply) => ReconcileEventView::Upstream(reply@),
            ReconcileEvent::Removed => ReconcileEventView::Removed,
            ReconcileEvent::Paused => ReconcileEventView::Paused,
        }
    }
}

/// What the caller is to do next in a pass.
#[derive(Debug, Clone, PartialEq, Eq)]
pub enum ReconcileAction {
    /// Make this call and report the answer.
    Upstream(UpstreamRequest),
    /// Take the channel off the list of wanted channels, then report
    /// `Removed`.
    RemoveChannel { channel: String },
    /// Wait this long, then report `Paused`.
    Pause { millis: u64 },
    /// The pass is over.
    Finished,
}

/// What a `ReconcileAction` holds, as plain values.
pub enum ReconcileActionView {
    Upstream(UpstreamRequestView),
    RemoveChannel { channel: Seq<char> },
    Pause { millis: u64 },
    Finished,
}

impl View for ReconcileAction {
    type V = ReconcileActionView;

    open spec fn view(&self) -> ReconcileActionView {
        match *self {
            ReconcileAction::Upstream(request) => ReconcileActionView::Upstream(request@),
            ReconcileAction::RemoveChannel { channel } => ReconcileActionView::RemoveChannel {
                channel: channel@,
            },
            ReconcileAction::Pause { millis } => ReconcileActionView::Pause { millis },
            ReconcileAction::Finished => ReconcileActionView::Finished,
        }
    }
}

/// A reconciliation pass: the wanted channels, the session they are
/// subscribed to, the channel whose turn it is, and how far it has come.
#[derive(Debug, PartialEq, Eq)]
pub struct Reconciler {
    pub channels: Vec<String>,
    pub session_id: String,
    pub position: usize,
    pub stage: PassStage,
}

/// What a `Reconciler` holds, as plain values.
pub struct ReconcilerView {
    pub channels: Seq<Seq<char>>,
    pub session_id: Seq<char>,
    pub position: nat,
    pub stage: PassStageView,
}

impl View for Reconciler {
    type V = ReconcilerView;

    open spec fn view(&self) -> ReconcilerView {
        ReconcilerView {
            channels: texts_of(self.channels@),
            session_id: self.session_id@,
            position: self.position as nat,
            stage: self.stage@,
        }
    }
}

/// Until a pass is finished a channel has the turn, and a channel whose
/// subscription is done is not held as still subscribing.
pub open spec fn pass_wf(pass: ReconcilerView) -> bool {
    match pass.stage {
        PassStageView::Finished => true,
        PassStageView::Subscribing(step) => pass.position < pass.channels.len() && !(step is Done),
        _ => pass.position < pass.channels.len(),
    }
}

/// The pass at its start: finished at once when no channel is wanted,
/// else resolving the first.
pub open spec fn initial_pass(channels: Seq<Seq<char>>, session_id: Seq<char>) -> ReconcilerView {
    ReconcilerView {
        channels,
        session_id,
        position: 0,
        stage: if channels.len() == 0 {
            PassStageView::Finished
        } else {
            PassStageView::Subscribing(SubscribeStepView::Resolving)
        },
    }
}

/// The stage that follows a step of the channel's subscription. A channel
/// that did not resolve is removed; one that is done, for better or worse,
/// is followed by the pause.
pub open spec fn stage_after(step: SubscribeStepView) -> PassStageView {
    match step {
        SubscribeStepView::Done(Err(SubscribeError::Lookup(_))) => PassStageView::Removing,
        SubscribeStepView::Done(_) => PassStageView::Pausing,
        _ => PassStageView::Subscribing(step),
    }
}

/// The pass after an event. The channels take their turns in order, each
/// followed by a pause. An event that is not awaited changes nothing.
pub open spec fn next_pass(pass: ReconcilerView, event: ReconcileEventView) -> ReconcilerView {
    match (pass.stage, event) {
        (PassStageView::Subscribing(step), ReconcileEventView::Upstream(reply)) => ReconcilerView {
            stage: stage_after(next_step(step, reply)),
            ..pass
        },
        (PassStageView::Removing, ReconcileEventView::Removed) => ReconcilerView {
            stage: PassStageView::Pausing,
            ..pass
        },
        (PassStageView::Pausing, ReconcileEventView::Paused) => if pass.position + 1
            < pass.channels.len() {
            ReconcilerView {
                position: pass.position + 1,
                stage: PassStageView::Subscribing(SubscribeStepView::Resolving),
                ..pass
            }
        } else {
            ReconcilerView { stage: PassStageView::Finished, ..pass }
        },
        _ => pass,
    }
}

/// What a pass asks of the caller where it stands.
pub open spec fn action_at(pass: ReconcilerView) -> ReconcileActionView
    recommends
        pass_wf(pass),
{
    match pass.stage {
        PassStageView::Subscribing(step) => match progress_at(
            pass.channels[pass.position as int],
            pass.session_id,
            step,
        ) {
            SubscribeProgressView::Ask(request) => ReconcileActionView::Upstream(request),
            SubscribeProgressView::Done(_) => ReconcileActionView::Pause {
                millis: RATE_LIMIT_DELAY_MS,
            },
        },
        PassStageView::Removing => ReconcileActionView::RemoveChannel {
            channel: pass.channels[pass.position as int],
        },
        PassStageView::Pausing => ReconcileActionView::Pause { millis: RATE_LIMIT_DELAY_MS },
        PassStageView::Finished => ReconcileActionView::Finished,
    }
}

/// Starts a pass that subscribes the wanted channels to a session.
pub fn subscribe_to_channels(channels: Vec<String>, session_id: &str) -> (start: (
    Reconciler,
    ReconcileAction,
))
    ensures
        start.0@ == initial_pass(texts_of(channels@), session_id@),
        pass_wf(start.0@),
        start.1@ == action_at(start.0@),
{
    let stage = if channels.len() == 0 {
        PassStage::Finished
    } else {
        PassStage::Subscribing(SubscribeStep::Resolving)
    };
    let pass = Reconciler { channels, session_id: String::from_str(session_id), position: 0, stage };
    let action = pass.action();
    (pass, action)
}

impl Reconciler {
    /// Tells whether the pass is well formed, as every pass is that came
    /// from `subscribe_to_channels` and `advance`.
    pub fn is_well_formed(&self) -> (ok: bool)
        ensures
            ok == pass_wf(self@),
    {
        let in_range = self.position < self.channels.len();
        match &self.stage {
            PassStage::Finished => true,
            PassStage::Subscribing(SubscribeStep::Done(_)) => false,
            _ => in_range,
        }
    }

    /// What the pass asks of the caller where it stands.
    pub fn action(&self) -> (action: ReconcileAction)
        requires
            pass_wf(self@),
        ensures
            action@ == action_at(self@),
    {
        match &self.stage {
            PassStage::Subscribing(step) => {
                let channel = &self.channels[self.position];
                match progress(channel.as_str(), self.session_id.as_str(), step) {
                    SubscribeProgress::Ask(request) => ReconcileAction::Upstream(request),
                    SubscribeProgress::Done(_) => ReconcileAction::Pause {
                        millis: RATE_LIMIT_DELAY_MS,
                    },
                }
            },
            PassStage::Removing => ReconcileAction::RemoveChannel {
                channel: self.channels[self.position].clone(),
            },
            PassStage::Pausing => ReconcileAction::Pause { millis: RATE_LIMIT_DELAY_MS },
            PassStage::Finished => ReconcileAction::Finished,
        }
    }

    /// Takes one event and answers with the pass that follows and the
    /// action it calls for.
    pub fn advance(self, event: ReconcileEvent) -> (next: (Reconciler, ReconcileAction))
        requires
            pass_wf(self@),
        ensures
            next.0@ == next_pass(self@, event@),
            pass_wf(next.0@),
            next.1@ == action_at(next.0@),
    {
        let Reconciler { channels, session_id, position, stage } = self;
        let ghost before = ReconcilerView {
            channels: texts_of(channels@),
            session_id: session_id@,
            position: position as nat,
            stage: stage@,
        };
        let (position, stage) = match (stage, event) {
            (PassStage::Subscribing(step), ReconcileEvent::Upstream(reply)) => {
                let step = advance_step(step, reply);
                let stage = match step {
                    SubscribeStep::Done(Err(SubscribeError::Lookup(_))) => PassStage::Removing,
                    SubscribeStep::Done(_) => PassStage::Pausing,
                    other => PassStage::Subscribing(other),
                };
                (position, stage)
            },
            (PassStage::Removing, ReconcileEvent::Removed) => (position, PassStage::Pausing),
            (PassStage::Pausing, ReconcileEvent::Paused) => {
                let total = channels.len();
                assert(position < total);
                if position + 1 < total {
                    (position + 1, PassStage::Subscribing(SubscribeStep::Resolving))
                } else {
                    (position, PassStage::Finished)
                }
            },
            (stage, _) => (position, stage),
        };
        let pass = Reconciler { channels, session_id, position, stage };
        assert(pass@ == next_pass(before, event@));
        let action = pass.action();
        (pass, action)
    }
}

/// A channel that does not resolve is taken off the list and nothing is
/// asked of the upstream for it: the lookup's failure is answered by the
/// removal of that channel, and the removal by the pause that ends the
/// channel's turn.
pub proof fn lemma_unresolved_channel_is_removed(pass: ReconcilerView, error: LookupError)
    requires
        pass_wf(pass),
        pass.stage == PassStageView::Subscribing(SubscribeStepView::Resolving),
    ensures
        ({
            let failed = next_pass(
                pass,
                ReconcileEventView::Upstream(UpstreamReplyView::Resolved(Err(error))),
            );
            let removed = next_pass(failed, ReconcileEventView::Removed);
            &&& action_at(failed) == ReconcileActionView::RemoveChannel {
                channel: pass.channels[pass.position as int],
            }
            &&& action_at(removed) == ReconcileActionView::Pause { millis: RATE_LIMIT_DELAY_MS }
            &&& removed.position == pass.position
        }),
{
}

/// A pass keeps its channels and its session, never goes back, and a
/// channel whose turn it is stays until its pause is over.
pub proof fn lemma_pass_moves_forward(pass: ReconcilerView, event: ReconcileEventView)
    requires
        pass_wf(pass),
    ensures
        ({
            let next = next_pass(pass, event);
            &&& pass_wf(next)
            &&& next.channels == pass.channels
            &&& next.session_id == pass.session_id
            &&& next.position == pass.position || (next.position == pass.position + 1
                && pass.stage is Pausing && event is Paused)
            &&& pass.stage is Finished ==> next == pass
        }),
{
}

} // verus!
