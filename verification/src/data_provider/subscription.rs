//! The registry of subscribers and the fanout of notifications.

use super::persist::DataPersistError;
use super::wiki::WikiResource;
use crate::interface::SubscribeBody;
use vstd::prelude::*;

verus! {

/// `reqwest::Error`, carried as a value that is not looked into.
#[verifier::external_type_specification]
#[verifier::external_body]
pub struct ExReqwestError(reqwest::Error);

/// The longest time that a subscription can last, in seconds: one day.
pub const DAY: u64 = 86400;

/// The key under which the store keeps the subscribers.
pub const SUBSCRIPTIONS_KEY: &'static str =
    "std::collections::hash::map::HashMap<alloc::string::String, mona_spy::data_provider::subscription::Subscrition>";

/// What is kept of a subscriber under its id.
#[derive(Debug, PartialEq, Eq)]
pub struct Subscrition {
    pub uri: String,
    pub token: Option<String>,
    pub expiration: u64,
}

/// The body of a request to a subscriber: a notification where `resource` is
/// set, the handshake of a new subscription where it is not.
#[derive(Debug, PartialEq, Eq)]
pub struct PushBody<T> {
    pub id: String,
    pub token: Option<String>,
    pub expiration: u64,
    pub resource: Option<T>,
    /// Says which kind of resource `resource` is.
    pub resource_type: Option<String>,
}

/// What a request asks of the subscriber that receives it.
#[derive(Debug, Clone, Copy, PartialEq, Eq, Structural)]
pub enum PushKind {
    /// To answer the handshake of a new subscription.
    Sync,
    /// To take note of what a resource of the expected kind has gained.
    Update,
    /// Nothing that the subscriber knows of: the resource is of another kind.
    Unknown,
}

impl<T> PushBody<T> {
    /// What the request asks of a subscriber that expects resources of the
    /// kind `R`: bodies without a kind are handshakes, bodies of the kind of
    /// `R` are updates.
    pub fn kind<R: WikiResource>(&self) -> (kind: PushKind)
        ensures
            kind == (match self.resource_type {
                None => PushKind::Sync,
                Some(name) => if name@ == R::resource_type_spec() {
                    PushKind::Update
                } else {
                    PushKind::Unknown
                },
            }),
    {
        match &self.resource_type {
            None => PushKind::Sync,
            Some(name) => if crate::text::same(name.as_str(), R::resource_type()) {
                PushKind::Update
            } else {
                PushKind::Unknown
            },
        }
    }
}

/// The answer of a subscriber to the handshake.
#[derive(Debug, PartialEq, Eq)]
pub struct PushResponse {
    pub id: String,
}

/// Why a subscription was rejected.
#[derive(Debug)]
pub enum SubscritionError {
    /// The address did not answer the handshake, or not in the expected form.
    SyncError(reqwest::Error),
    /// The address answered the handshake with another id.
    DifferentIdSyncError,
    /// The handshake succeeded but the subscription could not be stored.
    DataPersistError(DataPersistError),
}

impl SubscritionError {
    /// The text shown for the error.
    pub fn message(&self) -> (text: String)
        ensures
            text@ == (match *self {
                SubscritionError::DataPersistError(_) => "Error: The Subscription wasn't saved"@,
                _ => "Error: The provided URL didn't respond the request with the provided ID"@,
            }),
    {
        match self {
            SubscritionError::DataPersistError(_) => String::from_str(
                "Error: The Subscription wasn't saved",
            ),
            _ => String::from_str(
                "Error: The provided URL didn't respond the request with the provided ID",
            ),
        }
    }

    /// The HTTP status that answers a rejected subscription.
    pub fn status_code(&self) -> (code: u16)
        ensures
            code == 400,
    {
        400
    }
}

/// The expiration that is stored for a subscription made at `now`: the
/// requested one, or a day from `now` where none was requested, brought into
/// the range from `now` to a day from `now`.
pub open spec fn clamped_expiration(requested: Option<u64>, now: u64) -> int {
    let latest = now + DAY;
    let wanted = match requested {
        Some(timestamp) => timestamp as int,
        None => latest,
    };
    if wanted > latest {
        latest
    } else if wanted < now {
        now as int
    } else {
        wanted
    }
}

/// The expiration that is stored for a subscription made at `now`.
pub fn clamp_expiration(requested: Option<u64>, now: u64) -> (expiration: u64)
    requires
        now + DAY <= u64::MAX,
    ensures
        expiration == clamped_expiration(requested, now),
        now <= expiration <= now + DAY,
{
    let latest = now + DAY;
    let wanted = match requested {
        Some(timestamp) => timestamp,
        None => latest,
    };
    if wanted > latest {
        latest
    } else if wanted < now {
        now
    } else {
        wanted
    }
}

/// The stored expiration never lies before the subscription nor more than a
/// day after it. A request beyond that day gives the day, a request in the
/// past gives the time of the subscription, a request in between is kept, and
/// no request gives the day.
pub proof fn lemma_expiration_is_clamped(requested: Option<u64>, now: u64)
    ensures
        now <= clamped_expiration(requested, now) <= now + DAY,
        requested is None ==> clamped_expiration(requested, now) == now + DAY,
        requested is Some && requested.unwrap() >= now + DAY ==> clamped_expiration(
            requested,
            now,
        ) == now + DAY,
        requested is Some && requested.unwrap() <= now ==> clamped_expiration(requested, now)
            == now,
        requested is Some && now <= requested.unwrap() <= now + DAY ==> clamped_expiration(
            requested,
            now,
        ) == requested.unwrap(),
{
}

/// A copy of an optional string.
fn clone_token(token: &Option<String>) -> (copy: Option<String>)
    ensures
        copy == *token,
{
    match token {
        Some(text) => Some(text.clone()),
        None => None,
    }
}

/// The position of the entry of the given id, if there is one.
pub open spec fn position_of(entries: Seq<(String, Subscrition)>, id: Seq<char>) -> Option<int> {
    if exists|i: int| 0 <= i < entries.len() && entries[i].0@ == id {
        Some(choose|i: int| 0 <= i < entries.len() && entries[i].0@ == id)
    } else {
        None
    }
}

/// The entries after an insertion: an entry of the same id is replaced where
/// it stands, a new id is added at the end.
pub open spec fn inserted(
    entries: Seq<(String, Subscrition)>,
    id: String,
    subscription: Subscrition,
) -> Seq<(String, Subscrition)> {
    match position_of(entries, id@) {
        Some(i) => entries.update(i, (id, subscription)),
        None => entries.push((id, subscription)),
    }
}

/// No two entries have the same id.
pub open spec fn distinct_ids(entries: Seq<(String, Subscrition)>) -> bool {
    forall|i: int, j: int| 0 <= i < j < entries.len() ==> entries[i].0@ != entries[j].0@
}

/// The mapping from ids to subscriptions that the entries stand for.
pub open spec fn mapping(entries: Seq<(String, Subscrition)>) -> Map<Seq<char>, Subscrition> {
    Map::new(
        |id: Seq<char>| position_of(entries, id) is Some,
        |id: Seq<char>| entries[position_of(entries, id).unwrap()].1,
    )
}

/// The subscribers, each under its own id.
#[derive(Debug)]
pub struct Subscriptions {
    entries: Vec<(String, Subscrition)>,
}

impl View for Subscriptions {
    type V = Map<Seq<char>, Subscrition>;

    open spec fn view(&self) -> Map<Seq<char>, Subscrition> {
        mapping(self.entries())
    }
}

impl Subscriptions {
    /// The entries never hold an id twice.
    #[verifier::type_invariant]
    pub closed spec fn wf(self) -> bool {
        distinct_ids(self.entries@)
    }

    /// The entries, in the order in which their ids were first inserted.
    pub closed spec fn entries(self) -> Seq<(String, Subscrition)> {
        self.entries@
    }

    /// No subscribers.
    pub fn new() -> (subscriptions: Subscriptions)
        ensures
            subscriptions.entries() == Seq::<(String, Subscrition)>::empty(),
            subscriptions.wf(),
    {
        Subscriptions { entries: Vec::new() }
    }

    /// The number of subscribers.
    pub fn len(&self) -> (len: usize)
        ensures
            len == self.entries().len(),
    {
        self.entries.len()
    }

    /// The id of the entry at a position.
    pub fn id(&self, position: usize) -> (id: &String)
        requires
            position < self.entries().len(),
        ensures
            *id == self.entries()[position as int].0,
    {
        &self.entries[position].0
    }

    /// The subscription of the entry at a position.
    pub fn subscription(&self, position: usize) -> (subscription: &Subscrition)
        requires
            position < self.entries().len(),
        ensures
            *subscription == self.entries()[position as int].1,
    {
        &self.entries[position].1
    }

    /// The subscription that is kept under an id.
    pub fn get(&self, id: &str) -> (found: Option<&Subscrition>)
        ensures
            (match found {
                Some(subscription) => self@.contains_key(id@) && *subscription == self@[id@],
                None => !self@.contains_key(id@),
            }),
    {
        proof {
            use_type_invariant(self);
        }
        let mut i: usize = 0;
        while i < self.entries.len()
            invariant
                i <= self.entries.len(),
                self.wf(),
                forall|j: int| 0 <= j < i ==> self.entries@[j].0@ != id@,
            decreases self.entries.len() - i,
        {
            if crate::text::same(self.entries[i].0.as_str(), id) {
                proof {
                    lemma_position(self.entries@, i as int);
                }
                return Some(&self.entries[i].1);
            }
            i = i + 1;
        }
        None
    }

    /// Keeps `subscription` under `id`, in place of what was kept under that
    /// id before.
    #[verifier::loop_isolation(false)]
    pub fn insert(self, id: String, subscription: Subscrition) -> (updated: Subscriptions)
        ensures
            updated.wf(),
            updated.entries() == inserted(self.entries(), id, subscription),
            updated@ == self@.insert(id@, subscription),
    {
        proof {
            use_type_invariant(&self);
            lemma_inserted(self.entries@, id, subscription);
        }
        let ghost before = self.entries@;
        let mut entries = self.entries;
        let mut i: usize = 0;
        while i < entries.len()
            invariant
                i <= entries.len(),
                entries@ == before,
                forall|j: int| 0 <= j < i ==> entries@[j].0@ != id@,
            decreases entries.len() - i,
        {
            if entries[i].0 == id {
                proof {
                    lemma_position(before, i as int);
                }
                entries.set(i, (id, subscription));
                return Subscriptions { entries };
            }
            i = i + 1;
        }
        entries.push((id, subscription));
        Subscriptions { entries }
    }
}

/// The body of the handshake request for a new subscription.
pub fn sync_body(subscribe_body: &SubscribeBody, expiration: u64) -> (body: PushBody<()>)
    ensures
        body == (PushBody::<()> {
            id: subscribe_body.id,
            token: subscribe_body.token,
            expiration,
            resource: None,
            resource_type: None,
        }),
{
    PushBody {
        id: subscribe_body.id.clone(),
        token: clone_token(&subscribe_body.token),
        expiration,
        resource: None,
        resource_type: None,
    }
}

/// What the answer to the handshake means for a subscription: it goes on
/// where the address answered with the id of the request.
pub open spec fn sync_outcome(
    subscribe_body: SubscribeBody,
    response: Result<PushResponse, reqwest::Error>,
) -> Result<(), SubscritionError> {
    match response {
        Err(error) => Err(SubscritionError::SyncError(error)),
        Ok(answer) => if answer.id@ == subscribe_body.id@ {
            Ok(())
        } else {
            Err(SubscritionError::DifferentIdSyncError)
        },
    }
}

/// Judges the answer of an address to the handshake. `response` is what the
/// request brought back: the decoded answer, or the failure of the transport
/// or of the decoding.
pub fn try_sync(subscribe_body: &SubscribeBody, response: Result<PushResponse, reqwest::Error>) -> (outcome:
    Result<(), SubscritionError>)
    ensures
        outcome == sync_outcome(*subscribe_body, response),
{
    match response {
        Err(error) => Err(SubscritionError::SyncError(error)),
        Ok(answer) => if answer.id == subscribe_body.id {
            Ok(())
        } else {
            Err(SubscritionError::DifferentIdSyncError)
        },
    }
}

/// How far a subscription has come.
#[derive(Debug)]
pub enum SubscribeState {
    /// The handshake was sent and its answer is awaited.
    AwaitingSync { body: SubscribeBody, expiration: u64 },
    /// The handshake succeeded and the stored subscribers are awaited.
    AwaitingSubscriptions { body: SubscribeBody, expiration: u64 },
    /// The subscribers were handed over to be stored.
    AwaitingSave,
    /// The subscription was accepted or rejected.
    Finished,
}

/// What happened outside since the last action.
#[derive(Debug)]
pub enum SubscribeEvent {
    /// The handshake request came back.
    Synced(Result<PushResponse, reqwest::Error>),
    /// The store was read; `None` where it holds no subscribers or could not
    /// be read.
    Loaded(Option<Subscriptions>),
    /// The store was written, or could not be.
    Saved(Result<(), DataPersistError>),
}

/// What is to be done next for a subscription.
#[derive(Debug)]
pub enum SubscribeAction {
    /// Nothing: the event was not the awaited one.
    Wait,
    /// Send `body` to `uri` and hand back the answer.
    Sync { uri: String, body: PushBody<()> },
    /// Read the subscribers that the store keeps under `key`.
    Load { key: &'static str },
    /// Write the subscribers to the store under `key`.
    Save { key: &'static str, subscriptions: Subscriptions },
    /// Answer the caller.
    Finish(Result<(), SubscritionError>),
}

/// The entries that the store gave, none where it gave nothing.
pub open spec fn loaded_entries(stored: Option<Subscriptions>) -> Seq<(String, Subscrition)> {
    match stored {
        Some(subscriptions) => subscriptions.entries(),
        None => Seq::empty(),
    }
}

/// Begins a subscription at the time `now`, in seconds since the epoch: the
/// expiration is fixed and the handshake is to be sent.
pub fn subscribe(body: SubscribeBody, now: u64) -> (begun: (SubscribeState, SubscribeAction))
    requires
        now + DAY <= u64::MAX,
    ensures
        begun.0 == (SubscribeState::AwaitingSync {
            body,
            expiration: clamped_expiration(body.expiration, now) as u64,
        }),
        begun.1 == (SubscribeAction::Sync {
            uri: body.uri,
            body: PushBody::<()> {
                id: body.id,
                token: body.token,
                expiration: clamped_expiration(body.expiration, now) as u64,
                resource: None,
                resource_type: None,
            },
        }),
{
    let expiration = clamp_expiration(body.expiration, now);
    let uri = body.uri.clone();
    let request = sync_body(&body, expiration);
    (SubscribeState::AwaitingSync { body, expiration }, SubscribeAction::Sync { uri, body: request })
}

impl SubscribeState {
    /// Whether `next` and `action` are what follows this state on `event`.
    ///
    /// A failed or mismatched handshake rejects the subscription before the
    /// store is touched. After a good handshake the stored subscribers are
    /// read, the new one is put in place of any of the same id, and all are
    /// written back. An event that is not awaited changes nothing.
    pub open spec fn step(
        self,
        event: SubscribeEvent,
        next: SubscribeState,
        action: SubscribeAction,
    ) -> bool {
        match (self, event) {
            (SubscribeState::AwaitingSync { body, expiration }, SubscribeEvent::Synced(response)) => {
                match sync_outcome(body, response) {
                    Ok(_) => {
                        &&& next == SubscribeState::AwaitingSubscriptions { body, expiration }
                        &&& action == SubscribeAction::Load { key: SUBSCRIPTIONS_KEY }
                    },
                    Err(error) => {
                        &&& next == SubscribeState::Finished
                        &&& action == SubscribeAction::Finish(Err(error))
                    },
                }
            },
            (
                SubscribeState::AwaitingSubscriptions { body, expiration },
                SubscribeEvent::Loaded(stored),
            ) => {
                &&& next == SubscribeState::AwaitingSave
                &&& action matches SubscribeAction::Save { key, subscriptions }
                &&& key == SUBSCRIPTIONS_KEY
                &&& subscriptions.wf()
                &&& subscriptions.entries() == inserted(
                    loaded_entries(stored),
                    body.id,
                    Subscrition { uri: body.uri, token: body.token, expiration },
                )
            },
            (SubscribeState::AwaitingSave, SubscribeEvent::Saved(Ok(_))) => {
                &&& next == SubscribeState::Finished
                &&& action == SubscribeAction::Finish(Ok(()))
            },
            (SubscribeState::AwaitingSave, SubscribeEvent::Saved(Err(error))) => {
                &&& next == SubscribeState::Finished
                &&& action == SubscribeAction::Finish(
                    Err(SubscritionError::DataPersistError(error)),
                )
            },
            _ => next == self && action == SubscribeAction::Wait,
        }
    }

    /// Takes the subscription one step further on an event.
    pub fn next(self, event: SubscribeEvent) -> (then: (SubscribeState, SubscribeAction))
        ensures
            self.step(event, then.0, then.1),
    {
        match self {
            SubscribeState::AwaitingSync { body, expiration } => match event {
                SubscribeEvent::Synced(response) => match try_sync(&body, response) {
                    Ok(_) => (
                        SubscribeState::AwaitingSubscriptions { body, expiration },
                        SubscribeAction::Load { key: SUBSCRIPTIONS_KEY },
                    ),
                    Err(error) => (SubscribeState::Finished, SubscribeAction::Finish(Err(error))),
                },
                _ => (SubscribeState::AwaitingSync { body, expiration }, SubscribeAction::Wait),
            },
            SubscribeState::AwaitingSubscriptions { body, expiration } => match event {
                SubscribeEvent::Loaded(stored) => {
                    let subscriptions = match stored {
                        Some(subscriptions) => subscriptions,
                        None => Subscriptions::new(),
                    };
                    let subscription = Subscrition {
                        uri: body.uri,
                        token: body.token,
                        expiration,
                    };
                    let subscriptions = subscriptions.insert(body.id, subscription);
                    (
                        SubscribeState::AwaitingSave,
                        SubscribeAction::Save { key: SUBSCRIPTIONS_KEY, subscriptions },
                    )
                },
                _ => (
                    SubscribeState::AwaitingSubscriptions { body, expiration },
                    SubscribeAction::Wait,
                ),
            },
            SubscribeState::AwaitingSave => match event {
                SubscribeEvent::Saved(Ok(_)) => (
                    SubscribeState::Finished,
                    SubscribeAction::Finish(Ok(())),
                ),
                SubscribeEvent::Saved(Err(error)) => (
                    SubscribeState::Finished,
                    SubscribeAction::Finish(Err(SubscritionError::DataPersistError(error))),
                ),
                _ => (SubscribeState::AwaitingSave, SubscribeAction::Wait),
            },
            SubscribeState::Finished => (SubscribeState::Finished, SubscribeAction::Wait),
        }
    }
}

/// Whether the states and actions are those of a subscription that saw the
/// given events, one after the other.
pub open spec fn subscribed_in_turn(
    states: Seq<SubscribeState>,
    actions: Seq<SubscribeAction>,
    events: Seq<SubscribeEvent>,
) -> bool {
    &&& states.len() == events.len() + 1
    &&& actions.len() == events.len() + 1
    &&& forall|k: int|
        #![trigger events[k]]
        0 <= k < events.len() ==> states[k].step(events[k], states[k + 1], actions[k + 1])
}

/// A handshake that is answered with another id ends the subscription with
/// that error, whatever the store holds, and nothing is handed over to be
/// stored then or at any later time, whatever happens next: every later
/// event is answered with `Wait`.
pub proof fn lemma_mismatched_handshake_stores_nothing(
    body: SubscribeBody,
    expiration: u64,
    answer: PushResponse,
    states: Seq<SubscribeState>,
    actions: Seq<SubscribeAction>,
    events: Seq<SubscribeEvent>,
    k: int,
)
    requires
        answer.id@ != body.id@,
        subscribed_in_turn(states, actions, events),
        states[0] == (SubscribeState::AwaitingSync { body, expiration }),
        1 <= k <= events.len(),
        events[0] == SubscribeEvent::Synced(Ok(answer)),
    ensures
        actions[1] == SubscribeAction::Finish(Err(SubscritionError::DifferentIdSyncError)),
        states[k] == SubscribeState::Finished,
        k > 1 ==> actions[k] == SubscribeAction::Wait,
        !(actions[k] is Save),
    decreases k,
{
    let first = events[0];
    assert(states[0].step(first, states[1], actions[1]));
    if k > 1 {
        lemma_mismatched_handshake_stores_nothing(
            body,
            expiration,
            answer,
            states,
            actions,
            events,
            k - 1,
        );
        let event = events[k - 1];
        assert(states[k - 1].step(event, states[k], actions[k]));
    }
}

/// After a handshake that was answered with the id of the request, the
/// subscribers that are handed over to be stored are the stored ones with the
/// new subscription under its id, and its expiration lies within a day of the
/// time of the subscription.
pub proof fn lemma_good_handshake_stores_the_subscription(
    body: SubscribeBody,
    now: u64,
    answer: PushResponse,
    stored: Option<Subscriptions>,
    loading: SubscribeState,
    load: SubscribeAction,
    saving: SubscribeState,
    save: SubscribeAction,
)
    requires
        now + DAY <= u64::MAX,
        answer.id@ == body.id@,
        stored matches Some(subscriptions) ==> subscriptions.wf(),
        (SubscribeState::AwaitingSync {
            body,
            expiration: clamped_expiration(body.expiration, now) as u64,
        }).step(SubscribeEvent::Synced(Ok(answer)), loading, load),
        loading.step(SubscribeEvent::Loaded(stored), saving, save),
    ensures
        load == (SubscribeAction::Load { key: SUBSCRIPTIONS_KEY }),
        (save matches SubscribeAction::Save { key, subscriptions } && key == SUBSCRIPTIONS_KEY
            && subscriptions@ == mapping(loaded_entries(stored)).insert(
            body.id@,
            Subscrition {
                uri: body.uri,
                token: body.token,
                expiration: clamped_expiration(body.expiration, now) as u64,
            },
        ) && now <= subscriptions@[body.id@].expiration <= now + DAY),
{
    let subscription = Subscrition {
        uri: body.uri,
        token: body.token,
        expiration: clamped_expiration(body.expiration, now) as u64,
    };
    match stored {
        Some(subscriptions) => {
            assert(distinct_ids(subscriptions.entries()));
        },
        None => {},
    }
    lemma_inserted(loaded_entries(stored), body.id, subscription);
}

/// A subscription is stored only after a handshake that was answered with
/// the id of the request: the subscribers are handed over to be stored in no
/// other state than the one that such an answer leads to.
pub proof fn lemma_only_a_good_handshake_stores(
    state: SubscribeState,
    event: SubscribeEvent,
    next: SubscribeState,
    action: SubscribeAction,
)
    requires
        state.step(event, next, action),
    ensures
        action is Save ==> state is AwaitingSubscriptions && event is Loaded,
        next is AwaitingSubscriptions ==> state is AwaitingSubscriptions || (state matches SubscribeState::AwaitingSync {
            body,
            ..
        } && (event matches SubscribeEvent::Synced(Ok(answer)) && answer.id@ == body.id@)),
{
}

/// How far the fanout of a notification has come.
#[derive(Debug)]
pub enum NotifyState<T> {
    /// The stored subscribers are awaited.
    AwaitingSubscriptions { resource: T },
    /// The delivery to the subscriber at `position` is under way.
    Delivering { resource: T, subscriptions: Subscriptions, position: usize },
    /// Every subscriber had its delivery.
    Finished,
}

/// What happened outside since the last action of a fanout.
#[derive(Debug)]
pub enum NotifyEvent {
    /// The store was read; `None` where it holds no subscribers or could not
    /// be read.
    Loaded(Option<Subscriptions>),
    /// A delivery ended: with the status of the answer, or without an answer.
    Delivered(Result<u16, reqwest::Error>),
}

/// What is to be done next in a fanout.
#[derive(Debug)]
pub enum NotifyAction<T> {
    /// Nothing: the event was not the awaited one.
    Wait,
    /// Read the subscribers that the store keeps under `key`.
    Load { key: &'static str },
    /// Send `body` to `uri` and hand back how it went.
    Deliver { uri: String, body: PushBody<T> },
    /// Nothing is left to do.
    Finish,
}

/// Whether a delivery reached its subscriber: it was answered with status 200.
pub fn delivery_succeeded(outcome: &Result<u16, reqwest::Error>) -> (succeeded: bool)
    ensures
        succeeded == (*outcome matches Ok(status) && status == 200),
{
    match outcome {
        Ok(status) => *status == 200,
        Err(_) => false,
    }
}

/// Begins the fanout of what a resource has gained: the subscribers are to
/// be read.
pub fn notify<T: WikiResource>(resource: &T) -> (begun: (NotifyState<T>, NotifyAction<T>))
    ensures
        (begun.0 matches NotifyState::AwaitingSubscriptions { resource: kept } && kept@
            == resource@),
        begun.1 == (NotifyAction::<T>::Load { key: SUBSCRIPTIONS_KEY }),
{
    let kept = resource.clone();
    proof {
        T::lemma_clone(*resource, kept);
    }
    (
        NotifyState::AwaitingSubscriptions { resource: kept },
        NotifyAction::Load { key: SUBSCRIPTIONS_KEY },
    )
}

impl<T: WikiResource> NotifyState<T> {
    /// Whether `next` and `action` stand for the delivery to the subscriber at
    /// `position`: the body carries that subscriber's own id, token and
    /// expiration, the resource and the name of its kind. Past the last
    /// subscriber the fanout is finished.
    pub open spec fn delivers(
        resource: T,
        subscriptions: Subscriptions,
        position: int,
        next: NotifyState<T>,
        action: NotifyAction<T>,
    ) -> bool {
        if 0 <= position < subscriptions.entries().len() {
            let entry = subscriptions.entries()[position];
            &&& next == NotifyState::Delivering {
                resource,
                subscriptions,
                position: position as usize,
            }
            &&& action matches NotifyAction::Deliver { uri, body }
            &&& uri == entry.1.uri
            &&& body.id == entry.0
            &&& body.token == entry.1.token
            &&& body.expiration == entry.1.expiration
            &&& body.resource matches Some(sent)
            &&& sent@ == resource@
            &&& body.resource_type matches Some(name)
            &&& name@ == T::resource_type_spec()
        } else {
            next == NotifyState::<T>::Finished && action == NotifyAction::<T>::Finish
        }
    }

    /// Whether `next` and `action` are what follows this state on `event`.
    ///
    /// Without stored subscribers nothing is delivered. Otherwise the
    /// subscribers have their deliveries one after the other, in the order of
    /// the entries, and how a delivery went has no bearing on the next.
    pub open spec fn step(self, event: NotifyEvent, next: NotifyState<T>, action: NotifyAction<T>) -> bool {
        match (self, event) {
            (NotifyState::AwaitingSubscriptions { resource }, NotifyEvent::Loaded(None)) => {
                next == NotifyState::<T>::Finished && action == NotifyAction::<T>::Finish
            },
            (
                NotifyState::AwaitingSubscriptions { resource },
                NotifyEvent::Loaded(Some(subscriptions)),
            ) => Self::delivers(resource, subscriptions, 0, next, action),
            (
                NotifyState::Delivering { resource, subscriptions, position },
                NotifyEvent::Delivered(_),
            ) => Self::delivers(resource, subscriptions, position + 1, next, action),
            _ => next == self && action == NotifyAction::<T>::Wait,
        }
    }

    /// The delivery to the subscriber at `position`, or the end of the fanout.
    fn deliver(resource: T, subscriptions: Subscriptions, position: usize) -> (then: (
        NotifyState<T>,
        NotifyAction<T>,
    ))
        ensures
            Self::delivers(resource, subscriptions, position as int, then.0, then.1),
    {
        if position < subscriptions.len() {
            let sent = resource.clone();
            proof {
                T::lemma_clone(resource, sent);
            }
            let subscription = subscriptions.subscription(position);
            let uri = subscription.uri.clone();
            let body = PushBody {
                id: subscriptions.id(position).clone(),
                token: clone_token(&subscription.token),
                expiration: subscription.expiration,
                resource: Some(sent),
                resource_type: Some(String::from_str(T::resource_type())),
            };
            (
                NotifyState::Delivering { resource, subscriptions, position },
                NotifyAction::Deliver { uri, body },
            )
        } else {
            (NotifyState::Finished, NotifyAction::Finish)
        }
    }

    /// Takes the fanout one step further on an event.
    pub fn next(self, event: NotifyEvent) -> (then: (NotifyState<T>, NotifyAction<T>))
        ensures
            self.step(event, then.0, then.1),
    {
        match self {
            NotifyState::AwaitingSubscriptions { resource } => match event {
                NotifyEvent::Loaded(None) => (NotifyState::Finished, NotifyAction::Finish),
                NotifyEvent::Loaded(Some(subscriptions)) => Self::deliver(
                    resource,
                    subscriptions,
                    0,
                ),
                _ => (NotifyState::AwaitingSubscriptions { resource }, NotifyAction::Wait),
            },
            NotifyState::Delivering { resource, subscriptions, position } => match event {
                NotifyEvent::Delivered(_) => {
                    if position < subscriptions.len() {
                        Self::deliver(resource, subscriptions, position + 1)
                    } else {
                        (NotifyState::Finished, NotifyAction::Finish)
                    }
                },
                _ => (
                    NotifyState::Delivering { resource, subscriptions, position },
                    NotifyAction::Wait,
                ),
            },
            NotifyState::Finished => (NotifyState::Finished, NotifyAction::Wait),
        }
    }
}

/// How a delivery went has no bearing on the fanout: whatever follows one
/// outcome follows every other outcome too, and where a subscriber is left,
/// the delivery to the next one follows.
pub proof fn lemma_fanout_goes_on<T: WikiResource>(
    resource: T,
    subscriptions: Subscriptions,
    position: usize,
    outcome: Result<u16, reqwest::Error>,
    other: Result<u16, reqwest::Error>,
    next: NotifyState<T>,
    action: NotifyAction<T>,
)
    requires
        (NotifyState::Delivering { resource, subscriptions, position }).step(
            NotifyEvent::Delivered(outcome),
            next,
            action,
        ),
    ensures
        (NotifyState::Delivering { resource, subscriptions, position }).step(
            NotifyEvent::Delivered(other),
            next,
            action,
        ),
        position + 1 < subscriptions.entries().len() ==> (action matches NotifyAction::Deliver {
            uri,
            body,
        } && uri == subscriptions.entries()[position + 1].1.uri && body.id
            == subscriptions.entries()[position + 1].0),
        position + 1 >= subscriptions.entries().len() ==> action == NotifyAction::<T>::Finish,
{
}

/// Whether the states and actions are those of a fanout that saw the given
/// outcomes of its deliveries, one after the other.
pub open spec fn delivered_in_turn<T: WikiResource>(
    states: Seq<NotifyState<T>>,
    actions: Seq<NotifyAction<T>>,
    outcomes: Seq<Result<u16, reqwest::Error>>,
) -> bool {
    &&& states.len() == outcomes.len() + 1
    &&& actions.len() == outcomes.len() + 1
    &&& forall|k: int|
        #![trigger outcomes[k]]
        0 <= k < outcomes.len() ==> states[k].step(
            NotifyEvent::Delivered(outcomes[k]),
            states[k + 1],
            actions[k + 1],
        )
}

/// Every subscriber has its delivery, in the order of the entries and
/// whatever became of the deliveries before it; after the last one the fanout
/// is finished.
pub proof fn lemma_every_subscriber_has_its_delivery<T: WikiResource>(
    resource: T,
    subscriptions: Subscriptions,
    states: Seq<NotifyState<T>>,
    actions: Seq<NotifyAction<T>>,
    outcomes: Seq<Result<u16, reqwest::Error>>,
    k: int,
)
    requires
        delivered_in_turn(states, actions, outcomes),
        (NotifyState::AwaitingSubscriptions { resource }).step(
            NotifyEvent::Loaded(Some(subscriptions)),
            states[0],
            actions[0],
        ),
        0 <= k <= outcomes.len(),
        k <= subscriptions.entries().len(),
    ensures
        NotifyState::delivers(resource, subscriptions, k, states[k], actions[k]),
        k < subscriptions.entries().len() ==> (actions[k] matches NotifyAction::Deliver {
            uri,
            body,
        } && uri == subscriptions.entries()[k].1.uri && body.id == subscriptions.entries()[k].0),
        k == subscriptions.entries().len() ==> actions[k] == NotifyAction::<T>::Finish,
    decreases k,
{
    if k > 0 {
        lemma_every_subscriber_has_its_delivery(
            resource,
            subscriptions,
            states,
            actions,
            outcomes,
            k - 1,
        );
        let outcome = outcomes[k - 1];
        assert(states[k - 1].step(NotifyEvent::Delivered(outcome), states[k], actions[k]));
        assert(subscriptions.entries().len() == subscriptions.entries.len());
        assert(((k - 1) as usize) + 1 == k);
    }
}

/// Where ids are distinct, an entry stands at the position of its id.
pub proof fn lemma_position(entries: Seq<(String, Subscrition)>, i: int)
    requires
        distinct_ids(entries),
        0 <= i < entries.len(),
    ensures
        position_of(entries, entries[i].0@) == Some(i),
{
    let found = position_of(entries, entries[i].0@).unwrap();
    if found < i {
        assert(entries[found].0@ != entries[i].0@);
    } else if i < found {
        assert(entries[i].0@ != entries[found].0@);
    }
}

/// An insertion keeps the ids distinct and changes the mapping at the
/// inserted id only.
pub proof fn lemma_inserted(
    entries: Seq<(String, Subscrition)>,
    id: String,
    subscription: Subscrition,
)
    requires
        distinct_ids(entries),
    ensures
        distinct_ids(inserted(entries, id, subscription)),
        mapping(inserted(entries, id, subscription)) == mapping(entries).insert(
            id@,
            subscription,
        ),
{
    let after = inserted(entries, id, subscription);
    let at: int = match position_of(entries, id@) {
        Some(i) => i,
        None => entries.len() as int,
    };
    assert(after[at] == (id, subscription));
    assert forall|j: int| 0 <= j < after.len() && j != at implies after[j] == entries[j]
        && entries[j].0@ != id@ by {
        if position_of(entries, id@) is Some {
            lemma_position(entries, j);
        }
    }
    assert(distinct_ids(after));
    assert forall|key: Seq<char>| #[trigger]
        mapping(after).contains_key(key) == mapping(entries).insert(
            id@,
            subscription,
        ).contains_key(key) by {
        if key == id@ {
            lemma_position(after, at);
        } else if position_of(entries, key) is Some {
            let j = position_of(entries, key).unwrap();
            lemma_position(after, j);
        } else if position_of(after, key) is Some {
            let j = position_of(after, key).unwrap();
            assert(after[j] == entries[j]);
        }
    }
    assert forall|key: Seq<char>| #[trigger] mapping(after).contains_key(key) implies mapping(
        after,
    )[key] == mapping(entries).insert(id@, subscription)[key] by {
        if key == id@ {
            lemma_position(after, at);
        } else {
            let j = position_of(after, key).unwrap();
            assert(after[j] == entries[j]);
            lemma_position(entries, j);
        }
    }
    assert(mapping(after) =~= mapping(entries).insert(id@, subscription));
}

} // verus!
