//! Wiki pages as watched resources: what a page holds, how a snapshot is made
//! from it and when a change is worth a notification.

pub mod answer;
pub mod promotional_codes;
pub mod site;

use super::persist::DataPersistError;
use crate::text::slice_texts;
use answer::page_content;
use answer::page_query;
use answer::query_of;
use answer::query_view;
use answer::unescaped;
use answer::wiki_text_of;
use answer::API;
use parse_wiki_text::Configuration;
use parse_wiki_text::ConfigurationSource;
use vstd::prelude::*;
use vstd::string::StringExecFns;

verus! {

/// The failure of a refresh: the page could not be fetched, was not of the
/// expected shape, or its snapshot could not be stored.
#[derive(Debug, PartialEq, Eq)]
pub struct WikiError;

impl WikiError {
    /// The text shown for the error.
    pub fn message(&self) -> (text: String)
        ensures
            text@ == "Ocurred an Error during Wiki fetching"@,
    {
        String::from_str("Ocurred an Error during Wiki fetching")
    }

    /// The HTTP status that answers a request which ran into the error.
    pub fn status_code(&self) -> (code: u16)
        ensures
            code == 500,
    {
        500
    }
}

/// A node of a parsed page, reduced to what snapshots are made from.
#[derive(Debug, PartialEq, Eq)]
pub enum WikiNode {
    /// Plain text.
    Text { value: String },
    /// A link to another page, with the nodes of its displayed text.
    Link { text: Vec<WikiNode> },
    /// A table, with its rows from top to bottom.
    Table { rows: Vec<TableRow> },
    /// Any other kind of node.
    Other,
}

/// A row of a table, with its cells from left to right.
#[derive(Debug, PartialEq, Eq)]
pub struct TableRow {
    pub cells: Vec<TableCell>,
}

/// A cell of a table row, with the nodes of its content.
#[derive(Debug, PartialEq, Eq)]
pub struct TableCell {
    pub content: Vec<WikiNode>,
}

/// The pieces of text that a node holds, in reading order: the value of a text
/// node, the pieces of a link's displayed text, and nothing for anything else.
pub open spec fn node_pieces(node: WikiNode) -> Seq<Seq<char>>
    decreases node,
{
    match node {
        WikiNode::Text { value } => seq![value@],
        WikiNode::Link { text } => cell_pieces(text@),
        _ => Seq::empty(),
    }
}

/// The pieces of text of a list of nodes, in reading order.
pub open spec fn cell_pieces(nodes: Seq<WikiNode>) -> Seq<Seq<char>>
    decreases nodes,
{
    if nodes.len() == 0 {
        Seq::empty()
    } else {
        cell_pieces(nodes.subrange(0, nodes.len() - 1)) + node_pieces(nodes[nodes.len() - 1])
    }
}

/// The text of a list of nodes: its pieces, one after the other.
pub open spec fn cell_text(nodes: Seq<WikiNode>) -> Seq<char> {
    cell_pieces(nodes).flatten()
}

/// The pieces of text of a cell, in reading order.
pub fn get_cell_content<'a>(nodes: &'a Vec<WikiNode>) -> (content: Vec<&'a str>)
    ensures
        slice_texts(content@) == cell_pieces(nodes@),
    decreases nodes,
{
    let mut content: Vec<&str> = Vec::new();
    let mut i: usize = 0;
    while i < nodes.len()
        invariant
            i <= nodes.len(),
            slice_texts(content@) == cell_pieces(nodes@.take(i as int)),
        decreases nodes.len() - i,
    {
        let ghost before = content@;
        proof {
            let upto = nodes@.take(i + 1);
            assert(upto.subrange(0, upto.len() - 1) =~= nodes@.take(i as int));
            assert(upto[upto.len() - 1] == nodes@[i as int]);
            assert(cell_pieces(upto) == cell_pieces(nodes@.take(i as int)) + node_pieces(
                nodes@[i as int],
            ));
        }
        match &nodes[i] {
            WikiNode::Text { value } => {
                content.push(value.as_str());
                assert(node_pieces(nodes@[i as int]) == seq![value@]);
                assert(slice_texts(content@) =~= slice_texts(before) + seq![value@]);
            },
            WikiNode::Link { text } => {
                let mut inner = get_cell_content(text);
                let ghost added = inner@;
                content.append(&mut inner);
                assert(node_pieces(nodes@[i as int]) == cell_pieces(text@));
                assert(slice_texts(content@) =~= slice_texts(before) + slice_texts(added));
            },
            _ => {
                assert(node_pieces(nodes@[i as int]) == Seq::<Seq<char>>::empty());
                assert(slice_texts(content@) =~= slice_texts(before) + Seq::<Seq<char>>::empty());
            },
        }
        i = i + 1;
    }
    assert(nodes@.take(nodes.len() as int) =~= nodes@);
    content
}

/// The text of a cell.
pub fn get_cell_content_as_string(nodes: &Vec<WikiNode>) -> (text: String)
    ensures
        text@ == cell_text(nodes@),
{
    let pieces = get_cell_content(nodes);
    let mut text = String::new();
    let mut i: usize = 0;
    assert(slice_texts(pieces@).take(0) =~= Seq::<Seq<char>>::empty());
    while i < pieces.len()
        invariant
            i <= pieces.len(),
            text@ == slice_texts(pieces@).take(i as int).flatten(),
        decreases pieces.len() - i,
    {
        proof {
            let all = slice_texts(pieces@);
            assert(all.take(i + 1) =~= all.take(i as int).push(all[i as int]));
            all.take(i as int).lemma_flatten_push(all[i as int]);
        }
        text.append(pieces[i]);
        i = i + 1;
    }
    assert(slice_texts(pieces@).take(pieces.len() as int) =~= slice_texts(pieces@));
    text
}

/// What a watched resource has to offer. A snapshot is an immutable value; its
/// view is what contracts and comparisons speak of.
pub trait WikiResource: Sized + Clone + View {
    /// The snapshot that a parsed page gives.
    spec fn from_spec(nodes: Seq<WikiNode>) -> Self::V;

    /// The title of the page that holds the resource.
    spec fn title_spec() -> Seq<char>;

    /// The name that tells this kind of resource from the others.
    spec fn resource_type_spec() -> Seq<char>;

    /// What `current` holds and `previous` does not.
    spec fn difference_spec(current: Self::V, previous: Self::V) -> Self::V;

    /// Whether a snapshot holds nothing worth reporting.
    spec fn empty_spec(resource: Self::V) -> bool;

    /// Makes the snapshot of a parsed page. Pages of an unexpected shape give
    /// an empty or partial snapshot, never a failure.
    fn from(nodes: &Vec<WikiNode>) -> (resource: Self)
        ensures
            resource@ == Self::from_spec(nodes@),
    ;

    /// The title under which the page is fetched.
    fn get_title() -> (title: &'static str)
        ensures
            title@ == Self::title_spec(),
    ;

    /// The name that tells this kind of resource from the others. Snapshots
    /// are stored under it and notifications carry it.
    fn resource_type() -> (name: &'static str)
        ensures
            name@ == Self::resource_type_spec(),
    ;

    /// What this snapshot holds and `other` does not.
    fn difference(&self, other: &Self) -> (difference: Self)
        ensures
            difference@ == Self::difference_spec(self@, other@),
    ;

    /// Whether the snapshot holds nothing worth reporting.
    fn empty(&self) -> (empty: bool)
        ensures
            empty == Self::empty_spec(self@),
    ;

    /// A snapshot holds nothing that it does not hold itself.
    proof fn lemma_difference_with_itself(resource: Self::V)
        ensures
            Self::empty_spec(Self::difference_spec(resource, resource)),
    ;

    /// A clone has the view of what it was cloned from.
    proof fn lemma_clone(resource: Self, copy: Self)
        requires
            cloned(resource, copy),
        ensures
            copy@ == resource@,
    ;
}

/// `parse_wiki_text::Configuration`, carried as a value that is not looked into.
#[verifier::external_type_specification]
#[verifier::external_body]
pub struct ExConfiguration(parse_wiki_text::Configuration);

/// The word lists that a parser configuration was made with, in the order of
/// [`site::site_words`].
pub uninterp spec fn configuration_words(configuration: Configuration) -> Seq<Seq<Seq<char>>>;

/// `parse_wiki_text::Configuration::new` on a source made of the given lists.
/// The contract only records which lists the configuration was made with.
/// `new` builds its tables from any lists; the one panic on its way stands
/// where the crate holds that no input leads.
#[verifier::external_body]
fn new_configuration(
    category_namespaces: &[&'static str],
    extension_tags: &[&'static str],
    file_namespaces: &[&'static str],
    link_trail: &'static str,
    magic_words: &[&'static str],
    protocols: &[&'static str],
    redirect_magic_words: &[&'static str],
) -> (configuration: Configuration)
    ensures
        configuration_words(configuration) == seq![
            slice_texts(category_namespaces@),
            slice_texts(extension_tags@),
            slice_texts(file_namespaces@),
            seq![link_trail@],
            slice_texts(magic_words@),
            slice_texts(protocols@),
            slice_texts(redirect_magic_words@),
        ],
{
    Configuration::new(
        &ConfigurationSource {
            category_namespaces,
            extension_tags,
            file_namespaces,
            link_trail,
            magic_words,
            protocols,
            redirect_magic_words,
        },
    )
}

/// The parser configuration of the watched site, with which its pages are to
/// be parsed.
pub fn create_configuration() -> (configuration: Configuration)
    ensures
        configuration_words(configuration) == site::site_words(),
{
    new_configuration(
        site::CATEGORY_NAMESPACES.as_slice(),
        site::EXTENSION_TAGS.as_slice(),
        site::FILE_NAMESPACES.as_slice(),
        site::LINK_TRAIL,
        site::MAGIC_WORDS.as_slice(),
        site::PROTOCOLS.as_slice(),
        site::REDIRECT_MAGIC_WORDS.as_slice(),
    )
}

/// The longest time that the parsing of a page may take, in seconds.
pub const PARSE_LIMIT: u64 = 10;

/// The view of an optional snapshot.
pub open spec fn view_of<T: WikiResource>(resource: Option<T>) -> Option<T::V> {
    match resource {
        Some(resource) => Some(resource@),
        None => None,
    }
}

/// What the subscribers are to be told after `current` took the place of
/// `previous`: what `current` holds and `previous` does not, all of `current`
/// where nothing was stored before, and `None` where that is empty.
pub open spec fn notification<T: WikiResource>(previous: Option<T::V>, current: T::V) -> Option<
    T::V,
> {
    let difference = match previous {
        Some(previous) => T::difference_spec(current, previous),
        None => current,
    };
    if T::empty_spec(difference) {
        None
    } else {
        Some(difference)
    }
}

/// Decides what the subscribers are to be told after `current` took the place
/// of `previous`; `None` means that nothing is to be sent.
pub fn wiki_resource_change_callback<T: WikiResource>(previous: &Option<T>, current: &T) -> (told:
    Option<T>)
    ensures
        view_of(told) == notification::<T>(view_of(*previous), current@),
{
    let difference = match previous {
        Some(previous) => current.difference(previous),
        None => {
            let all = current.clone();
            proof {
                T::lemma_clone(*current, all);
            }
            all
        },
    };
    if difference.empty() {
        None
    } else {
        Some(difference)
    }
}

/// How far the refresh of a resource has come.
#[derive(Debug)]
pub enum UpdateState<T> {
    /// The stored snapshot is awaited.
    AwaitingPrevious,
    /// The answer of the wiki is awaited.
    AwaitingPage { previous: Option<T> },
    /// The nodes of the page are awaited.
    AwaitingNodes { previous: Option<T> },
    /// The new snapshot was handed over to be stored.
    AwaitingSave { previous: Option<T>, current: T },
    /// The subscribers are being told.
    AwaitingNotify { current: T },
    /// The refresh gave its result.
    Finished,
}

/// What happened outside since the last action of a refresh.
#[derive(Debug)]
pub enum UpdateEvent<T> {
    /// The store was read; `None` where it holds no snapshot or could not be
    /// read.
    Previous(Option<T>),
    /// The wiki answered with a body, or the request failed.
    Page(Result<String, reqwest::Error>),
    /// The page was parsed into its nodes; `None` where the parser did not
    /// come to an end within the limit.
    Parsed(Option<Vec<WikiNode>>),
    /// The store was written, or could not be.
    Saved(Result<(), DataPersistError>),
    /// The fanout to the subscribers ended.
    Notified,
}

/// What is to be done next in a refresh.
#[derive(Debug)]
pub enum UpdateAction<T> {
    /// Nothing: the event was not the awaited one.
    Wait,
    /// Read the snapshot that the store keeps under `key`.
    Load { key: &'static str },
    /// Ask `url` with `query` and hand back the body of the answer.
    Fetch { url: &'static str, query: Vec<(&'static str, &'static str)> },
    /// Parse `wiki_text` with the parser of [`create_configuration`] and hand
    /// back its nodes, giving up after `limit` seconds. The parser sets no
    /// bound on its time: at the end of a text it starts over behind every
    /// node that was opened and never closed, so that a short text with many
    /// such openings keeps it busy beyond any limit. That is why parsing is
    /// left to the caller, who can give up.
    Parse { wiki_text: String, limit: u64 },
    /// Write the snapshot to the store under `key`.
    Save { key: &'static str, resource: T },
    /// Tell the subscribers what the resource has gained.
    Notify { difference: T },
    /// Answer the caller: with the current snapshot, or with the failure.
    Finish(Result<T, WikiError>),
}

/// Begins the refresh of a resource: the stored snapshot is to be read.
pub fn update_wiki_resource<T: WikiResource>() -> (begun: (UpdateState<T>, UpdateAction<T>))
    ensures
        begun.0 == UpdateState::<T>::AwaitingPrevious,
        (begun.1 matches UpdateAction::Load { key } && key@ == T::resource_type_spec()),
{
    (UpdateState::AwaitingPrevious, UpdateAction::Load { key: T::resource_type() })
}

impl<T: WikiResource> UpdateState<T> {
    /// Whether `next` and `action` are what follows this state on `event`.
    ///
    /// After the stored snapshot was read the page is fetched and its text is
    /// handed over to be parsed. The snapshot made from its nodes is stored
    /// before anybody is told; a page that cannot be fetched, read or parsed
    /// and a snapshot that cannot be stored end the refresh with the error. The subscribers are told only where the new snapshot
    /// holds something that the stored one did not. The caller gets the new
    /// snapshot whether or not they were told. An event that is not awaited
    /// changes nothing.
    pub open spec fn step(self, event: UpdateEvent<T>, next: UpdateState<T>, action: UpdateAction<T>) -> bool {
        match (self, event) {
            (UpdateState::AwaitingPrevious, UpdateEvent::Previous(previous)) => {
                &&& next == UpdateState::AwaitingPage { previous }
                &&& action matches UpdateAction::Fetch { url, query }
                &&& url == API
                &&& query_view(query@) == page_query(T::title_spec())
            },
            (UpdateState::AwaitingPage { previous }, UpdateEvent::Page(Ok(response))) => {
                match page_content(response@) {
                    Some(raw) => {
                        &&& next == UpdateState::AwaitingNodes { previous }
                        &&& action matches UpdateAction::Parse { wiki_text, limit }
                        &&& wiki_text@ == unescaped(raw)
                        &&& limit == PARSE_LIMIT
                    },
                    None => {
                        &&& next == UpdateState::<T>::Finished
                        &&& action == UpdateAction::<T>::Finish(Err(WikiError))
                    },
                }
            },
            (UpdateState::AwaitingNodes { previous }, UpdateEvent::Parsed(Some(nodes))) => {
                &&& next matches UpdateState::AwaitingSave { previous: kept, current }
                &&& kept == previous
                &&& current@ == T::from_spec(nodes@)
                &&& action matches UpdateAction::Save { key, resource }
                &&& key@ == T::resource_type_spec()
                &&& resource@ == T::from_spec(nodes@)
            },
            (UpdateState::AwaitingNodes { previous }, UpdateEvent::Parsed(None)) => {
                &&& next == UpdateState::<T>::Finished
                &&& action == UpdateAction::<T>::Finish(Err(WikiError))
            },
            (UpdateState::AwaitingPage { previous }, UpdateEvent::Page(Err(_))) => {
                &&& next == UpdateState::<T>::Finished
                &&& action == UpdateAction::<T>::Finish(Err(WikiError))
            },
            (UpdateState::AwaitingSave { previous, current }, UpdateEvent::Saved(Ok(_))) => {
                match notification::<T>(view_of(previous), current@) {
                    Some(told) => {
                        &&& next == UpdateState::AwaitingNotify { current }
                        &&& action matches UpdateAction::Notify { difference }
                        &&& difference@ == told
                    },
                    None => {
                        &&& next == UpdateState::<T>::Finished
                        &&& action == UpdateAction::Finish(Ok(current))
                    },
                }
            },
            (UpdateState::AwaitingSave { previous, current }, UpdateEvent::Saved(Err(_))) => {
                &&& next == UpdateState::<T>::Finished
                &&& action == UpdateAction::<T>::Finish(Err(WikiError))
            },
            (UpdateState::AwaitingNotify { current }, UpdateEvent::Notified) => {
                &&& next == UpdateState::<T>::Finished
                &&& action == UpdateAction::Finish(Ok(current))
            },
            _ => next == self && action == UpdateAction::<T>::Wait,
        }
    }

    /// Takes the refresh one step further on an event.
    pub fn next(self, event: UpdateEvent<T>) -> (then: (UpdateState<T>, UpdateAction<T>))
        ensures
            self.step(event, then.0, then.1),
    {
        match self {
            UpdateState::AwaitingPrevious => match event {
                UpdateEvent::Previous(previous) => (
                    UpdateState::AwaitingPage { previous },
                    UpdateAction::Fetch { url: API, query: query_of(T::get_title()) },
                ),
                _ => (UpdateState::AwaitingPrevious, UpdateAction::Wait),
            },
            UpdateState::AwaitingPage { previous } => match event {
                UpdateEvent::Page(Ok(response)) => match wiki_text_of(response.as_str()) {
                    Ok(wiki_text) => (
                        UpdateState::AwaitingNodes { previous },
                        UpdateAction::Parse { wiki_text, limit: PARSE_LIMIT },
                    ),
                    Err(error) => (UpdateState::Finished, UpdateAction::Finish(Err(error))),
                },
                UpdateEvent::Page(Err(_)) => (
                    UpdateState::Finished,
                    UpdateAction::Finish(Err(WikiError)),
                ),
                _ => (UpdateState::AwaitingPage { previous }, UpdateAction::Wait),
            },
            UpdateState::AwaitingNodes { previous } => match event {
                UpdateEvent::Parsed(Some(nodes)) => {
                    let current = T::from(&nodes);
                    let resource = current.clone();
                    proof {
                        T::lemma_clone(current, resource);
                    }
                    (
                        UpdateState::AwaitingSave { previous, current },
                        UpdateAction::Save { key: T::resource_type(), resource },
                    )
                },
                UpdateEvent::Parsed(None) => (
                    UpdateState::Finished,
                    UpdateAction::Finish(Err(WikiError)),
                ),
                _ => (UpdateState::AwaitingNodes { previous }, UpdateAction::Wait),
            },
            UpdateState::AwaitingSave { previous, current } => match event {
                UpdateEvent::Saved(Ok(_)) => match wiki_resource_change_callback(
                    &previous,
                    &current,
                ) {
                    Some(difference) => (
                        UpdateState::AwaitingNotify { current },
                        UpdateAction::Notify { difference },
                    ),
                    None => (UpdateState::Finished, UpdateAction::Finish(Ok(current))),
                },
                UpdateEvent::Saved(Err(_)) => (
                    UpdateState::Finished,
                    UpdateAction::Finish(Err(WikiError)),
                ),
                _ => (UpdateState::AwaitingSave { previous, current }, UpdateAction::Wait),
            },
            UpdateState::AwaitingNotify { current } => match event {
                UpdateEvent::Notified => (UpdateState::Finished, UpdateAction::Finish(Ok(current))),
                _ => (UpdateState::AwaitingNotify { current }, UpdateAction::Wait),
            },
            UpdateState::Finished => (UpdateState::Finished, UpdateAction::Wait),
        }
    }
}

/// Nothing is to be told where the stored snapshot is the current one.
pub proof fn lemma_same_snapshot_tells_nothing<T: WikiResource>(snapshot: T::V)
    ensures
        notification::<T>(Some(snapshot), snapshot) is None,
{
    T::lemma_difference_with_itself(snapshot);
}

/// Where nothing was stored before, all of a snapshot that is not empty is
/// told.
pub proof fn lemma_first_snapshot_is_told<T: WikiResource>(snapshot: T::V)
    ensures
        notification::<T>(None, snapshot) == (if T::empty_spec(snapshot) {
            None
        } else {
            Some(snapshot)
        }),
{
}

/// A refresh that finds nothing stored stores the snapshot of the page under
/// the name of its kind and, where the snapshot is not empty, tells all of it
/// to the subscribers.
pub proof fn lemma_first_refresh_tells_everything<T: WikiResource>(
    nodes: Vec<WikiNode>,
    saving: UpdateState<T>,
    save: UpdateAction<T>,
    telling: UpdateState<T>,
    tell: UpdateAction<T>,
)
    requires
        !T::empty_spec(T::from_spec(nodes@)),
        (UpdateState::<T>::AwaitingNodes { previous: None }).step(
            UpdateEvent::Parsed(Some(nodes)),
            saving,
            save,
        ),
        saving.step(UpdateEvent::Saved(Ok(())), telling, tell),
    ensures
        (save matches UpdateAction::Save { key, resource } && key@ == T::resource_type_spec()
            && resource@ == T::from_spec(nodes@)),
        (tell matches UpdateAction::Notify { difference } && difference@ == T::from_spec(nodes@)),
{
}

/// A refresh from a page with the nodes that the stored snapshot was made
/// from stores the same snapshot again and ends without telling the
/// subscribers anything.
pub proof fn lemma_unchanged_page_is_silent<T: WikiResource>(
    stored: T,
    nodes: Vec<WikiNode>,
    saving: UpdateState<T>,
    save: UpdateAction<T>,
    done: UpdateState<T>,
    answer: UpdateAction<T>,
)
    requires
        stored@ == T::from_spec(nodes@),
        (UpdateState::AwaitingNodes { previous: Some(stored) }).step(
            UpdateEvent::Parsed(Some(nodes)),
            saving,
            save,
        ),
        saving.step(UpdateEvent::Saved(Ok(())), done, answer),
    ensures
        (save matches UpdateAction::Save { resource, .. } && resource@ == stored@),
        done == UpdateState::<T>::Finished,
        answer matches UpdateAction::Finish(Ok(current)) && current@ == stored@,
{
    lemma_same_snapshot_tells_nothing::<T>(stored@);
}

/// The text that is handed over to be parsed is the text of the page as the
/// answer of the wiki holds it, with its escapes written out; an answer that
/// holds no such text ends the refresh with the error and nothing is parsed
/// or stored.
pub proof fn lemma_only_the_page_is_parsed<T: WikiResource>(
    previous: Option<T>,
    response: String,
    next: UpdateState<T>,
    action: UpdateAction<T>,
)
    requires
        (UpdateState::AwaitingPage { previous }).step(
            UpdateEvent::Page(Ok(response)),
            next,
            action,
        ),
    ensures
        page_content(response@) is Some ==> (action matches UpdateAction::Parse {
            wiki_text,
            limit,
        } && wiki_text@ == unescaped(page_content(response@).unwrap()) && limit == PARSE_LIMIT),
        page_content(response@) is None ==> action == UpdateAction::<T>::Finish(Err(WikiError))
            && next == UpdateState::<T>::Finished,
{
}

/// The subscribers are told only after the snapshot was stored: a notification
/// follows no other event than the store's word that the write went through.
pub proof fn lemma_told_only_after_stored<T: WikiResource>(
    state: UpdateState<T>,
    event: UpdateEvent<T>,
    next: UpdateState<T>,
    action: UpdateAction<T>,
)
    requires
        state.step(event, next, action),
    ensures
        action is Notify ==> state is AwaitingSave && (event matches UpdateEvent::Saved(Ok(_))),
{
}

} // verus!
