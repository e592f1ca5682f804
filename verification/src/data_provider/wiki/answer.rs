//! The answer of the wiki's API: where it holds the text of a page and how
//! that text is read out of it.

use super::WikiError;
use crate::text::chars_of;
use crate::text::replace;
use crate::text::replaced;
use crate::text::string_of;
use serde_json::Value;
use vstd::prelude::*;

verus! {

/// `serde_json::Value`, carried as a value that is not looked into.
#[verifier::external_type_specification]
#[verifier::external_body]
pub struct ExValue(serde_json::Value);

/// A step from a JSON value into it: to the member of an object under a key,
/// or to the element of an array at an index.
pub enum JsonStep {
    Member(Seq<char>),
    Element(nat),
}

/// The strings of a JSON value, each under the path that leads to it. A value
/// that is itself a string holds it under the empty path.
pub uninterp spec fn json_strings(value: Value) -> Map<Seq<JsonStep>, Seq<char>>;

/// The strings of the JSON value that a text stands for, or `None` where the
/// text is not JSON.
pub uninterp spec fn json_document(text: Seq<char>) -> Option<Map<Seq<JsonStep>, Seq<char>>>;

/// The strings that lie below a path, each under the rest of its path.
pub open spec fn below(strings: Map<Seq<JsonStep>, Seq<char>>, path: Seq<JsonStep>) -> Map<
    Seq<JsonStep>,
    Seq<char>,
> {
    Map::new(
        |rest: Seq<JsonStep>| strings.contains_key(path + rest),
        |rest: Seq<JsonStep>| strings[path + rest],
    )
}

/// `serde_json::from_str` for a `Value`: the value that the text stands for,
/// or `None` where `from_str` reports an error.
#[verifier::external_body]
fn json_parse(text: &str) -> (value: Option<Value>)
    ensures
        (match value {
            Some(document) => json_document(text@) == Some(json_strings(document)),
            None => json_document(text@) is None,
        }),
{
    serde_json::from_str::<Value>(text).ok()
}

/// Indexing a `Value` by a string: the member of an object under the key, and
/// a null value where the value is no object or has no such member.
#[verifier::external_body]
fn json_member<'a>(value: &'a Value, key: &str) -> (member: &'a Value)
    ensures
        json_strings(*member) == below(json_strings(*value), seq![JsonStep::Member(key@)]),
{
    &value[key]
}

/// Indexing a `Value` by a number: the element of an array at the index, and
/// a null value where the value is no array or is too short.
#[verifier::external_body]
fn json_element<'a>(value: &'a Value, index: usize) -> (element: &'a Value)
    ensures
        json_strings(*element) == below(json_strings(*value), seq![JsonStep::Element(index as nat)]),
{
    &value[index]
}

/// `serde_json::Value::as_str`, copied: the string that the value is, or
/// `None` where it is anything else.
#[verifier::external_body]
fn json_string(value: &Value) -> (text: Option<String>)
    ensures
        (match text {
            Some(string) => json_strings(*value).contains_key(Seq::empty()) && json_strings(
                *value,
            )[Seq::empty()] == string@,
            None => !json_strings(*value).contains_key(Seq::empty()),
        }),
{
    value.as_str().map(|string| string.to_owned())
}

/// Where the answer of the wiki holds the text of the page.
pub open spec fn content_path() -> Seq<JsonStep> {
    seq![
        JsonStep::Member("query"@),
        JsonStep::Member("pages"@),
        JsonStep::Element(0),
        JsonStep::Member("revisions"@),
        JsonStep::Element(0),
        JsonStep::Member("slots"@),
        JsonStep::Member("main"@),
        JsonStep::Member("content"@),
    ]
}

/// The text of the page as the answer of the wiki holds it, or `None` where
/// the answer is not JSON or holds no string at the expected place.
pub open spec fn page_content(response: Seq<char>) -> Option<Seq<char>> {
    match json_document(response) {
        Some(strings) => if strings.contains_key(content_path()) {
            Some(strings[content_path()])
        } else {
            None
        },
        None => None,
    }
}

/// A text with its escaped line feeds, quotes and tabs written out: first
/// every `\n`, then every `\"`, then every `\'`, then every `\t`.
pub open spec fn unescaped(raw: Seq<char>) -> Seq<char> {
    replaced(
        replaced(
            replaced(replaced(raw, seq!['\\', 'n'], seq!['\n']), seq!['\\', '"'], seq!['"']),
            seq!['\\', '\''],
            seq!['\''],
        ),
        seq!['\\', 't'],
        seq!['\t'],
    )
}

/// The two characters of an escape.
fn escape(second: char) -> (pattern: Vec<char>)
    ensures
        pattern@ == seq!['\\', second],
{
    let mut pattern: Vec<char> = Vec::new();
    pattern.push('\\');
    pattern.push(second);
    assert(pattern@ =~= seq!['\\', second]);
    pattern
}

/// The one character that an escape stands for.
fn plain(character: char) -> (replacement: Vec<char>)
    ensures
        replacement@ == seq![character],
{
    let mut replacement: Vec<char> = Vec::new();
    replacement.push(character);
    assert(replacement@ =~= seq![character]);
    replacement
}

/// Writes out the escaped line feeds, quotes and tabs of a text.
pub fn unescape(raw: &str) -> (text: String)
    ensures
        text@ == unescaped(raw@),
{
    let text = chars_of(raw);
    let text = replace(&text, &escape('n'), &plain('\n'));
    let text = replace(&text, &escape('"'), &plain('"'));
    let text = replace(&text, &escape('\''), &plain('\''));
    let text = replace(&text, &escape('t'), &plain('\t'));
    string_of(&text)
}

/// Going below one path and then below another is going below both.
proof fn lemma_below_below(
    strings: Map<Seq<JsonStep>, Seq<char>>,
    first: Seq<JsonStep>,
    second: Seq<JsonStep>,
)
    ensures
        below(below(strings, first), second) == below(strings, first + second),
{
    assert forall|rest: Seq<JsonStep>| first + (second + rest) == (first + second) + rest by {
        assert(first + (second + rest) =~= (first + second) + rest);
    }
    assert(below(below(strings, first), second) =~= below(strings, first + second));
}

/// The text of the page that an answer of the wiki holds, with its escapes
/// written out.
pub fn wiki_text_of(response: &str) -> (text: Result<String, WikiError>)
    ensures
        (match page_content(response@) {
            Some(raw) => text matches Ok(wiki_text) && wiki_text@ == unescaped(raw),
            None => text is Err,
        }),
{
    let document = match json_parse(response) {
        Some(document) => document,
        None => {
            return Err(WikiError);
        },
    };
    let ghost strings = json_strings(document);
    let query = json_member(&document, "query");
    let pages = json_member(query, "pages");
    let page = json_element(pages, 0);
    let revisions = json_member(page, "revisions");
    let revision = json_element(revisions, 0);
    let slots = json_member(revision, "slots");
    let main = json_member(slots, "main");
    let content = json_member(main, "content");
    proof {
        let path = content_path();
        lemma_below_below(strings, path.take(1), path.subrange(1, 2));
        lemma_below_below(strings, path.take(2), path.subrange(2, 3));
        lemma_below_below(strings, path.take(3), path.subrange(3, 4));
        lemma_below_below(strings, path.take(4), path.subrange(4, 5));
        lemma_below_below(strings, path.take(5), path.subrange(5, 6));
        lemma_below_below(strings, path.take(6), path.subrange(6, 7));
        lemma_below_below(strings, path.take(7), path.subrange(7, 8));
        assert(path.take(1) =~= seq![JsonStep::Member("query"@)]);
        assert(path.subrange(1, 2) =~= seq![JsonStep::Member("pages"@)]);
        assert(path.subrange(2, 3) =~= seq![JsonStep::Element(0)]);
        assert(path.subrange(3, 4) =~= seq![JsonStep::Member("revisions"@)]);
        assert(path.subrange(4, 5) =~= seq![JsonStep::Element(0)]);
        assert(path.subrange(5, 6) =~= seq![JsonStep::Member("slots"@)]);
        assert(path.subrange(6, 7) =~= seq![JsonStep::Member("main"@)]);
        assert(path.subrange(7, 8) =~= seq![JsonStep::Member("content"@)]);
        assert(path.take(1) + path.subrange(1, 2) =~= path.take(2));
        assert(path.take(2) + path.subrange(2, 3) =~= path.take(3));
        assert(path.take(3) + path.subrange(3, 4) =~= path.take(4));
        assert(path.take(4) + path.subrange(4, 5) =~= path.take(5));
        assert(path.take(5) + path.subrange(5, 6) =~= path.take(6));
        assert(path.take(6) + path.subrange(6, 7) =~= path.take(7));
        assert(path.take(7) + path.subrange(7, 8) =~= path);
        assert(json_strings(*content) == below(strings, path));
        assert(path + Seq::<JsonStep>::empty() =~= path);
    }
    match json_string(content) {
        Some(raw) => Ok(unescape(raw.as_str())),
        None => Err(WikiError),
    }
}

/// The address of the API of the watched wiki.
pub const API: &'static str = "https://genshin-impact.fandom.com/api.php";

/// The query that asks the API for the current text of the page of a title:
/// its parameters with their values, in order.
pub open spec fn page_query(title: Seq<char>) -> Seq<(Seq<char>, Seq<char>)> {
    seq![
        ("action"@, "query"@),
        ("prop"@, "revisions"@),
        ("titles"@, title),
        ("rvslots"@, "*"@),
        ("rvprop"@, "content"@),
        ("formatversion"@, "2"@),
        ("format"@, "json"@),
    ]
}

/// The texts of the parameters of a query and of their values, in order.
pub open spec fn query_view(query: Seq<(&'static str, &'static str)>) -> Seq<
    (Seq<char>, Seq<char>),
> {
    Seq::new(query.len(), |i: int| (query[i].0@, query[i].1@))
}

/// The query that asks the API for the current text of the page of a title.
pub fn query_of(title: &'static str) -> (query: Vec<(&'static str, &'static str)>)
    ensures
        query_view(query@) == page_query(title@),
{
    let mut query: Vec<(&'static str, &'static str)> = Vec::new();
    query.push(("action", "query"));
    query.push(("prop", "revisions"));
    query.push(("titles", title));
    query.push(("rvslots", "*"));
    query.push(("rvprop", "content"));
    query.push(("formatversion", "2"));
    query.push(("format", "json"));
    assert(query_view(query@) =~= page_query(title@));
    query
}

} // verus!
