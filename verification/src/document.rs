//! A parsed configuration document.
//!
//! The text is parsed by `serde_json`; what comes back is moved into [`Json`],
//! a tree of plain data, and everything the supervisor reads from a document
//! is read from that tree by verified code.

use vstd::prelude::*;

verus! {

/// A JSON value, held as plain data.
#[derive(Debug, PartialEq, Eq)]
pub enum Json {
    Null,
    Bool(bool),
    /// A number, kept as the decimal text it is written with.
    Number(String),
    Text(String),
    Array(Vec<Json>),
    /// The members of an object, in the order they are held in.
    Object(Vec<Member>),
}

/// A member of a JSON object.
#[derive(Debug, PartialEq, Eq)]
pub struct Member {
    pub name: String,
    pub value: Json,
}

/// The mathematical content of a [`Json`] value.
pub enum JsonView {
    Null,
    Bool(bool),
    Number(Seq<char>),
    Text(Seq<char>),
    Array(Seq<JsonView>),
    Object(Seq<(Seq<char>, JsonView)>),
}

/// The content of each value of `items`, in order.
pub open spec fn item_views(items: Seq<Json>) -> Seq<JsonView> {
    Seq::new(items.len(), |i: int| items[i]@)
}

/// The name and content of each member of `members`, in order.
pub open spec fn member_views(members: Seq<Member>) -> Seq<(Seq<char>, JsonView)> {
    Seq::new(members.len(), |i: int| (members[i].name@, members[i].value@))
}

impl View for Json {
    type V = JsonView;

    open spec fn view(&self) -> JsonView
        decreases self,
    {
        match self {
            Json::Null => JsonView::Null,
            Json::Bool(b) => JsonView::Bool(*b),
            Json::Number(n) => JsonView::Number(n@),
            Json::Text(s) => JsonView::Text(s@),
            Json::Array(items) => JsonView::Array(
                Seq::new(
                    items@.len(),
                    |i: int|
                        if 0 <= i < items@.len() {
                            items@[i].view()
                        } else {
                            JsonView::Null
                        },
                ),
            ),
            Json::Object(members) => JsonView::Object(
                Seq::new(
                    members@.len(),
                    |i: int|
                        (
                            members@[i].name@,
                            if 0 <= i < members@.len() {
                                members@[i].value.view()
                            } else {
                                JsonView::Null
                            },
                        ),
                ),
            ),
        }
    }
}

/// The value of the first member named `name` among `members[from..]`.
pub open spec fn member_from(
    members: Seq<(Seq<char>, JsonView)>,
    name: Seq<char>,
    from: int,
) -> Option<JsonView>
    decreases members.len() - from,
{
    if from < 0 || from >= members.len() {
        None
    } else if members[from].0 == name {
        Some(members[from].1)
    } else {
        member_from(members, name, from + 1)
    }
}

impl JsonView {
    /// The value that an object holds under `name`; `None` for anything that
    /// is not an object, and for an object without such a member.
    pub open spec fn member(self, name: Seq<char>) -> Option<JsonView> {
        match self {
            JsonView::Object(members) => member_from(members, name, 0),
            _ => None,
        }
    }

    /// The characters of a text value; `None` for every other value.
    pub open spec fn text(self) -> Option<Seq<char>> {
        match self {
            JsonView::Text(s) => Some(s),
            _ => None,
        }
    }

    /// The items of an array; `None` for every other value.
    pub open spec fn items(self) -> Option<Seq<JsonView>> {
        match self {
            JsonView::Array(items) => Some(items),
            _ => None,
        }
    }
}

/// A lookup finds the first member of the name and nothing else: the value
/// it gives stands under that name at some index from `from` on, with no
/// member of the name between `from` and there; and it gives nothing only
/// where no member from `from` on has the name.
pub proof fn lemma_member_is_first(
    members: Seq<(Seq<char>, JsonView)>,
    name: Seq<char>,
    from: int,
)
    requires
        0 <= from,
    ensures
        match member_from(members, name, from) {
            Some(value) => exists|i: int|
                from <= i < members.len() && #[trigger] members[i] == (name, value) && forall|
                    j: int,
                |
                    from <= j < i ==> (#[trigger] members[j]).0 != name,
            None => forall|j: int| from <= j < members.len() ==> (#[trigger] members[j]).0 != name,
        },
    decreases members.len() - from,
{
    if from < members.len() {
        if members[from].0 == name {
        } else {
            lemma_member_is_first(members, name, from + 1);
        }
    }
}

/// An array's content is the content of its items.
pub proof fn lemma_array_view(items: Vec<Json>)
    ensures
        Json::Array(items)@ == JsonView::Array(item_views(items@)),
{
    assert(Json::Array(items)@->Array_0 =~= item_views(items@));
}

/// An object's content is the names and contents of its members.
pub proof fn lemma_object_view(members: Vec<Member>)
    ensures
        Json::Object(members)@ == JsonView::Object(member_views(members@)),
{
    assert(Json::Object(members)@->Object_0 =~= member_views(members@));
}

impl Json {
    /// Looks up a member of an object by name.
    pub fn member(&self, name: &str) -> (r: Option<&Json>)
        ensures
            r matches Some(value) ==> self@.member(name@) == Some(value@),
            r is None ==> self@.member(name@) is None,
    {
        match self {
            Json::Object(members) => {
                proof {
                    lemma_object_view(*members);
                }
                let wanted = name.to_owned();
                let ghost all = member_views(members@);
                let mut i: usize = 0;
                while i < members.len()
                    invariant
                        i <= members.len(),
                        wanted@ == name@,
                        all == member_views(members@),
                        self@ == JsonView::Object(all),
                        member_from(all, name@, 0) == member_from(all, name@, i as int),
                    decreases members.len() - i,
                {
                    if members[i].name == wanted {
                        return Some(&members[i].value);
                    }
                    i += 1;
                }
                None
            },
            _ => None,
        }
    }

    /// The text of a text value.
    pub fn as_text(&self) -> (r: Option<&str>)
        ensures
            r matches Some(s) ==> self@.text() == Some(s@),
            r is None ==> self@.text() is None,
    {
        match self {
            Json::Text(s) => Some(s.as_str()),
            _ => None,
        }
    }

    /// The items of an array.
    pub fn as_items(&self) -> (r: Option<&Vec<Json>>)
        ensures
            r matches Some(items) ==> self@.items() == Some(item_views(items@)),
            r is None ==> self@.items() is None,
    {
        match self {
            Json::Array(items) => {
                proof {
                    lemma_array_view(*items);
                }
                Some(items)
            },
            _ => None,
        }
    }
}

/// `serde_json::Value`, carried from the parser to the conversion and never
/// looked into by verified code.
#[verifier::external_type_specification]
#[verifier::external_body]
pub struct ExValue(serde_json::Value);

/// `serde_json::Error`, the reason a text was refused.
#[verifier::external_type_specification]
#[verifier::external_body]
pub struct ExError(serde_json::Error);

/// What `serde_json::from_str` makes of a text: the content of the value it
/// returns, or `None` where it refuses the text.
pub uninterp spec fn parsed_text(text: Seq<char>) -> Option<JsonView>;

/// The JSON tree that a `serde_json::Value` holds.
pub uninterp spec fn value_content(value: serde_json::Value) -> JsonView;

/// Calls `serde_json::from_str` at type `serde_json::Value`.
///
/// Trusted: the outcome depends on the text alone, so it is given the name
/// [`parsed_text`]. Nothing is claimed about which texts are accepted.
#[verifier::external_body]
fn parse_value(text: &str) -> (r: Result<serde_json::Value, serde_json::Error>)
    ensures
        r matches Ok(value) ==> parsed_text(text@) == Some(value_content(value)),
        r is Err ==> parsed_text(text@) is None,
{
    serde_json::from_str::<serde_json::Value>(text)
}

/// Moves a `serde_json::Value` into a [`Json`], variant by variant; an
/// object's members come in the order in which its map hands them out.
///
/// Trusted: the result holds exactly the tree that the value held, which is
/// what [`value_content`] names.
#[verifier::external_body]
fn document_of(value: serde_json::Value) -> (doc: Json)
    ensures
        doc@ == value_content(value),
{
    match value {
        serde_json::Value::Null => Json::Null,
        serde_json::Value::Bool(b) => Json::Bool(b),
        serde_json::Value::Number(n) => Json::Number(n.to_string()),
        serde_json::Value::String(s) => Json::Text(s),
        serde_json::Value::Array(items) => Json::Array(items.into_iter().map(document_of).collect()),
        serde_json::Value::Object(members) => Json::Object(
            members.into_iter().map(|(name, v)| Member { name, value: document_of(v) }).collect(),
        ),
    }
}

/// Why a text is not a JSON document.
#[derive(Debug, PartialEq, Eq)]
pub struct ParseFailure {
    /// The parser's own account of what it met, and where.
    pub detail: String,
}

/// Parses a JSON text.
pub fn parse(text: &str) -> (r: Result<Json, ParseFailure>)
    ensures
        r matches Ok(doc) ==> parsed_text(text@) == Some(doc@),
        r is Err <==> parsed_text(text@) is None,
{
    match parse_value(text) {
        Ok(value) => Ok(document_of(value)),
        Err(e) => Err(ParseFailure { detail: e.to_string() }),
    }
}

} // verus!
