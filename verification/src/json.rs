//! A JSON document as a tree of plain values, read and written by `serde_json`.

use crate::error::{optional_outcome_view, outcome_view, Error, ErrorView, Expected};
use vstd::prelude::*;
use vstd::string::*;

verus! {

/// One member of a JSON object.
#[derive(Debug, PartialEq, Eq)]
pub struct Member {
    pub key: String,
    pub value: Json,
}

/// A JSON value.
#[derive(Debug, PartialEq, Eq)]
pub enum Json {
    Null,
    Bool(bool),
    /// A number, kept where it is an integer that fits `i64`.
    Number(Option<i64>),
    String(String),
    Array(Vec<Json>),
    Object(Vec<Member>),
}

/// The mathematical value of a [`Json`].
pub enum JsonView {
    Null,
    Bool(bool),
    Number(Option<i64>),
    String(Seq<char>),
    Array(Seq<JsonView>),
    Object(Seq<(Seq<char>, JsonView)>),
}

impl View for Json {
    type V = JsonView;

    open spec fn view(&self) -> JsonView
        decreases self,
    {
        match self {
            Json::Null => JsonView::Null,
            Json::Bool(flag) => JsonView::Bool(*flag),
            Json::Number(number) => JsonView::Number(*number),
            Json::String(text) => JsonView::String(text@),
            Json::Array(items) => JsonView::Array(items_view(items@)),
            Json::Object(members) => JsonView::Object(members_view(members@)),
        }
    }
}

/// The values of the items of an array, in their order.
pub open spec fn items_view(items: Seq<Json>) -> Seq<JsonView>
    decreases items,
{
    if items.len() == 0 {
        Seq::empty()
    } else {
        items_view(items.drop_last()).push(items.last().view())
    }
}

/// The keys and values of the members of an object, in their order.
pub open spec fn members_view(members: Seq<Member>) -> Seq<(Seq<char>, JsonView)>
    decreases members,
{
    if members.len() == 0 {
        Seq::empty()
    } else {
        members_view(members.drop_last()).push((members.last().key@, members.last().value.view()))
    }
}

/// The view of an array holds the view of each item at the item's place.
pub proof fn lemma_items_view(items: Seq<Json>)
    ensures
        items_view(items).len() == items.len(),
        forall|i: int| 0 <= i < items.len() ==> #[trigger] items_view(items)[i] == items[i]@,
    decreases items.len(),
{
    if items.len() > 0 {
        let front = items.drop_last();
        lemma_items_view(front);
        assert(items_view(items) == items_view(front).push(items.last()@));
        assert forall|i: int| 0 <= i < items.len() implies #[trigger] items_view(items)[i]
            == items[i]@ by {
            if i < front.len() {
                assert(items_view(front)[i] == front[i]@);
            }
        }
    }
}

/// The view of an object holds the key and the view of each member at the
/// member's place.
pub proof fn lemma_members_view(members: Seq<Member>)
    ensures
        members_view(members).len() == members.len(),
        forall|i: int|
            0 <= i < members.len() ==> #[trigger] members_view(members)[i] == (
                members[i].key@,
                members[i].value@,
            ),
    decreases members.len(),
{
    if members.len() > 0 {
        let front = members.drop_last();
        lemma_members_view(front);
        assert(members_view(members) == members_view(front).push(
            (members.last().key@, members.last().value@),
        ));
        assert forall|i: int| 0 <= i < members.len() implies #[trigger] members_view(members)[i]
            == (members[i].key@, members[i].value@) by {
            if i < front.len() {
                assert(members_view(front)[i] == (front[i].key@, front[i].value@));
            }
        }
    }
}

impl JsonView {
    /// The first member of an object that goes by `key`; none where the value
    /// is no object or has no such member.
    pub open spec fn member(self, key: Seq<char>) -> Option<JsonView> {
        match self {
            JsonView::Object(members) => first_named(members, key),
            _ => None,
        }
    }

    /// The text under `key`, which must be there.
    pub open spec fn string_at(self, key: Seq<char>) -> Result<Seq<char>, ErrorView> {
        match self.member(key) {
            Some(JsonView::String(text)) => Ok(text),
            Some(_) => Err(ErrorView::InvalidType { field: key, expected: Expected::String }),
            None => Err(ErrorView::MissingField(key)),
        }
    }

    /// The text under `key`, where there is one: an absent member and `null`
    /// both stand for none.
    pub open spec fn optional_string_at(self, key: Seq<char>) -> Result<
        Option<Seq<char>>,
        ErrorView,
    > {
        match self.member(key) {
            None => Ok(None),
            Some(JsonView::Null) => Ok(None),
            Some(JsonView::String(text)) => Ok(Some(text)),
            Some(_) => Err(ErrorView::InvalidType { field: key, expected: Expected::String }),
        }
    }

    /// The integer under `key`, which must be there.
    pub open spec fn integer_at(self, key: Seq<char>) -> Result<i64, ErrorView> {
        match self.member(key) {
            Some(JsonView::Number(Some(number))) => Ok(number),
            Some(_) => Err(ErrorView::InvalidType { field: key, expected: Expected::Integer }),
            None => Err(ErrorView::MissingField(key)),
        }
    }

    /// The object under `key`, which must be there.
    pub open spec fn object_at(self, key: Seq<char>) -> Result<JsonView, ErrorView> {
        match self.member(key) {
            Some(JsonView::Object(members)) => Ok(JsonView::Object(members)),
            Some(_) => Err(ErrorView::InvalidType { field: key, expected: Expected::Object }),
            None => Err(ErrorView::MissingField(key)),
        }
    }

    /// The object under `key`, where there is one: an absent member and `null`
    /// both stand for none.
    pub open spec fn optional_object_at(self, key: Seq<char>) -> Result<
        Option<JsonView>,
        ErrorView,
    > {
        match self.member(key) {
            None => Ok(None),
            Some(JsonView::Null) => Ok(None),
            Some(JsonView::Object(members)) => Ok(Some(JsonView::Object(members))),
            Some(_) => Err(ErrorView::InvalidType { field: key, expected: Expected::Object }),
        }
    }

    /// The items of the array under `key`, where there is one: an absent member
    /// and `null` both stand for none.
    pub open spec fn optional_array_at(self, key: Seq<char>) -> Result<
        Option<Seq<JsonView>>,
        ErrorView,
    > {
        match self.member(key) {
            None => Ok(None),
            Some(JsonView::Null) => Ok(None),
            Some(JsonView::Array(items)) => Ok(Some(items)),
            Some(_) => Err(ErrorView::InvalidType { field: key, expected: Expected::Array }),
        }
    }
}

/// The value of the first of `members` that goes by `key`.
pub open spec fn first_named(members: Seq<(Seq<char>, JsonView)>, key: Seq<char>) -> Option<
    JsonView,
>
    decreases members.len(),
{
    if members.len() == 0 {
        None
    } else if members[0].0 == key {
        Some(members[0].1)
    } else {
        first_named(members.drop_first(), key)
    }
}

impl Json {
    /// The first member of an object that goes by `key`.
    pub fn get(&self, key: &str) -> (found: Option<&Json>)
        ensures
            match found {
                Some(value) => self@.member(key@) == Some(value@),
                None => self@.member(key@).is_none(),
            },
    {
        match self {
            Json::Object(members) => {
                let wanted = String::from_str(key);
                let ghost all = self@->Object_0;
                proof {
                    lemma_members_view(members@);
                    assert(all.skip(0) =~= all);
                }
                let mut at: usize = 0;
                while at < members.len()
                    invariant
                        at <= members.len(),
                        wanted@ == key@,
                        self@ == JsonView::Object(all),
                        all.len() == members@.len(),
                        forall|i: int|
                            0 <= i < members@.len() ==> all[i] == (
                                members@[i].key@,
                                members@[i].value@,
                            ),
                        first_named(all, key@) == first_named(all.skip(at as int), key@),
                    decreases members.len() - at,
                {
                    let ghost rest = all.skip(at as int);
                    proof {
                        assert(rest[0] == all[at as int]);
                        assert(rest.drop_first() =~= all.skip(at + 1));
                    }
                    if members[at].key == wanted {
                        return Some(&members[at].value);
                    }
                    at = at + 1;
                }
                None
            },
            _ => None,
        }
    }

    /// The text under `key`, which must be there.
    pub fn string_at(&self, key: &str) -> (outcome: Result<String, Error>)
        ensures
            outcome_view(outcome) == self@.string_at(key@),
    {
        match self.get(key) {
            Some(Json::String(text)) => Ok(text.clone()),
            Some(_) => Err(
                Error::InvalidType { field: String::from_str(key), expected: Expected::String },
            ),
            None => Err(Error::MissingField(String::from_str(key))),
        }
    }

    /// The text under `key`, where there is one.
    pub fn optional_string_at(&self, key: &str) -> (outcome: Result<Option<String>, Error>)
        ensures
            optional_outcome_view(outcome) == self@.optional_string_at(key@),
    {
        match self.get(key) {
            None => Ok(None),
            Some(Json::Null) => Ok(None),
            Some(Json::String(text)) => Ok(Some(text.clone())),
            Some(_) => Err(
                Error::InvalidType { field: String::from_str(key), expected: Expected::String },
            ),
        }
    }

    /// The integer under `key`, which must be there.
    pub fn integer_at(&self, key: &str) -> (outcome: Result<i64, Error>)
        ensures
            outcome_view(outcome) == self@.integer_at(key@),
    {
        match self.get(key) {
            Some(Json::Number(Some(number))) => Ok(*number),
            Some(_) => Err(
                Error::InvalidType { field: String::from_str(key), expected: Expected::Integer },
            ),
            None => Err(Error::MissingField(String::from_str(key))),
        }
    }

    /// The object under `key`, which must be there.
    pub fn object_at(&self, key: &str) -> (outcome: Result<&Json, Error>)
        ensures
            outcome_view(outcome) == self@.object_at(key@),
    {
        match self.get(key) {
            Some(found) => match found {
                Json::Object(_) => Ok(found),
                _ => Err(
                    Error::InvalidType { field: String::from_str(key), expected: Expected::Object },
                ),
            },
            None => Err(Error::MissingField(String::from_str(key))),
        }
    }

    /// The object under `key`, where there is one.
    pub fn optional_object_at(&self, key: &str) -> (outcome: Result<Option<&Json>, Error>)
        ensures
            optional_outcome_view(outcome) == self@.optional_object_at(key@),
    {
        match self.get(key) {
            None => Ok(None),
            Some(found) => match found {
                Json::Null => Ok(None),
                Json::Object(_) => Ok(Some(found)),
                _ => Err(
                    Error::InvalidType { field: String::from_str(key), expected: Expected::Object },
                ),
            },
        }
    }

    /// The items of the array under `key`, where there is one.
    pub fn optional_array_at(&self, key: &str) -> (outcome: Result<Option<&Vec<Json>>, Error>)
        ensures
            match outcome {
                Ok(Some(items)) => self@.optional_array_at(key@) == Ok::<
                    Option<Seq<JsonView>>,
                    ErrorView,
                >(Some(items_view(items@))),
                Ok(None) => self@.optional_array_at(key@) == Ok::<
                    Option<Seq<JsonView>>,
                    ErrorView,
                >(None),
                Err(error) => self@.optional_array_at(key@) == Err::<
                    Option<Seq<JsonView>>,
                    ErrorView,
                >(error@),
            },
    {
        match self.get(key) {
            None => Ok(None),
            Some(found) => match found {
                Json::Null => Ok(None),
                Json::Array(items) => Ok(Some(items)),
                _ => Err(
                    Error::InvalidType { field: String::from_str(key), expected: Expected::Array },
                ),
            },
        }
    }
}

/// `serde_json::Value`, as `serde_json::from_str` hands it out. Nothing is
/// known of what is inside one but through [`value_view`].
#[verifier::external_type_specification]
#[verifier::external_body]
pub struct ExValue(serde_json::Value);

/// What `serde_json::from_str` makes of a text: the document that the text
/// writes down, or the reason why it writes none.
pub uninterp spec fn json_document(text: Seq<char>) -> Result<JsonView, Seq<char>>;

/// What a `serde_json::Value` holds. The contract of [`level`] says how it is
/// made up of what the values below hold.
pub uninterp spec fn value_view(value: serde_json::Value) -> JsonView;

/// The JSON string literal that `serde_json::to_string` writes for a text, or
/// the reason why it writes none.
pub uninterp spec fn json_string(text: Seq<char>) -> Result<Seq<char>, Seq<char>>;

/// `serde_json::from_str`, asked for a `serde_json::Value`. The contract gives
/// the outcome a name and claims nothing else of it: the same text gives the
/// same document, or fails with the same words (those of the error's
/// `Display`).
#[verifier::external_body]
fn from_str(text: &str) -> (outcome: Result<serde_json::Value, String>)
    ensures
        match outcome {
            Ok(value) => json_document(text@) == Ok::<JsonView, Seq<char>>(value_view(value)),
            Err(reason) => json_document(text@) == Err::<JsonView, Seq<char>>(reason@),
        },
{
    match serde_json::from_str::<serde_json::Value>(text) {
        Ok(value) => Ok(value),
        Err(error) => Err(error.to_string()),
    }
}

/// What a `serde_json::Value` holds at its top: a plain value, or the values
/// below it.
enum Level {
    Null,
    Bool(bool),
    Number(Option<i64>),
    String(String),
    Array(Vec<serde_json::Value>),
    Object(Vec<(String, serde_json::Value)>),
}

impl Level {
    /// The JSON value of a level, given what the values below it hold.
    spec fn view(self) -> JsonView {
        match self {
            Level::Null => JsonView::Null,
            Level::Bool(flag) => JsonView::Bool(flag),
            Level::Number(number) => JsonView::Number(number),
            Level::String(text) => JsonView::String(text@),
            Level::Array(items) => JsonView::Array(
                items@.map_values(|item: serde_json::Value| value_view(item)),
            ),
            Level::Object(members) => JsonView::Object(
                members@.map_values(
                    |member: (String, serde_json::Value)| (member.0@, value_view(member.1)),
                ),
            ),
        }
    }
}

/// Takes the top of a `serde_json::Value` apart, one arm for each variant of
/// the enum: a number is kept through `serde_json::Number::as_i64`, the items
/// of an array stay as they are, and the members of an object come in the
/// order in which its map hands them out. The contract claims that what the
/// value holds is made of these parts.
#[verifier::external_body]
fn level(value: serde_json::Value) -> (level: Level)
    ensures
        level.view() == value_view(value),
{
    match value {
        serde_json::Value::Null => Level::Null,
        serde_json::Value::Bool(flag) => Level::Bool(flag),
        serde_json::Value::Number(number) => Level::Number(number.as_i64()),
        serde_json::Value::String(text) => Level::String(text),
        serde_json::Value::Array(items) => Level::Array(items),
        serde_json::Value::Object(members) => Level::Object(members.into_iter().collect()),
    }
}

/// An item of an array is smaller than the array.
proof fn lemma_item_is_below(items: Seq<JsonView>, at: int)
    requires
        0 <= at < items.len(),
    ensures
        decreases_to!(JsonView::Array(items) => items[at]),
{
    let array = JsonView::Array(items);
    assert(decreases_to!(array => array->Array_0));
    assert(decreases_to!(items => items[at]));
}

/// The value of a member of an object is smaller than the object.
proof fn lemma_member_is_below(members: Seq<(Seq<char>, JsonView)>, at: int)
    requires
        0 <= at < members.len(),
    ensures
        decreases_to!(JsonView::Object(members) => members[at].1),
{
    let object = JsonView::Object(members);
    assert(decreases_to!(object => object->Object_0));
    assert(decreases_to!(members => members[at]));
    assert(decreases_to!(members[at] => members[at].1));
}

/// Turns a `serde_json::Value` into the tree of plain values that it holds.
fn from_value(value: serde_json::Value) -> (json: Json)
    ensures
        json@ == value_view(value),
    decreases value_view(value),
{
    let ghost whole = value_view(value);
    match level(value) {
        Level::Null => Json::Null,
        Level::Bool(flag) => Json::Bool(flag),
        Level::Number(number) => Json::Number(number),
        Level::String(text) => Json::String(text),
        Level::Array(children) => {
            let ghost below = children@;
            let ghost views = below.map_values(|item: serde_json::Value| value_view(item));
            let mut items: Vec<Json> = Vec::new();
            for child in iter: children.into_iter()
                invariant
                    whole == value_view(value),
                    whole == JsonView::Array(views),
                    views == below.map_values(|item: serde_json::Value| value_view(item)),
                    iter.seq() == below,
                    items@.len() == iter.index(),
                    forall|i: int| 0 <= i < items@.len() ==> items@[i]@ == views[i],
            {
                proof {
                    assert(views[iter.index() as int] == value_view(child));
                    lemma_item_is_below(views, iter.index() as int);
                }
                let item = from_value(child);
                items.push(item);
            }
            proof {
                lemma_items_view(items@);
                assert(items_view(items@) =~= views);
            }
            Json::Array(items)
        },
        Level::Object(children) => {
            let ghost below = children@;
            let ghost views = below.map_values(
                |member: (String, serde_json::Value)| (member.0@, value_view(member.1)),
            );
            let mut members: Vec<Member> = Vec::new();
            for child in iter: children.into_iter()
                invariant
                    whole == value_view(value),
                    whole == JsonView::Object(views),
                    views == below.map_values(
                        |member: (String, serde_json::Value)| (member.0@, value_view(member.1)),
                    ),
                    iter.seq() == below,
                    members@.len() == iter.index(),
                    forall|i: int|
                        0 <= i < members@.len() ==> (members@[i].key@, members@[i].value@)
                            == views[i],
            {
                proof {
                    assert(views[iter.index() as int] == (child.0@, value_view(child.1)));
                    lemma_member_is_below(views, iter.index() as int);
                }
                let (key, held) = child;
                let converted = from_value(held);
                members.push(Member { key, value: converted });
            }
            proof {
                lemma_members_view(members@);
                assert(members_view(members@) =~= views);
            }
            Json::Object(members)
        },
    }
}

/// `serde_json::to_string`, called on a `str`. The contract gives the outcome a
/// name and claims nothing else of it: the same text gives the same literal.
#[verifier::external_body]
fn to_string(text: &str) -> (outcome: Result<String, String>)
    ensures
        match outcome {
            Ok(literal) => json_string(text@) == Ok::<Seq<char>, Seq<char>>(literal@),
            Err(reason) => json_string(text@) == Err::<Seq<char>, Seq<char>>(reason@),
        },
{
    match serde_json::to_string(text) {
        Ok(literal) => Ok(literal),
        Err(error) => Err(error.to_string()),
    }
}

/// What [`parse`] returns for a text.
pub open spec fn parsed(text: Seq<char>) -> Result<JsonView, ErrorView> {
    match json_document(text) {
        Ok(document) => Ok(document),
        Err(reason) => Err(ErrorView::Syntax(reason)),
    }
}

/// What [`quote`] returns for a text.
pub open spec fn quoted(text: Seq<char>) -> Result<Seq<char>, ErrorView> {
    match json_string(text) {
        Ok(literal) => Ok(literal),
        Err(reason) => Err(ErrorView::Encode(reason)),
    }
}

/// Reads a JSON text.
pub fn parse(text: &str) -> (outcome: Result<Json, Error>)
    ensures
        outcome_view(outcome) == parsed(text@),
{
    match from_str(text) {
        Ok(value) => Ok(from_value(value)),
        Err(reason) => Err(Error::Syntax(reason)),
    }
}

/// Writes a text as a JSON string literal.
pub fn quote(text: &str) -> (outcome: Result<String, Error>)
    ensures
        outcome_view(outcome) == quoted(text@),
{
    match to_string(text) {
        Ok(literal) => Ok(literal),
        Err(reason) => Err(Error::Encode(reason)),
    }
}

} // verus!

