//! JSON documents as the client reads them.

use crate::text::same_text;
use vstd::prelude::*;

verus! {

/// A JSON document. Numbers are kept only as such: nothing here reads their value.
#[derive(Debug, PartialEq, Eq)]
pub enum Json {
    Null,
    Bool(bool),
    Number,
    Text(String),
    Array(Vec<Json>),
    /// The members of an object, in the order in which the document's reader walks them.
    Object(Vec<Member>),
}

/// One member of an object: a name and the value that goes by it.
#[derive(Debug, PartialEq, Eq)]
pub struct Member {
    pub name: String,
    pub value: Json,
}

/// The mathematical content of a [`Json`].
pub enum JsonModel {
    Null,
    Bool(bool),
    Number,
    Text(Seq<char>),
    Array(Seq<JsonModel>),
    Object(Seq<MemberModel>),
}

/// The mathematical content of a [`Member`].
pub struct MemberModel {
    pub name: Seq<char>,
    pub value: JsonModel,
}

/// The content of a document.
pub open spec fn model_of(json: Json) -> JsonModel
    decreases json,
{
    match json {
        Json::Null => JsonModel::Null,
        Json::Bool(b) => JsonModel::Bool(b),
        Json::Number => JsonModel::Number,
        Json::Text(s) => JsonModel::Text(s@),
        Json::Array(items) => JsonModel::Array(models_of(items@)),
        Json::Object(members) => JsonModel::Object(member_models_of(members@)),
    }
}

/// The contents of documents, one for one.
pub open spec fn models_of(items: Seq<Json>) -> Seq<JsonModel>
    decreases items,
{
    if items.len() == 0 {
        Seq::empty()
    } else {
        models_of(items.drop_last()).push(model_of(items.last()))
    }
}

/// The contents of members, one for one.
pub open spec fn member_models_of(members: Seq<Member>) -> Seq<MemberModel>
    decreases members,
{
    if members.len() == 0 {
        Seq::empty()
    } else {
        member_models_of(members.drop_last()).push(
            MemberModel { name: members.last().name@, value: model_of(members.last().value) },
        )
    }
}

impl View for Json {
    type V = JsonModel;

    open spec fn view(&self) -> JsonModel {
        model_of(*self)
    }
}

/// `models_of` keeps the number and the order of the documents.
pub proof fn lemma_models_of(items: Seq<Json>)
    ensures
        models_of(items).len() == items.len(),
        forall|i: int| 0 <= i < items.len() ==> #[trigger] models_of(items)[i] == items[i]@,
    decreases items.len(),
{
    if items.len() > 0 {
        lemma_models_of(items.drop_last());
    }
}

/// `member_models_of` keeps the number and the order of the members.
pub proof fn lemma_member_models_of(members: Seq<Member>)
    ensures
        member_models_of(members).len() == members.len(),
        forall|i: int|
            0 <= i < members.len() ==> #[trigger] member_models_of(members)[i] == (MemberModel {
                name: members[i].name@,
                value: members[i].value@,
            }),
    decreases members.len(),
{
    if members.len() > 0 {
        lemma_member_models_of(members.drop_last());
    }
}

/// The value of the first member of `members` that goes by the name `key`.
pub open spec fn first_named(members: Seq<MemberModel>, key: Seq<char>) -> Option<JsonModel>
    decreases members.len(),
{
    if members.len() == 0 {
        None
    } else if members[0].name == key {
        Some(members[0].value)
    } else {
        first_named(members.skip(1), key)
    }
}

impl JsonModel {
    /// The member `key` of an object; nothing else has members.
    pub open spec fn member(self, key: Seq<char>) -> Option<JsonModel> {
        match self {
            JsonModel::Object(members) => first_named(members, key),
            _ => None,
        }
    }

    /// The characters of a text; nothing else is read as one.
    pub open spec fn text(self) -> Option<Seq<char>> {
        match self {
            JsonModel::Text(s) => Some(s),
            _ => None,
        }
    }

    /// The text that the member `key` holds, where there is such a member and it is a
    /// text.
    pub open spec fn text_member(self, key: Seq<char>) -> Option<Seq<char>> {
        match self.member(key) {
            Some(value) => value.text(),
            None => None,
        }
    }

    /// The texts of an array that holds nothing but texts.
    pub open spec fn text_list(self) -> Option<Seq<Seq<char>>> {
        match self {
            JsonModel::Array(items) => if forall|i: int|
                0 <= i < items.len() ==> (#[trigger] items[i]) is Text {
                Some(Seq::new(items.len(), |i: int| items[i]->Text_0))
            } else {
                None
            },
            _ => None,
        }
    }

    /// The names of an object's members, in order.
    pub open spec fn member_names(self) -> Option<Seq<Seq<char>>> {
        match self {
            JsonModel::Object(members) => Some(Seq::new(members.len(), |i: int| members[i].name)),
            _ => None,
        }
    }
}

/// A document, or the words in which the reader refused the text.
pub open spec fn reading_model(r: Result<Json, String>) -> Result<JsonModel, Seq<char>> {
    match r {
        Ok(json) => Ok(json@),
        Err(e) => Err(e@),
    }
}

/// `serde_json::Value`, the document as the JSON reader holds it. Nothing is said of
/// what is inside: it is only handed on to be turned into a [`Json`].
#[verifier::external_type_specification]
#[verifier::external_body]
pub struct ExValue(serde_json::Value);

/// What `serde_json::from_str` makes of `text` when it is asked for a
/// `serde_json::Value`: the document that the text spells, or the words of the error
/// with which it refuses the text.
pub uninterp spec fn json_reading(text: Seq<char>) -> Result<JsonModel, Seq<char>>;

/// The variants of `serde_json::Value`, one for one. A number is kept without its
/// value, a text and a member's name are copied, the items of an array and the members
/// of an object stay in the order in which their collection hands them out.
#[verifier::external_body]
fn json_of(value: &serde_json::Value) -> Json {
    match value {
        serde_json::Value::Null => Json::Null,
        serde_json::Value::Bool(b) => Json::Bool(*b),
        serde_json::Value::Number(_) => Json::Number,
        serde_json::Value::String(s) => Json::Text(s.clone()),
        serde_json::Value::Array(items) => Json::Array(items.iter().map(json_of).collect()),
        serde_json::Value::Object(members) => Json::Object(
            members.iter().map(|(k, v)| Member { name: k.clone(), value: json_of(v) }).collect(),
        ),
    }
}

/// `serde_json::from_str`, asked for a `serde_json::Value`. The same text is always
/// read in the same way: the result is `json_reading` of the text, the document in
/// this library's own form and the error by the words it displays.
#[verifier::external_body]
fn read_json(text: &str) -> (r: Result<Json, String>)
    ensures
        reading_model(r) == json_reading(text@),
{
    match serde_json::from_str::<serde_json::Value>(text) {
        Ok(value) => Ok(json_of(&value)),
        Err(e) => Err(e.to_string()),
    }
}

impl Json {
    /// Reads a JSON text.
    pub fn parse(text: &str) -> (r: Result<Json, String>)
        ensures
            reading_model(r) == json_reading(text@),
    {
        read_json(text)
    }

    /// The member `key` of an object.
    pub fn member(&self, key: &str) -> (found: Option<&Json>)
        ensures
            match found {
                Some(value) => self@.member(key@) == Some(value@),
                None => self@.member(key@) is None,
            },
    {
        match self {
            Json::Object(members) => {
                let ghost model = self@->Object_0;
                let mut i: usize = 0;
                proof {
                    lemma_member_models_of(members@);
                }
                assert(model.skip(0) =~= model);
                while i < members.len()
                    invariant
                        i <= members.len(),
                        model.len() == members@.len(),
                        forall|j: int|
                            0 <= j < model.len() ==> #[trigger] model[j] == (MemberModel {
                                name: members@[j].name@,
                                value: members@[j].value@,
                            }),
                        self@.member(key@) == first_named(model, key@),
                        first_named(model.skip(i as int), key@) == first_named(model, key@),
                    decreases members.len() - i,
                {
                    assert(model.skip(i as int).skip(1) =~= model.skip(i + 1));
                    if same_text(members[i].name.as_str(), key) {
                        return Some(&members[i].value);
                    }
                    i += 1;
                }
                None
            },
            _ => None,
        }
    }

    /// The text that the member `key` holds.
    pub fn text_member(&self, key: &str) -> (found: Option<String>)
        ensures
            found.deep_view() == self@.text_member(key@),
    {
        match self.member(key) {
            Some(Json::Text(s)) => Some(s.clone()),
            _ => None,
        }
    }

    /// The texts of an array that holds nothing but texts.
    pub fn text_list(&self) -> (list: Option<Vec<String>>)
        ensures
            list.deep_view() == self@.text_list(),
    {
        match self {
            Json::Array(items) => {
                let ghost model = self@->Array_0;
                proof {
                    lemma_models_of(items@);
                }
                let mut texts: Vec<String> = Vec::new();
                let mut i: usize = 0;
                while i < items.len()
                    invariant
                        i <= items.len(),
                        model.len() == items@.len(),
                        forall|j: int| 0 <= j < model.len() ==> #[trigger] model[j] == items@[j]@,
                        self@ == JsonModel::Array(model),
                        texts@.len() == i,
                        forall|j: int| 0 <= j < i ==> (#[trigger] model[j]) is Text,
                        forall|j: int| 0 <= j < i ==> (#[trigger] texts@[j])@ == model[j]->Text_0,
                    decreases items.len() - i,
                {
                    match &items[i] {
                        Json::Text(s) => {
                            texts.push(s.clone());
                        },
                        _ => {
                            assert(!(model[i as int] is Text));
                            return None;
                        },
                    }
                    i += 1;
                }
                Some(texts)
            },
            _ => None,
        }
    }
}

} // verus!
