//! The parts that catalogs and responses are written with as JSON values:
//! the names of their members, and how a member is found, read and made.
//!
//! Members that are not named here are ignored. A member that holds `null`
//! counts as absent where it is optional.

use vstd::prelude::*;
use crate::json::{Json, JsonTree, Member, MemberTree};
use crate::{Field, Flaw};

verus! {

/// The name of a member on the wire.
pub open spec fn field_name(field: Field) -> Seq<char> {
    match field {
        Field::Type => "type"@,
        Field::Version => "version"@,
        Field::Title => "title"@,
        Field::AuthorName => "author_name"@,
        Field::AuthorUrl => "author_url"@,
        Field::ProviderName => "provider_name"@,
        Field::ProviderUrl => "provider_url"@,
        Field::CacheAge => "cache_age"@,
        Field::ThumbnailUrl => "thumbnail_url"@,
        Field::ThumbnailWidth => "thumbnail_width"@,
        Field::ThumbnailHeight => "thumbnail_height"@,
        Field::Url => "url"@,
        Field::Html => "html"@,
        Field::Width => "width"@,
        Field::Height => "height"@,
        Field::Endpoints => "endpoints"@,
        Field::Schemes => "schemes"@,
        Field::Formats => "formats"@,
        Field::Discovery => "discovery"@,
    }
}

impl Field {
    /// The name of the member on the wire.
    pub fn name(&self) -> (name: &'static str)
        ensures
            name@ == field_name(*self),
    {
        match self {
            Field::Type => "type",
            Field::Version => "version",
            Field::Title => "title",
            Field::AuthorName => "author_name",
            Field::AuthorUrl => "author_url",
            Field::ProviderName => "provider_name",
            Field::ProviderUrl => "provider_url",
            Field::CacheAge => "cache_age",
            Field::ThumbnailUrl => "thumbnail_url",
            Field::ThumbnailWidth => "thumbnail_width",
            Field::ThumbnailHeight => "thumbnail_height",
            Field::Url => "url",
            Field::Html => "html",
            Field::Width => "width",
            Field::Height => "height",
            Field::Endpoints => "endpoints",
            Field::Schemes => "schemes",
            Field::Formats => "formats",
            Field::Discovery => "discovery",
        }
    }
}

/// The members of an object as plain values.
pub type Members = Seq<MemberTree>;

/// The value that an object holds under `key`: that of the last member with
/// that key.
pub open spec fn member(members: Members, key: Seq<char>) -> Option<JsonTree>
    decreases members.len(),
{
    if members.len() == 0 {
        None
    } else if members.last().key == key {
        Some(members.last().value)
    } else {
        member(members.drop_last(), key)
    }
}

/// The plain values of a list of members.
pub open spec fn members_of(members: Seq<Member>) -> Members {
    Seq::new(members.len(), |i: int| MemberTree { key: members[i].key@, value: members[i].value@ })
}

/// The plain values of a list of JSON values.
pub open spec fn trees_of(items: Seq<Json>) -> Seq<JsonTree> {
    Seq::new(items.len(), |i: int| items[i]@)
}

/// The members of an object are the plain values of what it holds.
pub proof fn lemma_object_view(json: Json)
    requires
        json is Object,
    ensures
        json@ == JsonTree::Object(members_of(json->Object_0@)),
{
    let members = json->Object_0@;
    assert(json@->Object_0 =~= members_of(members));
}

/// The items of an array are the plain values of what it holds.
pub proof fn lemma_array_view(json: Json)
    requires
        json is Array,
    ensures
        json@ == JsonTree::Array(trees_of(json->Array_0@)),
{
    assert(json@->Array_0 =~= trees_of(json->Array_0@));
}

/// Whether two texts hold the same characters.
pub fn same_text(a: &str, b: &str) -> (same: bool)
    ensures
        same == (a@ == b@),
{
    let x = String::from_str(a);
    let y = String::from_str(b);
    x == y
}

/// Finds the value that a list of members holds under `key`.
pub fn find_member<'a>(members: &'a Vec<Member>, key: &str) -> (found: Option<&'a Json>)
    ensures
        match found {
            Some(json) => member(members_of(members@), key@) == Some(json@),
            None => member(members_of(members@), key@).is_none(),
        },
{
    let ghost all = members_of(members@);
    let mut i: usize = members.len();
    assert(all.take(i as int) =~= all);
    while i > 0
        invariant
            i <= members.len(),
            all == members_of(members@),
            member(all, key@) == member(all.take(i as int), key@),
        decreases i,
    {
        let ghost part = all.take(i as int);
        assert(part.drop_last() =~= all.take(i - 1));
        assert(part.last() == all[i - 1]);
        i = i - 1;
        if same_text(members[i].key.as_str(), key) {
            return Some(&members[i].value);
        }
    }
    None
}

/// The text that must stand under `field`.
pub open spec fn required_text(members: Members, field: Field) -> Result<Seq<char>, Flaw> {
    match member(members, field_name(field)) {
        None => Err(Flaw::MissingField(field)),
        Some(JsonTree::Text(t)) => Ok(t),
        Some(_) => Err(Flaw::InvalidField(field)),
    }
}

/// The text that may stand under `field`.
pub open spec fn optional_text(members: Members, field: Field) -> Result<Option<Seq<char>>, Flaw> {
    match member(members, field_name(field)) {
        None => Ok(None),
        Some(JsonTree::Null) => Ok(None),
        Some(JsonTree::Text(t)) => Ok(Some(t)),
        Some(_) => Err(Flaw::InvalidField(field)),
    }
}

/// The number that may stand under `field`: a whole number that an `i32`
/// holds.
pub open spec fn optional_size(members: Members, field: Field) -> Result<Option<i32>, Flaw> {
    match member(members, field_name(field)) {
        None => Ok(None),
        Some(JsonTree::Null) => Ok(None),
        Some(JsonTree::Int(i)) => if i32::MIN <= i <= i32::MAX {
            Ok(Some(i as i32))
        } else {
            Err(Flaw::InvalidField(field))
        },
        Some(_) => Err(Flaw::InvalidField(field)),
    }
}

/// Reads the text that must stand under `field`.
pub fn read_required_text(members: &Vec<Member>, field: Field) -> (r: Result<String, Flaw>)
    ensures
        match r {
            Ok(t) => required_text(members_of(members@), field) == Ok::<Seq<char>, Flaw>(t@),
            Err(f) => required_text(members_of(members@), field) == Err::<Seq<char>, Flaw>(f),
        },
{
    match find_member(members, field.name()) {
        None => Err(Flaw::MissingField(field)),
        Some(Json::Text(t)) => Ok(t.clone()),
        Some(_) => Err(Flaw::InvalidField(field)),
    }
}

/// Reads the text that may stand under `field`.
pub fn read_optional_text(members: &Vec<Member>, field: Field) -> (r: Result<Option<String>, Flaw>)
    ensures
        match r {
            Ok(t) => optional_text(members_of(members@), field) == Ok::<Option<Seq<char>>, Flaw>(
                crate::text_of(t),
            ),
            Err(f) => optional_text(members_of(members@), field) == Err::<Option<Seq<char>>, Flaw>(
                f,
            ),
        },
{
    match find_member(members, field.name()) {
        None => Ok(None),
        Some(Json::Null) => Ok(None),
        Some(Json::Text(t)) => Ok(Some(t.clone())),
        Some(_) => Err(Flaw::InvalidField(field)),
    }
}

/// Reads the number that may stand under `field`.
pub fn read_optional_size(members: &Vec<Member>, field: Field) -> (r: Result<Option<i32>, Flaw>)
    ensures
        r == optional_size(members_of(members@), field),
{
    match find_member(members, field.name()) {
        None => Ok(None),
        Some(Json::Null) => Ok(None),
        Some(Json::Int(i)) => {
            if -2147483648 <= *i && *i <= 2147483647 {
                Ok(Some(*i as i32))
            } else {
                Err(Flaw::InvalidField(field))
            }
        },
        Some(_) => Err(Flaw::InvalidField(field)),
    }
}

/// The member that holds `value` under the name of `field`.
pub open spec fn entry(field: Field, value: JsonTree) -> MemberTree {
    MemberTree { key: field_name(field), value }
}

/// An optional text as a JSON value: `null` where there is none.
pub open spec fn text_value(text: Option<Seq<char>>) -> JsonTree {
    match text {
        Some(t) => JsonTree::Text(t),
        None => JsonTree::Null,
    }
}

/// An optional number as a JSON value: `null` where there is none.
pub open spec fn size_value(size: Option<i32>) -> JsonTree {
    match size {
        Some(n) => JsonTree::Int(n as int),
        None => JsonTree::Null,
    }
}

/// Makes the member that holds `value` under the name of `field`.
pub fn make_entry(field: Field, value: Json) -> (m: Member)
    ensures
        m.key@ == field_name(field),
        m.value == value,
{
    Member { key: String::from_str(field.name()), value }
}

/// Makes the JSON value of a text.
pub fn make_text(text: &String) -> (json: Json)
    ensures
        json@ == JsonTree::Text(text@),
{
    Json::Text(text.clone())
}

/// Makes the JSON value of an optional text.
pub fn make_optional_text(text: &Option<String>) -> (json: Json)
    ensures
        json@ == text_value(crate::text_of(*text)),
{
    match text {
        Some(t) => Json::Text(t.clone()),
        None => Json::Null,
    }
}

/// Makes the JSON value of an optional number.
pub fn make_optional_size(size: Option<i32>) -> (json: Json)
    ensures
        json@ == size_value(size),
{
    match size {
        Some(n) => Json::Int(n as i128),
        None => Json::Null,
    }
}

/// How long the name of a member is, and what it starts with.
pub open spec fn field_mark(field: Field) -> (nat, char) {
    match field {
        Field::Type => (4, 't'),
        Field::Version => (7, 'v'),
        Field::Title => (5, 't'),
        Field::AuthorName => (11, 'a'),
        Field::AuthorUrl => (10, 'a'),
        Field::ProviderName => (13, 'p'),
        Field::ProviderUrl => (12, 'p'),
        Field::CacheAge => (9, 'c'),
        Field::ThumbnailUrl => (13, 't'),
        Field::ThumbnailWidth => (15, 't'),
        Field::ThumbnailHeight => (16, 't'),
        Field::Url => (3, 'u'),
        Field::Html => (4, 'h'),
        Field::Width => (5, 'w'),
        Field::Height => (6, 'h'),
        Field::Endpoints => (9, 'e'),
        Field::Schemes => (7, 's'),
        Field::Formats => (7, 'f'),
        Field::Discovery => (9, 'd'),
    }
}

/// The name of a member is as long as its mark says, and starts with the
/// character of its mark.
pub proof fn lemma_field_mark(field: Field)
    ensures
        field_name(field).len() == field_mark(field).0,
        field_name(field)[0] == field_mark(field).1,
{
    reveal_strlit("type");
    reveal_strlit("version");
    reveal_strlit("title");
    reveal_strlit("author_name");
    reveal_strlit("author_url");
    reveal_strlit("provider_name");
    reveal_strlit("provider_url");
    reveal_strlit("cache_age");
    reveal_strlit("thumbnail_url");
    reveal_strlit("thumbnail_width");
    reveal_strlit("thumbnail_height");
    reveal_strlit("url");
    reveal_strlit("html");
    reveal_strlit("width");
    reveal_strlit("height");
    reveal_strlit("endpoints");
    reveal_strlit("schemes");
    reveal_strlit("formats");
    reveal_strlit("discovery");
}

/// No two members share a name.
pub proof fn lemma_field_names_distinct(a: Field, b: Field)
    requires
        a != b,
    ensures
        field_name(a) != field_name(b),
{
    lemma_field_mark(a);
    lemma_field_mark(b);
}

/// Where no two members of an object share a key, each key leads to the
/// value of its member.
pub proof fn lemma_member_found(members: Members, i: int)
    requires
        0 <= i < members.len(),
        forall|j: int| 0 <= j < members.len() && j != i ==> members[j].key != members[i].key,
    ensures
        member(members, members[i].key) == Some(members[i].value),
    decreases members.len(),
{
    if i < members.len() - 1 {
        let shorter = members.drop_last();
        assert(shorter[i] == members[i]);
        assert forall|j: int| 0 <= j < shorter.len() && j != i implies shorter[j].key
            != shorter[i].key by {
            assert(shorter[j] == members[j]);
        }
        lemma_member_found(shorter, i);
    }
}

/// Whether the members at the front of `members` carry the names of
/// `fields`, one for one.
pub open spec fn keyed_by(members: Members, fields: Seq<Field>) -> bool {
    &&& members.len() == fields.len()
    &&& forall|i: int| 0 <= i < fields.len() ==> members[i].key == field_name(#[trigger] fields[i])
}

/// Where the members of an object carry the names of fields that all
/// differ, the name of each field leads to the value of its member.
pub proof fn lemma_keyed_lookup(members: Members, fields: Seq<Field>, i: int)
    requires
        keyed_by(members, fields),
        fields.no_duplicates(),
        0 <= i < fields.len(),
    ensures
        member(members, field_name(fields[i])) == Some(members[i].value),
{
    assert forall|j: int| 0 <= j < members.len() && j != i implies members[j].key
        != members[i].key by {
        lemma_field_names_distinct(fields[j], fields[i]);
    }
    lemma_member_found(members, i);
}

/// The truth value that may stand under `field`.
pub open spec fn optional_flag(members: Members, field: Field) -> Result<Option<bool>, Flaw> {
    match member(members, field_name(field)) {
        None => Ok(None),
        Some(JsonTree::Null) => Ok(None),
        Some(JsonTree::Bool(b)) => Ok(Some(b)),
        Some(_) => Err(Flaw::InvalidField(field)),
    }
}

/// Whether every item is a text.
pub open spec fn all_text(items: Seq<JsonTree>) -> bool {
    forall|i: int| 0 <= i < items.len() ==> (#[trigger] items[i]) is Text
}

/// The characters of each item, where every item is a text.
pub open spec fn texts_in(items: Seq<JsonTree>) -> Seq<Seq<char>> {
    Seq::new(items.len(), |i: int| items[i]->Text_0)
}

/// The list of texts that may stand under `field`.
pub open spec fn optional_texts(members: Members, field: Field) -> Result<
    Option<Seq<Seq<char>>>,
    Flaw,
> {
    match member(members, field_name(field)) {
        None => Ok(None),
        Some(JsonTree::Null) => Ok(None),
        Some(JsonTree::Array(items)) => if all_text(items) {
            Ok(Some(texts_in(items)))
        } else {
            Err(Flaw::InvalidField(field))
        },
        Some(_) => Err(Flaw::InvalidField(field)),
    }
}

/// Reads the truth value that may stand under `field`.
pub fn read_optional_flag(members: &Vec<Member>, field: Field) -> (r: Result<Option<bool>, Flaw>)
    ensures
        r == optional_flag(members_of(members@), field),
{
    match find_member(members, field.name()) {
        None => Ok(None),
        Some(Json::Null) => Ok(None),
        Some(Json::Bool(b)) => Ok(Some(*b)),
        Some(_) => Err(Flaw::InvalidField(field)),
    }
}

/// Reads the list of texts that may stand under `field`.
pub fn read_optional_texts(members: &Vec<Member>, field: Field) -> (r: Result<
    Option<Vec<String>>,
    Flaw,
>)
    ensures
        match r {
            Ok(list) => optional_texts(members_of(members@), field) == Ok::<
                Option<Seq<Seq<char>>>,
                Flaw,
            >(crate::text_list_of(list)),
            Err(f) => optional_texts(members_of(members@), field) == Err::<
                Option<Seq<Seq<char>>>,
                Flaw,
            >(f),
        },
{
    match find_member(members, field.name()) {
        None => Ok(None),
        Some(Json::Null) => Ok(None),
        Some(Json::Array(items)) => {
            let ghost found = member(members_of(members@), field_name(field))->Some_0;
            proof {
                lemma_array_view(Json::Array(*items));
            }
            let ghost trees = trees_of(items@);
            let mut out: Vec<String> = Vec::new();
            let mut i: usize = 0;
            while i < items.len()
                invariant
                    i <= items.len(),
                    trees == trees_of(items@),
                    member(members_of(members@), field_name(field)) == Some(
                        JsonTree::Array(trees),
                    ),
                    out.len() == i,
                    forall|j: int| 0 <= j < i ==> (#[trigger] trees[j]) is Text,
                    forall|j: int| 0 <= j < i ==> (#[trigger] out@[j])@ == trees[j]->Text_0,
                decreases items.len() - i,
            {
                assert(trees[i as int] == items@[i as int]@);
                match &items[i] {
                    Json::Text(t) => {
                        out.push(t.clone());
                    },
                    _ => {
                        assert(!(trees[i as int] is Text));
                        return Err(Flaw::InvalidField(field));
                    },
                }
                i = i + 1;
            }
            assert(all_text(trees));
            assert(crate::texts_of(out@) =~= texts_in(trees));
            Ok(Some(out))
        },
        Some(_) => Err(Flaw::InvalidField(field)),
    }
}

/// An optional truth value as a JSON value: `null` where there is none.
pub open spec fn flag_value(flag: Option<bool>) -> JsonTree {
    match flag {
        Some(b) => JsonTree::Bool(b),
        None => JsonTree::Null,
    }
}

/// Each text of a list as a JSON value.
pub open spec fn text_items(list: Seq<Seq<char>>) -> Seq<JsonTree> {
    Seq::new(list.len(), |i: int| JsonTree::Text(list[i]))
}

/// An optional list of texts as a JSON value: `null` where there is none.
pub open spec fn texts_value(list: Option<Seq<Seq<char>>>) -> JsonTree {
    match list {
        Some(l) => JsonTree::Array(text_items(l)),
        None => JsonTree::Null,
    }
}

/// Makes the JSON value of an optional truth value.
pub fn make_optional_flag(flag: Option<bool>) -> (json: Json)
    ensures
        json@ == flag_value(flag),
{
    match flag {
        Some(b) => Json::Bool(b),
        None => Json::Null,
    }
}

/// Makes the JSON value of an optional list of texts.
pub fn make_optional_texts(list: &Option<Vec<String>>) -> (json: Json)
    ensures
        json@ == texts_value(crate::text_list_of(*list)),
{
    match list {
        None => Json::Null,
        Some(texts) => {
            let mut out: Vec<Json> = Vec::new();
            let mut i: usize = 0;
            while i < texts.len()
                invariant
                    i <= texts.len(),
                    out.len() == i,
                    forall|j: int| 0 <= j < i ==> (#[trigger] out@[j])@ == JsonTree::Text(texts@[j]@),
                decreases texts.len() - i,
            {
                out.push(make_text(&texts[i]));
                i = i + 1;
            }
            let json = Json::Array(out);
            proof {
                lemma_array_view(json);
                assert(trees_of(out@) =~= text_items(crate::texts_of(texts@)));
            }
            json
        },
    }
}

/// A list of texts that is written as JSON values holds texts only, and
/// reads back as the list that was written.
pub proof fn lemma_texts_round_trip(list: Seq<Seq<char>>)
    ensures
        all_text(text_items(list)),
        texts_in(text_items(list)) == list,
{
    assert(texts_in(text_items(list)) =~= list);
}

} // verus!
