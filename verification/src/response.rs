//! How a response is written as a JSON value, and read back.
//!
//! A response is an object with a `type` of `photo`, `video`, `rich` or
//! `link`, the members that belong to that type, a `version`, and optional
//! members that describe the resource.

use vstd::prelude::*;
use crate::json::{Json, JsonTree, Member};
use crate::wire::{
    entry, field_name, keyed_by, lemma_keyed_lookup, lemma_object_view, make_entry,
    make_optional_size, make_optional_text, make_text, member, members_of, optional_size,
    optional_text, read_optional_size, read_optional_text, read_required_text, required_text,
    same_text, size_value, text_value, Members,
};
use crate::{Field, Flaw, Response, ResponseType, ResponseTypeView, ResponseView};

verus! {

/// The first of `width` and `height` that is at fault.
pub open spec fn frame_flaw(members: Members) -> Option<Flaw> {
    if optional_size(members, Field::Width) is Err {
        Some(optional_size(members, Field::Width)->Err_0)
    } else if optional_size(members, Field::Height) is Err {
        Some(optional_size(members, Field::Height)->Err_0)
    } else {
        None
    }
}

/// What the members of a response say of its type: the `type` itself, then
/// the `url` of a photo or the `html` of a video or of rich content, then
/// `width` and `height`. The first member that is at fault decides.
pub open spec fn decode_response_type(members: Members) -> Result<ResponseTypeView, Flaw> {
    let width = optional_size(members, Field::Width);
    let height = optional_size(members, Field::Height);
    match required_text(members, Field::Type) {
        Err(f) => Err(f),
        Ok(tag) => if tag == "link"@ {
            Ok(ResponseTypeView::Link)
        } else if tag == "photo"@ {
            match required_text(members, Field::Url) {
                Err(f) => Err(f),
                Ok(url) => match frame_flaw(members) {
                    Some(f) => Err(f),
                    None => Ok(
                        ResponseTypeView::Photo { url, width: width->Ok_0, height: height->Ok_0 },
                    ),
                },
            }
        } else if tag == "video"@ || tag == "rich"@ {
            match required_text(members, Field::Html) {
                Err(f) => Err(f),
                Ok(html) => match frame_flaw(members) {
                    Some(f) => Err(f),
                    None => if tag == "video"@ {
                        Ok(
                            ResponseTypeView::Video {
                                html,
                                width: width->Ok_0,
                                height: height->Ok_0,
                            },
                        )
                    } else {
                        Ok(
                            ResponseTypeView::Rich {
                                html,
                                width: width->Ok_0,
                                height: height->Ok_0,
                            },
                        )
                    },
                },
            }
        } else {
            Err(Flaw::UnknownType)
        },
    }
}

/// Reads what the members of a response say of its type.
pub fn read_response_type(members: &Vec<Member>) -> (r: Result<ResponseType, Flaw>)
    ensures
        match r {
            Ok(t) => decode_response_type(members_of(members@)) == Ok::<ResponseTypeView, Flaw>(
                t@,
            ),
            Err(f) => decode_response_type(members_of(members@)) == Err::<ResponseTypeView, Flaw>(
                f,
            ),
        },
{
    let tag = match read_required_text(members, Field::Type) {
        Ok(tag) => tag,
        Err(f) => { return Err(f); },
    };
    if same_text(tag.as_str(), "link") {
        return Ok(ResponseType::Link);
    }
    let photo = same_text(tag.as_str(), "photo");
    let video = same_text(tag.as_str(), "video");
    let rich = same_text(tag.as_str(), "rich");
    if !photo && !video && !rich {
        return Err(Flaw::UnknownType);
    }
    let content = match read_required_text(members, if photo { Field::Url } else { Field::Html }) {
        Ok(content) => content,
        Err(f) => { return Err(f); },
    };
    let width = match read_optional_size(members, Field::Width) {
        Ok(width) => width,
        Err(f) => { return Err(f); },
    };
    let height = match read_optional_size(members, Field::Height) {
        Ok(height) => height,
        Err(f) => { return Err(f); },
    };
    if photo {
        Ok(ResponseType::Photo { url: content, width, height })
    } else if video {
        Ok(ResponseType::Video { html: content, width, height })
    } else {
        Ok(ResponseType::Rich { html: content, width, height })
    }
}

/// The first member of a response that is at fault: those of its type come
/// first, then `version` and the descriptive members in the order of the
/// fields of a [`Response`].
pub open spec fn response_flaw(m: Members) -> Option<Flaw> {
    if decode_response_type(m) is Err {
        Some(decode_response_type(m)->Err_0)
    } else if required_text(m, Field::Version) is Err {
        Some(required_text(m, Field::Version)->Err_0)
    } else if optional_text(m, Field::Title) is Err {
        Some(optional_text(m, Field::Title)->Err_0)
    } else if optional_text(m, Field::AuthorName) is Err {
        Some(optional_text(m, Field::AuthorName)->Err_0)
    } else if optional_text(m, Field::AuthorUrl) is Err {
        Some(optional_text(m, Field::AuthorUrl)->Err_0)
    } else if optional_text(m, Field::ProviderName) is Err {
        Some(optional_text(m, Field::ProviderName)->Err_0)
    } else if optional_text(m, Field::ProviderUrl) is Err {
        Some(optional_text(m, Field::ProviderUrl)->Err_0)
    } else if optional_text(m, Field::CacheAge) is Err {
        Some(optional_text(m, Field::CacheAge)->Err_0)
    } else if optional_text(m, Field::ThumbnailUrl) is Err {
        Some(optional_text(m, Field::ThumbnailUrl)->Err_0)
    } else if optional_size(m, Field::ThumbnailWidth) is Err {
        Some(optional_size(m, Field::ThumbnailWidth)->Err_0)
    } else if optional_size(m, Field::ThumbnailHeight) is Err {
        Some(optional_size(m, Field::ThumbnailHeight)->Err_0)
    } else {
        None
    }
}

/// The response that members without a fault stand for.
pub open spec fn response_value(m: Members) -> ResponseView {
    ResponseView {
        response_type: decode_response_type(m)->Ok_0,
        version: required_text(m, Field::Version)->Ok_0,
        title: optional_text(m, Field::Title)->Ok_0,
        author_name: optional_text(m, Field::AuthorName)->Ok_0,
        author_url: optional_text(m, Field::AuthorUrl)->Ok_0,
        provider_name: optional_text(m, Field::ProviderName)->Ok_0,
        provider_url: optional_text(m, Field::ProviderUrl)->Ok_0,
        cache_age: optional_text(m, Field::CacheAge)->Ok_0,
        thumbnail_url: optional_text(m, Field::ThumbnailUrl)->Ok_0,
        thumbnail_width: optional_size(m, Field::ThumbnailWidth)->Ok_0,
        thumbnail_height: optional_size(m, Field::ThumbnailHeight)->Ok_0,
    }
}

/// The response that a JSON value stands for, or why it stands for none.
pub open spec fn decode_response(tree: JsonTree) -> Result<ResponseView, Flaw> {
    match tree {
        JsonTree::Object(m) => match response_flaw(m) {
            Some(f) => Err(f),
            None => Ok(response_value(m)),
        },
        _ => Err(Flaw::NotAnObject),
    }
}

impl Response {
    /// Reads a response from a JSON value.
    pub fn from_json(json: &Json) -> (r: Result<Response, Flaw>)
        ensures
            match r {
                Ok(response) => decode_response(json@) == Ok::<ResponseView, Flaw>(response@),
                Err(f) => decode_response(json@) == Err::<ResponseView, Flaw>(f),
            },
    {
        let members = match json {
            Json::Object(members) => members,
            _ => { return Err(Flaw::NotAnObject); },
        };
        proof {
            lemma_object_view(*json);
        }
        let response_type = match read_response_type(members) {
            Ok(v) => v,
            Err(f) => { return Err(f); },
        };
        let version = match read_required_text(members, Field::Version) {
            Ok(v) => v,
            Err(f) => { return Err(f); },
        };
        let title = match read_optional_text(members, Field::Title) {
            Ok(v) => v,
            Err(f) => { return Err(f); },
        };
        let author_name = match read_optional_text(members, Field::AuthorName) {
            Ok(v) => v,
            Err(f) => { return Err(f); },
        };
        let author_url = match read_optional_text(members, Field::AuthorUrl) {
            Ok(v) => v,
            Err(f) => { return Err(f); },
        };
        let provider_name = match read_optional_text(members, Field::ProviderName) {
            Ok(v) => v,
            Err(f) => { return Err(f); },
        };
        let provider_url = match read_optional_text(members, Field::ProviderUrl) {
            Ok(v) => v,
            Err(f) => { return Err(f); },
        };
        let cache_age = match read_optional_text(members, Field::CacheAge) {
            Ok(v) => v,
            Err(f) => { return Err(f); },
        };
        let thumbnail_url = match read_optional_text(members, Field::ThumbnailUrl) {
            Ok(v) => v,
            Err(f) => { return Err(f); },
        };
        let thumbnail_width = match read_optional_size(members, Field::ThumbnailWidth) {
            Ok(v) => v,
            Err(f) => { return Err(f); },
        };
        let thumbnail_height = match read_optional_size(members, Field::ThumbnailHeight) {
            Ok(v) => v,
            Err(f) => { return Err(f); },
        };
        Ok(
            Response {
                response_type,
                version,
                title,
                author_name,
                author_url,
                provider_name,
                provider_url,
                cache_age,
                thumbnail_url,
                thumbnail_width,
                thumbnail_height,
            },
        )
    }
}

/// The members that say of which type a response is.
pub open spec fn encode_response_type(t: ResponseTypeView) -> Members {
    match t {
        ResponseTypeView::Photo { url, width, height } => seq![
            entry(Field::Type, JsonTree::Text("photo"@)),
            entry(Field::Url, JsonTree::Text(url)),
            entry(Field::Width, size_value(width)),
            entry(Field::Height, size_value(height)),
        ],
        ResponseTypeView::Video { html, width, height } => seq![
            entry(Field::Type, JsonTree::Text("video"@)),
            entry(Field::Html, JsonTree::Text(html)),
            entry(Field::Width, size_value(width)),
            entry(Field::Height, size_value(height)),
        ],
        ResponseTypeView::Rich { html, width, height } => seq![
            entry(Field::Type, JsonTree::Text("rich"@)),
            entry(Field::Html, JsonTree::Text(html)),
            entry(Field::Width, size_value(width)),
            entry(Field::Height, size_value(height)),
        ],
        ResponseTypeView::Link => seq![entry(Field::Type, JsonTree::Text("link"@))],
    }
}

/// The members that every response has.
pub open spec fn encode_description(r: ResponseView) -> Members {
    seq![
        entry(Field::Version, JsonTree::Text(r.version)),
        entry(Field::Title, text_value(r.title)),
        entry(Field::AuthorName, text_value(r.author_name)),
        entry(Field::AuthorUrl, text_value(r.author_url)),
        entry(Field::ProviderName, text_value(r.provider_name)),
        entry(Field::ProviderUrl, text_value(r.provider_url)),
        entry(Field::CacheAge, text_value(r.cache_age)),
        entry(Field::ThumbnailUrl, text_value(r.thumbnail_url)),
        entry(Field::ThumbnailWidth, size_value(r.thumbnail_width)),
        entry(Field::ThumbnailHeight, size_value(r.thumbnail_height)),
    ]
}

/// A response as a JSON value: the members of its type, then those that
/// every response has.
pub open spec fn encode_response(r: ResponseView) -> JsonTree {
    JsonTree::Object(encode_response_type(r.response_type) + encode_description(r))
}

impl ResponseType {
    /// The name of the type on the wire.
    pub fn tag(&self) -> (tag: &'static str)
        ensures
            tag@ == (match self@ {
                ResponseTypeView::Photo { .. } => "photo"@,
                ResponseTypeView::Video { .. } => "video"@,
                ResponseTypeView::Rich { .. } => "rich"@,
                ResponseTypeView::Link => "link"@,
            }),
    {
        match self {
            ResponseType::Photo { .. } => "photo",
            ResponseType::Video { .. } => "video",
            ResponseType::Rich { .. } => "rich",
            ResponseType::Link => "link",
        }
    }
}

impl Response {
    /// Writes the response as a JSON value.
    pub fn to_json(&self) -> (json: Json)
        ensures
            json@ == encode_response(self@),
    {
        let mut out: Vec<Member> = Vec::new();
        out.push(make_entry(Field::Type, Json::Text(String::from_str(self.response_type.tag()))));
        match &self.response_type {
            ResponseType::Photo { url, width, height } => {
                out.push(make_entry(Field::Url, make_text(url)));
                out.push(make_entry(Field::Width, make_optional_size(*width)));
                out.push(make_entry(Field::Height, make_optional_size(*height)));
            },
            ResponseType::Video { html, width, height } => {
                out.push(make_entry(Field::Html, make_text(html)));
                out.push(make_entry(Field::Width, make_optional_size(*width)));
                out.push(make_entry(Field::Height, make_optional_size(*height)));
            },
            ResponseType::Rich { html, width, height } => {
                out.push(make_entry(Field::Html, make_text(html)));
                out.push(make_entry(Field::Width, make_optional_size(*width)));
                out.push(make_entry(Field::Height, make_optional_size(*height)));
            },
            ResponseType::Link => {},
        }
        assert(members_of(out@) =~= encode_response_type(self@.response_type));
        let ghost head = out@;
        out.push(make_entry(Field::Version, make_text(&self.version)));
        out.push(make_entry(Field::Title, make_optional_text(&self.title)));
        out.push(make_entry(Field::AuthorName, make_optional_text(&self.author_name)));
        out.push(make_entry(Field::AuthorUrl, make_optional_text(&self.author_url)));
        out.push(make_entry(Field::ProviderName, make_optional_text(&self.provider_name)));
        out.push(make_entry(Field::ProviderUrl, make_optional_text(&self.provider_url)));
        out.push(make_entry(Field::CacheAge, make_optional_text(&self.cache_age)));
        out.push(make_entry(Field::ThumbnailUrl, make_optional_text(&self.thumbnail_url)));
        out.push(make_entry(Field::ThumbnailWidth, make_optional_size(self.thumbnail_width)));
        out.push(make_entry(Field::ThumbnailHeight, make_optional_size(self.thumbnail_height)));
        assert(members_of(out@) =~= members_of(head) + encode_description(self@));
        let json = Json::Object(out);
        proof {
            lemma_object_view(json);
        }
        json
    }
}

/// The four names of a response type differ.
pub proof fn lemma_tags_distinct()
    ensures
        "photo"@ != "video"@,
        "photo"@ != "rich"@,
        "photo"@ != "link"@,
        "video"@ != "rich"@,
        "video"@ != "link"@,
        "rich"@ != "link"@,
{
    reveal_strlit("photo");
    reveal_strlit("video");
    reveal_strlit("rich");
    reveal_strlit("link");
    assert("photo"@[0] == 'p' && "video"@[0] == 'v' && "rich"@[0] == 'r' && "link"@[0] == 'l');
}

/// The fields of the members that say of which type a response is.
pub open spec fn type_fields(t: ResponseTypeView) -> Seq<Field> {
    match t {
        ResponseTypeView::Photo { .. } => seq![Field::Type, Field::Url, Field::Width, Field::Height],
        ResponseTypeView::Video { .. } => seq![
            Field::Type,
            Field::Html,
            Field::Width,
            Field::Height,
        ],
        ResponseTypeView::Rich { .. } => seq![Field::Type, Field::Html, Field::Width, Field::Height],
        ResponseTypeView::Link => seq![Field::Type],
    }
}

/// The fields of the members that every response has.
pub open spec fn description_fields() -> Seq<Field> {
    seq![
        Field::Version,
        Field::Title,
        Field::AuthorName,
        Field::AuthorUrl,
        Field::ProviderName,
        Field::ProviderUrl,
        Field::CacheAge,
        Field::ThumbnailUrl,
        Field::ThumbnailWidth,
        Field::ThumbnailHeight,
    ]
}

/// In a response that was written as a JSON value, the name of each field
/// leads to the value that was written for it.
pub proof fn lemma_written_members(r: ResponseView)
    ensures
        ({
            let members = encode_response_type(r.response_type) + encode_description(r);
            let fields = type_fields(r.response_type) + description_fields();
            &&& members.len() == fields.len()
            &&& forall|i: int|
                0 <= i < fields.len() ==> member(members, field_name(#[trigger] fields[i]))
                    == Some(members[i].value)
        }),
{
    let members = encode_response_type(r.response_type) + encode_description(r);
    let fields = type_fields(r.response_type) + description_fields();
    assert(keyed_by(members, fields));
    assert(fields.no_duplicates());
    assert forall|i: int| 0 <= i < fields.len() implies member(
        members,
        field_name(#[trigger] fields[i]),
    ) == Some(members[i].value) by {
        lemma_keyed_lookup(members, fields, i);
    }
}

/// A response that is written as a JSON value and read back is the response
/// that was written.
pub proof fn lemma_response_round_trip(r: ResponseView)
    ensures
        decode_response(encode_response(r)) == Ok::<ResponseView, Flaw>(r),
{
    let members = encode_response_type(r.response_type) + encode_description(r);
    let fields = type_fields(r.response_type) + description_fields();
    lemma_written_members(r);
    lemma_tags_distinct();
    let n = type_fields(r.response_type).len() as int;
    assert(fields[0] == Field::Type);
    assert(fields[n] == Field::Version);
    assert(fields[n + 1] == Field::Title);
    assert(fields[n + 2] == Field::AuthorName);
    assert(fields[n + 3] == Field::AuthorUrl);
    assert(fields[n + 4] == Field::ProviderName);
    assert(fields[n + 5] == Field::ProviderUrl);
    assert(fields[n + 6] == Field::CacheAge);
    assert(fields[n + 7] == Field::ThumbnailUrl);
    assert(fields[n + 8] == Field::ThumbnailWidth);
    assert(fields[n + 9] == Field::ThumbnailHeight);
    if !(r.response_type is Link) {
        assert(fields[1] == Field::Url || fields[1] == Field::Html);
        assert(fields[2] == Field::Width);
        assert(fields[3] == Field::Height);
    }
    assert(decode_response_type(members) == Ok::<ResponseTypeView, Flaw>(r.response_type));
    assert(response_flaw(members).is_none());
    assert(response_value(members) == r);
}

/// A response whose `type` is a text other than `photo`, `video`, `rich`
/// and `link` stands for no response, whatever else it holds.
pub proof fn lemma_unknown_type(members: Members, tag: Seq<char>)
    requires
        member(members, field_name(Field::Type)) == Some(JsonTree::Text(tag)),
        tag != "photo"@,
        tag != "video"@,
        tag != "rich"@,
        tag != "link"@,
    ensures
        decode_response(JsonTree::Object(members)) == Err::<ResponseView, Flaw>(Flaw::UnknownType),
{
}

/// A response without a `type` stands for no response.
pub proof fn lemma_absent_type(members: Members)
    requires
        member(members, field_name(Field::Type)).is_none(),
    ensures
        decode_response(JsonTree::Object(members)) == Err::<ResponseView, Flaw>(
            Flaw::MissingField(Field::Type),
        ),
{
}

} // verus!
