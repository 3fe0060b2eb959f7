//! The models that an endpoint offers for text completion.
//!
//! The endpoint is asked at its address followed by `/v1/models`, with the
//! connection's key as a bearer token where it has one. It answers with a document that holds the
//! models under `data`, each with its name under `id`. Models whose name
//! shows that they serve another purpose are left out of the list.

use crate::connection::Connection;
use crate::connection::ConnectionLLM;
use crate::connection::ConnectionView;
use crate::connection::optional_text;
use crate::endpoint::endpoint;
use crate::endpoint::endpoint_at;
use crate::error::Error;
use crate::error::ErrorView;
use crate::json::Json;
use crate::json::debug_text;
use crate::json::json_document;
use crate::json::json_tree;
use crate::json::json_trees;
use crate::json::parse_value;
use crate::json::value_elements;
use crate::json::value_member;
use crate::json::value_text;
use crate::text::chars_of;
use crate::text::contains_chars;
use crate::text::has_infix;
use crate::text::texts;
use vstd::prelude::*;
use vstd::string::StringExecFns;

verus! {

/// The path under which an endpoint lists its models.
pub const MODELS_PATH: &'static str = "/v1/models";

/// How the message of the error for an answer without models begins.
pub const NO_MODELS: &'static str = "no_models: ";

/// Whether an error is the one for an answer without models: an unknown
/// error whose message begins with `no_models: `.
pub open spec fn is_no_models(error: ErrorView) -> bool {
    error matches ErrorView::UnknownError(message) && NO_MODELS@.is_prefix_of(message)
}

/// Whether a model of this name is left out of the list: its name holds one
/// of the words that mark a model for sound, pictures, moderation or
/// embeddings.
pub open spec fn is_excluded(id: Seq<char>) -> bool {
    has_infix(id, "audio"@) || has_infix(id, "video"@) || has_infix(id, "image"@) || has_infix(
        id,
        "tts"@,
    ) || has_infix(id, "dall-e"@) || has_infix(id, "moderation"@) || has_infix(id, "transcribe"@)
        || has_infix(id, "embedding"@)
}

/// The test that a listed model passes.
pub open spec fn is_listed() -> spec_fn(Seq<char>) -> bool {
    |id: Seq<char>| !is_excluded(id)
}

/// The name of a model entry, where it has one that is a string.
pub open spec fn id_of() -> spec_fn(Json) -> Option<Seq<char>> {
    |entry: Json|
        match entry.member("id"@) {
            Some(id) => id.text(),
            None => None,
        }
}

/// The models that a document lists: the names of the entries under `data`,
/// in their order, without the excluded ones. `None` where the document has
/// no array under `data`.
pub open spec fn listed_models(document: Json) -> Option<Seq<Seq<char>>> {
    match document.member("data"@) {
        Some(data) => match data.elements() {
            Some(entries) => Some(entries.filter_map(id_of()).filter(is_listed())),
            None => None,
        },
        None => None,
    }
}

/// Whether a model of this name is left out of the list.
pub fn is_excluded_model(id: &str) -> (excluded: bool)
    ensures
        excluded == is_excluded(id@),
{
    let name = chars_of(id);
    contains_chars(&name, &chars_of("audio")) || contains_chars(&name, &chars_of("video"))
        || contains_chars(&name, &chars_of("image")) || contains_chars(&name, &chars_of("tts"))
        || contains_chars(&name, &chars_of("dall-e")) || contains_chars(
        &name,
        &chars_of("moderation"),
    ) || contains_chars(&name, &chars_of("transcribe")) || contains_chars(
        &name,
        &chars_of("embedding"),
    )
}

/// Keeps the names of the models that are listed, in their order.
pub fn retain_listed(ids: Vec<String>) -> (kept: Vec<String>)
    ensures
        texts(kept@) == texts(ids@).filter(is_listed()),
{
    let mut kept: Vec<String> = Vec::new();
    let mut at: usize = 0;
    assert(texts(ids@).take(0) =~= Seq::<Seq<char>>::empty());
    assert(texts(kept@) =~= Seq::<Seq<char>>::empty());
    proof {
        reveal(Seq::filter);
    }
    while at < ids.len()
        invariant
            at <= ids.len(),
            texts(kept@) == texts(ids@).take(at as int).filter(is_listed()),
        decreases ids.len() - at,
    {
        proof {
            let before = texts(ids@).take(at as int);
            assert(texts(ids@).take(at + 1) =~= before.push(ids@[at as int]@));
            before.lemma_filter_push(ids@[at as int]@, is_listed());
        }
        if !is_excluded_model(ids[at].as_str()) {
            let ghost old_kept = kept@;
            kept.push(ids[at].clone());
            assert(texts(kept@) =~= texts(old_kept).push(ids@[at as int]@));
        }
        at += 1;
    }
    assert(texts(ids@).take(ids.len() as int) =~= texts(ids@));
    kept
}

/// The names of the entries that have one, in their order.
pub fn collect_ids(entries: &Vec<serde_json::Value>) -> (ids: Vec<String>)
    ensures
        texts(ids@) == json_trees(entries@).filter_map(id_of()),
{
    let mut ids: Vec<String> = Vec::new();
    let mut at: usize = 0;
    assert(json_trees(entries@).take(0) =~= Seq::<Json>::empty());
    assert(texts(ids@) =~= Seq::<Seq<char>>::empty());
    while at < entries.len()
        invariant
            at <= entries.len(),
            texts(ids@) == json_trees(entries@).take(at as int).filter_map(id_of()),
        decreases entries.len() - at,
    {
        proof {
            json_trees(entries@).lemma_filter_map_take_succ(id_of(), at as int);
        }
        let name = match value_member(&entries[at], "id") {
            Some(id) => value_text(id),
            None => None,
        };
        match name {
            Some(text) => {
                let ghost old_ids = ids@;
                ids.push(text.to_owned());
                assert(texts(ids@) =~= texts(old_ids).push(text@));
            },
            None => {},
        }
        at += 1;
    }
    assert(json_trees(entries@).take(entries.len() as int) =~= json_trees(entries@));
    ids
}

/// Reads the list of models out of the endpoint's answer. An answer without
/// an array under `data` is an unknown error whose message begins with
/// `no_models: ` and goes on with a dump of the answer.
pub fn models_from_document(document: &serde_json::Value) -> (models: Result<Vec<String>, Error>)
    ensures
        match models {
            Ok(ids) => listed_models(json_tree(*document)) == Some(texts(ids@)),
            Err(error) => listed_models(json_tree(*document)) is None && is_no_models(error@),
        },
{
    let entries = match value_member(document, "data") {
        Some(data) => value_elements(data),
        None => None,
    };
    match entries {
        Some(entries) => Ok(retain_listed(collect_ids(entries))),
        None => {
            let dump = debug_text(document);
            let message = String::from_str(NO_MODELS).concat(dump.as_str());
            assert(message@.subrange(0, NO_MODELS@.len() as int) =~= NO_MODELS@);
            Err(Error::UnknownError(message))
        },
    }
}

/// The models that the text of an answer lists. `None` where the text is no
/// JSON document or the document has no array under `data`.
pub open spec fn listed_models_in(body: Seq<char>) -> Option<Seq<Seq<char>>> {
    match json_document(body) {
        Some(document) => listed_models(document),
        None => None,
    }
}

/// Reads the list of models out of the text of the endpoint's answer. A text
/// that is no JSON document is a network error; a document without an array
/// under `data` is an unknown error whose message begins with `no_models: `.
pub fn models_from_body(body: &str) -> (models: Result<Vec<String>, Error>)
    ensures
        match models {
            Ok(ids) => listed_models_in(body@) == Some(texts(ids@)),
            Err(error) => listed_models_in(body@) is None && match json_document(body@) {
                Some(_) => is_no_models(error@),
                None => error is NetworkError,
            },
        },
{
    match parse_value(body) {
        Ok(document) => models_from_document(&document),
        Err(failure) => Err(Error::NetworkError(failure)),
    }
}

/// What to send to an endpoint to have it list its models.
#[derive(Debug, Clone, PartialEq, Eq)]
pub struct ModelsRequest {
    /// The address to `GET`.
    pub url: String,
    /// The bearer token to send along, where the endpoint asks for one.
    pub bearer: Option<String>,
}

/// What a [`ModelsRequest`] holds.
pub struct ModelsRequestView {
    pub url: Seq<char>,
    pub bearer: Option<Seq<char>>,
}

impl View for ModelsRequest {
    type V = ModelsRequestView;

    open spec fn view(&self) -> ModelsRequestView {
        ModelsRequestView { url: self.url@, bearer: optional_text(self.bearer) }
    }
}

/// The request that lists the models of a connection: it goes to the
/// connection's address followed by `/v1/models` and carries the connection's
/// key as bearer token exactly when the connection has one. `None` where the
/// address followed by the path is no absolute URL.
pub open spec fn models_request_for(connection: ConnectionView) -> Option<ModelsRequestView> {
    match endpoint_at(connection.api_base, MODELS_PATH@) {
        Some(url) => Some(ModelsRequestView { url, bearer: connection.api_key }),
        None => None,
    }
}

/// The request that lists the models of a backend: a `GET` of the backend's
/// address followed by `/v1/models`, with the backend's key as bearer token
/// where it has one. A backend whose address makes no absolute URL gives a
/// configuration error.
pub fn models_request(backend: &ConnectionLLM) -> (request: Result<ModelsRequest, Error>)
    ensures
        match request {
            Ok(request) => models_request_for(backend@.connection()) == Some(request@),
            Err(error) => models_request_for(backend@.connection()) is None
                && error is ConfigurationError,
        },
{
    let connection = backend.as_ref();
    match endpoint(connection.api_base.as_str(), MODELS_PATH) {
        Ok(url) => {
            let bearer = match &connection.api_key {
                Some(key) => Some(key.clone()),
                None => None,
            };
            Ok(ModelsRequest { url, bearer })
        },
        Err(error) => Err(error),
    }
}

/// The request that lists the models of the custom endpoint; `None` where no
/// custom endpoint is stored, in which case the list is empty.
pub fn custom_models_request(custom: Option<Connection>) -> (request: Result<
    Option<ModelsRequest>,
    Error,
>)
    ensures
        match custom {
            None => request matches Ok(None),
            Some(connection) => match request {
                Ok(Some(request)) => models_request_for(connection@) == Some(request@),
                Ok(None) => false,
                Err(error) => models_request_for(connection@) is None
                    && error is ConfigurationError,
            },
        },
{
    match custom {
        Some(connection) => {
            let backend = ConnectionLLM::Custom(connection);
            match models_request(&backend) {
                Ok(request) => Ok(Some(request)),
                Err(error) => Err(error),
            }
        },
        None => Ok(None),
    }
}

} // verus!
