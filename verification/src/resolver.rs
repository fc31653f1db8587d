//! The resolver's side of the pipeline: where to ask, and what the answers say.
//!
//! The requests themselves are the caller's. This module builds their
//! addresses and reads the bodies that come back: the items of a collection,
//! and the locator of an item's stream.

use crate::json::{
    elements, json_document, json_view, json_views, member, parse, text, JsonView,
};
use crate::naming::ResolvedTarget;
use crate::text::views;
use vstd::prelude::*;
use vstd::string::StringExecFns;

verus! {

/// Seconds after which a request is given up, whatever it was waiting for.
pub const REQUEST_TIMEOUT_SECONDS: u64 = 30;

/// The three lookups that resolving takes.
#[derive(Clone, Copy, Debug, PartialEq, Eq, Structural)]
pub enum Lookup {
    /// From a collection to its items.
    Collection,
    /// From an item to its display metadata.
    Item,
    /// From an item to the locator of its stream.
    Stream,
}

/// Why an item, or a collection, could not be resolved. None of these is retried.
#[derive(Clone, Copy, Debug, PartialEq, Eq, Structural)]
pub enum ResolutionError {
    /// The request failed.
    Network,
    /// The answer to this lookup could not be read.
    Parse(Lookup),
    /// The answer names nothing: the collection is absent or private, or the
    /// item has no stream.
    NotFound,
}

impl ResolutionError {
    /// A line for the user.
    pub fn message(&self) -> (line: String)
        ensures
            line@ == match *self {
                ResolutionError::Network => "Network request failed."@,
                ResolutionError::Parse(Lookup::Collection) => "Invalid JSON format."@,
                ResolutionError::Parse(Lookup::Item) => "Failed to parse video data."@,
                ResolutionError::Parse(Lookup::Stream) => "Failed to parse audio URL."@,
                ResolutionError::NotFound => "No videos found or private collection."@,
            },
    {
        match self {
            ResolutionError::Network => "Network request failed.".to_owned(),
            ResolutionError::Parse(Lookup::Collection) => "Invalid JSON format.".to_owned(),
            ResolutionError::Parse(Lookup::Item) => "Failed to parse video data.".to_owned(),
            ResolutionError::Parse(Lookup::Stream) => "Failed to parse audio URL.".to_owned(),
            ResolutionError::NotFound => "No videos found or private collection.".to_owned(),
        }
    }
}

/// Where the items of a collection are asked for.
pub open spec fn collection_endpoint_spec() -> Seq<char> {
    "https://api.bilibili.com/x/v3/fav/resource/ids"@
}

/// The address of the lookup of an item's metadata.
pub open spec fn item_url_spec(item: Seq<char>) -> Seq<char> {
    "https://api.bilibili.com/x/web-interface/view?bvid="@ + item
}

/// The address of the lookup of an item's stream.
pub open spec fn stream_url_spec(item: Seq<char>, content_id: Seq<char>) -> Seq<char> {
    "https://api.bilibili.com/x/player/playurl?fnval=16"@ + "&bvid="@ + item + "&cid="@
        + content_id
}

/// Where the items of a collection are asked for.
pub fn collection_endpoint() -> (url: String)
    ensures
        url@ == collection_endpoint_spec(),
{
    "https://api.bilibili.com/x/v3/fav/resource/ids".to_owned()
}

/// The query of the lookup of a collection's items: the collection, then the platform.
pub fn collection_query(collection: &str) -> (query: Vec<(String, String)>)
    ensures
        query@.len() == 2,
        query@[0].0@ == "media_id"@,
        query@[0].1@ == collection@,
        query@[1].0@ == "platform"@,
        query@[1].1@ == "web"@,
{
    let mut query: Vec<(String, String)> = Vec::new();
    query.push(("media_id".to_owned(), collection.to_owned()));
    query.push(("platform".to_owned(), "web".to_owned()));
    query
}

/// The address of the lookup of an item's metadata.
pub fn item_url(item: &str) -> (url: String)
    ensures
        url@ == item_url_spec(item@),
{
    let mut url = "https://api.bilibili.com/x/web-interface/view?bvid=".to_owned();
    url.append(item);
    url
}

/// The address of the lookup of an item's stream.
pub fn stream_url(item: &str, content_id: &str) -> (url: String)
    ensures
        url@ == stream_url_spec(item@, content_id@),
{
    let mut url = "https://api.bilibili.com/x/player/playurl?fnval=16".to_owned();
    url.append("&bvid=");
    url.append(item);
    url.append("&cid=");
    url.append(content_id);
    url
}

/// The identifier that an entry of a collection carries, if it carries one.
pub open spec fn entry_id(entry: JsonView) -> Option<Seq<char>> {
    entry.member("bv_id"@).text()
}

/// The identifiers that `entries` carry, in order; entries without one are left out.
pub open spec fn entry_ids(entries: Seq<JsonView>) -> Seq<Seq<char>> {
    entries.filter_map(|entry: JsonView| entry_id(entry))
}

/// The items that the answer to a collection lookup lists: the identifiers of
/// the entries of its `data` array. An answer without that array names nothing.
pub open spec fn listed_items(document: JsonView) -> Result<Seq<Seq<char>>, ResolutionError> {
    match document.member("data"@).elements() {
        Some(entries) => Ok(entry_ids(entries)),
        None => Err(ResolutionError::NotFound),
    }
}

/// The locator of the first audio track that the answer to a stream lookup
/// names: the text under `baseUrl` of the first entry of `data.dash.audio`.
/// An answer without that text, or with an empty one, names no locator.
pub open spec fn stream_locator_of(document: JsonView) -> Option<Seq<char>> {
    match document.member("data"@).member("dash"@).member("audio"@).elements() {
        Some(tracks) => if tracks.len() > 0 {
            match tracks[0].member("baseUrl"@).text() {
                Some(locator) => if locator.len() > 0 {
                    Some(locator)
                } else {
                    None
                },
                None => None,
            }
        } else {
            None
        },
        None => None,
    }
}

/// Reads the items out of the parsed answer to a collection lookup.
pub fn items_in(document: &serde_json::Value) -> (items: Result<Vec<String>, ResolutionError>)
    ensures
        match listed_items(json_view(*document)) {
            Ok(ids) => items matches Ok(found) && views(found@) == ids,
            Err(error) => items matches Err(e) && e == error,
        },
{
    let entries = match elements(member(document, "data")) {
        Some(entries) => entries,
        None => {
            return Err(ResolutionError::NotFound);
        },
    };
    let ghost modelled = json_views(entries@);
    let mut found: Vec<String> = Vec::new();
    let mut i: usize = 0;
    while i < entries.len()
        invariant
            i <= entries@.len(),
            modelled == json_views(entries@),
            views(found@) == entry_ids(modelled.take(i as int)),
        decreases entries@.len() - i,
    {
        proof {
            modelled.lemma_filter_map_take_succ(|entry: JsonView| entry_id(entry), i as int);
        }
        let ghost before = found@;
        match text(member(&entries[i], "bv_id")) {
            Some(id) => {
                found.push(id.to_owned());
                assert(views(found@) == views(before) + seq![id@]);
            },
            None => {
                assert(views(found@) == views(before) + Seq::<Seq<char>>::empty());
            },
        }
        i = i + 1;
    }
    proof {
        assert(modelled.take(entries@.len() as int) == modelled);
    }
    Ok(found)
}

/// Reads the items out of the body of the answer to a collection lookup.
/// A body that is no JSON document is a parse error.
pub fn collection_items(body: &[u8]) -> (items: Result<Vec<String>, ResolutionError>)
    ensures
        match json_document(body@) {
            None => items matches Err(e) && e == ResolutionError::Parse(Lookup::Collection),
            Some(document) => match listed_items(document) {
                Ok(ids) => items matches Ok(found) && views(found@) == ids,
                Err(error) => items matches Err(e) && e == error,
            },
        },
{
    match parse(body) {
        Ok(document) => items_in(&document),
        Err(_) => Err(ResolutionError::Parse(Lookup::Collection)),
    }
}

/// Reads the stream's locator out of the parsed answer to a stream lookup.
/// An answer that names no locator leaves the item unresolved.
pub fn stream_locator_in(document: &serde_json::Value) -> (locator: Result<String, ResolutionError>)
    ensures
        match stream_locator_of(json_view(*document)) {
            Some(named) => locator matches Ok(found) && found@ == named,
            None => locator matches Err(e) && e == ResolutionError::NotFound,
        },
{
    let audio = member(member(member(document, "data"), "dash"), "audio");
    let tracks = match elements(audio) {
        Some(tracks) => tracks,
        None => {
            return Err(ResolutionError::NotFound);
        },
    };
    if tracks.len() == 0 {
        return Err(ResolutionError::NotFound);
    }
    assert(json_views(tracks@)[0] == json_view(tracks@[0]));
    match text(member(&tracks[0], "baseUrl")) {
        Some(locator) => {
            if locator.is_empty() {
                Err(ResolutionError::NotFound)
            } else {
                Ok(locator.to_owned())
            }
        },
        None => Err(ResolutionError::NotFound),
    }
}

/// Reads the stream's locator out of the body of the answer to a stream lookup.
/// A body that is no JSON document is a parse error; a document that names no
/// locator is an item not found. Either way the item is not resolved, and no
/// download is made for it.
pub fn stream_locator(body: &[u8]) -> (locator: Result<String, ResolutionError>)
    ensures
        match json_document(body@) {
            None => locator matches Err(e) && e == ResolutionError::Parse(Lookup::Stream),
            Some(document) => match stream_locator_of(document) {
                Some(named) => locator matches Ok(found) && found@ == named,
                None => locator matches Err(e) && e == ResolutionError::NotFound,
            },
        },
{
    match parse(body) {
        Ok(document) => stream_locator_in(&document),
        Err(_) => Err(ResolutionError::Parse(Lookup::Stream)),
    }
}

/// Puts together what the lookups of one item gave.
pub fn resolved_target(title: &str, owner: &str, locator: &str) -> (target: ResolvedTarget)
    ensures
        target.display_name@ == title@,
        target.owner@ == owner@,
        target.source_locator@ == locator@,
{
    ResolvedTarget {
        display_name: title.to_owned(),
        owner: owner.to_owned(),
        source_locator: locator.to_owned(),
    }
}

} // verus!
