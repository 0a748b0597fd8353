//! Addresses of the registry's tag and manifest endpoints, and the bodies
//! that the lists of names are answered with.

use vstd::prelude::*;
use vstd::string::*;
use crate::decode::tags_of;
use crate::json::{parse_json, parsed_json};
use crate::model::{Tags, TagsView};
use crate::text::{decimal, decimal_string};
use itertools::Itertools;

verus! {

/// Why a body could not be read.
#[derive(Debug, Clone, Copy, PartialEq, Eq, Structural)]
pub enum DecodeError {
    /// The text is not a JSON document.
    Syntax,
    /// The document does not have the shape asked for.
    Shape,
}

/// The address of the tag list of a repository.
pub open spec fn tags_url_of(registry: Seq<char>, image: Seq<char>) -> Seq<char> {
    registry + "/"@ + image + "/tags/list"@
}

/// The address of the manifest of a tag or digest of a repository.
pub open spec fn manifest_url_of(registry: Seq<char>, image: Seq<char>, tag: Seq<char>) -> Seq<
    char,
> {
    registry + "/"@ + image + "/manifests/"@ + tag
}

/// Builds the address of the tag list of a repository.
pub fn tags_url(registry: &str, image: &str) -> (r: String)
    ensures
        r@ == tags_url_of(registry@, image@),
{
    let mut url = String::from_str(registry);
    url.append("/");
    url.append(image);
    url.append("/tags/list");
    url
}

/// Builds the address of a manifest.
pub fn manifest_url(registry: &str, image: &str, tag: &str) -> (r: String)
    ensures
        r@ == manifest_url_of(registry@, image@, tag@),
{
    let mut url = String::from_str(registry);
    url.append("/");
    url.append(image);
    url.append("/manifests/");
    url.append(tag);
    url
}

/// Splits a text with `str::splitn` into at most two pieces: the text
/// itself where the separator does not occur in it, else what stands before
/// the first separator and what stands after it.
#[verifier::external_body]
fn split_in_two(text: &str, pieces: usize, separator: char) -> (r: Vec<String>)
    requires
        pieces == 2,
    ensures
        !text@.contains(separator) ==> r.deep_view() == seq![text@],
        text@.contains(separator) ==> {
            &&& r.len() == 2
            &&& !r[0]@.contains(separator)
            &&& text@ == r[0]@ + seq![separator] + r[1]@
        },
{
    text.splitn(pieces, separator).map(str::to_string).collect()
}

/// Makes a pair of a list with `Itertools::collect_tuple`, which gives
/// the two items where the list holds exactly two, and nothing otherwise.
#[verifier::external_body]
fn as_pair(parts: Vec<String>) -> (r: Option<(String, String)>)
    ensures
        parts.len() == 2 ==> r.deep_view() == Some((parts[0]@, parts[1]@)),
        parts.len() != 2 ==> r is None,
{
    parts.into_iter().collect_tuple()
}

/// Splits `image:tag` at its first colon; `None` where there is no colon.
pub fn split_reference(reference: &str) -> (r: Option<(String, String)>)
    ensures
        r is Some <==> reference@.contains(':'),
        r matches Some((image, tag)) ==> {
            &&& !image@.contains(':')
            &&& reference@ == image@ + seq![':'] + tag@
        },
{
    let parts = split_in_two(reference, 2, ':');
    let r = as_pair(parts);
    proof {
        if !reference@.contains(':') {
            assert(parts.deep_view().len() == 1);
        }
    }
    r
}

/// The names with a comma between each two.
pub open spec fn comma_joined(names: Seq<Seq<char>>) -> Seq<char>
    decreases names.len(),
{
    if names.len() == 0 {
        Seq::empty()
    } else if names.len() == 1 {
        names[0]
    } else {
        comma_joined(names.drop_last()) + ","@ + names.last()
    }
}

/// Writes the names with a comma between each two.
pub fn join_names(names: &Vec<String>) -> (r: String)
    ensures
        r@ == comma_joined(names.deep_view()),
{
    let mut out = String::new();
    let ghost all = names.deep_view();
    let mut i: usize = 0;
    assert(all.take(0) =~= Seq::<Seq<char>>::empty());
    while i < names.len()
        invariant
            0 <= i <= names.len(),
            all == names.deep_view(),
            out@ == comma_joined(all.take(i as int)),
        decreases names.len() - i,
    {
        proof {
            let next = all.take(i + 1);
            assert(next.drop_last() =~= all.take(i as int));
            assert(next.last() == names@[i as int]@);
            if i == 0 {
                assert(out@ + names@[0]@ =~= names@[0]@);
            }
        }
        if i > 0 {
            out.append(",");
        }
        out.append(names[i].as_str());
        i = i + 1;
    }
    assert(all.take(names.len() as int) =~= all);
    out
}

/// The tag list that a body holds.
pub open spec fn tags_in(body: Seq<char>) -> Result<TagsView, DecodeError> {
    match parsed_json(body) {
        None => Err(DecodeError::Syntax),
        Some(doc) => match tags_of(doc) {
            None => Err(DecodeError::Shape),
            Some(tags) => Ok(tags),
        },
    }
}

/// The view of what `read_tags` answers.
pub open spec fn tags_view(r: Result<Tags, DecodeError>) -> Result<TagsView, DecodeError> {
    match r {
        Ok(tags) => Ok(tags@),
        Err(e) => Err(e),
    }
}

/// Reads the tag list of a repository from the registry's answer.
pub fn read_tags(body: &str) -> (r: Result<Tags, DecodeError>)
    ensures
        tags_view(r) == tags_in(body@),
{
    match parse_json(body) {
        None => Err(DecodeError::Syntax),
        Some(doc) => match Tags::from_json(&doc) {
            None => Err(DecodeError::Shape),
            Some(tags) => Ok(tags),
        },
    }
}

/// The words that a refresh is reported with.
pub open spec fn refresh_report_of(count: nat) -> Seq<char> {
    "refreshed catalog\nnb images: "@ + decimal(count)
}

/// Reports how many repositories a refresh has stored.
pub fn refresh_report(count: usize) -> (r: String)
    ensures
        r@ == refresh_report_of(count as nat),
{
    let mut text = String::from_str("refreshed catalog\nnb images: ");
    let n = decimal_string(count);
    text.append(n.as_str());
    text
}

/// A text in which each `from` is replaced by `to`.
pub open spec fn replaced(text: Seq<char>, from: char, to: Seq<char>) -> Seq<char>
    decreases text.len(),
{
    if text.len() == 0 {
        Seq::empty()
    } else if text[0] == from {
        to + replaced(text.drop_first(), from, to)
    } else {
        seq![text[0]] + replaced(text.drop_first(), from, to)
    }
}

/// Replaces each `from` in a text by `to`, with `str::replace`.
#[verifier::external_body]
fn replace_each(text: &str, from: char, to: &str) -> (r: String)
    ensures
        r@ == replaced(text@, from, to@),
{
    text.replace(from, to)
}

/// A repository name as it stands in one segment of a path: each slash
/// is written `%2F`.
pub open spec fn segment_of(image: Seq<char>) -> Seq<char> {
    replaced(image, '/', "%2F"@)
}

/// Writes a repository name so that it fits in one segment of a path.
pub fn path_segment(image: &str) -> (r: String)
    ensures
        r@ == segment_of(image@),
{
    replace_each(image, '/', "%2F")
}

/// The address under which this service lists the tags of a repository.
pub open spec fn service_tags_url_of(service: Seq<char>, image: Seq<char>) -> Seq<char> {
    service + "/v2/tags/"@ + segment_of(image)
}

/// The address under which this service resolves a manifest.
pub open spec fn service_manifest_url_of(service: Seq<char>, image: Seq<char>, tag: Seq<char>)
    -> Seq<char> {
    service + "/v2/manifest/"@ + segment_of(image) + ":"@ + tag
}

/// The address under which this service shows a page of the catalog.
pub open spec fn service_catalog_url_of(service: Seq<char>, page: nat) -> Seq<char> {
    service + "/v2/catalog/"@ + decimal(page)
}

/// Builds the address under which this service lists the tags of a
/// repository.
pub fn service_tags_url(service: &str, image: &str) -> (r: String)
    ensures
        r@ == service_tags_url_of(service@, image@),
{
    let mut url = String::from_str(service);
    url.append("/v2/tags/");
    let segment = path_segment(image);
    url.append(segment.as_str());
    url
}

/// Builds the address under which this service resolves a manifest.
pub fn service_manifest_url(service: &str, image: &str, tag: &str) -> (r: String)
    ensures
        r@ == service_manifest_url_of(service@, image@, tag@),
{
    let mut url = String::from_str(service);
    url.append("/v2/manifest/");
    let segment = path_segment(image);
    url.append(segment.as_str());
    url.append(":");
    url.append(tag);
    url
}

/// Builds the address under which this service shows a page of the
/// catalog.
pub fn service_catalog_url(service: &str, page: usize) -> (r: String)
    ensures
        r@ == service_catalog_url_of(service@, page as nat),
{
    let mut url = String::from_str(service);
    url.append("/v2/catalog/");
    let n = decimal_string(page);
    url.append(n.as_str());
    url
}

} // verus!
