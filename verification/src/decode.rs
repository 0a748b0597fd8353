//! Reading the registry's documents out of JSON trees.
//!
//! A member that a shape requires must be present and of the right kind; a
//! member that it allows may be missing or `null`. Members that a shape
//! does not name are passed over.

use vstd::prelude::*;
use crate::json::{Json, JsonValue};
use crate::model::{
    ErrorsV2, ErrorsV2Detail, ErrorsV2DetailView, ErrorsV2View, Manifest, ManifestConfig,
    ManifestConfigView, ManifestV2, ManifestV2List, ManifestV2ListPlatform,
    ManifestV2ListPlatformView, ManifestV2ListView, ManifestV2View, ManifestView, Repos,
    ReposView, SchemaVersion, SchemaVersionView, Tags, TagsView,
};
use crate::text::{parse_decimal, read_decimal};

verus! {

/// The reading of a member that must be there.
pub open spec fn required<T>(field: Option<JsonValue>, read: spec_fn(JsonValue) -> Option<T>)
    -> Option<T> {
    match field {
        Some(j) => read(j),
        None => None,
    }
}

/// The reading of a member that may be missing or `null`. The outer
/// `None` is a failure: the member is there but of the wrong kind.
pub open spec fn optional<T>(field: Option<JsonValue>, read: spec_fn(JsonValue) -> Option<T>)
    -> Option<Option<T>> {
    match field {
        None => Some(None),
        Some(JsonValue::Null) => Some(None),
        Some(j) => match read(j) {
            Some(v) => Some(Some(v)),
            None => None,
        },
    }
}

/// The text of a JSON string; nothing else is read as a text.
pub open spec fn text_of(j: JsonValue) -> Option<Seq<char>> {
    match j {
        JsonValue::Text(s) => Some(s),
        _ => None,
    }
}

/// A number is read only where it is written as a run of digits that fits
/// the machine's unsigned word.
pub open spec fn number_of(j: JsonValue) -> Option<usize> {
    match j {
        JsonValue::Number(t) => read_decimal(t),
        _ => None,
    }
}

/// The texts of an array of JSON strings, in order.
pub open spec fn text_list_of(j: JsonValue) -> Option<Seq<Seq<char>>> {
    match j {
        JsonValue::Array(items) => if forall|i: int|
            0 <= i < items.len() ==> text_of(#[trigger] items[i]) is Some {
            Some(Seq::new(items.len(), |i: int| text_of(items[i]).unwrap()))
        } else {
            None
        },
        _ => None,
    }
}

/// An error detail record: an object, whose `tag` may be missing.
pub open spec fn detail_of(j: JsonValue) -> Option<ErrorsV2DetailView> {
    if j is Object {
        match optional(j.field("tag"@), |x: JsonValue| text_of(x)) {
            Some(tag) => Some(ErrorsV2DetailView { tag }),
            None => None,
        }
    } else {
        None
    }
}

/// The error body of a registry: `code`, `message` and `detail`.
pub open spec fn errors_of(j: JsonValue) -> Option<ErrorsV2View> {
    match (
        required(j.field("code"@), |x: JsonValue| text_of(x)),
        required(j.field("message"@), |x: JsonValue| text_of(x)),
        required(j.field("detail"@), |x: JsonValue| detail_of(x)),
    ) {
        (Some(code), Some(message), Some(detail)) => Some(ErrorsV2View { code, message, detail }),
        _ => None,
    }
}

/// A platform record: `architecture` and `os`, and where they are there
/// `variant` and `features`.
pub open spec fn platform_of(j: JsonValue) -> Option<ManifestV2ListPlatformView> {
    match (
        required(j.field("architecture"@), |x: JsonValue| text_of(x)),
        required(j.field("os"@), |x: JsonValue| text_of(x)),
        optional(j.field("variant"@), |x: JsonValue| text_of(x)),
        optional(j.field("features"@), |x: JsonValue| text_list_of(x)),
    ) {
        (Some(architecture), Some(os), Some(variant), Some(features)) => Some(
            ManifestV2ListPlatformView { architecture, os, variant, features },
        ),
        _ => None,
    }
}

/// A blob reference: `mediaType`, `size` and `digest`, and where it is
/// there `platform`.
pub open spec fn config_of(j: JsonValue) -> Option<ManifestConfigView> {
    match (
        required(j.field("mediaType"@), |x: JsonValue| text_of(x)),
        required(j.field("size"@), |x: JsonValue| number_of(x)),
        required(j.field("digest"@), |x: JsonValue| text_of(x)),
        optional(j.field("platform"@), |x: JsonValue| platform_of(x)),
    ) {
        (Some(media_type), Some(size), Some(digest), Some(platform)) => Some(
            ManifestConfigView { media_type, size, digest, platform },
        ),
        _ => None,
    }
}

/// The blob references of an array, in order.
pub open spec fn config_list_of(j: JsonValue) -> Option<Seq<ManifestConfigView>> {
    match j {
        JsonValue::Array(items) => if forall|i: int|
            0 <= i < items.len() ==> config_of(#[trigger] items[i]) is Some {
            Some(Seq::new(items.len(), |i: int| config_of(items[i]).unwrap()))
        } else {
            None
        },
        _ => None,
    }
}

/// The part of a manifest that tells its shape.
pub open spec fn probe_of(j: JsonValue) -> Option<SchemaVersionView> {
    match (
        required(j.field("schemaVersion"@), |x: JsonValue| number_of(x)),
        optional(j.field("mediaType"@), |x: JsonValue| text_of(x)),
        optional(j.field("errors"@), |x: JsonValue| errors_of(x)),
    ) {
        (Some(schema_version), Some(media_type), Some(errors)) => Some(
            SchemaVersionView { schema_version, media_type, errors },
        ),
        _ => None,
    }
}

/// A manifest of schema version 1: `name`, `tag`, `architecture`,
/// `fsLayers` and `history`.
pub open spec fn manifest_of(j: JsonValue) -> Option<ManifestView> {
    match (
        required(j.field("name"@), |x: JsonValue| text_of(x)),
        required(j.field("tag"@), |x: JsonValue| text_of(x)),
        required(j.field("architecture"@), |x: JsonValue| text_of(x)),
        required(j.field("fsLayers"@), |x: JsonValue| text_list_of(x)),
        required(j.field("history"@), |x: JsonValue| text_list_of(x)),
    ) {
        (Some(name), Some(tag), Some(architecture), Some(fs_layers), Some(history)) => Some(
            ManifestView { name, tag, architecture, fs_layers, history },
        ),
        _ => None,
    }
}

/// A single-platform manifest: an object, in which `mediaType`,
/// `manifests` and `layers` may each be missing.
pub open spec fn manifest_v2_of(j: JsonValue) -> Option<ManifestV2View> {
    if j is Object {
        match (
            optional(j.field("mediaType"@), |x: JsonValue| text_of(x)),
            optional(j.field("manifests"@), |x: JsonValue| config_of(x)),
            optional(j.field("layers"@), |x: JsonValue| config_list_of(x)),
        ) {
            (Some(media_type), Some(manifests), Some(layers)) => Some(
                ManifestV2View { media_type, manifests, layers },
            ),
            _ => None,
        }
    } else {
        None
    }
}

/// A manifest list: an object, in which `mediaType`, `config`, `layers`
/// and `errors` may each be missing.
pub open spec fn manifest_list_of(j: JsonValue) -> Option<ManifestV2ListView> {
    if j is Object {
        match (
            optional(j.field("mediaType"@), |x: JsonValue| text_of(x)),
            optional(j.field("config"@), |x: JsonValue| config_of(x)),
            optional(j.field("layers"@), |x: JsonValue| config_list_of(x)),
            optional(j.field("errors"@), |x: JsonValue| errors_of(x)),
        ) {
            (Some(media_type), Some(config), Some(layers), Some(errors)) => Some(
                ManifestV2ListView { media_type, config, layers, errors },
            ),
            _ => None,
        }
    } else {
        None
    }
}

/// One page of the catalog: `repositories`.
pub open spec fn repos_of(j: JsonValue) -> Option<ReposView> {
    match required(j.field("repositories"@), |x: JsonValue| text_list_of(x)) {
        Some(repositories) => Some(ReposView { repositories }),
        None => None,
    }
}

/// The tag list of a repository: `name` and `tags`.
pub open spec fn tags_of(j: JsonValue) -> Option<TagsView> {
    match (
        required(j.field("name"@), |x: JsonValue| text_of(x)),
        required(j.field("tags"@), |x: JsonValue| text_list_of(x)),
    ) {
        (Some(name), Some(tags)) => Some(TagsView { name, tags }),
        _ => None,
    }
}

fn read_text(j: &Json) -> (r: Option<String>)
    ensures
        r.deep_view() == text_of(j@),
{
    match j {
        Json::Text(s) => Some(s.clone()),
        _ => None,
    }
}

fn read_number(j: &Json) -> (r: Option<usize>)
    ensures
        r == number_of(j@),
{
    match j {
        Json::Number(t) => parse_decimal(t.as_str()),
        _ => None,
    }
}

fn read_text_list(j: &Json) -> (r: Option<Vec<String>>)
    ensures
        r.deep_view() == text_list_of(j@),
{
    match j.items() {
        None => None,
        Some(items) => {
            let mut out: Vec<String> = Vec::new();
            let mut i: usize = 0;
            while i < items.len()
                invariant
                    0 <= i <= items.len(),
                    out.len() == i,
                    j@ == JsonValue::Array(items.deep_view()),
                    forall|k: int|
                        0 <= k < i ==> text_of(#[trigger] items.deep_view()[k]) == Some(out@[k]@),
                decreases items.len() - i,
            {
                match read_text(&items[i]) {
                    None => {
                        assert(text_of(items.deep_view()[i as int]) is None);
                        return None;
                    },
                    Some(s) => {
                        out.push(s);
                    },
                }
                i = i + 1;
            }
            assert(out.deep_view() =~= text_list_of(j@).unwrap());
            Some(out)
        },
    }
}

fn required_text(field: Option<&Json>) -> (r: Option<String>)
    ensures
        r.deep_view() == required(field.deep_view(), |x: JsonValue| text_of(x)),
{
    match field {
        Some(j) => read_text(j),
        None => None,
    }
}

fn required_number(field: Option<&Json>) -> (r: Option<usize>)
    ensures
        r == required(field.deep_view(), |x: JsonValue| number_of(x)),
{
    match field {
        Some(j) => read_number(j),
        None => None,
    }
}

fn required_text_list(field: Option<&Json>) -> (r: Option<Vec<String>>)
    ensures
        r.deep_view() == required(field.deep_view(), |x: JsonValue| text_list_of(x)),
{
    match field {
        Some(j) => read_text_list(j),
        None => None,
    }
}

fn optional_text(field: Option<&Json>) -> (r: Option<Option<String>>)
    ensures
        r.deep_view() == optional(field.deep_view(), |x: JsonValue| text_of(x)),
{
    match field {
        None => Some(None),
        Some(j) => {
            if j.is_null() {
                Some(None)
            } else {
                match read_text(j) {
                    Some(s) => Some(Some(s)),
                    None => None,
                }
            }
        },
    }
}

fn optional_text_list(field: Option<&Json>) -> (r: Option<Option<Vec<String>>>)
    ensures
        r.deep_view() == optional(field.deep_view(), |x: JsonValue| text_list_of(x)),
{
    match field {
        None => Some(None),
        Some(j) => {
            if j.is_null() {
                Some(None)
            } else {
                match read_text_list(j) {
                    Some(s) => Some(Some(s)),
                    None => None,
                }
            }
        },
    }
}

impl ErrorsV2Detail {
    /// Reads an error detail record.
    pub fn from_json(j: &Json) -> (r: Option<ErrorsV2Detail>)
        ensures
            r.deep_view() == detail_of(j@),
    {
        if !j.is_object() {
            return None;
        }
        match optional_text(j.field("tag")) {
            Some(tag) => Some(ErrorsV2Detail { tag }),
            None => None,
        }
    }
}

fn optional_errors(field: Option<&Json>) -> (r: Option<Option<ErrorsV2>>)
    ensures
        r.deep_view() == optional(field.deep_view(), |x: JsonValue| errors_of(x)),
{
    match field {
        None => Some(None),
        Some(j) => {
            if j.is_null() {
                Some(None)
            } else {
                match ErrorsV2::from_json(j) {
                    Some(e) => Some(Some(e)),
                    None => None,
                }
            }
        },
    }
}

fn optional_platform(field: Option<&Json>) -> (r: Option<Option<ManifestV2ListPlatform>>)
    ensures
        r.deep_view() == optional(field.deep_view(), |x: JsonValue| platform_of(x)),
{
    match field {
        None => Some(None),
        Some(j) => {
            if j.is_null() {
                Some(None)
            } else {
                match ManifestV2ListPlatform::from_json(j) {
                    Some(p) => Some(Some(p)),
                    None => None,
                }
            }
        },
    }
}

fn optional_config(field: Option<&Json>) -> (r: Option<Option<ManifestConfig>>)
    ensures
        r.deep_view() == optional(field.deep_view(), |x: JsonValue| config_of(x)),
{
    match field {
        None => Some(None),
        Some(j) => {
            if j.is_null() {
                Some(None)
            } else {
                match ManifestConfig::from_json(j) {
                    Some(c) => Some(Some(c)),
                    None => None,
                }
            }
        },
    }
}

fn read_config_list(j: &Json) -> (r: Option<Vec<ManifestConfig>>)
    ensures
        r.deep_view() == config_list_of(j@),
{
    match j.items() {
        None => None,
        Some(items) => {
            let mut out: Vec<ManifestConfig> = Vec::new();
            let mut i: usize = 0;
            while i < items.len()
                invariant
                    0 <= i <= items.len(),
                    out.len() == i,
                    j@ == JsonValue::Array(items.deep_view()),
                    forall|k: int|
                        0 <= k < i ==> config_of(#[trigger] items.deep_view()[k]) == Some(
                            out@[k]@,
                        ),
                decreases items.len() - i,
            {
                match ManifestConfig::from_json(&items[i]) {
                    None => {
                        assert(config_of(items.deep_view()[i as int]) is None);
                        return None;
                    },
                    Some(c) => {
                        out.push(c);
                    },
                }
                i = i + 1;
            }
            assert(out.deep_view() =~= config_list_of(j@).unwrap());
            Some(out)
        },
    }
}

fn optional_config_list(field: Option<&Json>) -> (r: Option<Option<Vec<ManifestConfig>>>)
    ensures
        r.deep_view() == optional(field.deep_view(), |x: JsonValue| config_list_of(x)),
{
    match field {
        None => Some(None),
        Some(j) => {
            if j.is_null() {
                Some(None)
            } else {
                match read_config_list(j) {
                    Some(c) => Some(Some(c)),
                    None => None,
                }
            }
        },
    }
}

impl ErrorsV2 {
    /// Reads the error body of a registry.
    pub fn from_json(j: &Json) -> (r: Option<ErrorsV2>)
        ensures
            r.deep_view() == errors_of(j@),
    {
        let code = required_text(j.field("code"));
        let message = required_text(j.field("message"));
        let detail = match j.field("detail") {
            Some(d) => ErrorsV2Detail::from_json(d),
            None => None,
        };
        match (code, message, detail) {
            (Some(code), Some(message), Some(detail)) => Some(ErrorsV2 { code, message, detail }),
            _ => None,
        }
    }
}

impl ManifestV2ListPlatform {
    /// Reads a platform record.
    pub fn from_json(j: &Json) -> (r: Option<ManifestV2ListPlatform>)
        ensures
            r.deep_view() == platform_of(j@),
    {
        let architecture = required_text(j.field("architecture"));
        let os = required_text(j.field("os"));
        let variant = optional_text(j.field("variant"));
        let features = optional_text_list(j.field("features"));
        match (architecture, os, variant, features) {
            (Some(architecture), Some(os), Some(variant), Some(features)) => Some(
                ManifestV2ListPlatform { architecture, os, variant, features },
            ),
            _ => None,
        }
    }
}

impl ManifestConfig {
    /// Reads a blob reference.
    pub fn from_json(j: &Json) -> (r: Option<ManifestConfig>)
        ensures
            r.deep_view() == config_of(j@),
    {
        let media_type = required_text(j.field("mediaType"));
        let size = required_number(j.field("size"));
        let digest = required_text(j.field("digest"));
        let platform = optional_platform(j.field("platform"));
        match (media_type, size, digest, platform) {
            (Some(media_type), Some(size), Some(digest), Some(platform)) => Some(
                ManifestConfig { media_type, size, digest, platform },
            ),
            _ => None,
        }
    }
}

impl SchemaVersion {
    /// Reads from a manifest the part that tells its shape.
    pub fn from_json(j: &Json) -> (r: Option<SchemaVersion>)
        ensures
            r.deep_view() == probe_of(j@),
    {
        let schema_version = required_number(j.field("schemaVersion"));
        let media_type = optional_text(j.field("mediaType"));
        let errors = optional_errors(j.field("errors"));
        match (schema_version, media_type, errors) {
            (Some(schema_version), Some(media_type), Some(errors)) => Some(
                SchemaVersion { schema_version, media_type, errors },
            ),
            _ => None,
        }
    }
}

impl Manifest {
    /// Reads a manifest of schema version 1.
    pub fn from_json(j: &Json) -> (r: Option<Manifest>)
        ensures
            r.deep_view() == manifest_of(j@),
    {
        let name = required_text(j.field("name"));
        let tag = required_text(j.field("tag"));
        let architecture = required_text(j.field("architecture"));
        let fs_layers = required_text_list(j.field("fsLayers"));
        let history = required_text_list(j.field("history"));
        match (name, tag, architecture, fs_layers, history) {
            (Some(name), Some(tag), Some(architecture), Some(fs_layers), Some(history)) => Some(
                Manifest { name, tag, architecture, fs_layers, history },
            ),
            _ => None,
        }
    }
}

impl ManifestV2 {
    /// Reads a single-platform manifest of schema version 2.
    pub fn from_json(j: &Json) -> (r: Option<ManifestV2>)
        ensures
            r.deep_view() == manifest_v2_of(j@),
    {
        if !j.is_object() {
            return None;
        }
        let media_type = optional_text(j.field("mediaType"));
        let manifests = optional_config(j.field("manifests"));
        let layers = optional_config_list(j.field("layers"));
        match (media_type, manifests, layers) {
            (Some(media_type), Some(manifests), Some(layers)) => Some(
                ManifestV2 { media_type, manifests, layers },
            ),
            _ => None,
        }
    }
}

impl ManifestV2List {
    /// Reads a manifest list of schema version 2.
    pub fn from_json(j: &Json) -> (r: Option<ManifestV2List>)
        ensures
            r.deep_view() == manifest_list_of(j@),
    {
        if !j.is_object() {
            return None;
        }
        let media_type = optional_text(j.field("mediaType"));
        let config = optional_config(j.field("config"));
        let layers = optional_config_list(j.field("layers"));
        let errors = optional_errors(j.field("errors"));
        match (media_type, config, layers, errors) {
            (Some(media_type), Some(config), Some(layers), Some(errors)) => Some(
                ManifestV2List { media_type, config, layers, errors },
            ),
            _ => None,
        }
    }
}

impl Repos {
    /// Reads one page of the catalog.
    pub fn from_json(j: &Json) -> (r: Option<Repos>)
        ensures
            r.deep_view() == repos_of(j@),
    {
        match required_text_list(j.field("repositories")) {
            Some(repositories) => Some(Repos { repositories }),
            None => None,
        }
    }
}

impl Tags {
    /// Reads the tag list of a repository.
    pub fn from_json(j: &Json) -> (r: Option<Tags>)
        ensures
            r.deep_view() == tags_of(j@),
    {
        let name = required_text(j.field("name"));
        let tags = required_text_list(j.field("tags"));
        match (name, tags) {
            (Some(name), Some(tags)) => Some(Tags { name, tags }),
            _ => None,
        }
    }
}

} // verus!
