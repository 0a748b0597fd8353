//! Writing the registry's documents as JSON trees, and the proof that
//! reading gives back what was written.
//!
//! A member that is absent is written as `null`. A manifest is written
//! with its schema version in front of the members of its shape.

use vstd::prelude::*;
use vstd::string::*;
use crate::decode::{
    config_list_of, config_of, detail_of, errors_of, manifest_list_of, manifest_of,
    manifest_v2_of, platform_of, probe_of, text_list_of,
};
use crate::json::{lookup_from, Json, JsonValue};
use crate::model::{
    DockerManifest, DockerManifestView, ErrorsV2, ErrorsV2Detail, ErrorsV2DetailView,
    ErrorsV2View, Manifest, ManifestConfig, ManifestConfigView, ManifestV2, ManifestV2List,
    ManifestV2ListPlatform, ManifestV2ListPlatformView, ManifestV2ListView, ManifestV2View,
    ManifestView,
};
use crate::resolve::{media_type_manifest, media_type_manifest_list, resolved, ResolveError};
use crate::text::{decimal, lemma_read_decimal_of_decimal};

verus! {

/// A text that may be absent, as a JSON string or `null`.
pub open spec fn optional_text_json(text: Option<Seq<char>>) -> JsonValue {
    match text {
        Some(t) => JsonValue::Text(t),
        None => JsonValue::Null,
    }
}

/// A number as a JSON number.
pub open spec fn number_json(n: usize) -> JsonValue {
    JsonValue::Number(decimal(n as nat))
}

/// Texts as an array of JSON strings.
pub open spec fn text_list_json(texts: Seq<Seq<char>>) -> JsonValue {
    JsonValue::Array(Seq::new(texts.len(), |i: int| JsonValue::Text(texts[i])))
}

/// Texts that may be absent, as an array or `null`.
pub open spec fn optional_text_list_json(texts: Option<Seq<Seq<char>>>) -> JsonValue {
    match texts {
        Some(t) => text_list_json(t),
        None => JsonValue::Null,
    }
}

/// An error detail record as an object.
pub open spec fn detail_json(detail: ErrorsV2DetailView) -> JsonValue {
    JsonValue::Object(seq![("tag"@, optional_text_json(detail.tag))])
}

/// The error body of a registry as an object.
pub open spec fn errors_json(errors: ErrorsV2View) -> JsonValue {
    JsonValue::Object(
        seq![
            ("code"@, JsonValue::Text(errors.code)),
            ("message"@, JsonValue::Text(errors.message)),
            ("detail"@, detail_json(errors.detail)),
        ],
    )
}

/// An error body that may be absent, as an object or `null`.
pub open spec fn optional_errors_json(errors: Option<ErrorsV2View>) -> JsonValue {
    match errors {
        Some(e) => errors_json(e),
        None => JsonValue::Null,
    }
}

/// A platform record as an object.
pub open spec fn platform_json(platform: ManifestV2ListPlatformView) -> JsonValue {
    JsonValue::Object(
        seq![
            ("architecture"@, JsonValue::Text(platform.architecture)),
            ("os"@, JsonValue::Text(platform.os)),
            ("variant"@, optional_text_json(platform.variant)),
            ("features"@, optional_text_list_json(platform.features)),
        ],
    )
}

/// A platform record that may be absent, as an object or `null`.
pub open spec fn optional_platform_json(platform: Option<ManifestV2ListPlatformView>)
    -> JsonValue {
    match platform {
        Some(p) => platform_json(p),
        None => JsonValue::Null,
    }
}

/// A blob reference as an object.
pub open spec fn config_json(config: ManifestConfigView) -> JsonValue {
    JsonValue::Object(
        seq![
            ("mediaType"@, JsonValue::Text(config.media_type)),
            ("size"@, number_json(config.size)),
            ("digest"@, JsonValue::Text(config.digest)),
            ("platform"@, optional_platform_json(config.platform)),
        ],
    )
}

/// A blob reference that may be absent, as an object or `null`.
pub open spec fn optional_config_json(config: Option<ManifestConfigView>) -> JsonValue {
    match config {
        Some(c) => config_json(c),
        None => JsonValue::Null,
    }
}

/// Blob references as an array of objects.
pub open spec fn config_list_json(configs: Seq<ManifestConfigView>) -> JsonValue {
    JsonValue::Array(Seq::new(configs.len(), |i: int| config_json(configs[i])))
}

/// Blob references that may be absent, as an array or `null`.
pub open spec fn optional_config_list_json(configs: Option<Seq<ManifestConfigView>>)
    -> JsonValue {
    match configs {
        Some(c) => config_list_json(c),
        None => JsonValue::Null,
    }
}

/// The members of a manifest of schema version 1.
pub open spec fn manifest_entries(m: ManifestView) -> Seq<(Seq<char>, JsonValue)> {
    seq![
        ("name"@, JsonValue::Text(m.name)),
        ("tag"@, JsonValue::Text(m.tag)),
        ("architecture"@, JsonValue::Text(m.architecture)),
        ("fsLayers"@, text_list_json(m.fs_layers)),
        ("history"@, text_list_json(m.history)),
    ]
}

/// The members of a single-platform manifest.
pub open spec fn manifest_v2_entries(m: ManifestV2View) -> Seq<(Seq<char>, JsonValue)> {
    seq![
        ("mediaType"@, optional_text_json(m.media_type)),
        ("manifests"@, optional_config_json(m.manifests)),
        ("layers"@, optional_config_list_json(m.layers)),
    ]
}

/// The members of a manifest list.
pub open spec fn manifest_list_entries(m: ManifestV2ListView) -> Seq<(Seq<char>, JsonValue)> {
    seq![
        ("mediaType"@, optional_text_json(m.media_type)),
        ("config"@, optional_config_json(m.config)),
        ("layers"@, optional_config_list_json(m.layers)),
        ("errors"@, optional_errors_json(m.errors)),
    ]
}

/// The schema version that a manifest is written with.
pub open spec fn schema_version_of(m: DockerManifestView) -> usize {
    match m {
        DockerManifestView::V1(_) => 1,
        _ => 2,
    }
}

/// A manifest as a document: its schema version, then the members of its
/// shape.
pub open spec fn docker_manifest_json(m: DockerManifestView) -> JsonValue {
    let version = seq![("schemaVersion"@, number_json(schema_version_of(m)))];
    match m {
        DockerManifestView::V1(inner) => JsonValue::Object(version + manifest_entries(inner)),
        DockerManifestView::V2(inner) => JsonValue::Object(version + manifest_v2_entries(inner)),
        DockerManifestView::V2List(inner) => JsonValue::Object(
            version + manifest_list_entries(inner),
        ),
    }
}

/// Whether a manifest names the media type of its own shape, as the
/// resolver needs it to tell the shape.
pub open spec fn names_own_media_type(m: DockerManifestView) -> bool {
    match m {
        DockerManifestView::V1(_) => true,
        DockerManifestView::V2(inner) => inner.media_type == Some(media_type_manifest()),
        DockerManifestView::V2List(inner) => inner.media_type == Some(media_type_manifest_list()),
    }
}

/// The names of the members differ from one another.
proof fn lemma_member_names()
    ensures
        "tag"@.len() == 3,
        "code"@.len() == 4,
        "message"@.len() == 7,
        "detail"@.len() == 6,
        "architecture"@.len() == 12,
        "os"@.len() == 2,
        "variant"@.len() == 7,
        "features"@.len() == 8,
        "mediaType"@.len() == 9,
        "size"@.len() == 4,
        "digest"@.len() == 6,
        "platform"@.len() == 8,
        "schemaVersion"@.len() == 13,
        "name"@.len() == 4,
        "fsLayers"@.len() == 8,
        "history"@.len() == 7,
        "manifests"@.len() == 9,
        "layers"@.len() == 6,
        "config"@.len() == 6,
        "errors"@.len() == 6,
        "mediaType"@[1] == 'e',
        "manifests"@[1] == 'a',
        "layers"@[0] == 'l',
        "errors"@[0] == 'e',
        "config"@[0] == 'c',
{
    reveal_strlit("tag");
    reveal_strlit("code");
    reveal_strlit("message");
    reveal_strlit("detail");
    reveal_strlit("architecture");
    reveal_strlit("os");
    reveal_strlit("variant");
    reveal_strlit("features");
    reveal_strlit("mediaType");
    reveal_strlit("size");
    reveal_strlit("digest");
    reveal_strlit("platform");
    reveal_strlit("schemaVersion");
    reveal_strlit("name");
    reveal_strlit("fsLayers");
    reveal_strlit("history");
    reveal_strlit("manifests");
    reveal_strlit("layers");
    reveal_strlit("config");
    reveal_strlit("errors");
}

/// Reading the array that texts are written as gives the texts back.
pub proof fn lemma_text_list_round_trip(texts: Seq<Seq<char>>)
    ensures
        text_list_of(text_list_json(texts)) == Some(texts),
{
    assert(text_list_of(text_list_json(texts)).unwrap() =~= texts);
}

/// Reading the object that an error detail record is written as gives the
/// record back.
pub proof fn lemma_detail_round_trip(detail: ErrorsV2DetailView)
    ensures
        detail_of(detail_json(detail)) == Some(detail),
{
    reveal_with_fuel(lookup_from, 2);
}

/// Reading the object that an error body is written as gives the error
/// body back.
pub proof fn lemma_errors_round_trip(errors: ErrorsV2View)
    ensures
        errors_of(errors_json(errors)) == Some(errors),
{
    reveal_with_fuel(lookup_from, 4);
    lemma_member_names();
    lemma_detail_round_trip(errors.detail);
    assert(errors_json(errors).field("message"@) == Some(JsonValue::Text(errors.message)));
    assert(errors_json(errors).field("code"@) == Some(JsonValue::Text(errors.code)));
    assert(errors_json(errors).field("detail"@) == Some(detail_json(errors.detail)));
}

/// Reading the object that a platform record is written as gives the
/// record back.
pub proof fn lemma_platform_round_trip(platform: ManifestV2ListPlatformView)
    ensures
        platform_of(platform_json(platform)) == Some(platform),
{
    reveal_with_fuel(lookup_from, 5);
    lemma_member_names();
    if platform.features is Some {
        lemma_text_list_round_trip(platform.features.unwrap());
    }
    let doc = platform_json(platform);
    assert(doc.field("architecture"@) == Some(JsonValue::Text(platform.architecture)));
    assert(doc.field("os"@) == Some(JsonValue::Text(platform.os)));
    assert(doc.field("variant"@) == Some(optional_text_json(platform.variant)));
    assert(doc.field("features"@) == Some(optional_text_list_json(platform.features)));
}

/// Reading the object that a blob reference is written as gives the
/// reference back.
pub proof fn lemma_config_round_trip(config: ManifestConfigView)
    ensures
        config_of(config_json(config)) == Some(config),
{
    reveal_with_fuel(lookup_from, 5);
    lemma_member_names();
    lemma_read_decimal_of_decimal(config.size);
    if config.platform is Some {
        lemma_platform_round_trip(config.platform.unwrap());
    }
    let doc = config_json(config);
    assert(doc.field("mediaType"@) == Some(JsonValue::Text(config.media_type)));
    assert(doc.field("size"@) == Some(number_json(config.size)));
    assert(doc.field("digest"@) == Some(JsonValue::Text(config.digest)));
    assert(doc.field("platform"@) == Some(optional_platform_json(config.platform)));
}

/// Reading the array that blob references are written as gives the
/// references back.
pub proof fn lemma_config_list_round_trip(configs: Seq<ManifestConfigView>)
    ensures
        config_list_of(config_list_json(configs)) == Some(configs),
{
    let items = config_list_json(configs)->Array_0;
    assert forall|i: int| 0 <= i < items.len() implies config_of(#[trigger] items[i]) == Some(
        configs[i],
    ) by {
        lemma_config_round_trip(configs[i]);
    }
    assert(config_list_of(config_list_json(configs)).unwrap() =~= configs);
}

/// What the document of a manifest holds under each name that the resolver
/// asks for.
proof fn lemma_manifest_members(m: DockerManifestView)
    ensures
        docker_manifest_json(m).field("schemaVersion"@) == Some(
            number_json(schema_version_of(m)),
        ),
        m matches DockerManifestView::V1(inner) ==> {
            let doc = docker_manifest_json(m);
            &&& doc.field("mediaType"@) is None
            &&& doc.field("errors"@) is None
            &&& doc.field("name"@) == Some(JsonValue::Text(inner.name))
            &&& doc.field("tag"@) == Some(JsonValue::Text(inner.tag))
            &&& doc.field("architecture"@) == Some(JsonValue::Text(inner.architecture))
            &&& doc.field("fsLayers"@) == Some(text_list_json(inner.fs_layers))
            &&& doc.field("history"@) == Some(text_list_json(inner.history))
        },
        m matches DockerManifestView::V2(inner) ==> {
            let doc = docker_manifest_json(m);
            &&& doc.field("mediaType"@) == Some(optional_text_json(inner.media_type))
            &&& doc.field("errors"@) is None
            &&& doc.field("manifests"@) == Some(optional_config_json(inner.manifests))
            &&& doc.field("layers"@) == Some(optional_config_list_json(inner.layers))
        },
        m matches DockerManifestView::V2List(inner) ==> {
            let doc = docker_manifest_json(m);
            &&& doc.field("mediaType"@) == Some(optional_text_json(inner.media_type))
            &&& doc.field("config"@) == Some(optional_config_json(inner.config))
            &&& doc.field("layers"@) == Some(optional_config_list_json(inner.layers))
            &&& doc.field("errors"@) == Some(optional_errors_json(inner.errors))
        },
{
    reveal_with_fuel(lookup_from, 8);
    lemma_member_names();
}

/// Reading the document of a manifest gives the manifest back, where the
/// manifest names the media type of its own shape. A manifest of schema
/// version 2 that names another media type, or none, is written but not
/// resolved.
pub proof fn lemma_manifest_round_trip(m: DockerManifestView)
    requires
        names_own_media_type(m),
    ensures
        resolved(docker_manifest_json(m)) == Ok::<DockerManifestView, ResolveError>(m),
{
    lemma_manifest_members(m);
    lemma_read_decimal_of_decimal(1);
    lemma_read_decimal_of_decimal(2);
    reveal_strlit("application/vnd.docker.distribution.manifest.v2+json");
    reveal_strlit("application/vnd.docker.distribution.manifest.list.v2+json");
    let doc = docker_manifest_json(m);
    match m {
        DockerManifestView::V1(inner) => {
            lemma_text_list_round_trip(inner.fs_layers);
            lemma_text_list_round_trip(inner.history);
            assert(probe_of(doc) is Some);
            assert(manifest_of(doc) == Some(inner));
        },
        DockerManifestView::V2(inner) => {
            if inner.manifests is Some {
                lemma_config_round_trip(inner.manifests.unwrap());
            }
            if inner.layers is Some {
                lemma_config_list_round_trip(inner.layers.unwrap());
            }
            assert(probe_of(doc) is Some);
            assert(media_type_manifest().len() == 52);
            assert(media_type_manifest_list().len() == 57);
            assert(manifest_v2_of(doc) == Some(inner));
        },
        DockerManifestView::V2List(inner) => {
            if inner.config is Some {
                lemma_config_round_trip(inner.config.unwrap());
            }
            if inner.layers is Some {
                lemma_config_list_round_trip(inner.layers.unwrap());
            }
            if inner.errors is Some {
                lemma_errors_round_trip(inner.errors.unwrap());
            }
            assert(probe_of(doc) is Some);
            assert(manifest_list_of(doc) == Some(inner));
        },
    }
}

fn entry(name: &str, value: Json) -> (r: (String, Json))
    ensures
        r.deep_view() == (name@, value@),
{
    (String::from_str(name), value)
}

fn optional_text_to_json(text: &Option<String>) -> (r: Json)
    ensures
        r@ == optional_text_json(text.deep_view()),
{
    match text {
        Some(t) => Json::text(t.as_str()),
        None => Json::Null,
    }
}

fn text_list_to_json(texts: &Vec<String>) -> (r: Json)
    ensures
        r@ == text_list_json(texts.deep_view()),
{
    let mut items: Vec<Json> = Vec::new();
    let mut i: usize = 0;
    while i < texts.len()
        invariant
            0 <= i <= texts.len(),
            items.len() == i,
            forall|k: int| 0 <= k < i ==> (#[trigger] items@[k])@ == JsonValue::Text(texts@[k]@),
        decreases texts.len() - i,
    {
        items.push(Json::text(texts[i].as_str()));
        i = i + 1;
    }
    assert(items.deep_view() =~= text_list_json(texts.deep_view())->Array_0);
    Json::array(items)
}

fn optional_text_list_to_json(texts: &Option<Vec<String>>) -> (r: Json)
    ensures
        r@ == optional_text_list_json(texts.deep_view()),
{
    match texts {
        Some(t) => text_list_to_json(t),
        None => Json::Null,
    }
}

fn optional_errors_to_json(errors: &Option<ErrorsV2>) -> (r: Json)
    ensures
        r@ == optional_errors_json(errors.deep_view()),
{
    match errors {
        Some(e) => e.to_json(),
        None => Json::Null,
    }
}

fn optional_platform_to_json(platform: &Option<ManifestV2ListPlatform>) -> (r: Json)
    ensures
        r@ == optional_platform_json(platform.deep_view()),
{
    match platform {
        Some(p) => p.to_json(),
        None => Json::Null,
    }
}

fn optional_config_to_json(config: &Option<ManifestConfig>) -> (r: Json)
    ensures
        r@ == optional_config_json(config.deep_view()),
{
    match config {
        Some(c) => c.to_json(),
        None => Json::Null,
    }
}

fn config_list_to_json(configs: &Vec<ManifestConfig>) -> (r: Json)
    ensures
        r@ == config_list_json(configs.deep_view()),
{
    let mut items: Vec<Json> = Vec::new();
    let mut i: usize = 0;
    while i < configs.len()
        invariant
            0 <= i <= configs.len(),
            items.len() == i,
            forall|k: int| 0 <= k < i ==> (#[trigger] items@[k])@ == config_json(configs@[k]@),
        decreases configs.len() - i,
    {
        items.push(configs[i].to_json());
        i = i + 1;
    }
    assert(items.deep_view() =~= config_list_json(configs.deep_view())->Array_0);
    Json::array(items)
}

fn optional_config_list_to_json(configs: &Option<Vec<ManifestConfig>>) -> (r: Json)
    ensures
        r@ == optional_config_list_json(configs.deep_view()),
{
    match configs {
        Some(c) => config_list_to_json(c),
        None => Json::Null,
    }
}

impl ErrorsV2Detail {
    /// Writes an error detail record.
    pub fn to_json(&self) -> (r: Json)
        ensures
            r@ == detail_json(self@),
    {
        let mut entries: Vec<(String, Json)> = Vec::new();
        entries.push(entry("tag", optional_text_to_json(&self.tag)));
        assert(entries.deep_view() =~= detail_json(self@)->Object_0);
        Json::object(entries)
    }
}

impl ErrorsV2 {
    /// Writes the error body of a registry.
    pub fn to_json(&self) -> (r: Json)
        ensures
            r@ == errors_json(self@),
    {
        let mut entries: Vec<(String, Json)> = Vec::new();
        entries.push(entry("code", Json::text(self.code.as_str())));
        entries.push(entry("message", Json::text(self.message.as_str())));
        entries.push(entry("detail", self.detail.to_json()));
        assert(entries.deep_view() =~= errors_json(self@)->Object_0);
        Json::object(entries)
    }
}

impl ManifestV2ListPlatform {
    /// Writes a platform record.
    pub fn to_json(&self) -> (r: Json)
        ensures
            r@ == platform_json(self@),
    {
        let mut entries: Vec<(String, Json)> = Vec::new();
        entries.push(entry("architecture", Json::text(self.architecture.as_str())));
        entries.push(entry("os", Json::text(self.os.as_str())));
        entries.push(entry("variant", optional_text_to_json(&self.variant)));
        entries.push(entry("features", optional_text_list_to_json(&self.features)));
        assert(entries.deep_view() =~= platform_json(self@)->Object_0);
        Json::object(entries)
    }
}

impl ManifestConfig {
    /// Writes a blob reference.
    pub fn to_json(&self) -> (r: Json)
        ensures
            r@ == config_json(self@),
    {
        let mut entries: Vec<(String, Json)> = Vec::new();
        entries.push(entry("mediaType", Json::text(self.media_type.as_str())));
        entries.push(entry("size", Json::number(self.size)));
        entries.push(entry("digest", Json::text(self.digest.as_str())));
        entries.push(entry("platform", optional_platform_to_json(&self.platform)));
        assert(entries.deep_view() =~= config_json(self@)->Object_0);
        Json::object(entries)
    }
}

fn manifest_members(m: &Manifest) -> (r: Vec<(String, Json)>)
    ensures
        r.deep_view() == manifest_entries(m@),
{
    let mut entries: Vec<(String, Json)> = Vec::new();
    entries.push(entry("name", Json::text(m.name.as_str())));
    entries.push(entry("tag", Json::text(m.tag.as_str())));
    entries.push(entry("architecture", Json::text(m.architecture.as_str())));
    entries.push(entry("fsLayers", text_list_to_json(&m.fs_layers)));
    entries.push(entry("history", text_list_to_json(&m.history)));
    assert(entries.deep_view() =~= manifest_entries(m@));
    entries
}

fn manifest_v2_members(m: &ManifestV2) -> (r: Vec<(String, Json)>)
    ensures
        r.deep_view() == manifest_v2_entries(m@),
{
    let mut entries: Vec<(String, Json)> = Vec::new();
    entries.push(entry("mediaType", optional_text_to_json(&m.media_type)));
    entries.push(entry("manifests", optional_config_to_json(&m.manifests)));
    entries.push(entry("layers", optional_config_list_to_json(&m.layers)));
    assert(entries.deep_view() =~= manifest_v2_entries(m@));
    entries
}

fn manifest_list_members(m: &ManifestV2List) -> (r: Vec<(String, Json)>)
    ensures
        r.deep_view() == manifest_list_entries(m@),
{
    let mut entries: Vec<(String, Json)> = Vec::new();
    entries.push(entry("mediaType", optional_text_to_json(&m.media_type)));
    entries.push(entry("config", optional_config_to_json(&m.config)));
    entries.push(entry("layers", optional_config_list_to_json(&m.layers)));
    entries.push(entry("errors", optional_errors_to_json(&m.errors)));
    assert(entries.deep_view() =~= manifest_list_entries(m@));
    entries
}

impl Manifest {
    /// Writes the members of a manifest of schema version 1.
    pub fn to_json(&self) -> (r: Json)
        ensures
            r@ == JsonValue::Object(manifest_entries(self@)),
    {
        Json::object(manifest_members(self))
    }
}

impl ManifestV2 {
    /// Writes the members of a single-platform manifest.
    pub fn to_json(&self) -> (r: Json)
        ensures
            r@ == JsonValue::Object(manifest_v2_entries(self@)),
    {
        Json::object(manifest_v2_members(self))
    }
}

impl ManifestV2List {
    /// Writes the members of a manifest list.
    pub fn to_json(&self) -> (r: Json)
        ensures
            r@ == JsonValue::Object(manifest_list_entries(self@)),
    {
        Json::object(manifest_list_members(self))
    }
}

impl DockerManifest {
    /// Writes a manifest as a document that the resolver reads back.
    pub fn to_json(&self) -> (r: Json)
        ensures
            r@ == docker_manifest_json(self@),
    {
        let mut entries: Vec<(String, Json)> = Vec::new();
        let mut members = match self {
            DockerManifest::V1(m) => {
                entries.push(entry("schemaVersion", Json::number(1)));
                manifest_members(m)
            },
            DockerManifest::V2(m) => {
                entries.push(entry("schemaVersion", Json::number(2)));
                manifest_v2_members(m)
            },
            DockerManifest::V2List(m) => {
                entries.push(entry("schemaVersion", Json::number(2)));
                manifest_list_members(m)
            },
        };
        let ghost head = entries.deep_view();
        let ghost rest = members.deep_view();
        entries.append(&mut members);
        assert(entries.deep_view() =~= head + rest);
        assert(head =~= seq![("schemaVersion"@, number_json(schema_version_of(self@)))]);
        Json::object(entries)
    }
}

} // verus!
