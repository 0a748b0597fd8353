//! Telling which shape a manifest has, and reading it in that shape.

use vstd::prelude::*;
use vstd::string::*;
use crate::decode::{manifest_list_of, manifest_of, manifest_v2_of, probe_of};
use crate::json::{parse_json, parsed_json, Json, JsonValue};
use crate::model::{
    DockerManifest, DockerManifestView, Manifest, ManifestV2, ManifestV2List, SchemaVersion,
};

verus! {

/// Why a manifest could not be resolved.
#[derive(Debug, Clone, Copy, PartialEq, Eq, Structural)]
pub enum ResolveError {
    /// The text is not a JSON document.
    Syntax,
    /// The document does not say which shape it has.
    Probe,
    /// Schema version 2 with a media type that is neither a manifest nor a
    /// manifest list, or with none.
    UnsupportedMediaType,
    /// A schema version other than 1 and 2.
    UnsupportedSchemaVersion,
    /// The document says which shape it has, but does not have it.
    Shape,
}

impl ResolveError {
    /// The words that the error is reported with.
    pub open spec fn message_of(self) -> Seq<char> {
        match self {
            ResolveError::UnsupportedMediaType => "Invalid media type"@,
            ResolveError::UnsupportedSchemaVersion => "Invalid schema version"@,
            _ => "Failed to parse manifest"@,
        }
    }

    /// Reports the error in words.
    pub fn message(&self) -> (r: &'static str)
        ensures
            r@ == self.message_of(),
    {
        match self {
            ResolveError::UnsupportedMediaType => "Invalid media type",
            ResolveError::UnsupportedSchemaVersion => "Invalid schema version",
            _ => "Failed to parse manifest",
        }
    }
}

/// The three shapes of a manifest.
#[derive(Debug, Clone, Copy, PartialEq, Eq, Structural)]
pub enum ManifestKind {
    V1,
    V2,
    V2List,
}

/// The media type of a single-platform manifest.
pub open spec fn media_type_manifest() -> Seq<char> {
    "application/vnd.docker.distribution.manifest.v2+json"@
}

/// The media type of a manifest list.
pub open spec fn media_type_manifest_list() -> Seq<char> {
    "application/vnd.docker.distribution.manifest.list.v2+json"@
}

/// The shape that a schema version and a media type stand for.
pub open spec fn kind_of(schema_version: usize, media_type: Option<Seq<char>>) -> Result<
    ManifestKind,
    ResolveError,
> {
    if schema_version == 1 {
        Ok(ManifestKind::V1)
    } else if schema_version == 2 {
        if media_type == Some(media_type_manifest_list()) {
            Ok(ManifestKind::V2List)
        } else if media_type == Some(media_type_manifest()) {
            Ok(ManifestKind::V2)
        } else {
            Err(ResolveError::UnsupportedMediaType)
        }
    } else {
        Err(ResolveError::UnsupportedSchemaVersion)
    }
}

/// The reading of a document in a given shape.
pub open spec fn shaped(kind: ManifestKind, doc: JsonValue) -> Result<
    DockerManifestView,
    ResolveError,
> {
    match kind {
        ManifestKind::V1 => match manifest_of(doc) {
            Some(m) => Ok(DockerManifestView::V1(m)),
            None => Err(ResolveError::Shape),
        },
        ManifestKind::V2 => match manifest_v2_of(doc) {
            Some(m) => Ok(DockerManifestView::V2(m)),
            None => Err(ResolveError::Shape),
        },
        ManifestKind::V2List => match manifest_list_of(doc) {
            Some(m) => Ok(DockerManifestView::V2List(m)),
            None => Err(ResolveError::Shape),
        },
    }
}

/// The manifest that a document holds: the shape is told from the schema
/// version and the media type alone, and the whole document is then read in
/// that shape.
pub open spec fn resolved(doc: JsonValue) -> Result<DockerManifestView, ResolveError> {
    match probe_of(doc) {
        None => Err(ResolveError::Probe),
        Some(probe) => match kind_of(probe.schema_version, probe.media_type) {
            Err(e) => Err(e),
            Ok(kind) => shaped(kind, doc),
        },
    }
}

/// The manifest that a text holds.
pub open spec fn resolved_text(text: Seq<char>) -> Result<DockerManifestView, ResolveError> {
    match parsed_json(text) {
        None => Err(ResolveError::Syntax),
        Some(doc) => resolved(doc),
    }
}

/// The view of a resolver's answer.
pub open spec fn answer_view(r: Result<DockerManifest, ResolveError>) -> Result<
    DockerManifestView,
    ResolveError,
> {
    match r {
        Ok(m) => Ok(m@),
        Err(e) => Err(e),
    }
}

impl SchemaVersion {
    /// Tells the shape of the manifest that this was read from.
    pub fn classify(&self) -> (r: Result<ManifestKind, ResolveError>)
        ensures
            r == kind_of(self@.schema_version, self@.media_type),
    {
        if self.schema_version == 1 {
            Ok(ManifestKind::V1)
        } else if self.schema_version == 2 {
            match &self.media_type {
                Some(media_type) => {
                    let list = String::from_str(
                        "application/vnd.docker.distribution.manifest.list.v2+json",
                    );
                    let single = String::from_str(
                        "application/vnd.docker.distribution.manifest.v2+json",
                    );
                    if *media_type == list {
                        Ok(ManifestKind::V2List)
                    } else if *media_type == single {
                        Ok(ManifestKind::V2)
                    } else {
                        Err(ResolveError::UnsupportedMediaType)
                    }
                },
                None => Err(ResolveError::UnsupportedMediaType),
            }
        } else {
            Err(ResolveError::UnsupportedSchemaVersion)
        }
    }
}

/// Reads a document in a given shape.
pub fn read_shape(kind: ManifestKind, doc: &Json) -> (r: Result<DockerManifest, ResolveError>)
    ensures
        answer_view(r) == shaped(kind, doc@),
{
    match kind {
        ManifestKind::V1 => match Manifest::from_json(doc) {
            Some(m) => Ok(DockerManifest::V1(m)),
            None => Err(ResolveError::Shape),
        },
        ManifestKind::V2 => match ManifestV2::from_json(doc) {
            Some(m) => Ok(DockerManifest::V2(m)),
            None => Err(ResolveError::Shape),
        },
        ManifestKind::V2List => match ManifestV2List::from_json(doc) {
            Some(m) => Ok(DockerManifest::V2List(m)),
            None => Err(ResolveError::Shape),
        },
    }
}

/// Resolves a manifest from its document.
pub fn resolve(doc: &Json) -> (r: Result<DockerManifest, ResolveError>)
    ensures
        answer_view(r) == resolved(doc@),
{
    match SchemaVersion::from_json(doc) {
        None => Err(ResolveError::Probe),
        Some(probe) => match probe.classify() {
            Err(e) => Err(e),
            Ok(kind) => read_shape(kind, doc),
        },
    }
}

/// Resolves a manifest from the text a registry answered with.
pub fn get_manifest(manifest: &str) -> (r: Result<DockerManifest, ResolveError>)
    ensures
        answer_view(r) == resolved_text(manifest@),
{
    match parse_json(manifest) {
        None => Err(ResolveError::Syntax),
        Some(doc) => resolve(&doc),
    }
}

} // verus!
