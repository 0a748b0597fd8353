use shipyard::get_manifest;
use shipyard::json::parse_json;
use shipyard::resolve::{read_shape, resolve, ManifestKind, ResolveError};
use shipyard::{DockerManifest, SchemaVersion};

const V1_BODY: &str = r#"{
    "schemaVersion": 1,
    "name": "library/alpine",
    "tag": "3.12",
    "architecture": "amd64",
    "fsLayers": ["sha256:aaa", "sha256:bbb"],
    "history": ["first", "second"],
    "signatures": [{"ignored": true}]
}"#;

const V2_BODY: &str = r#"{
    "schemaVersion": 2,
    "mediaType": "application/vnd.docker.distribution.manifest.v2+json",
    "manifests": {
        "mediaType": "application/vnd.docker.container.image.v1+json",
        "size": 1472,
        "digest": "sha256:cfg"
    },
    "layers": [
        {"mediaType": "application/vnd.docker.image.rootfs.diff.tar.gzip", "size": 2797541, "digest": "sha256:l1"},
        {"mediaType": "application/vnd.docker.image.rootfs.diff.tar.gzip", "size": 12, "digest": "sha256:l2", "platform": null}
    ]
}"#;

const V2_LIST_BODY: &str = r#"{
    "schemaVersion": 2,
    "mediaType": "application/vnd.docker.distribution.manifest.list.v2+json",
    "layers": [
        {
            "mediaType": "application/vnd.docker.distribution.manifest.v2+json",
            "size": 528,
            "digest": "sha256:amd",
            "platform": {"architecture": "amd64", "os": "linux"}
        },
        {
            "mediaType": "application/vnd.docker.distribution.manifest.v2+json",
            "size": 529,
            "digest": "sha256:arm",
            "platform": {"architecture": "arm", "os": "linux", "variant": "v7", "features": ["sse4", "aes"]}
        }
    ]
}"#;

#[test]
fn schema_one_resolves_to_v1() {
    match get_manifest(V1_BODY) {
        Ok(DockerManifest::V1(m)) => {
            assert_eq!(m.name, "library/alpine");
            assert_eq!(m.tag, "3.12");
            assert_eq!(m.architecture, "amd64");
            assert_eq!(m.fs_layers, vec!["sha256:aaa".to_string(), "sha256:bbb".to_string()]);
            assert_eq!(m.history, vec!["first".to_string(), "second".to_string()]);
        }
        other => panic!("unexpected {:?}", other),
    }
}

#[test]
fn schema_one_ignores_the_media_type() {
    let body = r#"{"schemaVersion":1,"mediaType":"application/unknown","name":"n","tag":"t","architecture":"a","fsLayers":[],"history":[]}"#;
    assert!(matches!(get_manifest(body), Ok(DockerManifest::V1(_))));
}

#[test]
fn schema_two_manifest_resolves_to_v2() {
    match get_manifest(V2_BODY) {
        Ok(DockerManifest::V2(m)) => {
            assert_eq!(
                m.media_type.as_deref(),
                Some("application/vnd.docker.distribution.manifest.v2+json")
            );
            let config = m.manifests.expect("config");
            assert_eq!(config.media_type, "application/vnd.docker.container.image.v1+json");
            assert_eq!(config.size, 1472);
            assert_eq!(config.digest, "sha256:cfg");
            assert!(config.platform.is_none());
            let layers = m.layers.expect("layers");
            assert_eq!(layers.len(), 2);
            assert_eq!(layers[0].size, 2797541);
            assert_eq!(layers[0].digest, "sha256:l1");
            assert_eq!(layers[1].size, 12);
            assert!(layers[1].platform.is_none());
        }
        other => panic!("unexpected {:?}", other),
    }
}

#[test]
fn schema_two_list_resolves_to_v2_list() {
    match get_manifest(V2_LIST_BODY) {
        Ok(DockerManifest::V2List(m)) => {
            assert!(m.config.is_none());
            assert!(m.errors.is_none());
            let layers = m.layers.expect("layers");
            assert_eq!(layers.len(), 2);
            let first = layers[0].platform.clone().expect("platform");
            assert_eq!(first.architecture, "amd64");
            assert_eq!(first.os, "linux");
            assert!(first.variant.is_none());
            assert!(first.features.is_none());
            let second = layers[1].platform.clone().expect("platform");
            assert_eq!(second.variant.as_deref(), Some("v7"));
            assert_eq!(second.features, Some(vec!["sse4".to_string(), "aes".to_string()]));
        }
        other => panic!("unexpected {:?}", other),
    }
}

#[test]
fn unknown_media_type_is_a_classification_error() {
    let body = r#"{"schemaVersion": 2, "mediaType": "application/unknown"}"#;
    assert_eq!(get_manifest(body).err(), Some(ResolveError::UnsupportedMediaType));
}

#[test]
fn absent_media_type_is_a_classification_error() {
    assert_eq!(
        get_manifest(r#"{"schemaVersion": 2}"#).err(),
        Some(ResolveError::UnsupportedMediaType)
    );
    assert_eq!(
        get_manifest(r#"{"schemaVersion": 2, "mediaType": null}"#).err(),
        Some(ResolveError::UnsupportedMediaType)
    );
}

#[test]
fn unknown_schema_version_is_a_classification_error() {
    let body = r#"{"schemaVersion": 3, "mediaType": "application/vnd.docker.distribution.manifest.v2+json"}"#;
    assert_eq!(get_manifest(body).err(), Some(ResolveError::UnsupportedSchemaVersion));
    assert_eq!(
        get_manifest(r#"{"schemaVersion": 0}"#).err(),
        Some(ResolveError::UnsupportedSchemaVersion)
    );
}

#[test]
fn text_that_is_not_json_is_a_syntax_error() {
    assert_eq!(get_manifest("not json").err(), Some(ResolveError::Syntax));
    assert_eq!(get_manifest("").err(), Some(ResolveError::Syntax));
}

#[test]
fn a_document_without_schema_version_cannot_be_probed() {
    assert_eq!(get_manifest(r#"{"mediaType": "x"}"#).err(), Some(ResolveError::Probe));
    assert_eq!(get_manifest("[1, 2]").err(), Some(ResolveError::Probe));
    assert_eq!(get_manifest(r#"{"schemaVersion": "1"}"#).err(), Some(ResolveError::Probe));
    assert_eq!(get_manifest(r#"{"schemaVersion": -1}"#).err(), Some(ResolveError::Probe));
    assert_eq!(get_manifest(r#"{"schemaVersion": 1.0}"#).err(), Some(ResolveError::Probe));
    assert_eq!(
        get_manifest(r#"{"schemaVersion": 1, "mediaType": 7}"#).err(),
        Some(ResolveError::Probe)
    );
}

#[test]
fn a_classified_document_of_the_wrong_shape_is_a_shape_error() {
    assert_eq!(get_manifest(r#"{"schemaVersion": 1}"#).err(), Some(ResolveError::Shape));
    let body = r#"{"schemaVersion": 2, "mediaType": "application/vnd.docker.distribution.manifest.v2+json", "layers": [{"size": 1}]}"#;
    assert_eq!(get_manifest(body).err(), Some(ResolveError::Shape));
    let body = r#"{"schemaVersion": 2, "mediaType": "application/vnd.docker.distribution.manifest.list.v2+json", "config": 5}"#;
    assert_eq!(get_manifest(body).err(), Some(ResolveError::Shape));
}

#[test]
fn registry_errors_are_read_from_a_list_manifest() {
    let body = r#"{
        "schemaVersion": 2,
        "mediaType": "application/vnd.docker.distribution.manifest.list.v2+json",
        "errors": {"code": "MANIFEST_UNKNOWN", "message": "manifest unknown", "detail": {"tag": "latest"}}
    }"#;
    match get_manifest(body) {
        Ok(DockerManifest::V2List(m)) => {
            let errors = m.errors.expect("errors");
            assert_eq!(errors.code, "MANIFEST_UNKNOWN");
            assert_eq!(errors.message, "manifest unknown");
            assert_eq!(errors.detail.tag.as_deref(), Some("latest"));
        }
        other => panic!("unexpected {:?}", other),
    }
}

#[test]
fn probe_reads_version_media_type_and_errors() {
    let doc = parse_json(
        r#"{"schemaVersion": 2, "mediaType": "m", "errors": {"code": "c", "message": "w", "detail": {}}}"#,
    )
    .expect("json");
    let probe = SchemaVersion::from_json(&doc).expect("probe");
    assert_eq!(probe.schema_version, 2);
    assert_eq!(probe.media_type.as_deref(), Some("m"));
    let errors = probe.errors.clone().expect("errors");
    assert_eq!(errors.code, "c");
    assert!(errors.detail.tag.is_none());
    assert_eq!(probe.classify(), Err(ResolveError::UnsupportedMediaType));
}

#[test]
fn classify_tells_the_three_kinds() {
    let probe = |version: usize, media: Option<&str>| SchemaVersion {
        schema_version: version,
        media_type: media.map(|m| m.to_string()),
        errors: None,
    };
    assert_eq!(probe(1, None).classify(), Ok(ManifestKind::V1));
    assert_eq!(
        probe(2, Some("application/vnd.docker.distribution.manifest.v2+json")).classify(),
        Ok(ManifestKind::V2)
    );
    assert_eq!(
        probe(2, Some("application/vnd.docker.distribution.manifest.list.v2+json")).classify(),
        Ok(ManifestKind::V2List)
    );
    assert_eq!(probe(2, Some("")).classify(), Err(ResolveError::UnsupportedMediaType));
    assert_eq!(probe(7, None).classify(), Err(ResolveError::UnsupportedSchemaVersion));
}

#[test]
fn resolve_and_read_shape_work_on_documents() {
    let doc = parse_json(V2_BODY).expect("json");
    assert!(matches!(resolve(&doc), Ok(DockerManifest::V2(_))));
    assert!(matches!(read_shape(ManifestKind::V2List, &doc), Ok(DockerManifest::V2List(_))));
    assert_eq!(read_shape(ManifestKind::V1, &doc).err(), Some(ResolveError::Shape));
}

#[test]
fn a_size_beyond_the_machine_word_is_refused() {
    let body = r#"{"schemaVersion": 2, "mediaType": "application/vnd.docker.distribution.manifest.v2+json", "manifests": {"mediaType": "m", "size": 99999999999999999999999999, "digest": "d"}}"#;
    assert_eq!(get_manifest(body).err(), Some(ResolveError::Shape));
}

#[test]
fn catalog_pages_and_tag_lists_are_read_from_documents() {
    let doc = parse_json(r#"{"repositories": ["a/x", "b/y"], "extra": 1}"#).expect("json");
    let repos = shipyard::Repos::from_json(&doc).expect("repos");
    assert_eq!(repos.repositories, vec!["a/x", "b/y"]);
    assert!(shipyard::Tags::from_json(&doc).is_none());
    let doc = parse_json(r#"{"name": "a/x", "tags": []}"#).expect("json");
    let tags = shipyard::Tags::from_json(&doc).expect("tags");
    assert_eq!(tags.name, "a/x");
    assert!(tags.tags.is_empty());
    assert!(shipyard::Repos::from_json(&doc).is_none());
}

#[test]
fn required_members_may_not_be_null() {
    let body = r#"{"schemaVersion":1,"name":null,"tag":"t","architecture":"a","fsLayers":[],"history":[]}"#;
    assert_eq!(get_manifest(body).err(), Some(ResolveError::Shape));
    let body = r#"{"schemaVersion":1,"name":"n","tag":"t","architecture":"a","fsLayers":[null],"history":[]}"#;
    assert_eq!(get_manifest(body).err(), Some(ResolveError::Shape));
    let body = r#"{"schemaVersion":null}"#;
    assert_eq!(get_manifest(body).err(), Some(ResolveError::Probe));
}

#[test]
fn malformed_errors_spoil_the_probe() {
    let body = r#"{"schemaVersion": 1, "errors": {"code": "c"}}"#;
    assert_eq!(get_manifest(body).err(), Some(ResolveError::Probe));
    let body = r#"{"schemaVersion": 1, "errors": {"code": "c", "message": "m", "detail": 3}}"#;
    assert_eq!(get_manifest(body).err(), Some(ResolveError::Probe));
}
