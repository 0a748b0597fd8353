use shipyard::json::{parse_json, Json};
use shipyard::resolve::{resolve, ResolveError};
use shipyard::{
    get_manifest, DockerManifest, ErrorsV2, ErrorsV2Detail, Manifest, ManifestConfig, ManifestV2,
    ManifestV2List, ManifestV2ListPlatform,
};

const MANIFEST: &str = "application/vnd.docker.distribution.manifest.v2+json";
const MANIFEST_LIST: &str = "application/vnd.docker.distribution.manifest.list.v2+json";

fn to_value(doc: &Json) -> serde_json::Value {
    match doc {
        Json::Null => serde_json::Value::Null,
        Json::Bool(b) => serde_json::Value::Bool(*b),
        Json::Number(n) => serde_json::Value::Number(n.parse().expect("number")),
        Json::Text(s) => serde_json::Value::String(s.clone()),
        Json::Array(items) => serde_json::Value::Array(items.iter().map(to_value).collect()),
        Json::Object(entries) => serde_json::Value::Object(
            entries.iter().map(|(k, v)| (k.clone(), to_value(v))).collect(),
        ),
    }
}

fn to_text(doc: &Json) -> String {
    serde_json::to_string(&to_value(doc)).expect("text")
}

fn platform(variant: Option<&str>, features: Option<Vec<&str>>) -> ManifestV2ListPlatform {
    ManifestV2ListPlatform {
        architecture: "arm64".to_string(),
        os: "linux".to_string(),
        variant: variant.map(|v| v.to_string()),
        features: features.map(|f| f.into_iter().map(|x| x.to_string()).collect()),
    }
}

fn config(size: usize, platform: Option<ManifestV2ListPlatform>) -> ManifestConfig {
    ManifestConfig {
        media_type: "application/vnd.docker.image.rootfs.diff.tar.gzip".to_string(),
        size,
        digest: format!("sha256:{:064x}", size),
        platform,
    }
}

fn errors(tag: Option<&str>) -> ErrorsV2 {
    ErrorsV2 {
        code: "MANIFEST_UNKNOWN".to_string(),
        message: "manifest \"unknown\"\n".to_string(),
        detail: ErrorsV2Detail { tag: tag.map(|t| t.to_string()) },
    }
}

fn v1() -> DockerManifest {
    DockerManifest::V1(Manifest {
        name: "library/alpine".to_string(),
        tag: "3.12".to_string(),
        architecture: "amd64".to_string(),
        fs_layers: vec!["sha256:a".to_string(), "sha256:b".to_string()],
        history: vec![],
    })
}

fn v2(media_type: Option<&str>) -> DockerManifest {
    DockerManifest::V2(ManifestV2 {
        media_type: media_type.map(|m| m.to_string()),
        manifests: Some(config(1472, None)),
        layers: Some(vec![config(0, None), config(usize::MAX, Some(platform(None, None)))]),
    })
}

fn v2_list() -> DockerManifest {
    DockerManifest::V2List(ManifestV2List {
        media_type: Some(MANIFEST_LIST.to_string()),
        config: None,
        layers: Some(vec![
            config(528, Some(platform(Some("v8"), Some(vec!["a", "b"])))),
            config(529, Some(platform(None, Some(vec![])))),
        ]),
        errors: Some(errors(Some("latest"))),
    })
}

fn same(a: &DockerManifest, b: &DockerManifest) -> bool {
    format!("{:?}", a) == format!("{:?}", b)
}

#[test]
fn a_v1_manifest_is_read_back_from_its_document() {
    let m = v1();
    let back = resolve(&m.to_json()).expect("resolved");
    assert!(same(&m, &back));
    assert!(matches!(back, DockerManifest::V1(_)));
}

#[test]
fn a_v2_manifest_is_read_back_from_its_document() {
    let m = v2(Some(MANIFEST));
    let back = resolve(&m.to_json()).expect("resolved");
    assert!(same(&m, &back));
    assert!(matches!(back, DockerManifest::V2(_)));
}

#[test]
fn a_manifest_list_is_read_back_from_its_document() {
    let m = v2_list();
    let back = resolve(&m.to_json()).expect("resolved");
    assert!(same(&m, &back));
    assert!(matches!(back, DockerManifest::V2List(_)));
}

#[test]
fn manifests_are_read_back_from_their_text() {
    for m in [v1(), v2(Some(MANIFEST)), v2_list()] {
        let text = to_text(&m.to_json());
        let back = get_manifest(&text).expect("resolved");
        assert!(same(&m, &back), "{}", text);
    }
}

#[test]
fn a_v2_manifest_without_its_media_type_is_written_but_not_resolved() {
    let m = v2(None);
    assert_eq!(resolve(&m.to_json()).err(), Some(ResolveError::UnsupportedMediaType));
    let m = v2(Some(MANIFEST_LIST));
    assert!(matches!(resolve(&m.to_json()), Ok(DockerManifest::V2List(_))));
}

#[test]
fn parts_are_read_back_from_their_documents() {
    let p = platform(Some("v7"), Some(vec!["x"]));
    let back = ManifestV2ListPlatform::from_json(&p.to_json()).expect("platform");
    assert_eq!(format!("{:?}", p), format!("{:?}", back));
    let c = config(77, Some(p));
    let back = ManifestConfig::from_json(&c.to_json()).expect("config");
    assert_eq!(format!("{:?}", c), format!("{:?}", back));
    let e = errors(None);
    let back = ErrorsV2::from_json(&e.to_json()).expect("errors");
    assert_eq!(format!("{:?}", e), format!("{:?}", back));
    let d = ErrorsV2Detail { tag: Some("t".to_string()) };
    let back = ErrorsV2Detail::from_json(&d.to_json()).expect("detail");
    assert_eq!(format!("{:?}", d), format!("{:?}", back));
}

#[test]
fn shapes_are_written_without_a_schema_version() {
    let m = Manifest {
        name: "n".to_string(),
        tag: "t".to_string(),
        architecture: "a".to_string(),
        fs_layers: vec![],
        history: vec!["h".to_string()],
    };
    let doc = m.to_json();
    assert!(doc.field("schemaVersion").is_none());
    assert_eq!(to_text(&doc), r#"{"architecture":"a","fsLayers":[],"history":["h"],"name":"n","tag":"t"}"#);
    let back = Manifest::from_json(&doc).expect("manifest");
    assert_eq!(format!("{:?}", m), format!("{:?}", back));
    let m = ManifestV2 { media_type: None, manifests: None, layers: None };
    assert_eq!(to_text(&m.to_json()), r#"{"layers":null,"manifests":null,"mediaType":null}"#);
    assert!(ManifestV2::from_json(&m.to_json()).is_some());
    let m = ManifestV2List { media_type: None, config: None, layers: None, errors: None };
    assert!(ManifestV2List::from_json(&m.to_json()).is_some());
}

#[test]
fn a_written_manifest_names_its_schema_version_first() {
    match v1().to_json() {
        Json::Object(entries) => {
            assert_eq!(entries[0].0, "schemaVersion");
            assert!(matches!(&entries[0].1, Json::Number(n) if n == "1"));
            assert_eq!(entries.len(), 6);
        }
        other => panic!("unexpected {:?}", other),
    }
    match v2_list().to_json() {
        Json::Object(entries) => {
            assert!(matches!(&entries[0].1, Json::Number(n) if n == "2"));
            assert_eq!(entries.len(), 5);
        }
        other => panic!("unexpected {:?}", other),
    }
}

#[test]
fn documents_are_trees_of_plain_values() {
    let doc = parse_json(r#"{"b": [1, -2, 2.5, "x", null, false], "a": {"k": {}}}"#).expect("json");
    assert!(doc.is_object());
    assert!(!doc.is_null());
    let b = doc.field("b").expect("b");
    let items = b.items().expect("items");
    assert_eq!(items.len(), 6);
    assert!(matches!(&items[0], Json::Number(n) if n == "1"));
    assert!(matches!(&items[1], Json::Number(n) if n == "-2"));
    assert!(matches!(&items[2], Json::Number(n) if n == "2.5"));
    assert!(matches!(&items[3], Json::Text(s) if s == "x"));
    assert!(items[4].is_null());
    assert!(matches!(&items[5], Json::Bool(false)));
    assert!(doc.field("a").expect("a").field("k").expect("k").is_object());
    assert!(doc.field("c").is_none());
    assert!(b.field("a").is_none());
    assert!(doc.items().is_none());
}

#[test]
fn the_first_of_two_equal_names_is_found() {
    let doc = Json::object(vec![
        ("k".to_string(), Json::number(1)),
        ("k".to_string(), Json::number(2)),
        ("l".to_string(), Json::text("v")),
    ]);
    assert!(matches!(doc.field("k"), Some(Json::Number(n)) if n == "1"));
    assert!(matches!(doc.field("l"), Some(Json::Text(s)) if s == "v"));
    assert!(matches!(Json::array(vec![Json::Null]).items(), Some(v) if v.len() == 1));
}
