//! The documents a registry answers with, each with its mathematical view.

use vstd::prelude::*;

verus! {

/// One page of the registry's catalog of repositories.
#[derive(Debug, Clone)]
pub struct Repos {
    /// Repository names, in the order the registry gave them.
    pub repositories: Vec<String>,
}

/// A catalog page as a value.
pub ghost struct ReposView {
    pub repositories: Seq<Seq<char>>,
}

impl View for Repos {
    type V = ReposView;

    open spec fn view(&self) -> ReposView {
        ReposView { repositories: self.repositories.deep_view() }
    }
}

impl DeepView for Repos {
    type V = ReposView;

    open spec fn deep_view(&self) -> ReposView {
        self@
    }
}

impl Default for Repos {
    fn default() -> (r: Repos)
        ensures
            r@ == (ReposView { repositories: Seq::empty() }),
    {
        let r = Repos { repositories: Vec::new() };
        assert(r.repositories.deep_view() =~= Seq::<Seq<char>>::empty());
        r
    }
}

/// The tags of one repository.
#[derive(Debug, Clone)]
pub struct Tags {
    /// Name of the repository.
    pub name: String,
    /// Its tags, in the order the registry gave them.
    pub tags: Vec<String>,
}

/// A tag list as a value.
pub ghost struct TagsView {
    pub name: Seq<char>,
    pub tags: Seq<Seq<char>>,
}

impl View for Tags {
    type V = TagsView;

    open spec fn view(&self) -> TagsView {
        TagsView { name: self.name@, tags: self.tags.deep_view() }
    }
}

impl DeepView for Tags {
    type V = TagsView;

    open spec fn deep_view(&self) -> TagsView {
        self@
    }
}

impl Default for Tags {
    fn default() -> (r: Tags)
        ensures
            r@ == (TagsView { name: Seq::empty(), tags: Seq::empty() }),
    {
        let r = Tags { name: String::new(), tags: Vec::new() };
        assert(r.tags.deep_view() =~= Seq::<Seq<char>>::empty());
        r
    }
}

/// The detail record of a registry error.
#[derive(Debug, Clone)]
pub struct ErrorsV2Detail {
    pub tag: Option<String>,
}

/// An error detail record as a value.
pub ghost struct ErrorsV2DetailView {
    pub tag: Option<Seq<char>>,
}

impl View for ErrorsV2Detail {
    type V = ErrorsV2DetailView;

    open spec fn view(&self) -> ErrorsV2DetailView {
        ErrorsV2DetailView { tag: self.tag.deep_view() }
    }
}

impl DeepView for ErrorsV2Detail {
    type V = ErrorsV2DetailView;

    open spec fn deep_view(&self) -> ErrorsV2DetailView {
        self@
    }
}

impl Default for ErrorsV2Detail {
    fn default() -> (r: ErrorsV2Detail)
        ensures
            r@ == (ErrorsV2DetailView { tag: None }),
    {
        let r = ErrorsV2Detail { tag: None };
        r
    }
}

/// The error body a registry sends in place of a manifest.
#[derive(Debug, Clone)]
pub struct ErrorsV2 {
    pub code: String,
    pub message: String,
    pub detail: ErrorsV2Detail,
}

/// An error body as a value.
pub ghost struct ErrorsV2View {
    pub code: Seq<char>,
    pub message: Seq<char>,
    pub detail: ErrorsV2DetailView,
}

impl View for ErrorsV2 {
    type V = ErrorsV2View;

    open spec fn view(&self) -> ErrorsV2View {
        ErrorsV2View { code: self.code@, message: self.message@, detail: self.detail@ }
    }
}

impl DeepView for ErrorsV2 {
    type V = ErrorsV2View;

    open spec fn deep_view(&self) -> ErrorsV2View {
        self@
    }
}

impl Default for ErrorsV2 {
    fn default() -> (r: ErrorsV2)
        ensures
            r@ == (ErrorsV2View { code: Seq::empty(), message: Seq::empty(), detail: ErrorsV2DetailView { tag: None } }),
    {
        let r = ErrorsV2 { code: String::new(), message: String::new(), detail: ErrorsV2Detail::default() };
        r
    }
}

/// The part of a manifest that is read first, to tell which shape it has.
#[derive(Debug, Clone)]
pub struct SchemaVersion {
    pub schema_version: usize,
    pub media_type: Option<String>,
    pub errors: Option<ErrorsV2>,
}

/// A schema probe as a value.
pub ghost struct SchemaVersionView {
    pub schema_version: usize,
    pub media_type: Option<Seq<char>>,
    pub errors: Option<ErrorsV2View>,
}

impl View for SchemaVersion {
    type V = SchemaVersionView;

    open spec fn view(&self) -> SchemaVersionView {
        SchemaVersionView {
            schema_version: self.schema_version,
            media_type: self.media_type.deep_view(),
            errors: self.errors.deep_view(),
        }
    }
}

impl DeepView for SchemaVersion {
    type V = SchemaVersionView;

    open spec fn deep_view(&self) -> SchemaVersionView {
        self@
    }
}

impl Default for SchemaVersion {
    fn default() -> (r: SchemaVersion)
        ensures
            r@ == (SchemaVersionView { schema_version: 0, media_type: None, errors: None }),
    {
        let r = SchemaVersion { schema_version: 0, media_type: None, errors: None };
        r
    }
}

/// The platform an entry of a manifest list is built for.
#[derive(Debug, Clone)]
pub struct ManifestV2ListPlatform {
    pub architecture: String,
    pub os: String,
    pub variant: Option<String>,
    pub features: Option<Vec<String>>,
}

/// A platform record as a value.
pub ghost struct ManifestV2ListPlatformView {
    pub architecture: Seq<char>,
    pub os: Seq<char>,
    pub variant: Option<Seq<char>>,
    pub features: Option<Seq<Seq<char>>>,
}

impl View for ManifestV2ListPlatform {
    type V = ManifestV2ListPlatformView;

    open spec fn view(&self) -> ManifestV2ListPlatformView {
        ManifestV2ListPlatformView {
            architecture: self.architecture@,
            os: self.os@,
            variant: self.variant.deep_view(),
            features: self.features.deep_view(),
        }
    }
}

impl DeepView for ManifestV2ListPlatform {
    type V = ManifestV2ListPlatformView;

    open spec fn deep_view(&self) -> ManifestV2ListPlatformView {
        self@
    }
}

impl Default for ManifestV2ListPlatform {
    fn default() -> (r: ManifestV2ListPlatform)
        ensures
            r@ == (ManifestV2ListPlatformView { architecture: Seq::empty(), os: Seq::empty(), variant: None, features: None }),
    {
        let r = ManifestV2ListPlatform { architecture: String::new(), os: String::new(), variant: None, features: None };
        r
    }
}

/// A reference to one blob: a configuration, a layer or a platform manifest.
#[derive(Debug, Clone)]
pub struct ManifestConfig {
    pub media_type: String,
    pub size: usize,
    pub digest: String,
    pub platform: Option<ManifestV2ListPlatform>,
}

/// A blob reference as a value.
pub ghost struct ManifestConfigView {
    pub media_type: Seq<char>,
    pub size: usize,
    pub digest: Seq<char>,
    pub platform: Option<ManifestV2ListPlatformView>,
}

impl View for ManifestConfig {
    type V = ManifestConfigView;

    open spec fn view(&self) -> ManifestConfigView {
        ManifestConfigView {
            media_type: self.media_type@,
            size: self.size,
            digest: self.digest@,
            platform: self.platform.deep_view(),
        }
    }
}

impl DeepView for ManifestConfig {
    type V = ManifestConfigView;

    open spec fn deep_view(&self) -> ManifestConfigView {
        self@
    }
}

impl Default for ManifestConfig {
    fn default() -> (r: ManifestConfig)
        ensures
            r@ == (ManifestConfigView { media_type: Seq::empty(), size: 0, digest: Seq::empty(), platform: None }),
    {
        let r = ManifestConfig { media_type: String::new(), size: 0, digest: String::new(), platform: None };
        r
    }
}

/// A manifest of schema version 1.
#[derive(Debug, Clone)]
pub struct Manifest {
    pub name: String,
    pub tag: String,
    pub architecture: String,
    pub fs_layers: Vec<String>,
    pub history: Vec<String>,
}

/// A manifest of schema version 1 as a value.
pub ghost struct ManifestView {
    pub name: Seq<char>,
    pub tag: Seq<char>,
    pub architecture: Seq<char>,
    pub fs_layers: Seq<Seq<char>>,
    pub history: Seq<Seq<char>>,
}

impl View for Manifest {
    type V = ManifestView;

    open spec fn view(&self) -> ManifestView {
        ManifestView {
            name: self.name@,
            tag: self.tag@,
            architecture: self.architecture@,
            fs_layers: self.fs_layers.deep_view(),
            history: self.history.deep_view(),
        }
    }
}

impl DeepView for Manifest {
    type V = ManifestView;

    open spec fn deep_view(&self) -> ManifestView {
        self@
    }
}

impl Default for Manifest {
    fn default() -> (r: Manifest)
        ensures
            r@ == (ManifestView { name: Seq::empty(), tag: Seq::empty(), architecture: Seq::empty(), fs_layers: Seq::empty(), history: Seq::empty() }),
    {
        let r = Manifest { name: String::new(), tag: String::new(), architecture: String::new(), fs_layers: Vec::new(), history: Vec::new() };
        assert(r.fs_layers.deep_view() =~= Seq::<Seq<char>>::empty() && r.history.deep_view() =~= Seq::<Seq<char>>::empty());
        r
    }
}

/// A manifest of schema version 2 for a single platform.
#[derive(Debug, Clone)]
pub struct ManifestV2 {
    pub media_type: Option<String>,
    pub manifests: Option<ManifestConfig>,
    pub layers: Option<Vec<ManifestConfig>>,
}

/// A single-platform manifest as a value.
pub ghost struct ManifestV2View {
    pub media_type: Option<Seq<char>>,
    pub manifests: Option<ManifestConfigView>,
    pub layers: Option<Seq<ManifestConfigView>>,
}

impl View for ManifestV2 {
    type V = ManifestV2View;

    open spec fn view(&self) -> ManifestV2View {
        ManifestV2View {
            media_type: self.media_type.deep_view(),
            manifests: self.manifests.deep_view(),
            layers: self.layers.deep_view(),
        }
    }
}

impl DeepView for ManifestV2 {
    type V = ManifestV2View;

    open spec fn deep_view(&self) -> ManifestV2View {
        self@
    }
}

impl Default for ManifestV2 {
    fn default() -> (r: ManifestV2)
        ensures
            r@ == (ManifestV2View { media_type: None, manifests: None, layers: None }),
    {
        let r = ManifestV2 { media_type: None, manifests: None, layers: None };
        r
    }
}

/// A manifest list of schema version 2, one entry per platform.
#[derive(Debug, Clone)]
pub struct ManifestV2List {
    pub media_type: Option<String>,
    pub config: Option<ManifestConfig>,
    pub layers: Option<Vec<ManifestConfig>>,
    pub errors: Option<ErrorsV2>,
}

/// A manifest list as a value.
pub ghost struct ManifestV2ListView {
    pub media_type: Option<Seq<char>>,
    pub config: Option<ManifestConfigView>,
    pub layers: Option<Seq<ManifestConfigView>>,
    pub errors: Option<ErrorsV2View>,
}

impl View for ManifestV2List {
    type V = ManifestV2ListView;

    open spec fn view(&self) -> ManifestV2ListView {
        ManifestV2ListView {
            media_type: self.media_type.deep_view(),
            config: self.config.deep_view(),
            layers: self.layers.deep_view(),
            errors: self.errors.deep_view(),
        }
    }
}

impl DeepView for ManifestV2List {
    type V = ManifestV2ListView;

    open spec fn deep_view(&self) -> ManifestV2ListView {
        self@
    }
}

impl Default for ManifestV2List {
    fn default() -> (r: ManifestV2List)
        ensures
            r@ == (ManifestV2ListView { media_type: None, config: None, layers: None, errors: None }),
    {
        let r = ManifestV2List { media_type: None, config: None, layers: None, errors: None };
        r
    }
}

/// A manifest in one of the three shapes a registry serves.
#[derive(Debug, Clone)]
pub enum DockerManifest {
    /// Schema version 1.
    V1(Manifest),
    /// Schema version 2, a single platform.
    V2(ManifestV2),
    /// Schema version 2, a list of platform manifests.
    V2List(ManifestV2List),
}

/// A manifest of any shape as a value.
pub ghost enum DockerManifestView {
    V1(ManifestView),
    V2(ManifestV2View),
    V2List(ManifestV2ListView),
}

impl View for DockerManifest {
    type V = DockerManifestView;

    open spec fn view(&self) -> DockerManifestView {
        match self {
            DockerManifest::V1(m) => DockerManifestView::V1(m@),
            DockerManifest::V2(m) => DockerManifestView::V2(m@),
            DockerManifest::V2List(m) => DockerManifestView::V2List(m@),
        }
    }
}

impl DeepView for DockerManifest {
    type V = DockerManifestView;

    open spec fn deep_view(&self) -> DockerManifestView {
        self@
    }
}

} // verus!
