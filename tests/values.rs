use usd_ar::plugin::info::{default_includes, default_plugins};
use usd_ar::plugin::registration_metadata::{append_to_root_path, default_path};
use usd_ar::{
    AssetError, Plugin, PluginInfo, PluginType, PluginVariants, RegistrationMetadata, ResolvedPath,
    ResolverError, WritableAssetError,
};

fn metadata(root: &str, library: &str, resources: &str) -> RegistrationMetadata {
    RegistrationMetadata {
        plugin_type: PluginType::Library,
        name: "MyPlugin".to_string(),
        plugin_path: root.to_string(),
        library_path: library.to_string(),
        resource_path: resources.to_string(),
        info: serde_json::Value::Null,
    }
}

#[test]
fn resolved_path_holds_its_text() {
    let p = ResolvedPath::new("/a/b.usd");
    assert_eq!(p.get_path_string(), "/a/b.usd");
    assert!(!p.is_empty());
    assert!(ResolvedPath::new("").is_empty());
    assert!(ResolvedPath::default().is_empty());
    assert!(p == ResolvedPath::new("/a/b.usd"));
    assert!(p != ResolvedPath::new("/a/c.usd"));
}

#[test]
fn error_messages() {
    assert_eq!(
        AssetError::ReadError("gone".to_string()).to_string(),
        "failed to read asset: gone"
    );
    assert_eq!(
        WritableAssetError::CloseFailed("busy".to_string()).to_string(),
        "failed to close asset: busy"
    );
    assert_eq!(
        WritableAssetError::WriteFailed("full".to_string()).to_string(),
        "failed to save changes to asset: full"
    );
    assert_eq!(
        ResolverError::OpenAssetError("x".to_string()).to_string(),
        "failed to open asset: x"
    );
    assert_eq!(
        ResolverError::AssetMtimeError.to_string(),
        "failed to get asset's modified time"
    );
    assert_eq!(
        ResolverError::CannotWriteLayerToPath("/p".to_string(), "locked".to_string()).to_string(),
        "cannot write layer to path `/p`: locked"
    );
    assert_eq!(
        ResolverError::CannotCreateNewLayerWithIdentifier("id".to_string(), "taken".to_string())
            .to_string(),
        "cannot create new layer with identifier `id`: taken"
    );
}

#[test]
fn root_path_joins() {
    assert_eq!(append_to_root_path("/foo", "lib"), "/foo/lib");
    assert_eq!(append_to_root_path("/root", "."), "/root/.");
    assert_eq!(append_to_root_path("/foo", "/abs/lib"), "/abs/lib");
    assert_eq!(append_to_root_path("/foo", ""), "/foo");
    assert_eq!(append_to_root_path("/foo/", "lib"), "/foo/lib");
    assert_eq!(append_to_root_path("", "lib"), "lib");
}

#[test]
fn metadata_paths() {
    let m = metadata("/foo", "lib", "resources");
    assert_eq!(m.library_path(), "/foo/lib");
    assert_eq!(m.resource_path(), "/foo/resources");
    let d = metadata("/root", "lib", &default_path());
    assert_eq!(d.resource_path(), "/root/.");
}

#[test]
fn defaults() {
    assert_eq!(default_path(), ".");
    assert!(default_includes().is_empty());
    assert!(default_plugins().is_empty());
}

#[test]
fn plugin_info_from_variants() {
    let single = PluginInfo::from_variants(PluginVariants::Single(metadata("/foo", "lib", ".")));
    assert_eq!(single.includes.len(), 0);
    assert_eq!(single.plugins.len(), 1);
    assert_eq!(single.plugins[0].name, "MyPlugin");
    let multi = PluginInfo::from_variants(PluginVariants::Multi(PluginInfo {
        plugins: vec![metadata("/a", "l", "r"), metadata("/b", "l", "r")],
        includes: vec!["x.json".to_string()],
    }));
    assert_eq!(multi.includes.len(), 1);
    assert_eq!(multi.plugins.len(), 2);
}

#[test]
fn plugin_record() {
    let p = Plugin::new("/p", "Name", "/p/res", serde_json::Value::Null, PluginType::Resource);
    assert_eq!(p.get_name(), "Name");
    assert_eq!(p.get_path(), "/p");
    assert_eq!(p.get_resource_path(), "/p/res");
    assert!(p.is_resource());
    let q = Plugin::new("/q", "Q", "/q", serde_json::Value::Null, PluginType::Library);
    assert!(!q.is_resource());
}
