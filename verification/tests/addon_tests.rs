use mcdk::addon::{
    addon_manifest_text, create_empty_addon_manifest, pack_config_dependencies,
    pack_config_dependencies_of_text,
    pack_info_from_manifest, pack_type_of_modules, JsonValue, Manifest, ManifestHeader,
    ManifestModule, NeteasePackInfo, PackInfo, PackType,
};
use mcdk::version::Version;

fn module(t: &str) -> ManifestModule {
    ManifestModule { module_type: t.to_string(), uuid: None, version: None }
}

fn info(uuid: &str, version: &str, pack_type: PackType) -> PackInfo {
    PackInfo {
        name: "n".to_string(),
        uuid: uuid.to_string(),
        version: version.to_string(),
        path: String::new(),
        pack_type,
    }
}

#[test]
fn pack_validity() {
    assert!(info("u", "1.0.0", PackType::Behavior).is_valid());
    assert!(info("u", "1", PackType::Resource).is_valid());
    assert!(!info("", "1", PackType::Behavior).is_valid());
    assert!(!info("u", "", PackType::Behavior).is_valid());
    assert!(!info("u", "1", PackType::Unknown).is_valid());
    let n = NeteasePackInfo { base_info: info("u", "1", PackType::Unknown), dependencies: vec![] };
    assert!(!n.is_valid());
    let n = NeteasePackInfo { base_info: info("u", "1", PackType::Resource), dependencies: vec![] };
    assert!(n.is_valid());
    assert_eq!(PackType::default(), PackType::Behavior);
}

#[test]
fn pack_type_from_modules() {
    assert_eq!(pack_type_of_modules(&vec![module("resources"), module("data")]), PackType::Behavior);
    assert_eq!(pack_type_of_modules(&vec![module("client_data"), module("resources")]), PackType::Resource);
    assert_eq!(pack_type_of_modules(&vec![module("script")]), PackType::Unknown);
    assert_eq!(pack_type_of_modules(&vec![]), PackType::Unknown);
}

#[test]
fn pack_info_from_header() {
    let m = Manifest {
        header: ManifestHeader { name: "Pack".to_string(), uuid: "abc".to_string(), version: vec![1, 20, 3] },
        modules: vec![module("resources")],
    };
    let p = pack_info_from_manifest(m);
    assert_eq!(p.name, "Pack");
    assert_eq!(p.uuid, "abc");
    assert_eq!(p.version, "1.20.3");
    assert_eq!(p.path, "");
    assert_eq!(p.pack_type, PackType::Resource);
    assert_eq!(Version::new(&p.version).unwrap().components(), &vec![1, 20, 3]);
}

fn obj(members: Vec<(&str, JsonValue)>) -> JsonValue {
    JsonValue::Object(members.into_iter().map(|(k, v)| (k.to_string(), v)).collect())
}

#[test]
fn dependencies_of_pack_config() {
    let config = obj(vec![
        ("name", JsonValue::Str("x".to_string())),
        (
            "dependencies",
            JsonValue::Array(vec![
                obj(vec![("uuid", JsonValue::Str("a".to_string())), ("version", JsonValue::Number)]),
                obj(vec![("uuid", JsonValue::Number)]),
                JsonValue::Str("uuid".to_string()),
                obj(vec![("other", JsonValue::Null)]),
                obj(vec![("uuid", JsonValue::Str("b".to_string()))]),
            ]),
        ),
    ]);
    assert_eq!(pack_config_dependencies(&config), vec!["a".to_string(), "b".to_string()]);
    let not_array = obj(vec![("dependencies", JsonValue::Bool(true))]);
    assert!(pack_config_dependencies(&not_array).is_empty());
    assert!(pack_config_dependencies(&JsonValue::Array(vec![])).is_empty());
}

#[test]
fn manifest_text_layout() {
    let t = addon_manifest_text("P", "U", &[1, 0, 20], "D", "data", "M");
    assert_eq!(
        t,
        "{\n  \"format_version\": 2,\n  \"header\": {\n    \"name\": \"P\",\n    \"uuid\": \"U\",\n    \"version\": [1, 0, 20],\n    \"description\": \"D\"\n  },\n  \"modules\": [\n    {\n      \"type\": \"data\",\n      \"uuid\": \"M\",\n      \"version\": [1, 0, 20]\n    }\n  ]\n}"
    );
}

#[test]
fn empty_addon_manifests() {
    let (b, r) = create_empty_addon_manifest("My", &[1, 2, 3]);
    assert!(b.contains("\"name\": \"My\""));
    assert!(b.contains("\"type\": \"data\""));
    assert!(b.contains("Behavior pack created by MCDK"));
    assert!(b.contains("\"version\": [1, 2, 3]"));
    assert!(r.contains("\"name\": \"My Resource\""));
    assert!(r.contains("\"type\": \"resources\""));
    let v: serde_json::Value = serde_json::from_str(&r).unwrap();
    assert_eq!(v["header"]["uuid"], v["modules"][0]["uuid"]);
    assert_eq!(v["header"]["uuid"].as_str().unwrap().len(), 36);
    let v: serde_json::Value = serde_json::from_str(&b).unwrap();
    assert_eq!(v["modules"][0]["uuid"].as_str().unwrap().len(), 32);
    assert_ne!(v["header"]["uuid"].as_str().unwrap().replace('-', ""), v["modules"][0]["uuid"].as_str().unwrap());
}

#[test]
fn empty_name_gets_generated_pack_name() {
    let (b, r) = create_empty_addon_manifest("", &[0, 0, 1]);
    let v: serde_json::Value = serde_json::from_str(&b).unwrap();
    let name = v["header"]["name"].as_str().unwrap();
    assert!(name.ends_with(" Pack"));
    assert_eq!(name.len(), 32 + 5);
    let v: serde_json::Value = serde_json::from_str(&r).unwrap();
    assert_eq!(v["header"]["name"].as_str().unwrap(), " Resource");
}

#[test]
fn dependencies_of_pack_config_text() {
    let text = r#"{"dependencies": [{"uuid": "a", "version": [1, 0, 0]}, {"uuid": 3}, "x", {"uuid": "b"}], "name": "n"}"#;
    assert_eq!(pack_config_dependencies_of_text(text), vec!["a".to_string(), "b".to_string()]);
    assert!(pack_config_dependencies_of_text("{\"dependencies\": {}}").is_empty());
    assert!(pack_config_dependencies_of_text("[1, 2]").is_empty());
    assert!(pack_config_dependencies_of_text("not json").is_empty());
    assert!(pack_config_dependencies_of_text("").is_empty());
}

fn manifest_of_text(text: &str) -> Manifest {
    let v: serde_json::Value = serde_json::from_str(text).unwrap();
    let version = |x: &serde_json::Value| -> Vec<u32> {
        x.as_array().unwrap().iter().map(|n| n.as_u64().unwrap() as u32).collect()
    };
    Manifest {
        header: ManifestHeader {
            name: v["header"]["name"].as_str().unwrap().to_string(),
            uuid: v["header"]["uuid"].as_str().unwrap().to_string(),
            version: version(&v["header"]["version"]),
        },
        modules: v["modules"]
            .as_array()
            .unwrap()
            .iter()
            .map(|m| ManifestModule {
                module_type: m["type"].as_str().unwrap().to_string(),
                uuid: m["uuid"].as_str().map(|s| s.to_string()),
                version: Some(version(&m["version"])),
            })
            .collect(),
    }
}

#[test]
fn new_manifests_describe_valid_packs() {
    let (b, r) = create_empty_addon_manifest("Demo", &[2, 1, 0]);
    let pb = pack_info_from_manifest(manifest_of_text(&b));
    assert_eq!(pb.name, "Demo");
    assert_eq!(pb.version, "2.1.0");
    assert_eq!(pb.pack_type, PackType::Behavior);
    assert!(pb.is_valid());
    let pr = pack_info_from_manifest(manifest_of_text(&r));
    assert_eq!(pr.name, "Demo Resource");
    assert_eq!(pr.pack_type, PackType::Resource);
    assert!(pr.is_valid());
}
