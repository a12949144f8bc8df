//! Behavior and resource packs: what their manifests say and how new ones look.

use vstd::prelude::*;
use crate::text::{decimal_string, decimal_text, str_equal};
use crate::utils::{create_compact_uuid, create_random_uuid, is_compact_uuid_text, is_random_uuid_text};
use crate::version::version_text;

verus! {

/// The kind of content a pack holds.
#[derive(Clone, Copy, Debug, PartialEq, Eq, Structural)]
pub enum PackType {
    Behavior,
    Resource,
    Unknown,
}

impl Default for PackType {
    fn default() -> (r: Self)
        ensures
            r == PackType::Behavior,
    {
        PackType::Behavior
    }
}

/// What a pack's manifest says about it, and where the pack lies.
#[derive(Clone, Debug)]
pub struct PackInfo {
    pub name: String,
    pub uuid: String,
    pub version: String,
    pub path: String,
    pub pack_type: PackType,
}

/// A pack is usable when it has an identifier, a version and a known kind.
pub open spec fn pack_info_valid(info: PackInfo) -> bool {
    &&& info.uuid@.len() > 0
    &&& info.version@.len() > 0
    &&& info.pack_type != PackType::Unknown
}

impl PackInfo {
    /// Whether the pack has an identifier, a version and a known kind.
    pub fn is_valid(&self) -> (r: bool)
        ensures
            r == pack_info_valid(*self),
    {
        !self.uuid.as_str().is_empty() && !self.version.as_str().is_empty() && self.pack_type
            != PackType::Unknown
    }
}

/// A pack together with the identifiers of the packs it depends on.
#[derive(Clone, Debug)]
pub struct NeteasePackInfo {
    pub base_info: PackInfo,
    pub dependencies: Vec<String>,
}

impl NeteasePackInfo {
    /// Whether the underlying pack is usable.
    pub fn is_valid(&self) -> (r: bool)
        ensures
            r == pack_info_valid(self.base_info),
    {
        self.base_info.is_valid()
    }
}

/// The `header` section of a pack manifest.
#[derive(Clone, Debug)]
pub struct ManifestHeader {
    pub name: String,
    pub uuid: String,
    pub version: Vec<u32>,
}

/// One entry of the `modules` section of a pack manifest.
#[derive(Clone, Debug)]
pub struct ManifestModule {
    pub module_type: String,
    pub uuid: Option<String>,
    pub version: Option<Vec<u32>>,
}

/// The manifest of a pack: its header and its modules.
#[derive(Clone, Debug)]
pub struct Manifest {
    pub header: ManifestHeader,
    pub modules: Vec<ManifestModule>,
}

/// Whether some module of `modules` has the type `t`.
pub open spec fn has_module_type(modules: Seq<ManifestModule>, t: Seq<char>) -> bool {
    exists|i: int| 0 <= i < modules.len() && #[trigger] modules[i].module_type@ == t
}

/// A pack with a `data` module holds behavior; otherwise one with a `resources`
/// module holds resources; otherwise its kind is unknown.
pub open spec fn pack_type_of(modules: Seq<ManifestModule>) -> PackType {
    if has_module_type(modules, "data"@) {
        PackType::Behavior
    } else if has_module_type(modules, "resources"@) {
        PackType::Resource
    } else {
        PackType::Unknown
    }
}

/// Whether some module of `modules` has the type `t`.
fn any_module_of_type(modules: &Vec<ManifestModule>, t: &str) -> (r: bool)
    ensures
        r == has_module_type(modules@, t@),
{
    let mut i: usize = 0;
    while i < modules.len()
        invariant
            i <= modules@.len(),
            forall|j: int| 0 <= j < i ==> modules@[j].module_type@ != t@,
        decreases modules@.len() - i,
    {
        if str_equal(modules[i].module_type.as_str(), t) {
            return true;
        }
        i = i + 1;
    }
    false
}

/// The kind of a pack with these modules.
pub fn pack_type_of_modules(modules: &Vec<ManifestModule>) -> (r: PackType)
    ensures
        r == pack_type_of(modules@),
{
    if any_module_of_type(modules, "data") {
        PackType::Behavior
    } else if any_module_of_type(modules, "resources") {
        PackType::Resource
    } else {
        PackType::Unknown
    }
}

/// The pack that a manifest describes: its name and identifier from the header,
/// the header's version written as `a.b.c`, its kind from the modules, and an
/// empty path.
pub fn pack_info_from_manifest(manifest: Manifest) -> (r: PackInfo)
    ensures
        r.name@ == manifest.header.name@,
        r.uuid@ == manifest.header.uuid@,
        r.version@ == version_text(manifest.header.version@),
        r.path@.len() == 0,
        r.pack_type == pack_type_of(manifest.modules@),
{
    let pack_type = pack_type_of_modules(&manifest.modules);
    let v = crate::version::Version::from_components(manifest.header.version);
    let version = v.to_string();
    PackInfo {
        name: manifest.header.name,
        uuid: manifest.header.uuid,
        version,
        path: String::new(),
        pack_type,
    }
}

/// Law: the version of a pack read from a manifest reads back, with
/// `Version::new`, as the manifest's version numbers (when there are any).
pub proof fn law_manifest_version_reads_back(header_version: Seq<u32>)
    requires
        header_version.len() > 0,
    ensures
        crate::version::parse_version_text(version_text(header_version)) == Some(header_version),
{
    crate::version::law_version_text_roundtrip(header_version);
}

/// Law: the header and modules that a new manifest carries make a valid pack:
/// a random identifier is not empty, three version numbers give a non-empty
/// version, and a `data` module (or, without one, a `resources` module) gives a
/// known kind.
pub proof fn law_new_manifest_fields_make_valid_pack(
    uuid: Seq<char>,
    version: Seq<u32>,
    modules: Seq<ManifestModule>,
)
    requires
        is_random_uuid_text(uuid),
        version.len() == 3,
        has_module_type(modules, "data"@) || has_module_type(modules, "resources"@),
    ensures
        uuid.len() > 0,
        version_text(version).len() > 0,
        pack_type_of(modules) != PackType::Unknown,
        has_module_type(modules, "data"@) ==> pack_type_of(modules) == PackType::Behavior,
{
    let b = choose|b: Seq<u8>| crate::utils::is_v4_uuid_bytes(b) && uuid == crate::utils::hyphenated_uuid_text(b);
    assert(uuid.len() == 36);
    assert(version_text(version) == version_text(version.drop_last()).push('.') + decimal_text(version.last() as nat));
}

/// A JSON value, as far as pack configuration files are read: numbers are only
/// told apart from other values, and object members keep their order.
pub enum JsonValue {
    Null,
    Bool(bool),
    Number,
    Str(String),
    Array(Vec<JsonValue>),
    Object(Vec<(String, JsonValue)>),
}

/// The value of the first member named `key` among `members`.
pub open spec fn member_value(members: Seq<(String, JsonValue)>, key: Seq<char>) -> Option<JsonValue>
    decreases members.len(),
{
    if members.len() == 0 {
        None
    } else if members[0].0@ == key {
        Some(members[0].1)
    } else {
        member_value(members.drop_first(), key)
    }
}

/// The member `key` of `v` when `v` is an object that has one (`Value::get`).
pub open spec fn json_member(v: JsonValue, key: Seq<char>) -> Option<JsonValue> {
    match v {
        JsonValue::Object(members) => member_value(members@, key),
        _ => None,
    }
}

/// The `uuid` strings of the entries, in order; entries without one are skipped.
pub open spec fn dependency_uuids(entries: Seq<JsonValue>) -> Seq<Seq<char>>
    decreases entries.len(),
{
    if entries.len() == 0 {
        Seq::<Seq<char>>::empty()
    } else {
        let r = dependency_uuids(entries.drop_last());
        match json_member(entries.last(), "uuid"@) {
            Some(JsonValue::Str(s)) => r.push(s@),
            _ => r,
        }
    }
}

/// The dependencies that a pack configuration (`pack_config.json`) names: the
/// `uuid` strings of the entries of its `dependencies` array.
pub open spec fn pack_config_dependency_uuids(config: JsonValue) -> Seq<Seq<char>> {
    match json_member(config, "dependencies"@) {
        Some(JsonValue::Array(entries)) => dependency_uuids(entries@),
        _ => Seq::<Seq<char>>::empty(),
    }
}

/// The member `key` of `v` when `v` is an object that has one.
pub fn json_get<'a>(v: &'a JsonValue, key: &str) -> (r: Option<&'a JsonValue>)
    ensures
        match r {
            Some(x) => json_member(*v, key@) == Some(*x),
            None => json_member(*v, key@) is None,
        },
{
    match v {
        JsonValue::Object(members) => {
            let mut i: usize = 0;
            assert(members@.skip(0) =~= members@);
            while i < members.len()
                invariant
                    i <= members@.len(),
                    json_member(*v, key@) == member_value(members@, key@),
                    member_value(members@, key@) == member_value(members@.skip(i as int), key@),
                decreases members@.len() - i,
            {
                assert(members@.skip(i as int).drop_first() =~= members@.skip(i + 1));
                assert(members@.skip(i as int)[0] == members@[i as int]);
                if str_equal(members[i].0.as_str(), key) {
                    assert(members@[i as int].0@ == key@);
                    assert(member_value(members@.skip(i as int), key@) == Some(members@[i as int].1));
                    return Some(&members[i].1);
                }
                i = i + 1;
            }
            None
        },
        _ => None,
    }
}

/// The dependencies that a pack configuration names, in order.
pub fn pack_config_dependencies(config: &JsonValue) -> (r: Vec<String>)
    ensures
        r@.len() == pack_config_dependency_uuids(*config).len(),
        forall|i: int| 0 <= i < r@.len() ==> #[trigger] r@[i]@ == pack_config_dependency_uuids(*config)[i],
{
    let mut r: Vec<String> = Vec::new();
    match json_get(config, "dependencies") {
        Some(JsonValue::Array(entries)) => {
            let mut i: usize = 0;
            proof {
                assert(entries@.take(0) =~= Seq::<JsonValue>::empty());
            }
            while i < entries.len()
                invariant
                    i <= entries@.len(),
                    r@.len() == dependency_uuids(entries@.take(i as int)).len(),
                    forall|j: int| 0 <= j < r@.len() ==> #[trigger] r@[j]@ == dependency_uuids(entries@.take(i as int))[j],
                decreases entries@.len() - i,
            {
                assert(entries@.take(i + 1).drop_last() =~= entries@.take(i as int));
                assert(entries@.take(i + 1).last() == entries@[i as int]);
                match json_get(&entries[i], "uuid") {
                    Some(JsonValue::Str(s)) => r.push(s.clone()),
                    _ => {},
                }
                i = i + 1;
            }
            assert(entries@.take(entries@.len() as int) =~= entries@);
        },
        _ => {},
    }
    r
}

#[verifier::external_type_specification]
#[verifier::external_body]
pub struct ExSerdeJsonValue(serde_json::Value);

/// The JSON value that `serde_json` reads from `text`, or `None` when the text
/// is not JSON.
pub uninterp spec fn json_of_text(text: Seq<char>) -> Option<JsonValue>;

/// Turns a `serde_json::Value` into a `JsonValue`, variant for variant: numbers
/// keep only their kind, and object members come in the map's (sorted) order.
#[verifier::external_body]
fn json_value_from(v: serde_json::Value) -> JsonValue {
    match v {
        serde_json::Value::Null => JsonValue::Null,
        serde_json::Value::Bool(b) => JsonValue::Bool(b),
        serde_json::Value::Number(_) => JsonValue::Number,
        serde_json::Value::String(s) => JsonValue::Str(s),
        serde_json::Value::Array(a) => JsonValue::Array(a.into_iter().map(json_value_from).collect()),
        serde_json::Value::Object(m) => JsonValue::Object(
            m.into_iter().map(|(k, x)| (k, json_value_from(x))).collect(),
        ),
    }
}

/// Reads `text` with `serde_json::from_str::<serde_json::Value>`, giving `None`
/// when that fails. The result is named, not described: it depends on the text
/// alone (without `preserve_order`, object members come out sorted by key).
#[verifier::external_body]
fn parse_json_text(text: &str) -> (r: Option<JsonValue>)
    ensures
        r == json_of_text(text@),
{
    serde_json::from_str::<serde_json::Value>(text).ok().map(json_value_from)
}

/// The dependencies that the text of a pack configuration (`pack_config.json`)
/// names, in order; none when the text is not JSON.
pub fn pack_config_dependencies_of_text(text: &str) -> (r: Vec<String>)
    ensures
        match json_of_text(text@) {
            Some(v) => {
                &&& r@.len() == pack_config_dependency_uuids(v).len()
                &&& forall|i: int|
                    0 <= i < r@.len() ==> #[trigger] r@[i]@ == pack_config_dependency_uuids(v)[i]
            },
            None => r@.len() == 0,
        },
{
    match parse_json_text(text) {
        Some(v) => pack_config_dependencies(&v),
        None => Vec::new(),
    }
}

/// Three version numbers written as `a, b, c`.
pub open spec fn version_list_text(v: Seq<u32>) -> Seq<char> {
    decimal_text(v[0] as nat) + ", "@ + decimal_text(v[1] as nat) + ", "@ + decimal_text(v[2] as nat)
}

/// The text of a new pack manifest with one module.
pub open spec fn manifest_text(
    name: Seq<char>,
    uuid: Seq<char>,
    version: Seq<u32>,
    description: Seq<char>,
    module_type: Seq<char>,
    module_uuid: Seq<char>,
) -> Seq<char> {
    "{\n  \"format_version\": 2,\n  \"header\": {\n    \"name\": \""@ + name
        + "\",\n    \"uuid\": \""@ + uuid + "\",\n    \"version\": ["@ + version_list_text(version)
        + "],\n    \"description\": \""@ + description
        + "\"\n  },\n  \"modules\": [\n    {\n      \"type\": \""@ + module_type
        + "\",\n      \"uuid\": \""@ + module_uuid + "\",\n      \"version\": ["@
        + version_list_text(version) + "]\n    }\n  ]\n}"@
}

/// Appends `a, b, c` for the three numbers of `version`.
fn append_version_list(out: &mut String, version: &[u32; 3])
    ensures
        final(out)@ == old(out)@ + version_list_text(version@),
{
    let a = decimal_string(version[0]);
    let b = decimal_string(version[1]);
    let c = decimal_string(version[2]);
    out.append(a.as_str());
    out.append(", ");
    out.append(b.as_str());
    out.append(", ");
    out.append(c.as_str());
}

/// The text of a new pack manifest with one module of type `module_type`.
pub fn addon_manifest_text(
    name: &str,
    uuid: &str,
    version: &[u32; 3],
    description: &str,
    module_type: &str,
    module_uuid: &str,
) -> (r: String)
    ensures
        r@ == manifest_text(name@, uuid@, version@, description@, module_type@, module_uuid@),
{
    let mut out = String::new();
    out.append("{\n  \"format_version\": 2,\n  \"header\": {\n    \"name\": \"");
    out.append(name);
    out.append("\",\n    \"uuid\": \"");
    out.append(uuid);
    out.append("\",\n    \"version\": [");
    append_version_list(&mut out, version);
    out.append("],\n    \"description\": \"");
    out.append(description);
    out.append("\"\n  },\n  \"modules\": [\n    {\n      \"type\": \"");
    out.append(module_type);
    out.append("\",\n      \"uuid\": \"");
    out.append(module_uuid);
    out.append("\",\n      \"version\": [");
    append_version_list(&mut out, version);
    out.append("]\n    }\n  ]\n}");
    out
}

/// The name of a new behavior pack: `name`, or, when that is empty, a compact
/// identifier followed by ` Pack`.
pub open spec fn behavior_pack_name(name: Seq<char>, fallback_id: Seq<char>) -> Seq<char> {
    if name.len() == 0 {
        fallback_id + " Pack"@
    } else {
        name
    }
}

/// Manifests for a new behavior pack and a new resource pack, with fresh
/// random identifiers. The behavior pack is called `name` (or `<id> Pack` when
/// `name` is empty) and has a `data` module with its own compact identifier;
/// the resource pack is called `<name> Resource` and its `resources` module
/// shares the pack's identifier.
pub fn create_empty_addon_manifest(name: &str, version: &[u32; 3]) -> (r: (String, String))
    ensures
        exists|pack_id: Seq<char>, fallback_id: Seq<char>, module_id: Seq<char>, resource_id: Seq<char>|
            {
                &&& is_random_uuid_text(pack_id)
                &&& is_compact_uuid_text(fallback_id)
                &&& is_compact_uuid_text(module_id)
                &&& is_random_uuid_text(resource_id)
                &&& r.0@ == manifest_text(
                    behavior_pack_name(name@, fallback_id),
                    pack_id,
                    version@,
                    "Behavior pack created by MCDK"@,
                    "data"@,
                    module_id,
                )
                &&& r.1@ == manifest_text(
                    name@ + " Resource"@,
                    resource_id,
                    version@,
                    "Resource pack created by MCDK"@,
                    "resources"@,
                    resource_id,
                )
            },
{
    let pack_id = create_random_uuid();
    let fallback_id = create_compact_uuid();
    let pack_name = if name.is_empty() {
        let mut n = fallback_id.clone();
        n.append(" Pack");
        n
    } else {
        name.to_owned()
    };
    let module_id = create_compact_uuid();
    let behavior = addon_manifest_text(
        pack_name.as_str(),
        pack_id.as_str(),
        version,
        "Behavior pack created by MCDK",
        "data",
        module_id.as_str(),
    );
    let resource_id = create_random_uuid();
    let mut resource_name = name.to_owned();
    resource_name.append(" Resource");
    let resource = addon_manifest_text(
        resource_name.as_str(),
        resource_id.as_str(),
        version,
        "Resource pack created by MCDK",
        "resources",
        resource_id.as_str(),
    );
    assert(pack_name@ == behavior_pack_name(name@, fallback_id@));
    assert(is_random_uuid_text(pack_id@) && is_compact_uuid_text(fallback_id@)
        && is_compact_uuid_text(module_id@) && is_random_uuid_text(resource_id@));
    (behavior, resource)
}

/// Law: a pack's kind follows from the types of all its modules, wherever they
/// stand: a `data` module at any position makes a behavior pack; with no `data`
/// module, a `resources` module at any position makes a resource pack; with
/// neither, the kind is unknown.
pub proof fn law_pack_type_from_any_module(modules: Seq<ManifestModule>)
    ensures
        forall|i: int|
            0 <= i < modules.len() && #[trigger] modules[i].module_type@ == "data"@
                ==> pack_type_of(modules) == PackType::Behavior,
        (forall|i: int| 0 <= i < modules.len() ==> #[trigger] modules[i].module_type@ != "data"@)
            ==> forall|i: int|
            0 <= i < modules.len() && #[trigger] modules[i].module_type@ == "resources"@
                ==> pack_type_of(modules) == PackType::Resource,
        (forall|i: int|
            0 <= i < modules.len() ==> #[trigger] modules[i].module_type@ != "data"@
                && modules[i].module_type@ != "resources"@) ==> pack_type_of(modules)
            == PackType::Unknown,
{
}

/// Law: the dependencies of a list of entries are those of its first part
/// followed by those of the rest.
pub proof fn law_dependency_uuids_concat(a: Seq<JsonValue>, b: Seq<JsonValue>)
    ensures
        dependency_uuids(a + b) == dependency_uuids(a) + dependency_uuids(b),
    decreases b.len(),
{
    if b.len() == 0 {
        assert(a + b =~= a);
        assert(dependency_uuids(a) + dependency_uuids(b) =~= dependency_uuids(a));
    } else {
        let b0 = b.drop_last();
        law_dependency_uuids_concat(a, b0);
        assert((a + b).drop_last() =~= a + b0);
        assert((a + b).last() == b.last());
        match json_member(b.last(), "uuid"@) {
            Some(JsonValue::Str(s)) => {
                assert(dependency_uuids(a) + dependency_uuids(b0).push(s@) =~= (dependency_uuids(a)
                    + dependency_uuids(b0)).push(s@));
            },
            _ => {},
        }
    }
}

/// Law: a single entry contributes its `uuid` string when it has one, and
/// nothing otherwise.
pub proof fn law_dependency_uuids_single(e: JsonValue)
    ensures
        dependency_uuids(seq![e]) == match json_member(e, "uuid"@) {
            Some(JsonValue::Str(s)) => seq![s@],
            _ => Seq::<Seq<char>>::empty(),
        },
{
    assert(seq![e].drop_last() =~= Seq::<JsonValue>::empty());
    assert(seq![e].last() == e);
    assert(dependency_uuids(Seq::<JsonValue>::empty()) =~= Seq::<Seq<char>>::empty());
    match json_member(e, "uuid"@) {
        Some(JsonValue::Str(s)) => {
            assert(Seq::<Seq<char>>::empty().push(s@) =~= seq![s@]);
        },
        _ => {},
    }
}

/// Law: adding an entry with a `uuid` string adds exactly that string at the
/// end, whatever the number of entries before it; adding one without leaves the
/// dependencies as they were.
pub proof fn law_dependency_uuids_push(entries: Seq<JsonValue>, e: JsonValue)
    ensures
        dependency_uuids(entries.push(e)) == match json_member(e, "uuid"@) {
            Some(JsonValue::Str(s)) => dependency_uuids(entries).push(s@),
            _ => dependency_uuids(entries),
        },
{
    assert(entries.push(e) =~= entries + seq![e]);
    law_dependency_uuids_concat(entries, seq![e]);
    law_dependency_uuids_single(e);
    match json_member(e, "uuid"@) {
        Some(JsonValue::Str(s)) => {
            assert(dependency_uuids(entries) + seq![s@] =~= dependency_uuids(entries).push(s@));
        },
        _ => {
            assert(dependency_uuids(entries) + Seq::<Seq<char>>::empty() =~= dependency_uuids(entries));
        },
    }
}

} // verus!
