use std::io::Write;

use mcman::accessor::{Accessor, AccessorError, AccessorKind, Document, Listing};
use mcman::addon::{Addon, AddonListFile, AddonTarget, AddonType, Environment};
use mcman::cache::{CacheError, CacheStrategy, ResolvedFile, StringMap};
use mcman::modrinth::{IdLookup, ModrinthAPI, ModrinthError, ModrinthFile, ModrinthVersion};
use mcman::step::{
    verify_download, Action, CacheLocation, Event, Executor, FetchReport, FileMeta, Phase, Step,
    StepError,
};

fn s(x: &str) -> String {
    x.to_owned()
}

fn modrinth(id: &str) -> AddonType {
    AddonType::Modrinth { id: s(id), version: s("latest") }
}

fn type_id(t: &AddonType) -> String {
    match t {
        AddonType::Modrinth { id, .. } => id.clone(),
        AddonType::Url { url, .. } => url.clone(),
        _ => String::new(),
    }
}

fn file(name: &str, primary: bool) -> ModrinthFile {
    ModrinthFile {
        url: format!("https://cdn.example/{name}"),
        filename: s(name),
        primary,
        size: 10,
        hashes: vec![(s("sha1"), s("abc"))],
    }
}

fn version(id: &str, name: &str, number: &str, files: Vec<ModrinthFile>) -> ModrinthVersion {
    ModrinthVersion { id: s(id), name: s(name), version_number: s(number), files }
}

fn api(token: Option<&str>) -> ModrinthAPI {
    ModrinthAPI { base_url: s("https://api.modrinth.com/v2"), token: token.map(s) }
}

#[test]
fn flatten_keeps_order_and_tags_legacy_entries() {
    let list = AddonListFile {
        addons: vec![Addon {
            environment: Some(Environment::Server),
            addon_type: modrinth("a"),
            target: AddonTarget::Plugins,
        }],
        mods: vec![modrinth("m1"), modrinth("m2")],
        plugins: vec![modrinth("p1")],
    };
    let flat = list.flatten();
    let ids: Vec<String> = flat.iter().map(|a| type_id(&a.addon_type)).collect();
    assert_eq!(ids, vec![s("a"), s("m1"), s("m2"), s("p1")]);
    assert_eq!(flat[0].environment, Some(Environment::Server));
    assert_eq!(flat[1].target, AddonTarget::Mods);
    assert_eq!(flat[2].environment, None);
    assert_eq!(flat[3].target, AddonTarget::Plugins);
}

#[test]
fn flatten_twice_is_a_no_op() {
    let list = AddonListFile {
        addons: vec![],
        mods: vec![modrinth("m1")],
        plugins: vec![AddonType::Url { url: s("https://x/p.jar"), filename: None }],
    };
    let once = list.flatten();
    let again = AddonListFile { addons: once.clone(), mods: vec![], plugins: vec![] }.flatten();
    assert_eq!(once.len(), again.len());
    for (a, b) in once.iter().zip(again.iter()) {
        assert_eq!(type_id(&a.addon_type), type_id(&b.addon_type));
        assert_eq!(a.target, b.target);
        assert_eq!(a.environment, b.environment);
    }
}

#[test]
fn flatten_of_empty_list_is_empty() {
    let list = AddonListFile { addons: vec![], mods: vec![], plugins: vec![] };
    assert!(list.flatten().is_empty());
}

fn meta_with_hash(digest: &str) -> FileMeta {
    FileMeta {
        filename: s("a.jar"),
        cache: Some(CacheLocation(s("modrinth"), s("p/v/a.jar"))),
        size: Some(3),
        hashes: vec![(s("sha1"), s(digest))],
    }
}

fn install_steps() -> Vec<Step> {
    vec![
        Step::CacheCheck(meta_with_hash("abc")),
        Step::Download { url: s("https://cdn.example/a.jar"), metadata: meta_with_hash("abc") },
    ]
}

#[test]
fn cache_hit_never_asks_for_download() {
    let steps = install_steps();
    let mut ex = Executor::new(&steps);
    assert_eq!(ex.next_action(&steps), Action::CheckCache(0));
    ex.advance(&steps, Event::CacheAnswer(true));
    assert_eq!(ex.phase, Phase::Satisfied);
    assert!(ex.is_done());
    assert_eq!(ex.next_action(&steps), Action::Stop);
    ex.advance(&steps, Event::Committed);
    assert_eq!(ex.phase, Phase::Satisfied);
}

#[test]
fn cache_miss_downloads_verifies_and_installs() {
    let steps = install_steps();
    let mut ex = Executor::new(&steps);
    ex.advance(&steps, Event::CacheAnswer(false));
    assert_eq!(ex.next_action(&steps), Action::Fetch(1));
    ex.advance(
        &steps,
        Event::Fetched(FetchReport { size: 3, digests: vec![(s("sha1"), s("abc"))] }),
    );
    assert_eq!(ex.next_action(&steps), Action::Commit(1));
    ex.advance(&steps, Event::Committed);
    assert_eq!(ex.phase, Phase::Installed);
    assert_eq!(ex.next_action(&steps), Action::Stop);
}

#[test]
fn hash_mismatch_fails_without_commit() {
    let steps = install_steps();
    let mut ex = Executor::new(&steps);
    ex.advance(&steps, Event::CacheAnswer(false));
    ex.advance(
        &steps,
        Event::Fetched(FetchReport { size: 3, digests: vec![(s("sha1"), s("def"))] }),
    );
    assert_eq!(ex.phase, Phase::Failed(StepError::IntegrityMismatch));
    assert_eq!(ex.next_action(&steps), Action::Stop);
    ex.advance(&steps, Event::Committed);
    assert_eq!(ex.phase, Phase::Failed(StepError::IntegrityMismatch));
}

#[test]
fn size_mismatch_fails_verification() {
    let meta = meta_with_hash("abc");
    let report = FetchReport { size: 4, digests: vec![(s("sha1"), s("abc"))] };
    assert!(!verify_download(&meta, &report));
    let missing = FetchReport { size: 3, digests: vec![] };
    assert!(!verify_download(&meta, &missing));
    let good = FetchReport { size: 3, digests: vec![(s("sha512"), s("x")), (s("sha1"), s("abc"))] };
    assert!(verify_download(&meta, &good));
}

#[test]
fn transport_error_fails_the_pipeline() {
    let steps = install_steps();
    let mut ex = Executor::new(&steps);
    ex.advance(&steps, Event::CacheAnswer(false));
    ex.advance(&steps, Event::Error(StepError::Transport));
    assert_eq!(ex.phase, Phase::Failed(StepError::Transport));
}

#[test]
fn removal_and_empty_pipelines() {
    let steps = vec![Step::RemoveFile(FileMeta::filename(s("a.jar")))];
    let mut ex = Executor::new(&steps);
    assert_eq!(ex.next_action(&steps), Action::Remove(0));
    ex.advance(&steps, Event::Removed);
    assert_eq!(ex.phase, Phase::Removed);
    let none: Vec<Step> = vec![];
    let ex = Executor::new(&none);
    assert_eq!(ex.phase, Phase::Finished);
    let only_check = vec![Step::CacheCheck(meta_with_hash("abc"))];
    let mut ex = Executor::new(&only_check);
    ex.advance(&only_check, Event::CacheAnswer(false));
    assert_eq!(ex.phase, Phase::Finished);
    assert_eq!(ex.position, 1);
}

#[test]
fn version_selection_takes_first_listed_match() {
    let versions = vec![
        version("v1", "Release 1", "1.0", vec![file("one.jar", true)]),
        version("v2", "1.0", "v2", vec![file("two.jar", true)]),
    ];
    let v = api(None).fetch_version(versions, "p", "1.0").unwrap();
    assert_eq!(v.id, "v1");
}

#[test]
fn version_selection_by_id_name_and_number() {
    let all = || {
        vec![
            version("aa", "Alpha", "0.1", vec![]),
            version("bb", "Beta", "0.2", vec![]),
        ]
    };
    assert_eq!(api(None).fetch_version(all(), "p", "bb").unwrap().id, "bb");
    assert_eq!(api(None).fetch_version(all(), "p", "Alpha").unwrap().id, "aa");
    assert_eq!(api(None).fetch_version(all(), "p", "0.2").unwrap().id, "bb");
}

#[test]
fn missing_version_names_project_and_selector() {
    let versions = vec![version("v1", "Release 1", "1.0", vec![file("a.jar", true)])];
    match api(None).fetch_version(versions, "proj", "9.9") {
        Err(ModrinthError::VersionNotFound { project, version }) => {
            assert_eq!(project, "proj");
            assert_eq!(version, "9.9");
        },
        other => panic!("unexpected {:?}", other),
    }
}

#[test]
fn primary_file_fallback_picks_first() {
    let versions = vec![version("v1", "R", "1", vec![file("a.jar", false), file("b.jar", false)])];
    let (f, v) = api(None).fetch_file(versions, "p", "v1").unwrap();
    assert_eq!(f.filename, "a.jar");
    assert_eq!(v.id, "v1");
}

#[test]
fn primary_file_is_preferred() {
    let versions = vec![version("v1", "R", "1", vec![file("a.jar", false), file("b.jar", true)])];
    let (f, _) = api(None).fetch_file(versions, "p", "v1").unwrap();
    assert_eq!(f.filename, "b.jar");
}

#[test]
fn empty_file_list_is_an_error() {
    let versions = vec![version("v1", "R", "1", vec![])];
    match api(None).fetch_file(versions, "p", "v1") {
        Err(ModrinthError::NoFile { project, version_id, version_name }) => {
            assert_eq!(project, "p");
            assert_eq!(version_id, "v1");
            assert_eq!(version_name, "R");
        },
        other => panic!("unexpected {:?}", other),
    }
}

#[test]
fn resolve_steps_checks_cache_then_downloads() {
    let versions = vec![version("v1", "R", "1", vec![file("a.jar", true)])];
    let steps = api(None).resolve_steps(versions, "AABB", "v1").unwrap();
    assert_eq!(steps.len(), 2);
    match (&steps[0], &steps[1]) {
        (Step::CacheCheck(m), Step::Download { url, metadata }) => {
            assert_eq!(m.filename, "a.jar");
            let loc = m.cache.as_ref().unwrap();
            assert_eq!(loc.0, "modrinth");
            assert_eq!(loc.1, "AABB/v1/a.jar");
            assert_eq!(m.size, Some(10));
            assert_eq!(m.hashes, vec![(s("sha1"), s("abc"))]);
            assert_eq!(url, "https://cdn.example/a.jar");
            assert_eq!(metadata.cache.as_ref().unwrap().1, "AABB/v1/a.jar");
        },
        _ => panic!("unexpected steps"),
    }
}

#[test]
fn remove_steps_are_one_removal_by_name() {
    let versions = vec![version("v1", "R", "1", vec![file("a.jar", false), file("b.jar", false)])];
    let steps = api(None).resolve_remove_steps(versions, "AABB", "1").unwrap();
    assert_eq!(steps.len(), 1);
    match &steps[0] {
        Step::RemoveFile(m) => {
            assert_eq!(m.filename, "a.jar");
            assert!(m.cache.is_none());
            assert!(m.hashes.is_empty());
        },
        _ => panic!("unexpected step"),
    }
}

#[test]
fn api_requests_carry_paths_and_token() {
    let a = api(Some("secret-token"));
    let req = a.fetch_project("sodium").unwrap();
    assert_eq!(req.url, "https://api.modrinth.com/v2/project/sodium");
    assert_eq!(req.authorization.as_deref(), Some("secret-token"));
    let req = api(None).fetch_all_versions("sodium").unwrap();
    assert_eq!(req.url, "https://api.modrinth.com/v2/project/sodium/version");
    assert!(req.authorization.is_none());
    let req = api(None).fetch_versions("x").unwrap();
    assert_eq!(req.url, "https://api.modrinth.com/v2/project/x/version");
    let req = api(None).fetch_check("x").unwrap();
    assert_eq!(req.url, "https://api.modrinth.com/v2/project/x/check");
}

#[test]
fn invalid_token_is_rejected() {
    assert!(matches!(api(Some("bad\ntoken")).fetch_project("x"), Err(ModrinthError::InvalidToken)));
    assert!(api(Some("tab\tand ünïcode")).fetch_project("x").is_ok());
}

#[test]
fn hash_lookup_query_depends_on_algorithm() {
    let a = api(None);
    assert_eq!(a.version_from_hash("ff", "").unwrap().url, "https://api.modrinth.com/v2/version_file/ff");
    assert_eq!(a.version_from_hash("ff", "sha1").unwrap().url, "https://api.modrinth.com/v2/version_file/ff");
    assert_eq!(
        a.version_from_hash("ff", "sha512").unwrap().url,
        "https://api.modrinth.com/v2/version_file/ff?algorithm=sha512"
    );
}

#[test]
fn slug_cache_round_trip() {
    let a = api(None);
    match a.get_id(&None, "foo").unwrap() {
        IdLookup::Check(req) => assert_eq!(req.url, "https://api.modrinth.com/v2/project/foo/check"),
        other => panic!("unexpected {:?}", other),
    }
    let stored = a.record_id(None, s("foo"), s("AAAA"));
    let text = stored.to_json();
    assert_eq!(text, "{\"foo\":\"AAAA\"}");
    let reread = StringMap::from_json(&text).unwrap();
    match a.get_id(&Some(reread), "foo").unwrap() {
        IdLookup::Cached(id) => assert_eq!(id, "AAAA"),
        other => panic!("unexpected {:?}", other),
    }
}

#[test]
fn string_map_insert_replaces_and_appends() {
    let mut m = StringMap::new();
    m.insert(s("a"), s("1"));
    m.insert(s("b"), s("2"));
    m.insert(s("a"), s("3"));
    assert_eq!(m.entries, vec![(s("a"), s("3")), (s("b"), s("2"))]);
    assert_eq!(m.get("a"), Some(s("3")));
    assert_eq!(m.get("c"), None);
}

#[test]
fn malformed_document_is_an_error() {
    assert!(matches!(StringMap::from_json("[1, 2]"), Err(CacheError::Malformed)));
    assert!(matches!(StringMap::from_json("{\"a\": 1}"), Err(CacheError::Malformed)));
    let m = StringMap::from_json("{\"b\": \"2\", \"a\": \"1\"}").unwrap();
    assert_eq!(m.entries, vec![(s("a"), s("1")), (s("b"), s("2"))]);
}

#[test]
fn cache_strategies_decide_presence() {
    let file = CacheStrategy::File { namespace: s("modrinth"), path: s("x") };
    assert!(file.is_satisfied(true, &None));
    assert!(!file.is_satisfied(false, &None));
    let idx = CacheStrategy::Indexed { index_path: s("i.json"), key: s("k"), value: s("v") };
    let mut m = StringMap::new();
    m.insert(s("k"), s("v"));
    assert!(idx.is_satisfied(false, &Some(m.clone())));
    let mut other = StringMap::new();
    other.insert(s("k"), s("w"));
    assert!(!idx.is_satisfied(true, &Some(other)));
    assert!(!idx.is_satisfied(true, &None));
    assert!(!CacheStrategy::Never.is_satisfied(true, &Some(m)));
    assert!(matches!(CacheStrategy::default(), CacheStrategy::Never));
}

#[test]
fn resolved_file_projects_to_steps() {
    let rf = ResolvedFile {
        url: s("https://x/a.jar"),
        filename: s("a.jar"),
        cache: CacheStrategy::File { namespace: s("url"), path: s("a.jar") },
        size: None,
        hashes: vec![],
    };
    let steps = rf.to_steps();
    match (&steps[0], &steps[1]) {
        (Step::CacheCheck(m), Step::Download { url, .. }) => {
            let loc = m.cache.as_ref().unwrap();
            assert_eq!((loc.0.as_str(), loc.1.as_str()), ("url", "a.jar"));
            assert_eq!(url, "https://x/a.jar");
        },
        _ => panic!("unexpected steps"),
    }
    let plain = ResolvedFile { cache: CacheStrategy::Never, ..rf };
    assert!(plain.to_meta().cache.is_none());
}

#[test]
fn accessor_classifies_locations() {
    assert_eq!(Accessor::kind("https://example.com/pack"), AccessorKind::Remote);
    assert_eq!(Accessor::kind("http://example.com/pack"), AccessorKind::Remote);
    assert_eq!(Accessor::kind("pack.zip"), AccessorKind::ZipLocal);
    assert_eq!(Accessor::kind("pack.mrpack"), AccessorKind::ZipLocal);
    assert_eq!(Accessor::kind("./server"), AccessorKind::Local);
    assert_eq!(Accessor::kind("zip"), AccessorKind::Local);
}

#[test]
fn accessor_local_and_remote() {
    let mut local = Accessor::from("./server", None).unwrap();
    assert_eq!(local.to_string(), "./server");
    match local.dir().unwrap() {
        Listing::Directory(d) => assert_eq!(d, "./server"),
        _ => panic!("expected a directory"),
    }
    match local.document("server.toml").unwrap() {
        Document::File(f) => assert_eq!(f, "./server/server.toml"),
        _ => panic!("expected a file"),
    }
    let mut remote = Accessor::from("https://example.com/pack/", None).unwrap();
    assert_eq!(remote.to_string(), "https://example.com/pack/");
    assert!(matches!(remote.dir(), Err(AccessorError::Unsupported)));
    match remote.document("index.toml").unwrap() {
        Document::Url(u) => assert_eq!(u.as_str(), "https://example.com/pack/index.toml"),
        _ => panic!("expected a url"),
    }
    assert!(matches!(Accessor::from("https://", None), Err(AccessorError::BadUrl)));
}

#[test]
fn accessor_rejects_bad_archives() {
    assert!(matches!(Accessor::from("pack.zip", None), Err(AccessorError::BadArchive)));
    assert!(matches!(
        Accessor::from("pack.zip", Some(b"not a zip".to_vec())),
        Err(AccessorError::BadArchive)
    ));
}

fn zip_with(name: &str, text: &str) -> Vec<u8> {
    zip_with_bytes(name, text.as_bytes())
}

fn zip_with_bytes(name: &str, bytes: &[u8]) -> Vec<u8> {
    let mut w = zip::ZipWriter::new(std::io::Cursor::new(Vec::new()));
    w.start_file(name, zip::write::SimpleFileOptions::default().compression_method(zip::CompressionMethod::Stored))
        .unwrap();
    w.write_all(bytes).unwrap();
    w.finish().unwrap().into_inner()
}

#[test]
fn accessor_reads_archive_entries() {
    let bytes = zip_with("modrinth.index.json", "{\"a\":\"b\"}");
    let mut pack = Accessor::from("pack.mrpack", Some(bytes)).unwrap();
    assert_eq!(pack.to_string(), "pack.mrpack");
    match pack.dir().unwrap() {
        Listing::Entries(names) => assert_eq!(names, vec![s("modrinth.index.json")]),
        _ => panic!("expected entries"),
    }
    match pack.document("modrinth.index.json").unwrap() {
        Document::Text(t) => assert_eq!(t, "{\"a\":\"b\"}"),
        _ => panic!("expected text"),
    }
    assert!(matches!(pack.document("missing.json"), Err(AccessorError::EntryNotFound)));
}

#[test]
fn accessor_tells_unreadable_entry_from_missing_one() {
    let bytes = zip_with_bytes("bad.json", &[0xff, 0xfe, 0xfd]);
    let mut pack = Accessor::from("pack.zip", Some(bytes)).unwrap();
    assert!(matches!(pack.document("bad.json"), Err(AccessorError::BadEntry)));
    assert!(matches!(pack.document("none.json"), Err(AccessorError::EntryNotFound)));
    assert_eq!(pack.to_string(), "pack.zip");
}

#[test]
fn resolution_errors_name_the_failure() {
    let versions = vec![version("v1", "R", "1", vec![])];
    match api(None).resolve_steps(versions, "p", "R") {
        Err(ModrinthError::NoFile { project, version_id, version_name }) => {
            assert_eq!((project.as_str(), version_id.as_str(), version_name.as_str()), ("p", "v1", "R"));
        },
        other => panic!("unexpected {:?}", other),
    }
    let versions = vec![version("v1", "R", "1", vec![file("a.jar", true)])];
    match api(None).resolve_remove_steps(versions, "p", "2") {
        Err(ModrinthError::VersionNotFound { project, version }) => {
            assert_eq!((project.as_str(), version.as_str()), ("p", "2"));
        },
        other => panic!("unexpected {:?}", other),
    }
}
