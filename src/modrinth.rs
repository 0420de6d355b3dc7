use vstd::prelude::*;
use vstd::string::StringExecFns;

use crate::cache::{inserted, keys_unique, lemma_lookup_after_insert, lookup, StringMap};
use crate::step::{CacheLocation, FileMeta, Step};

verus! {

/// One downloadable file of a Modrinth version.
#[derive(Clone, Debug)]
pub struct ModrinthFile {
    pub url: String,
    pub filename: String,
    pub primary: bool,
    pub size: u64,
    /// Pairs of hash algorithm name and hex digest.
    pub hashes: Vec<(String, String)>,
}

/// One published version of a Modrinth project.
#[derive(Clone, Debug)]
pub struct ModrinthVersion {
    pub id: String,
    pub name: String,
    pub version_number: String,
    pub files: Vec<ModrinthFile>,
}

/// A request to the Modrinth API: the full url and the value of the
/// `Authorization` header, if a token is configured.
#[derive(Clone, Debug)]
pub struct ApiRequest {
    pub url: String,
    pub authorization: Option<String>,
}

/// Why a Modrinth resolution failed.
#[derive(Clone, Debug)]
pub enum ModrinthError {
    /// No version's id, name or version number equals the selector.
    VersionNotFound { project: String, version: String },
    /// The selected version lists no file.
    NoFile { project: String, version_id: String, version_name: String },
    /// The configured token cannot stand in an HTTP header.
    InvalidToken,
}

/// Where the slug-to-id table is stored, relative to the cache root.
pub const IDS_PATH: &'static str = "modrinth/ids.json";

/// The pairs of a stored table; none where nothing is stored.
pub open spec fn stored_entries(store: Option<StringMap>) -> Seq<(String, String)> {
    match store {
        Some(m) => m.entries@,
        None => Seq::empty(),
    }
}

/// Once the id that a check answered for a slug is recorded, the table gives
/// that id for the slug, so the next `get_id` for it answers from the table
/// and asks for no check; the other slugs keep their ids.
pub proof fn lemma_slug_cache_round_trip(store: Option<StringMap>, slug: String, id: String, other: Seq<char>)
    requires
        store matches Some(m) ==> m.well_formed(),
    ensures
        keys_unique(inserted(stored_entries(store), slug, id)),
        lookup(inserted(stored_entries(store), slug, id), slug@) == Some(id@),
        other != slug@ ==> lookup(inserted(stored_entries(store), slug, id), other) == lookup(
            stored_entries(store),
            other,
        ),
{
    lemma_lookup_after_insert(stored_entries(store), slug, id, other);
}

/// How to learn a project's id from its slug.
#[derive(Clone, Debug)]
pub enum IdLookup {
    /// The slug-to-id table already holds it.
    Cached(String),
    /// Ask the API with this request; its answer holds the id.
    Check(ApiRequest),
}

/// Access to the Modrinth API at `base_url`, with an optional token.
#[derive(Clone, Debug)]
pub struct ModrinthAPI {
    pub base_url: String,
    pub token: Option<String>,
}

/// A byte that an HTTP header value may hold, as a character of the string.
pub open spec fn header_char_ok(c: char) -> bool {
    (c as u32 >= 32 && c as u32 != 127) || c == '\t'
}

/// Every character of the text may stand in an HTTP header value.
pub open spec fn header_value_ok(s: Seq<char>) -> bool {
    forall|i: int| 0 <= i < s.len() ==> header_char_ok(#[trigger] s[i])
}

/// Relies on `reqwest::header::HeaderValue::from_str`, which accepts exactly the
/// strings whose bytes are all at least 32 and not 127, or a tab. The bytes of a
/// character at or past 128 are all at least 128.
#[verifier::external_body]
fn header_value_accepted(s: &str) -> (r: bool)
    ensures
        r == header_value_ok(s@),
{
    reqwest::header::HeaderValue::from_str(s).is_ok()
}

/// The concatenation of two texts.
fn join2(a: &str, b: &str) -> (r: String)
    ensures
        r@ == a@ + b@,
{
    let mut r = a.to_owned();
    r.append(b);
    r
}

/// The selector names the version by its id, its name or its version number.
pub open spec fn version_matches(v: ModrinthVersion, selector: Seq<char>) -> bool {
    v.id@ == selector || v.name@ == selector || v.version_number@ == selector
}

/// `k` is the first version in the list that the selector names.
pub open spec fn is_selected(versions: Seq<ModrinthVersion>, selector: Seq<char>, k: int) -> bool {
    &&& 0 <= k < versions.len()
    &&& version_matches(versions[k], selector)
    &&& forall|j: int| 0 <= j < k ==> !version_matches(#[trigger] versions[j], selector)
}

/// Some version in the list is named by the selector.
pub open spec fn has_match(versions: Seq<ModrinthVersion>, selector: Seq<char>) -> bool {
    exists|j: int| 0 <= j < versions.len() && version_matches(#[trigger] versions[j], selector)
}

/// `k` is the file to install: the first flagged primary, else the first one.
pub open spec fn is_chosen_file(files: Seq<ModrinthFile>, k: int) -> bool {
    &&& 0 <= k < files.len()
    &&& forall|j: int| 0 <= j < k ==> !(#[trigger] files[j]).primary
    &&& (files[k].primary || (k == 0 && forall|j: int| 0 <= j < files.len() ==> !(#[trigger] files[j]).primary))
}

/// Two file records that agree field by field.
pub open spec fn same_file(a: ModrinthFile, b: ModrinthFile) -> bool {
    &&& a.url == b.url
    &&& a.filename == b.filename
    &&& a.primary == b.primary
    &&& a.size == b.size
    &&& a.hashes@ == b.hashes@
}

/// The cache path of a file: `project/version/filename`.
pub open spec fn cache_key(project: Seq<char>, version_id: Seq<char>, filename: Seq<char>) -> Seq<char> {
    project + seq!['/'] + version_id + seq!['/'] + filename
}

/// The description of the file that installing it needs.
pub open spec fn describes(meta: FileMeta, project: Seq<char>, version: ModrinthVersion, file: ModrinthFile) -> bool {
    &&& meta.filename == file.filename
    &&& meta.size == Some(file.size)
    &&& meta.hashes@ == file.hashes@
    &&& meta.cache matches Some(loc) && loc.0@ == "modrinth"@ && loc.1@ == cache_key(
        project,
        version.id@,
        file.filename@,
    )
}

/// The install steps for a file: check the cache, then download.
pub open spec fn install_steps(steps: Seq<Step>, project: Seq<char>, version: ModrinthVersion, file: ModrinthFile) -> bool {
    &&& steps.len() == 2
    &&& steps[0] matches Step::CacheCheck(m) && describes(m, project, version, file)
    &&& steps[1] matches Step::Download { url, metadata } && url == file.url && describes(
        metadata,
        project,
        version,
        file,
    )
}

/// Resolution succeeds: the selector names a version and that version has a file.
pub open spec fn resolvable(versions: Seq<ModrinthVersion>, selector: Seq<char>) -> bool {
    exists|k: int| is_selected(versions, selector, k) && versions[k].files@.len() > 0
}

/// The error of a resolution that fails: no version is named by the
/// selector, or the one named has no file.
pub open spec fn resolve_error(versions: Seq<ModrinthVersion>, project: Seq<char>, selector: Seq<char>, e: ModrinthError) -> bool {
    if !has_match(versions, selector) {
        e matches ModrinthError::VersionNotFound { project: p, version: v } && p@ == project
            && v@ == selector
    } else {
        exists|k: int|
            is_selected(versions, selector, k) && versions[k].files@.len() == 0 && (
            e matches ModrinthError::NoFile { project: p, version_id, version_name } && p@
                == project && version_id == versions[k].id && version_name == versions[k].name)
    }
}

/// The path of a version-by-hash lookup; sha1 is the API's default algorithm.
pub open spec fn hash_lookup_path(hash: Seq<char>, algo: Seq<char>) -> Seq<char> {
    if algo.len() == 0 || algo == "sha1"@ {
        "version_file/"@ + hash
    } else {
        "version_file/"@ + hash + "?algorithm="@ + algo
    }
}

/// The selector names one version and that version one file to install, so
/// the removal steps of a project and version name the very file that its
/// install steps download.
pub proof fn lemma_selection_unique(
    versions: Seq<ModrinthVersion>,
    selector: Seq<char>,
    k1: int,
    i1: int,
    k2: int,
    i2: int,
)
    requires
        is_selected(versions, selector, k1),
        is_selected(versions, selector, k2),
        is_chosen_file(versions[k1].files@, i1),
        is_chosen_file(versions[k2].files@, i2),
    ensures
        k1 == k2,
        i1 == i2,
{
    if k1 < k2 {
        assert(!version_matches(versions[k1], selector));
    } else if k2 < k1 {
        assert(!version_matches(versions[k2], selector));
    }
    let files = versions[k1].files@;
    if i1 < i2 {
        assert(!files[i1].primary);
    } else if i2 < i1 {
        assert(!files[i2].primary);
    }
}

impl ModrinthFile {
    /// Each hash algorithm is listed once.
    pub open spec fn well_formed(&self) -> bool {
        keys_unique(self.hashes@)
    }

    /// A field-by-field copy.
    pub fn duplicate(&self) -> (r: ModrinthFile)
        ensures
            same_file(r, *self),
            self.well_formed() ==> r.well_formed(),
    {
        let mut hashes: Vec<(String, String)> = Vec::new();
        let mut i: usize = 0;
        while i < self.hashes.len()
            invariant
                i <= self.hashes@.len(),
                hashes@ == self.hashes@.take(i as int),
            decreases self.hashes@.len() - i,
        {
            hashes.push((self.hashes[i].0.clone(), self.hashes[i].1.clone()));
            proof {
                assert(self.hashes@.take(i as int + 1) == self.hashes@.take(i as int).push(
                    self.hashes@[i as int],
                ));
            }
            i = i + 1;
        }
        proof {
            assert(self.hashes@.take(i as int) == self.hashes@);
        }
        ModrinthFile {
            url: self.url.clone(),
            filename: self.filename.clone(),
            primary: self.primary,
            size: self.size,
            hashes,
        }
    }
}

/// The position of the file to install, if the list has any.
fn choose_file(files: &Vec<ModrinthFile>) -> (r: Option<usize>)
    ensures
        r matches Some(k) ==> is_chosen_file(files@, k as int),
        r is None <==> files@.len() == 0,
{
    let mut i: usize = 0;
    while i < files.len()
        invariant
            i <= files@.len(),
            forall|j: int| 0 <= j < i ==> !(#[trigger] files@[j]).primary,
        decreases files@.len() - i,
    {
        if files[i].primary {
            return Some(i);
        }
        i = i + 1;
    }
    if files.len() > 0 {
        Some(0)
    } else {
        None
    }
}

/// The first version that the selector names, if any.
fn find_version(versions: &Vec<ModrinthVersion>, selector: &str) -> (r: Option<usize>)
    ensures
        r matches Some(k) ==> is_selected(versions@, selector@, k as int),
        r is None <==> !has_match(versions@, selector@),
{
    let sel = selector.to_owned();
    let mut i: usize = 0;
    while i < versions.len()
        invariant
            i <= versions@.len(),
            sel@ == selector@,
            forall|j: int| 0 <= j < i ==> !version_matches(#[trigger] versions@[j], selector@),
        decreases versions@.len() - i,
    {
        let v = &versions[i];
        if v.id == sel || v.name == sel || v.version_number == sel {
            return Some(i);
        }
        i = i + 1;
    }
    None
}

impl ModrinthAPI {
    /// The request for an API path, with the token as `Authorization` header.
    pub fn fetch_api(&self, path: &str) -> (r: Result<ApiRequest, ModrinthError>)
        ensures
            match self.token {
                Some(t) => if header_value_ok(t@) {
                    r matches Ok(req) && req.authorization == Some(t)
                } else {
                    r matches Err(ModrinthError::InvalidToken)
                },
                None => r matches Ok(req) && req.authorization is None,
            },
            r matches Ok(req) ==> req.url@ == self.base_url@ + seq!['/'] + path@
                && req.authorization == self.token,
    {
        let authorization = match &self.token {
            Some(t) => {
                if !header_value_accepted(t.as_str()) {
                    return Err(ModrinthError::InvalidToken);
                }
                Some(t.clone())
            },
            None => None,
        };
        proof {
            reveal_strlit("/");
        }
        let base = join2(self.base_url.as_str(), "/");
        let url = join2(base.as_str(), path);
        Ok(ApiRequest { url, authorization })
    }

    /// The request for a project.
    pub fn fetch_project(&self, id: &str) -> (r: Result<ApiRequest, ModrinthError>)
        ensures
            r matches Ok(req) ==> req.url@ == self.base_url@ + seq!['/'] + "project/"@ + id@,
            r is Err <==> (self.token matches Some(t) && !header_value_ok(t@)),
            r matches Ok(req) ==> req.authorization == self.token,
    {
        let path = join2("project/", id);
        self.fetch_api(path.as_str())
    }

    /// The request for every version of a project.
    pub fn fetch_all_versions(&self, id: &str) -> (r: Result<ApiRequest, ModrinthError>)
        ensures
            r matches Ok(req) ==> req.url@ == self.base_url@ + seq!['/'] + "project/"@ + id@
                + "/version"@,
            r is Err <==> (self.token matches Some(t) && !header_value_ok(t@)),
            r matches Ok(req) ==> req.authorization == self.token,
    {
        let path = join2("project/", id);
        let path = join2(path.as_str(), "/version");
        self.fetch_api(path.as_str())
    }

    /// The request for the versions of a project; the API lists them all at once.
    pub fn fetch_versions(&self, id: &str) -> (r: Result<ApiRequest, ModrinthError>)
        ensures
            r matches Ok(req) ==> req.url@ == self.base_url@ + seq!['/'] + "project/"@ + id@
                + "/version"@,
            r is Err <==> (self.token matches Some(t) && !header_value_ok(t@)),
            r matches Ok(req) ==> req.authorization == self.token,
    {
        self.fetch_all_versions(id)
    }

    /// The request that checks a slug and answers with the project's id.
    pub fn fetch_check(&self, slug: &str) -> (r: Result<ApiRequest, ModrinthError>)
        ensures
            r matches Ok(req) ==> req.url@ == self.base_url@ + seq!['/'] + "project/"@ + slug@
                + "/check"@,
            r is Err <==> (self.token matches Some(t) && !header_value_ok(t@)),
            r matches Ok(req) ==> req.authorization == self.token,
    {
        let path = join2("project/", slug);
        let path = join2(path.as_str(), "/check");
        self.fetch_api(path.as_str())
    }

    /// The id of the project with this slug: from the stored slug-to-id
    /// table when it holds the slug, else by a check request.
    pub fn get_id(&self, store: &Option<StringMap>, slug: &str) -> (r: Result<IdLookup, ModrinthError>)
        requires
            store matches Some(m) ==> m.well_formed(),
        ensures
            (store matches Some(m) && lookup(m.entries@, slug@) is Some) ==> (r matches Ok(
                IdLookup::Cached(id),
            ) && lookup(store->Some_0.entries@, slug@) == Some(id@)),
            !(store matches Some(m) && lookup(m.entries@, slug@) is Some) ==> ((r is Err <==> (
            self.token matches Some(t) && !header_value_ok(t@))) && (r matches Ok(a) ==> (a matches IdLookup::Check(req)
                && req.url@ == self.base_url@ + seq!['/'] + "project/"@ + slug@ + "/check"@
                && req.authorization == self.token))),
    {
        if let Some(m) = store {
            if let Some(id) = m.get(slug) {
                return Ok(IdLookup::Cached(id));
            }
        }
        match self.fetch_check(slug) {
            Ok(req) => Ok(IdLookup::Check(req)),
            Err(e) => Err(e),
        }
    }

    /// The slug-to-id table to store after a check answered `id` for `slug`.
    pub fn record_id(&self, store: Option<StringMap>, slug: String, id: String) -> (r: StringMap)
        requires
            store matches Some(m) ==> m.well_formed(),
        ensures
            r.well_formed(),
            r.entries@ == inserted(stored_entries(store), slug, id),
    {
        let mut m = match store {
            Some(m) => m,
            None => StringMap::new(),
        };
        m.insert(slug, id);
        m
    }

    /// The request for the version that holds a file with the given hash.
    pub fn version_from_hash(&self, hash: &str, algo: &str) -> (r: Result<ApiRequest, ModrinthError>)
        ensures
            r matches Ok(req) ==> req.url@ == self.base_url@ + seq!['/'] + hash_lookup_path(
                hash@,
                algo@,
            ),
            r is Err <==> (self.token matches Some(t) && !header_value_ok(t@)),
            r matches Ok(req) ==> req.authorization == self.token,
    {
        let path = join2("version_file/", hash);
        let path = if algo.unicode_len() == 0 || algo.to_owned() == "sha1".to_owned() {
            path
        } else {
            let with_query = join2(path.as_str(), "?algorithm=");
            join2(with_query.as_str(), algo)
        };
        self.fetch_api(path.as_str())
    }

    /// Picks, from every version of project `id`, the first whose id, name or
    /// version number equals `version`.
    pub fn fetch_version(&self, all_versions: Vec<ModrinthVersion>, id: &str, version: &str) -> (r: Result<ModrinthVersion, ModrinthError>)
        ensures
            r is Ok <==> has_match(all_versions@, version@),
            r matches Ok(v) ==> exists|k: int|
                is_selected(all_versions@, version@, k) && v == all_versions@[k],
            r matches Err(e) ==> (e matches ModrinthError::VersionNotFound { project, version: sel }
                && project@ == id@ && sel@ == version@),
    {
        let mut all_versions = all_versions;
        match find_version(&all_versions, version) {
            Some(k) => Ok(all_versions.remove(k)),
            None => Err(ModrinthError::VersionNotFound { project: id.to_owned(), version: version.to_owned() }),
        }
    }

    /// The selected version of project `id` and the file of it to install: the
    /// first flagged primary, else the first listed.
    pub fn fetch_file(&self, all_versions: Vec<ModrinthVersion>, id: &str, version: &str) -> (r: Result<(ModrinthFile, ModrinthVersion), ModrinthError>)
        ensures
            r is Ok <==> resolvable(all_versions@, version@),
            r matches Ok((f, v)) ==> exists|k: int, i: int|
                #![trigger is_selected(all_versions@, version@, k), is_chosen_file(v.files@, i)]
                is_selected(all_versions@, version@, k) && v == all_versions@[k]
                && is_chosen_file(v.files@, i) && same_file(f, v.files@[i]),
            r matches Err(e) ==> resolve_error(all_versions@, id@, version@, e),
    {
        let ghost all = all_versions@;
        let v = match self.fetch_version(all_versions, id, version) {
            Ok(v) => v,
            Err(e) => {
                proof {
                    assert(!resolvable(all, version@));
                }
                return Err(e);
            },
        };
        let ghost k = choose|k: int| is_selected(all, version@, k) && v == all[k];
        match choose_file(&v.files) {
            Some(i) => {
                let f = v.files[i].duplicate();
                let ghost i0 = i as int;
                let r = Ok((f, v));
                assert(r matches Ok((f1, v1)) && is_selected(all, version@, k) && v1 == all[k]
                    && is_chosen_file(v1.files@, i0) && same_file(f1, v1.files@[i0]));
                r
            },
            None => {
                proof {
                    assert forall|k2: int| is_selected(all, version@, k2) implies all[k2].files@.len() == 0 by {
                        if k2 < k {
                            assert(!version_matches(all[k2], version@));
                        } else if k < k2 {
                            assert(!version_matches(all[k], version@));
                        }
                    }
                }
                let e = ModrinthError::NoFile {
                    project: id.to_owned(),
                    version_id: v.id.clone(),
                    version_name: v.name.clone(),
                };
                assert(is_selected(all, version@, k) && all[k].files@.len() == 0);
                Err(e)
            },
        }
    }

    /// The install steps for project `id` (already resolved from its slug):
    /// a cache check, then the download of the chosen file, both described
    /// with a cache location under `modrinth` keyed `id/version/filename`.
    pub fn resolve_steps(&self, all_versions: Vec<ModrinthVersion>, id: &str, version: &str) -> (r: Result<Vec<Step>, ModrinthError>)
        ensures
            r is Ok <==> resolvable(all_versions@, version@),
            r matches Ok(steps) ==> exists|k: int, i: int|
                is_selected(all_versions@, version@, k) && is_chosen_file(all_versions@[k].files@, i)
                && install_steps(steps@, id@, all_versions@[k], all_versions@[k].files@[i]),
            r matches Err(e) ==> resolve_error(all_versions@, id@, version@, e),
    {
        let (file, v) = match self.fetch_file(all_versions, id, version) {
            Ok(pair) => pair,
            Err(e) => return Err(e),
        };
        let ghost (k, i) = choose|k: int, i: int|
            #![trigger is_selected(all_versions@, version@, k), is_chosen_file(v.files@, i)]
            is_selected(all_versions@, version@, k) && v == all_versions@[k]
                && is_chosen_file(v.files@, i) && same_file(file, v.files@[i]);
        proof {
            reveal_strlit("/");
        }
        let key = join2(id, "/");
        let key = join2(key.as_str(), v.id.as_str());
        let key = join2(key.as_str(), "/");
        let key = join2(key.as_str(), file.filename.as_str());
        let metadata = FileMeta {
            cache: Some(CacheLocation("modrinth".to_owned(), key.clone())),
            filename: file.filename,
            size: Some(file.size),
            hashes: file.hashes,
        };
        let check = metadata.duplicate();
        let mut steps: Vec<Step> = Vec::new();
        steps.push(Step::CacheCheck(check));
        steps.push(Step::Download { url: file.url, metadata });
        proof {
            let chosen = all_versions@[k].files@[i];
            assert(key@ == cache_key(id@, all_versions@[k].id@, chosen.filename@));
            assert(describes(steps@[0]->CacheCheck_0, id@, all_versions@[k], chosen));
        }
        Ok(steps)
    }

    /// The removal steps for project `id`: one removal of the chosen file, by
    /// name only. The cache plays no part.
    pub fn resolve_remove_steps(&self, all_versions: Vec<ModrinthVersion>, id: &str, version: &str) -> (r: Result<Vec<Step>, ModrinthError>)
        ensures
            r is Ok <==> resolvable(all_versions@, version@),
            r matches Ok(steps) ==> exists|k: int, i: int|
                is_selected(all_versions@, version@, k) && is_chosen_file(all_versions@[k].files@, i)
                && steps@.len() == 1 && (steps@[0] matches Step::RemoveFile(m)
                && m.filename == all_versions@[k].files@[i].filename && m.cache is None
                && m.size is None && m.hashes@.len() == 0),
            r matches Err(e) ==> resolve_error(all_versions@, id@, version@, e),
    {
        let (file, _) = match self.fetch_file(all_versions, id, version) {
            Ok(pair) => pair,
            Err(e) => return Err(e),
        };
        let mut steps: Vec<Step> = Vec::new();
        steps.push(Step::RemoveFile(FileMeta::filename(file.filename)));
        Ok(steps)
    }
}

} // verus!
