use vstd::prelude::*;

use crate::step::{CacheLocation, FileMeta, Step};

verus! {

/// How "this file is already present" is decided without touching the network.
#[derive(Clone, Debug)]
pub enum CacheStrategy {
    /// Present when a file exists at `namespace/path` under the cache root.
    File { namespace: String, path: String },
    /// Present when the string map stored at `index_path` maps `key` to `value`.
    Indexed { index_path: String, key: String, value: String },
    /// Never present.
    Never,
}

/// The outcome of resolving one addon to a concrete file.
#[derive(Clone, Debug)]
pub struct ResolvedFile {
    pub url: String,
    pub filename: String,
    pub cache: CacheStrategy,
    pub size: Option<u64>,
    /// Pairs of hash algorithm name and expected hex digest.
    pub hashes: Vec<(String, String)>,
}

/// A source that can turn an addon reference into the file to fetch.
pub trait Resolvable {
    fn resolve_source(&self) -> Result<ResolvedFile, String>;
}

/// A JSON document that maps strings to strings, kept as pairs in order
/// with each key once (the slug-to-id table, a hash index).
#[derive(Clone, Debug)]
pub struct StringMap {
    pub entries: Vec<(String, String)>,
}

/// Why reading a cached document failed.
#[derive(Clone, Copy, Debug, PartialEq, Eq, Structural)]
pub enum CacheError {
    /// The document is present but is not a JSON object of strings.
    Malformed,
}

/// No key occurs twice.
pub open spec fn keys_unique(e: Seq<(String, String)>) -> bool {
    forall|i: int, j: int|
        0 <= i < j < e.len() ==> (#[trigger] e[i]).0@ != (#[trigger] e[j]).0@
}

/// Some entry has the key.
pub open spec fn has_key(e: Seq<(String, String)>, key: Seq<char>) -> bool {
    exists|i: int| 0 <= i < e.len() && (#[trigger] e[i]).0@ == key
}

/// The position of the entry with the key.
pub open spec fn key_index(e: Seq<(String, String)>, key: Seq<char>) -> int {
    choose|i: int| 0 <= i < e.len() && (#[trigger] e[i]).0@ == key
}

/// The value stored under the key, if any.
pub open spec fn lookup(e: Seq<(String, String)>, key: Seq<char>) -> Option<Seq<char>> {
    if has_key(e, key) {
        Some(e[key_index(e, key)].1@)
    } else {
        None
    }
}

/// The entries after storing `value` under `key`: in place if the key is
/// there, else at the end.
pub open spec fn inserted(e: Seq<(String, String)>, key: String, value: String) -> Seq<(String, String)> {
    if has_key(e, key@) {
        e.update(key_index(e, key@), (key, value))
    } else {
        e.push((key, value))
    }
}

/// The entries as pairs of character sequences.
pub open spec fn pairs_view(e: Seq<(String, String)>) -> Seq<(Seq<char>, Seq<char>)> {
    e.map_values(|p: (String, String)| (p.0@, p.1@))
}

/// What `serde_json` reads from the text as a map of strings to strings, in
/// key order, or `None` where the text is not such a map.
pub uninterp spec fn json_string_map(text: Seq<char>) -> Option<Seq<(Seq<char>, Seq<char>)>>;

/// The text that `serde_json` writes for a map of strings to strings.
pub uninterp spec fn json_text_of_map(pairs: Seq<(Seq<char>, Seq<char>)>) -> Seq<char>;

/// Relies on `serde_json::from_str` into a `BTreeMap<String, String>`: the map's
/// keys are unique, and it depends on the text alone.
#[verifier::external_body]
fn parse_string_map(text: &str) -> (r: Option<Vec<(String, String)>>)
    ensures
        r matches Some(v) ==> keys_unique(v@) && json_string_map(text@) == Some(pairs_view(v@)),
        r is None ==> json_string_map(text@) is None,
{
    match serde_json::from_str::<std::collections::BTreeMap<String, String>>(text) {
        Ok(m) => Some(m.into_iter().collect()),
        Err(_) => None,
    }
}

/// Relies on `serde_json::to_string` of a `BTreeMap<String, String>`, which
/// fails only where a `Serialize` impl fails or a map key is not a string:
/// neither can happen here. With unique keys the map holds every pair.
#[verifier::external_body]
fn render_string_map(entries: &Vec<(String, String)>) -> (r: Option<String>)
    requires
        keys_unique(entries@),
    ensures
        r is Some,
        r matches Some(t) ==> t@ == json_text_of_map(pairs_view(entries@)),
{
    serde_json::to_string(&entries.iter().cloned().collect::<std::collections::BTreeMap<_, _>>()).ok()
}

impl StringMap {
    pub open spec fn well_formed(&self) -> bool {
        keys_unique(self.entries@)
    }

    /// The empty map.
    pub fn new() -> (r: StringMap)
        ensures
            r.well_formed(),
            r.entries@.len() == 0,
    {
        StringMap { entries: Vec::new() }
    }

    /// Reads a stored document.
    pub fn from_json(text: &str) -> (r: Result<StringMap, CacheError>)
        ensures
            r is Ok <==> json_string_map(text@) is Some,
            r matches Ok(m) ==> m.well_formed() && json_string_map(text@) == Some(
                pairs_view(m.entries@),
            ),
    {
        match parse_string_map(text) {
            Some(entries) => Ok(StringMap { entries }),
            None => Err(CacheError::Malformed),
        }
    }

    /// The document to store.
    pub fn to_json(&self) -> (r: String)
        requires
            self.well_formed(),
        ensures
            r@ == json_text_of_map(pairs_view(self.entries@)),
    {
        match render_string_map(&self.entries) {
            Some(t) => t,
            None => String::new(),
        }
    }

    /// The position of the key, if present.
    fn position(&self, key: &str) -> (r: Option<usize>)
        requires
            self.well_formed(),
        ensures
            r is None <==> !has_key(self.entries@, key@),
            r matches Some(i) ==> i == key_index(self.entries@, key@) && i < self.entries@.len()
                && self.entries@[i as int].0@ == key@,
    {
        let k = key.to_owned();
        let mut i: usize = 0;
        while i < self.entries.len()
            invariant
                i <= self.entries@.len(),
                k@ == key@,
                keys_unique(self.entries@),
                forall|j: int| 0 <= j < i ==> (#[trigger] self.entries@[j]).0@ != key@,
            decreases self.entries@.len() - i,
        {
            if self.entries[i].0 == k {
                proof {
                    assert(self.entries@[i as int].0@ == key@);
                    assert(has_key(self.entries@, key@));
                    let c = key_index(self.entries@, key@);
                    assert(self.entries@[c].0@ == key@);
                    assert(c == i) by {
                        if c < i as int {
                            assert(self.entries@[c].0@ != key@);
                        } else if c > i as int {
                            assert(self.entries@[i as int].0@ != self.entries@[c].0@);
                        }
                    }
                }
                return Some(i);
            }
            i = i + 1;
        }
        None
    }

    /// The value stored under the key.
    pub fn get(&self, key: &str) -> (r: Option<String>)
        requires
            self.well_formed(),
        ensures
            r is None <==> lookup(self.entries@, key@) is None,
            r matches Some(v) ==> lookup(self.entries@, key@) == Some(v@),
    {
        match self.position(key) {
            Some(i) => Some(self.entries[i].1.clone()),
            None => None,
        }
    }

    /// Stores `value` under `key`, replacing what was there.
    pub fn insert(&mut self, key: String, value: String)
        requires
            old(self).well_formed(),
        ensures
            final(self).well_formed(),
            final(self).entries@ == inserted(old(self).entries@, key, value),
    {
        proof {
            lemma_inserted_keys_unique(self.entries@, key, value);
        }
        match self.position(key.as_str()) {
            Some(i) => {
                self.entries.set(i, (key, value));
            },
            None => {
                self.entries.push((key, value));
            },
        }
    }
}

/// Storing a pair keeps every key once.
proof fn lemma_inserted_keys_unique(e: Seq<(String, String)>, key: String, value: String)
    requires
        keys_unique(e),
    ensures
        keys_unique(inserted(e, key, value)),
{
    let r = inserted(e, key, value);
    if has_key(e, key@) {
        let c = key_index(e, key@);
        assert forall|i: int, j: int| 0 <= i < j < r.len() implies (#[trigger] r[i]).0@ != (
        #[trigger] r[j]).0@ by {
            if i == c {
                assert(e[c].0@ == key@);
            } else if j == c {
                assert(e[c].0@ == key@);
            }
        }
    } else {
        assert forall|i: int, j: int| 0 <= i < j < r.len() implies (#[trigger] r[i]).0@ != (
        #[trigger] r[j]).0@ by {
            if j == e.len() {
                assert(!(0 <= i < e.len() && e[i].0@ == key@));
            }
        }
    }
}

/// After a pair is stored, looking its key up gives its value, and every
/// other key still gives what it gave before.
pub proof fn lemma_lookup_after_insert(e: Seq<(String, String)>, key: String, value: String, other: Seq<char>)
    requires
        keys_unique(e),
    ensures
        keys_unique(inserted(e, key, value)),
        lookup(inserted(e, key, value), key@) == Some(value@),
        other != key@ ==> lookup(inserted(e, key, value), other) == lookup(e, other),
{
    let r = inserted(e, key, value);
    lemma_inserted_keys_unique(e, key, value);
    let p = if has_key(e, key@) { key_index(e, key@) } else { e.len() as int };
    assert(r[p].0@ == key@);
    assert(has_key(r, key@));
    let c = key_index(r, key@);
    assert(c == p) by {
        if c != p {
            if c < p {
                assert(r[c].0@ != r[p].0@);
            } else {
                assert(r[p].0@ != r[c].0@);
            }
        }
    }
    if other != key@ {
        if has_key(e, other) {
            let q = key_index(e, other);
            assert(r[q] == e[q]);
            assert(has_key(r, other));
            let d = key_index(r, other);
            assert(d == q) by {
                if d != q {
                    if d < q {
                        assert(r[d].0@ != r[q].0@);
                    } else {
                        assert(r[q].0@ != r[d].0@);
                    }
                }
            }
        } else {
            assert(!has_key(r, other)) by {
                if has_key(r, other) {
                    let d = key_index(r, other);
                    assert(r[d] == e[d]);
                }
            }
        }
    }
}

impl CacheStrategy {
    /// Whether the file is already present, from what the caller found: whether
    /// the file exists (for `File`) and the index document, if stored (for `Indexed`).
    pub fn is_satisfied(&self, file_exists: bool, index: &Option<StringMap>) -> (r: bool)
        requires
            index matches Some(m) ==> m.well_formed(),
        ensures
            match self {
                CacheStrategy::File { .. } => r == file_exists,
                CacheStrategy::Indexed { key, value, .. } => r == (index matches Some(m) && lookup(
                    m.entries@,
                    key@,
                ) == Some(value@)),
                CacheStrategy::Never => !r,
            },
    {
        match self {
            CacheStrategy::File { .. } => file_exists,
            CacheStrategy::Indexed { key, value, .. } => match index {
                Some(m) => match m.get(key.as_str()) {
                    Some(v) => v == *value,
                    None => false,
                },
                None => false,
            },
            CacheStrategy::Never => false,
        }
    }
}

/// The default strategy never counts a file as present.
impl Default for CacheStrategy {
    fn default() -> (r: CacheStrategy)
        ensures
            r is Never,
    {
        CacheStrategy::Never
    }
}

impl ResolvedFile {
    /// Each hash algorithm is listed once.
    pub open spec fn well_formed(&self) -> bool {
        keys_unique(self.hashes@)
    }

    /// The executor's description of the file; a `File` strategy becomes its cache location.
    pub fn to_meta(&self) -> (r: FileMeta)
        ensures
            r.filename == self.filename,
            r.size == self.size,
            r.hashes@ == self.hashes@,
            self.well_formed() ==> r.well_formed(),
            match self.cache {
                CacheStrategy::File { namespace, path } => r.cache == Some(CacheLocation(namespace, path)),
                _ => r.cache is None,
            },
    {
        let mut hashes: Vec<(String, String)> = Vec::new();
        let mut i: usize = 0;
        while i < self.hashes.len()
            invariant
                i <= self.hashes@.len(),
                hashes@ == self.hashes@.take(i as int),
            decreases self.hashes@.len() - i,
        {
            hashes.push((self.hashes[i].0.clone(), self.hashes[i].1.clone()));
            proof {
                assert(self.hashes@.take(i as int + 1) == self.hashes@.take(i as int).push(
                    self.hashes@[i as int],
                ));
            }
            i = i + 1;
        }
        proof {
            assert(self.hashes@.take(i as int) == self.hashes@);
        }
        let cache = match &self.cache {
            CacheStrategy::File { namespace, path } => Some(CacheLocation(namespace.clone(), path.clone())),
            _ => None,
        };
        FileMeta { filename: self.filename.clone(), cache, size: self.size, hashes }
    }

    /// The install steps every source emits: a cache check, then the download.
    pub fn to_steps(&self) -> (r: Vec<Step>)
        ensures
            r@.len() == 2,
            r@[0] matches Step::CacheCheck(m) && m.filename == self.filename && m.hashes@
                == self.hashes@,
            r@[1] matches Step::Download { url, metadata } && url == self.url
                && metadata.filename == self.filename && metadata.size == self.size
                && metadata.hashes@ == self.hashes@,
            r@[0]->CacheCheck_0.cache == r@[1]->Download_metadata.cache,
            r@[0]->CacheCheck_0.size == self.size,
            match self.cache {
                CacheStrategy::File { namespace, path } => r@[0]->CacheCheck_0.cache == Some(
                    CacheLocation(namespace, path),
                ),
                _ => r@[0]->CacheCheck_0.cache is None,
            },
            self.well_formed() ==> r@[0]->CacheCheck_0.well_formed() && r@[1]->Download_metadata.well_formed(),
    {
        let meta = self.to_meta();
        let check = meta.duplicate();
        let mut steps: Vec<Step> = Vec::new();
        steps.push(Step::CacheCheck(check));
        steps.push(Step::Download { url: self.url.clone(), metadata: meta });
        steps
    }
}

/// The cache subcommands.
#[derive(Clone, Copy, Debug, PartialEq, Eq, Structural)]
pub enum Commands {
    /// Print the cache root.
    Path,
    /// List the namespaces, and with `detailed` their entries.
    List { detailed: bool },
    /// Open the cache folder.
    Open,
    /// Delete everything from the cache.
    Clear,
}

} // verus!
