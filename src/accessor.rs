use vstd::prelude::*;
use vstd::string::StringExecFns;

use std::io::Cursor;
use zip::ZipArchive;

verus! {

#[verifier::external_type_specification]
#[verifier::external_body]
pub struct ExUrl(reqwest::Url);

#[verifier::external_type_specification]
#[verifier::external_body]
#[verifier::reject_recursive_types(T)]
pub struct ExCursor<T>(Cursor<T>);

#[verifier::external_type_specification]
#[verifier::external_body]
#[verifier::reject_recursive_types(R)]
pub struct ExZipArchive<R>(ZipArchive<R>);

/// Which store a location string names.
#[derive(Clone, Copy, Debug, PartialEq, Eq, Structural)]
pub enum AccessorKind {
    Local,
    Remote,
    ZipLocal,
}

/// Read access to a local directory, a remote HTTP root or a local zip
/// archive, which the accessor owns while it lives.
pub enum Accessor {
    Local(String),
    Remote(reqwest::Url),
    ZipLocal(String, ZipArchive<Cursor<Vec<u8>>>),
}

/// Why an accessor could not be made or used.
#[derive(Clone, Copy, Debug, PartialEq, Eq, Structural)]
pub enum AccessorError {
    /// The location is not a valid url.
    BadUrl,
    /// The archive could not be read, or its bytes are not a zip archive.
    BadArchive,
    /// No entry of the archive has the name.
    EntryNotFound,
    /// The archive's entry cannot be read as text.
    BadEntry,
    /// The operation is not defined for this kind of store.
    Unsupported,
}

/// Where to list entries: the names themselves, or a local directory.
#[derive(Clone, Debug)]
pub enum Listing {
    Entries(Vec<String>),
    Directory(String),
}

/// Where a document at a relative path is read from.
#[derive(Debug)]
pub enum Document {
    /// A local file at this path.
    File(String),
    /// The text of an archive entry.
    Text(String),
    /// A remote resource at this url.
    Url(reqwest::Url),
}

pub open spec fn has_prefix(s: Seq<char>, p: Seq<char>) -> bool {
    p.len() <= s.len() && s.subrange(0, p.len() as int) == p
}

pub open spec fn has_suffix(s: Seq<char>, p: Seq<char>) -> bool {
    p.len() <= s.len() && s.subrange(s.len() - p.len(), s.len() as int) == p
}

/// `http://` or `https://` names a remote root; `.zip` or `.mrpack` an
/// archive; anything else a local directory.
pub open spec fn kind_of(s: Seq<char>) -> AccessorKind {
    if has_prefix(s, "http://"@) || has_prefix(s, "https://"@) {
        AccessorKind::Remote
    } else if has_suffix(s, ".zip"@) || has_suffix(s, ".mrpack"@) {
        AccessorKind::ZipLocal
    } else {
        AccessorKind::Local
    }
}

/// The text is a url that `url` accepts.
pub uninterp spec fn url_accepted(s: Seq<char>) -> bool;

/// The bytes form a zip archive that `zip` can index.
pub uninterp spec fn zip_accepted(b: Seq<u8>) -> bool;

/// Relies on `reqwest::Url::parse`: whether it accepts the text depends on the text alone.
#[verifier::external_body]
fn parse_url(s: &str) -> (r: Option<reqwest::Url>)
    ensures
        r is Some <==> url_accepted(s@),
{
    reqwest::Url::parse(s).ok()
}

/// The serialization of a url.
pub uninterp spec fn url_serialization(u: reqwest::Url) -> Seq<char>;

/// `url` can resolve the relative path against the url.
pub uninterp spec fn join_accepted(u: reqwest::Url, path: Seq<char>) -> bool;

/// The names of an archive's entries, in the archive's order.
pub uninterp spec fn archive_entry_names(z: ZipArchive<Cursor<Vec<u8>>>) -> Seq<Seq<char>>;

/// Some entry of the archive has the name.
pub uninterp spec fn archive_has_entry(z: ZipArchive<Cursor<Vec<u8>>>, name: Seq<char>) -> bool;

/// The UTF-8 text of the entry with the name, or `None` where it cannot be read as text.
pub uninterp spec fn archive_entry_text(z: ZipArchive<Cursor<Vec<u8>>>, name: Seq<char>) -> Option<Seq<char>>;

/// Relies on `reqwest::Url::as_str`, the url's serialization.
#[verifier::external_body]
fn url_text(u: &reqwest::Url) -> (r: String)
    ensures
        r@ == url_serialization(*u),
{
    u.as_str().to_owned()
}

/// Relies on `reqwest::Url::join`, which resolves a relative path against the
/// url; whether it succeeds depends on the url and the path alone.
#[verifier::external_body]
fn join_url(u: &reqwest::Url, path: &str) -> (r: Option<reqwest::Url>)
    ensures
        r is Some <==> join_accepted(*u, path@),
{
    u.join(path).ok()
}

/// Relies on `zip::ZipArchive::new`, which reads the archive's index from its
/// bytes; whether it succeeds depends on the bytes alone.
#[verifier::external_body]
fn open_archive(bytes: Vec<u8>) -> (r: Option<ZipArchive<Cursor<Vec<u8>>>>)
    ensures
        r is Some <==> zip_accepted(bytes@),
{
    ZipArchive::new(Cursor::new(bytes)).ok()
}

/// What reading an archive entry as text gave.
enum EntryRead {
    Text(String),
    /// No entry has the name.
    Missing,
    /// The entry is there but cannot be read as UTF-8 text.
    Unreadable,
}

/// Relies on `zip::ZipArchive::file_names`, the names of the archive's entries.
#[verifier::external_body]
fn archive_names(zip: &ZipArchive<Cursor<Vec<u8>>>) -> (r: Vec<String>)
    ensures
        r@.map_values(|n: String| n@) == archive_entry_names(*zip),
{
    zip.file_names().map(|n| n.to_owned()).collect()
}

/// Relies on `zip::ZipArchive::by_name`, which fails with `FileNotFound` exactly
/// when no entry has the name, and on `std::io::read_to_string` of the entry.
/// Reading moves the archive's cursor but changes none of its entries.
#[verifier::external_body]
fn archive_text(zip: &mut ZipArchive<Cursor<Vec<u8>>>, name: &str) -> (r: EntryRead)
    ensures
        r is Missing <==> !archive_has_entry(*old(zip), name@),
        r is Text <==> archive_entry_text(*old(zip), name@) is Some,
        r matches EntryRead::Text(t) ==> archive_entry_text(*old(zip), name@) == Some(t@),
        archive_entry_names(*final(zip)) == archive_entry_names(*old(zip)),
        forall|n: Seq<char>| #[trigger] archive_has_entry(*final(zip), n) == archive_has_entry(*old(zip), n),
        forall|n: Seq<char>| #[trigger] archive_entry_text(*final(zip), n) == archive_entry_text(*old(zip), n),
{
    match zip.by_name(name) {
        Ok(f) => match std::io::read_to_string(f) {
            Ok(t) => EntryRead::Text(t),
            Err(_) => EntryRead::Unreadable,
        },
        Err(zip::result::ZipError::FileNotFound) => EntryRead::Missing,
        Err(_) => EntryRead::Unreadable,
    }
}

fn starts_with(s: &str, p: &str) -> (r: bool)
    ensures
        r == has_prefix(s@, p@),
{
    let n = s.unicode_len();
    let m = p.unicode_len();
    if m > n {
        return false;
    }
    let mut i: usize = 0;
    while i < m
        invariant
            m <= n,
            n == s@.len(),
            m == p@.len(),
            i <= m,
            forall|j: int| 0 <= j < i ==> s@[j] == p@[j],
        decreases m - i,
    {
        if s.get_char(i) != p.get_char(i) {
            return false;
        }
        i = i + 1;
    }
    assert(s@.subrange(0, m as int) =~= p@);
    true
}

fn ends_with(s: &str, p: &str) -> (r: bool)
    ensures
        r == has_suffix(s@, p@),
{
    let n = s.unicode_len();
    let m = p.unicode_len();
    if m > n {
        return false;
    }
    let d = n - m;
    let mut i: usize = 0;
    while i < m
        invariant
            m <= n,
            d == n - m,
            n == s@.len(),
            m == p@.len(),
            i <= m,
            forall|j: int| 0 <= j < i ==> s@[d + j] == p@[j],
        decreases m - i,
    {
        if s.get_char(d + i) != p.get_char(i) {
            assert(s@.subrange(d as int, n as int)[i as int] != p@[i as int]);
            return false;
        }
        i = i + 1;
    }
    assert(s@.subrange(d as int, n as int) =~= p@);
    true
}

impl Accessor {
    /// Which store the location string names.
    pub fn kind(s: &str) -> (r: AccessorKind)
        ensures
            r == kind_of(s@),
    {
        if starts_with(s, "http://") || starts_with(s, "https://") {
            AccessorKind::Remote
        } else if ends_with(s, ".zip") || ends_with(s, ".mrpack") {
            AccessorKind::ZipLocal
        } else {
            AccessorKind::Local
        }
    }

    /// The accessor for a location string. For an archive, `archive` holds the
    /// bytes of the file, or `None` where it could not be read.
    pub fn from(s: &str, archive: Option<Vec<u8>>) -> (r: Result<Accessor, AccessorError>)
        ensures
            kind_of(s@) == AccessorKind::Remote ==> (r is Ok <==> url_accepted(s@)) && (r matches Ok(a) ==> a is Remote)
                && (r matches Err(e) ==> e == AccessorError::BadUrl),
            kind_of(s@) == AccessorKind::ZipLocal ==> (r is Ok <==> (archive matches Some(b)
                && zip_accepted(b@))) && (r matches Ok(a) ==> (a matches Accessor::ZipLocal(p, _) && p@ == s@))
                && (r matches Err(e) ==> e == AccessorError::BadArchive),
            kind_of(s@) == AccessorKind::Local ==> (r matches Ok(Accessor::Local(p)) && p@ == s@),
    {
        match Accessor::kind(s) {
            AccessorKind::Remote => match parse_url(s) {
                Some(u) => Ok(Accessor::Remote(u)),
                None => Err(AccessorError::BadUrl),
            },
            AccessorKind::ZipLocal => match archive {
                Some(bytes) => match open_archive(bytes) {
                    Some(zip) => Ok(Accessor::ZipLocal(s.to_owned(), zip)),
                    None => Err(AccessorError::BadArchive),
                },
                None => Err(AccessorError::BadArchive),
            },
            AccessorKind::Local => Ok(Accessor::Local(s.to_owned())),
        }
    }

    /// The underlying path or url.
    pub fn to_string(&self) -> (r: String)
        ensures
            self matches Accessor::Local(p) ==> r == p,
            self matches Accessor::ZipLocal(p, _) ==> r == p,
            self matches Accessor::Remote(u) ==> r@ == url_serialization(*u),
    {
        match self {
            Accessor::Local(p) => p.clone(),
            Accessor::Remote(u) => url_text(u),
            Accessor::ZipLocal(p, _) => p.clone(),
        }
    }

    /// The entries to list: an archive's names, or the local directory to
    /// read; a remote root cannot be listed.
    pub fn dir(&self) -> (r: Result<Listing, AccessorError>)
        ensures
            self is Remote <==> r == Err::<Listing, AccessorError>(AccessorError::Unsupported),
            self matches Accessor::Local(p) ==> (r matches Ok(Listing::Directory(d)) && d == p),
            self matches Accessor::ZipLocal(_, z) ==> (r matches Ok(Listing::Entries(n))
                && n@.map_values(|x: String| x@) == archive_entry_names(*z)),
    {
        match self {
            Accessor::ZipLocal(_, zip) => Ok(Listing::Entries(archive_names(zip))),
            Accessor::Local(p) => Ok(Listing::Directory(p.clone())),
            Accessor::Remote(_) => Err(AccessorError::Unsupported),
        }
    }

    /// Where the document at a relative path is read from: a file under the
    /// local directory, the text of the archive entry, or the joined url.
    pub fn document(&mut self, path: &str) -> (r: Result<Document, AccessorError>)
        ensures
            *old(self) matches Accessor::Local(base) ==> (r matches Ok(Document::File(f))
                && f@ == base@ + seq!['/'] + path@),
            *old(self) matches Accessor::ZipLocal(_, z) ==> ((r is Ok <==> archive_entry_text(z, path@) is Some)
                && (r is Ok ==> (r->Ok_0 matches Document::Text(t) && archive_entry_text(z, path@) == Some(t@)))
                && (r == Err::<Document, AccessorError>(AccessorError::EntryNotFound) <==> !archive_has_entry(z, path@))
                && (r matches Err(e) ==> e == AccessorError::EntryNotFound || e == AccessorError::BadEntry)),
            *old(self) matches Accessor::Remote(u) ==> ((r is Ok <==> join_accepted(u, path@))
                && (r is Ok ==> r->Ok_0 is Url) && (r matches Err(e) ==> e == AccessorError::BadUrl)),
            !(*old(self) is ZipLocal) ==> *final(self) == *old(self),
            *old(self) matches Accessor::ZipLocal(p, z) ==> (*final(self) matches Accessor::ZipLocal(p2, z2)
                && p2 == p && archive_entry_names(z2) == archive_entry_names(z)
                && forall|n: Seq<char>| #[trigger] archive_has_entry(z2, n) == archive_has_entry(z, n)
                && forall|n: Seq<char>| #[trigger] archive_entry_text(z2, n) == archive_entry_text(z, n)),
    {
        match self {
            Accessor::Local(base) => {
                let mut f = base.clone();
                proof {
                    reveal_strlit("/");
                }
                f.append("/");
                f.append(path);
                Ok(Document::File(f))
            },
            Accessor::ZipLocal(_, zip) => match archive_text(zip, path) {
                EntryRead::Text(t) => Ok(Document::Text(t)),
                EntryRead::Missing => Err(AccessorError::EntryNotFound),
                EntryRead::Unreadable => Err(AccessorError::BadEntry),
            },
            Accessor::Remote(u) => match join_url(u, path) {
                Some(j) => Ok(Document::Url(j)),
                None => Err(AccessorError::BadUrl),
            },
        }
    }
}

} // verus!
