//! Where the database lives.

use vstd::prelude::*;

use crate::text::{chars_of, same_text};

verus! {

/// The database the service is built for.
#[derive(Debug, Clone, Copy, PartialEq, Eq, Structural)]
pub enum Backend {
    Sqlite,
    Postgres,
}

/// `url` without a leading `sqlite://`, if it has one.
pub open spec fn without_sqlite_scheme(url: Seq<char>) -> Seq<char> {
    let scheme = "sqlite://"@;
    if url.len() >= scheme.len() && url.subrange(0, scheme.len() as int) == scheme {
        url.subrange(scheme.len() as int, url.len() as int)
    } else {
        url
    }
}

/// Taking the scheme off removes exactly the nine characters of
/// `sqlite://` and nothing else: put back in front, they give the URL; a
/// URL without that prefix is left as it is.
pub proof fn lemma_sqlite_scheme_removed(url: Seq<char>)
    ensures
        "sqlite://"@.is_prefix_of(url) ==> "sqlite://"@ + without_sqlite_scheme(url) == url,
        !"sqlite://"@.is_prefix_of(url) ==> without_sqlite_scheme(url) == url,
{
    let scheme = "sqlite://"@;
    if scheme.is_prefix_of(url) {
        assert(url.subrange(0, scheme.len() as int) =~= scheme);
        assert(scheme + url.subrange(scheme.len() as int, url.len() as int) =~= url);
    } else {
        if url.len() >= scheme.len() && url.subrange(0, scheme.len() as int) == scheme {
            assert(scheme =~= url.subrange(0, scheme.len() as int));
        }
    }
}

/// What `std::path::Path::parent` gives for `path`, read back as text:
/// the path without its last component, or `None` when `path` ends in a
/// root or prefix or is empty.
pub uninterp spec fn path_parent(path: Seq<char>) -> Option<Seq<char>>;

/// `std::path::Path::new(path).parent()`, the parent read back as text by
/// `Path::to_str` (a parent of UTF-8 text is UTF-8 text). Claimed: the
/// result is `path_parent(path)`, which depends on `path` alone.
#[verifier::external_body]
fn parent_of(path: &str) -> (r: Option<String>)
    ensures
        match r {
            Some(p) => path_parent(path@) == Some(p@),
            None => path_parent(path@) is None,
        },
{
    match std::path::Path::new(path).parent() {
        Some(parent) => match parent.to_str() {
            Some(text) => Some(text.to_owned()),
            None => None,
        },
        None => None,
    }
}

/// The directory to create before opening the SQLite file at `path`: its
/// parent, where it has one that is not empty (the driver does not create
/// missing directories).
pub fn database_dir(path: &str) -> (r: Option<String>)
    ensures
        match path_parent(path@) {
            Some(p) => if p.len() > 0 {
                r matches Some(d) && d@ == p
            } else {
                r is None
            },
            None => r is None,
        },
{
    match parent_of(path) {
        Some(parent) => {
            if parent.as_str().is_empty() {
                None
            } else {
                Some(parent)
            }
        },
        None => None,
    }
}

/// What the database driver is given for `DATABASE_URL`: for SQLite the
/// file's path, the `sqlite://` prefix (there only so that the setting looks
/// like a URL) taken off; for Postgres the URL as it is.
pub fn resolve_database_url(backend: Backend, database_url: &str) -> (r: String)
    ensures
        backend == Backend::Sqlite && "sqlite://"@.is_prefix_of(database_url@) ==> "sqlite://"@
            + r@ == database_url@,
        backend == Backend::Sqlite && !"sqlite://"@.is_prefix_of(database_url@) ==> r@
            == database_url@,
        backend == Backend::Sqlite ==> r@ == without_sqlite_scheme(database_url@),
        backend == Backend::Postgres ==> r@ == database_url@,
{
    proof {
        lemma_sqlite_scheme_removed(database_url@);
    }
    match backend {
        Backend::Postgres => database_url.to_owned(),
        Backend::Sqlite => {
            let scheme = "sqlite://";
            let scheme_len = scheme.unicode_len();
            let url = chars_of(database_url);
            if url.len() >= scheme_len && same_text(
                database_url.substring_char(0, scheme_len),
                scheme,
            ) {
                String::from_str(database_url.substring_char(scheme_len, url.len()))
            } else {
                database_url.to_owned()
            }
        },
    }
}

} // verus!
