//! What the dashboard's static file server decides: which file a request
//! names and which headers go with it. Reading files stays with the caller.
use crate::tags::starts_with;
use crate::text::{chars_of, find, find_in};
use std::path::PathBuf;
use std::sync::Arc;
use vstd::prelude::*;
use vstd::string::StrSliceExecFns;
use vstd::string::StringExecFns;

verus! {

#[verifier::external_type_specification]
#[verifier::external_body]
pub struct ExPathBuf(std::path::PathBuf);

/// Where the dashboard's files are looked for first, if anywhere.
#[derive(Clone)]
pub struct WebDirConfig {
    pub web_dir: Arc<Option<PathBuf>>,
}

impl WebDirConfig {
    pub fn new(web_dir: Option<PathBuf>) -> (r: Self)
        ensures
            *r.web_dir == web_dir,
    {
        WebDirConfig { web_dir: Arc::new(web_dir) }
    }
}

/// The first candidate that is a directory.
pub open spec fn first_directory(cands: Seq<(PathBuf, bool)>) -> Option<PathBuf>
    decreases cands.len(),
{
    if cands.len() == 0 {
        None
    } else if cands[0].1 {
        Some(cands[0].0)
    } else {
        first_directory(cands.drop_first())
    }
}

/// The configuration that serves from the first candidate directory, each
/// candidate given with whether it is a directory; none where no candidate
/// is one.
pub fn pick_web_dir(candidates: Vec<(PathBuf, bool)>) -> (r: WebDirConfig)
    ensures
        *r.web_dir == first_directory(candidates@),
{
    let ghost all = candidates@;
    let mut cands = candidates;
    assert(cands@ == all);
    let mut i: usize = 0;
    assert(all.skip(0) =~= all);
    while i < cands.len()
        invariant
            i <= cands@.len(),
            cands@ == all,
            candidates@ == all,
            first_directory(all) == first_directory(all.skip(i as int)),
        decreases cands.len() - i,
    {
        assert(all.skip(i as int).drop_first() =~= all.skip(i + 1));
        if cands[i].1 {
            assert(all.skip(i as int)[0] == all[i as int]);
            assert(first_directory(all) == Some(all[i as int].0));
            let (dir, _) = cands.remove(i);
            assert(dir == all[i as int].0);
            return WebDirConfig::new(Some(dir));
        }
        i = i + 1;
    }
    assert(all.skip(i as int) =~= Seq::<(PathBuf, bool)>::empty());
    WebDirConfig::new(None)
}

/// What `mime_guess::from_path(p).first_or_octet_stream()` names for a path.
pub uninterp spec fn mime_of(path: Seq<char>) -> Seq<char>;

/// Relies on `mime_guess::from_path` and `MimeGuess::first_or_octet_stream`:
/// the type guessed from the path's extension, `application/octet-stream`
/// where there is none.
#[verifier::external_body]
fn mime_type(path: &str) -> (r: String)
    ensures
        r@ == mime_of(path@),
{
    mime_guess::from_path(path).first_or_octet_stream().to_string()
}

/// The prefix under which the dashboard's assets are requested.
pub open spec fn app_prefix() -> Seq<char> {
    "/_app/"@
}

/// The file that a request under the assets prefix names: the path without
/// the prefix, or the whole path where it lacks it.
pub open spec fn asset_path(uri_path: Seq<char>) -> Seq<char> {
    if starts_with(uri_path, app_prefix()) {
        uri_path.skip(app_prefix().len() as int)
    } else {
        uri_path
    }
}

/// A requested path relative to a web directory: without one leading `/`.
pub open spec fn relative_path(path: Seq<char>) -> Seq<char> {
    if path.len() > 0 && path[0] == '/' {
        path.skip(1)
    } else {
        path
    }
}

/// Files under `assets/` never change and are cached for a year; others
/// are revalidated.
pub open spec fn cache_policy(path: Seq<char>) -> Seq<char> {
    if find(path, "assets/"@) is Some {
        "public, max-age=31536000, immutable"@
    } else {
        "no-cache"@
    }
}

/// The file that a request under the assets prefix names.
pub fn app_asset_path(uri_path: &str) -> (r: String)
    ensures
        r@ == asset_path(uri_path@),
{
    let cs = chars_of(uri_path);
    let prefix = chars_of("/_app/");
    if prefix.len() <= cs.len() && crate::text::matches_at(&cs, 0, &prefix) {
        assert(cs@.take(prefix@.len() as int) =~= cs@.subrange(0, prefix@.len() as int));
        String::from_str(uri_path.substring_char(prefix.len(), cs.len()))
    } else {
        proof {
            if prefix@.len() <= cs@.len() {
                assert(cs@.take(prefix@.len() as int) =~= cs@.subrange(0, prefix@.len() as int));
            }
        }
        String::from_str(uri_path)
    }
}

/// A requested path relative to a web directory.
pub fn relative_file_path(path: &str) -> (r: String)
    ensures
        r@ == relative_path(path@),
{
    let cs = chars_of(path);
    if cs.len() > 0 && cs[0] == '/' {
        String::from_str(path.substring_char(1, cs.len()))
    } else {
        String::from_str(path)
    }
}

/// The `Cache-Control` value for a requested path.
pub fn cache_control(path: &str) -> (r: &'static str)
    ensures
        r@ == cache_policy(path@),
{
    let cs = chars_of(path);
    let assets = chars_of("assets/");
    assert(cs@.subrange(0, cs@.len() as int) =~= cs@);
    if find_in(&cs, 0, cs.len(), &assets).is_some() {
        "public, max-age=31536000, immutable"
    } else {
        "no-cache"
    }
}

/// The headers that go with a file.
#[derive(Debug, Clone)]
pub struct FileHeaders {
    pub content_type: String,
    pub cache_control: String,
}

/// The headers for the file at `file_path`, served for the request path
/// `path`: its type by extension, and its caching by the request path.
pub fn file_headers(file_path: &str, path: &str) -> (r: FileHeaders)
    ensures
        r.content_type@ == mime_of(file_path@),
        r.cache_control@ == cache_policy(path@),
{
    FileHeaders {
        content_type: mime_type(file_path),
        cache_control: String::from_str(cache_control(path)),
    }
}

} // verus!
