//! Paths as text with `/` between components.

use vstd::prelude::*;
use crate::model::Model;
use crate::text::{join2, to_chars};

verus! {

/// What `Path::parent` gives for a path, as text.
pub uninterp spec fn path_parent(path: Seq<char>) -> Option<Seq<char>>;

/// What `Path::file_name` gives for a path, as text.
pub uninterp spec fn path_file_name(path: Seq<char>) -> Option<Seq<char>>;

/// What `String::from_utf8` makes of bytes: the text, or `None` where they
/// are not valid UTF-8.
pub uninterp spec fn strict_text(bytes: Seq<u8>) -> Option<Seq<char>>;

/// Calls `Path::parent` on the path and turns the result into text. The
/// result is named `path_parent`.
#[verifier::external_body]
pub(crate) fn parent_of(path: &str) -> (r: Option<String>)
    ensures
        r.model() == path_parent(path@),
{
    match std::path::Path::new(path).parent() {
        Some(p) => Some(p.to_string_lossy().into_owned()),
        None => None,
    }
}

/// Calls `Path::file_name` on the path and turns the result into text. The
/// result is named `path_file_name`.
#[verifier::external_body]
pub(crate) fn file_name_of(path: &str) -> (r: Option<String>)
    ensures
        r.model() == path_file_name(path@),
{
    match std::path::Path::new(path).file_name() {
        Some(n) => Some(n.to_string_lossy().into_owned()),
        None => None,
    }
}

/// Calls `String::from_utf8` on a copy of the bytes. The result is named
/// `strict_text`; an error becomes `None`.
#[verifier::external_body]
pub(crate) fn decode_strict(bytes: &Vec<u8>) -> (r: Option<String>)
    ensures
        r.model() == strict_text(bytes@),
{
    match String::from_utf8(bytes.clone()) {
        Ok(s) => Some(s),
        Err(_) => None,
    }
}

/// `name` adjoined to `base`: a name that begins with `/` stands alone;
/// else it follows the base, after a `/` where the base is not empty and
/// does not end with one.
pub open spec fn joined_path(base: Seq<char>, name: Seq<char>) -> Seq<char> {
    if name.len() > 0 && name[0] == '/' {
        name
    } else if base.len() == 0 || base.last() == '/' {
        base + name
    } else {
        base + "/"@ + name
    }
}

/// `name` adjoined to `base`.
pub fn join_path(base: &str, name: &str) -> (r: String)
    ensures
        r@ == joined_path(base@, name@),
{
    let b = to_chars(base);
    let n = to_chars(name);
    if n.len() > 0 && n[0] == '/' {
        return name.to_owned();
    }
    if b.len() == 0 || b[b.len() - 1] == '/' {
        join2(base, name)
    } else {
        let head = join2(base, "/");
        join2(head.as_str(), name)
    }
}

} // verus!
