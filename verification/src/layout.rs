//! Where the bundled interpreter and script live below the resource root.

use std::path::PathBuf;
use vstd::prelude::*;
use vstd::utf8::encode_utf8;

verus! {

/// `std::path::PathBuf`, carried through as an opaque value.
#[verifier::external_type_specification]
#[verifier::external_body]
pub struct ExPathBuf(PathBuf);

/// The bytes a path holds, as `OsStr::as_encoded_bytes` reports them.
pub uninterp spec fn path_bytes(path: PathBuf) -> Seq<u8>;

/// The bytes of the path that `Path::join` builds from a base with these bytes
/// and a further part, under the path rules of the platform the library is
/// built for.
pub uninterp spec fn joined_bytes(base: Seq<u8>, part: Seq<char>) -> Seq<u8>;

/// The text that a path with these bytes shows when formatted with `{:?}`:
/// quoted, with escapes.
pub uninterp spec fn quoted_text(bytes: Seq<u8>) -> Seq<char>;

/// `PathBuf::from` on text: the path holds the text's UTF-8 bytes.
#[verifier::external_body]
pub(crate) fn path_from(text: &str) -> (path: PathBuf)
    ensures
        path_bytes(path) == encode_utf8(text@),
{
    PathBuf::from(text)
}

/// `Debug` formatting of a path: the text is determined by the path's bytes.
#[verifier::external_body]
pub(crate) fn quoted(path: &PathBuf) -> (text: String)
    ensures
        text@ == quoted_text(path_bytes(*path)),
{
    format!("{:?}", path)
}

/// `Path::join`: the result is determined by the bytes of the base and by the
/// part adjoined; nothing else is claimed of it.
#[verifier::external_body]
fn join(base: &PathBuf, part: &str) -> (joined: PathBuf)
    ensures
        path_bytes(joined) == joined_bytes(path_bytes(*base), part@),
{
    base.join(part)
}

/// Directory of the bundled interpreter, below the resource root.
pub const INTERPRETER_DIR: &'static str = "python";

/// File name of the bundled interpreter.
pub const INTERPRETER_FILE: &'static str = "pythonw.exe";

/// Directory of the bundled script, below the resource root.
pub const SCRIPT_DIR: &'static str = "src-python";

/// File name of the bundled script.
pub const SCRIPT_FILE: &'static str = "video_processor.py";

/// Bytes of the interpreter's path below a root with the given bytes.
pub open spec fn interpreter_below(root: Seq<u8>) -> Seq<u8> {
    joined_bytes(joined_bytes(root, INTERPRETER_DIR@), INTERPRETER_FILE@)
}

/// Bytes of the script's path below a root with the given bytes.
pub open spec fn script_below(root: Seq<u8>) -> Seq<u8> {
    joined_bytes(joined_bytes(root, SCRIPT_DIR@), SCRIPT_FILE@)
}

/// Path of the bundled interpreter below `root`.
pub fn interpreter_path(root: &PathBuf) -> (path: PathBuf)
    ensures
        path_bytes(path) == interpreter_below(path_bytes(*root)),
{
    let dir = join(root, INTERPRETER_DIR);
    join(&dir, INTERPRETER_FILE)
}

/// Path of the bundled script below `root`.
pub fn script_path(root: &PathBuf) -> (path: PathBuf)
    ensures
        path_bytes(path) == script_below(path_bytes(*root)),
{
    let dir = join(root, SCRIPT_DIR);
    join(&dir, SCRIPT_FILE)
}

} // verus!
