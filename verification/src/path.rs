//! The few operations on paths that the log needs.

use std::path::{Path, PathBuf};
use vstd::prelude::*;
use vstd::string::StrSliceExecFns;
use vstd::utf8::{
    char_is_scalar, char_u32_cast, encode_scalar, encode_utf8, encode_utf8_decode_utf8, is_scalar,
};

use crate::error::{ErrorView, RayforceAdapterError};

verus! {

/// `std::path::PathBuf`, carried unopened.
#[verifier::external_type_specification]
#[verifier::external_body]
pub struct ExPathBuf(std::path::PathBuf);

/// `std::path::Path`, carried unopened.
#[verifier::external_type_specification]
#[verifier::external_body]
pub struct ExPath(std::path::Path);

/// `base` with the relative name `name` adjoined, as paths are written on the
/// platform that the library is built for.
pub uninterp spec fn path_joined(base: PathBuf, name: Seq<char>) -> PathBuf;

/// `path` with its extension replaced by `extension`.
pub uninterp spec fn path_with_extension(path: PathBuf, extension: Seq<char>) -> PathBuf;

/// The text of `path`, with what is not Unicode replaced.
pub uninterp spec fn path_lossy(path: PathBuf) -> Seq<char>;

/// What the text of every path right under `base` begins with: all of it but the
/// name that was joined.
pub uninterp spec fn path_under(base: PathBuf) -> Seq<char>;

/// The path that `path` borrows: what a `Path` is known by.
pub uninterp spec fn path_owned(path: &Path) -> PathBuf;

/// `PathBuf::clone` gives the same path.
pub assume_specification[ <PathBuf as Clone>::clone ](path: &PathBuf) -> (res: PathBuf)
    ensures
        res == *path,
;

/// `PathBuf::as_path` borrows the path unchanged.
pub assume_specification[ PathBuf::as_path ](path: &PathBuf) -> (res: &Path)
    ensures
        path_owned(res) == *path,
;

/// `From` of a type for itself hands its argument back: so a `PathBuf` converts
/// into itself.
pub assume_specification<T>[ <T as From<T>>::from ](value: T) -> (res: T)
    ensures
        res == value,
;

/// Whether `name` is made of the letters `a` to `z` alone.
pub open spec fn plain_stem(name: Seq<char>) -> bool {
    name.len() > 0 && forall|i: int| 0 <= i < name.len() ==> 'a' <= #[trigger] name[i] <= 'z'
}

/// Whether `name` begins with a letter from `a` to `z` and is made of such letters
/// and points.
pub open spec fn plain_name(name: Seq<char>) -> bool {
    &&& name.len() > 0
    &&& 'a' <= name[0] <= 'z'
    &&& forall|i: int|
        0 <= i < name.len() ==> ('a' <= #[trigger] name[i] <= 'z' || name[i] == '.')
}

/// Whether the last component of `path` was joined and is a plain stem.
pub open spec fn ends_in_stem(path: PathBuf) -> bool {
    exists|base: PathBuf, name: Seq<char>|
        path == #[trigger] path_joined(base, name) && plain_stem(name)
}

/// Calls `Path::join`: the base path with `name` adjoined. A plain name is one
/// more component at the end: the text of the path is a part that depends on the
/// base alone, followed by the name, and it is not the text of the base.
#[verifier::external_body]
pub(crate) fn join(base: &PathBuf, name: &str) -> (res: PathBuf)
    ensures
        res == path_joined(*base, name@),
        plain_name(name@) ==> path_lossy(res) == path_under(*base) + name@,
        plain_name(name@) ==> path_lossy(res) != path_lossy(*base),
{
    base.join(name)
}

/// Calls `Path::with_extension`: a path like `path` but with that extension. To a
/// last component without an extension it is added, behind a point. The call
/// panics on an extension with a path separator, so none may be in it.
#[verifier::external_body]
pub(crate) fn with_extension(path: &PathBuf, extension: &str) -> (res: PathBuf)
    requires
        !extension@.contains('/'),
        !extension@.contains('\\'),
    ensures
        res == path_with_extension(*path, extension@),
        ends_in_stem(*path) && plain_stem(extension@) ==> path_lossy(res) == path_lossy(*path)
            + seq!['.'] + extension@,
{
    path.with_extension(extension)
}

/// Calls `Path::to_string_lossy`: the path as text.
#[verifier::external_body]
pub(crate) fn lossy(path: &PathBuf) -> (res: String)
    ensures
        res@ == path_lossy(*path),
{
    path.to_string_lossy().into_owned()
}

/// The bytes that a C function is handed for `path`: its text in UTF-8 and a
/// closing zero.
pub open spec fn c_bytes(path: PathBuf) -> Seq<u8> {
    encode_utf8(path_lossy(path)).push(0)
}

/// Whether the text of `path` can be a C string: no byte of it is zero.
pub open spec fn c_safe(path: PathBuf) -> bool {
    !encode_utf8(path_lossy(path)).contains(0)
}

/// The encoding of a character has a zero byte only if it is the character zero.
proof fn lemma_scalar_zero(scalar: u32)
    requires
        is_scalar(scalar),
    ensures
        encode_scalar(scalar).contains(0) <==> scalar == 0,
{
    let bytes = encode_scalar(scalar);
    assert(scalar <= 0x7F ==> ((scalar & 0x7F) as u8 == 0 <==> scalar == 0)) by (bit_vector);
    assert(0xC0 | ((scalar >> 6) & 0x1F) as u8 != 0) by (bit_vector);
    assert(0xE0 | ((scalar >> 12) & 0x0F) as u8 != 0) by (bit_vector);
    assert(0xF0 | ((scalar >> 18) & 0x7) as u8 != 0) by (bit_vector);
    assert(0x80 | (scalar & 0x3F) as u8 != 0) by (bit_vector);
    assert(0x80 | ((scalar >> 6) & 0x3F) as u8 != 0) by (bit_vector);
    assert(0x80 | ((scalar >> 12) & 0x3F) as u8 != 0) by (bit_vector);
    if scalar == 0 {
        assert(bytes[0] == 0);
    }
}

/// The encoding of a text has a zero byte exactly if the text has the character
/// zero.
proof fn lemma_text_zero(text: Seq<char>)
    ensures
        encode_utf8(text).contains(0) <==> text.contains('\0'),
    decreases text.len(),
{
    if text.len() > 0 {
        let first = encode_scalar(text[0] as u32);
        let rest = text.drop_first();
        let all = encode_utf8(text);
        char_is_scalar(text[0]);
        lemma_scalar_zero(text[0] as u32);
        char_u32_cast(text[0], text[0] as u32);
        char_u32_cast('\0', 0);
        lemma_text_zero(rest);
        if all.contains(0) {
            let k = all.index_of(0);
            if k < first.len() {
                assert(first[k] == 0);
                assert(text[0] == '\0');
            } else {
                assert(encode_utf8(rest)[k - first.len()] == 0);
                let j = rest.index_of('\0');
                assert(text[j + 1] == '\0');
            }
        }
        if text.contains('\0') {
            let j = text.index_of('\0');
            if j == 0 {
                let k = first.index_of(0);
                assert(all[k] == 0);
            } else {
                assert(rest[j - 1] == '\0');
                let k = encode_utf8(rest).index_of(0);
                assert(all[first.len() + k] == 0);
            }
        }
    }
}

/// A path can be a C string exactly if its text has no character zero.
pub(crate) proof fn lemma_c_safe(path: PathBuf)
    ensures
        c_safe(path) <==> !path_lossy(path).contains('\0'),
{
    lemma_text_zero(path_lossy(path));
}

/// Paths with different texts are handed to C as different bytes.
pub(crate) proof fn lemma_c_bytes_differ(a: PathBuf, b: PathBuf)
    requires
        path_lossy(a) != path_lossy(b),
    ensures
        c_bytes(a) != c_bytes(b),
{
    encode_utf8_decode_utf8(path_lossy(a));
    encode_utf8_decode_utf8(path_lossy(b));
    if c_bytes(a) == c_bytes(b) {
        assert(c_bytes(a).drop_last() == encode_utf8(path_lossy(a)));
        assert(c_bytes(b).drop_last() == encode_utf8(path_lossy(b)));
    }
}

/// The bytes that a C function is handed for `path`.
pub(crate) fn c_string(path: &PathBuf) -> (res: Vec<u8>)
    ensures
        res@ == c_bytes(*path),
{
    let mut bytes = lossy(path).as_str().as_bytes_vec();
    bytes.push(0);
    bytes
}

/// Turns `path` into the bytes of a C string, or refuses it for a zero byte
/// inside.
pub fn path_to_cstring(path: &PathBuf) -> (res: Result<Vec<u8>, RayforceAdapterError>)
    ensures
        match res {
            Ok(bytes) => c_safe(*path) && bytes@ == c_bytes(*path),
            Err(err) => !c_safe(*path) && err@ == ErrorView::NulPath(path_lossy(*path)),
        },
{
    let bytes = c_string(path);
    let len: usize = bytes.len() - 1;
    let ghost text = encode_utf8(path_lossy(*path));
    let mut at: usize = 0;
    while at < len
        invariant
            at <= len,
            len == text.len(),
            bytes@ == text.push(0),
            text == encode_utf8(path_lossy(*path)),
            forall|i: int| 0 <= i < at ==> text[i] != 0,
        decreases len - at,
    {
        if bytes[at] == 0 {
            assert(text[at as int] == 0);
            return Err(RayforceAdapterError::NulPath(lossy(path)));
        }
        at = at + 1;
    }
    Ok(bytes)
}

} // verus!
