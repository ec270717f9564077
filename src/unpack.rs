//! How a downloaded asset is unpacked, decided from its name and bytes.
use vstd::prelude::*;
use vstd::string::*;

use crate::ascii::{eq_ignore_case, equals_ignore_case};
use crate::error::DlError;

verus! {

/// The position of the last `.` in `s`, or -1 where there is none.
pub open spec fn last_dot(s: Seq<char>) -> int
    decreases s.len(),
{
    if s.len() == 0 {
        -1
    } else if s.last() == '.' {
        s.len() - 1
    } else {
        last_dot(s.drop_last())
    }
}

/// The text after the last `.` of a file name; `None` where it has no `.`.
pub open spec fn extension(s: Seq<char>) -> Option<Seq<char>> {
    if last_dot(s) < 0 {
        None
    } else {
        Some(s.subrange(last_dot(s) + 1, s.len() as int))
    }
}

/// How an asset is handled.
#[derive(Debug, Clone, Copy, PartialEq, Eq, Structural)]
pub enum UnpackKind {
    /// A zip archive: every entry is extracted.
    Archive,
    /// An executable: the bytes are written under the asset's name.
    Executable,
}

/// The handler for an extension, ignoring ASCII case; `None` where none fits.
pub open spec fn route(ext: Seq<char>) -> Option<UnpackKind> {
    if eq_ignore_case(ext, "zip"@) {
        Some(UnpackKind::Archive)
    } else if eq_ignore_case(ext, "exe"@) {
        Some(UnpackKind::Executable)
    } else {
        None
    }
}

proof fn lemma_last_dot_prefix(s: Seq<char>, i: int)
    requires
        0 <= i <= s.len(),
        forall|j: int| i <= j < s.len() ==> s[j] != '.',
    ensures
        last_dot(s) == last_dot(s.subrange(0, i)),
        -1 <= last_dot(s) < s.len(),
    decreases s.len(),
{
    if i == s.len() {
        assert(s.subrange(0, i) =~= s);
        lemma_last_dot_range(s);
    } else {
        assert(s.drop_last().subrange(0, i) =~= s.subrange(0, i));
        lemma_last_dot_prefix(s.drop_last(), i);
    }
}

proof fn lemma_last_dot_range(s: Seq<char>)
    ensures
        -1 <= last_dot(s) < s.len(),
    decreases s.len(),
{
    if s.len() > 0 {
        lemma_last_dot_range(s.drop_last());
    }
}

/// The extension of a file name: the text after its last `.`.
pub fn extension_of(name: &str) -> (r: Option<String>)
    ensures
        match r {
            Some(e) => extension(name@) == Some(e@),
            None => extension(name@) is None,
        },
{
    let n = name.unicode_len();
    let mut i: usize = n;
    while i > 0
        invariant
            i <= n == name@.len(),
            forall|j: int| i <= j < n ==> name@[j] != '.',
        decreases i,
    {
        if name.get_char(i - 1) == '.' {
            proof {
                lemma_last_dot_prefix(name@, i as int);
                assert(name@.subrange(0, i as int).last() == '.');
            }
            let e = name.substring_char(i, n).to_owned();
            return Some(e);
        }
        i = i - 1;
    }
    proof {
        lemma_last_dot_prefix(name@, 0);
    }
    None
}

/// Decides how an asset is handled from its name: by its extension, `zip`
/// or `exe` in any ASCII case.
pub fn classify(name: &str) -> (r: Result<UnpackKind, DlError>)
    ensures
        match extension(name@) {
            None => r == Err::<UnpackKind, DlError>(DlError::InvalidFormat),
            Some(e) => match route(e) {
                Some(k) => r == Ok::<UnpackKind, DlError>(k),
                None => match r {
                    Err(DlError::UnsupportedFormat(x)) => x@ == e,
                    _ => false,
                },
            },
        },
{
    match extension_of(name) {
        None => Err(DlError::InvalidFormat),
        Some(e) => {
            if equals_ignore_case(e.as_str(), "zip") {
                Ok(UnpackKind::Archive)
            } else if equals_ignore_case(e.as_str(), "exe") {
                Ok(UnpackKind::Executable)
            } else {
                Err(DlError::UnsupportedFormat(e))
            }
        },
    }
}

/// The entry names that the zip crate reads from an archive, in the order of
/// its central directory; `None` where the bytes are no archive.
pub uninterp spec fn zip_entry_names(data: Seq<u8>) -> Option<Seq<Seq<char>>>;

/// The views of a list of texts.
pub open spec fn views(v: Seq<String>) -> Seq<Seq<char>> {
    v.map_values(|s: String| s@)
}

/// Relies on zip::ZipArchive::new, which reads an archive from its bytes or
/// fails, and on ZipArchive::file_names, which lists its entries.
#[verifier::external_body]
fn read_zip_names(data: &[u8]) -> (r: Option<Vec<String>>)
    ensures
        match r {
            Some(v) => zip_entry_names(data@) == Some(views(v@)),
            None => zip_entry_names(data@) is None,
        },
{
    match zip::ZipArchive::new(std::io::Cursor::new(data)) {
        Ok(z) => Some(z.file_names().map(String::from).collect()),
        Err(_) => None,
    }
}

/// What unpacking an asset will produce.
#[derive(Debug, Clone, PartialEq, Eq)]
pub enum Unpack {
    /// Extract an archive holding these entries.
    Archive(Vec<String>),
    /// Write the bytes to a file of this name.
    Executable(String),
}

/// Decides how an asset is unpacked, and for an archive reads which entries
/// it holds.
pub fn plan_unpack(name: &str, data: &[u8]) -> (r: Result<Unpack, DlError>)
    ensures
        match extension(name@) {
            None => r == Err::<Unpack, DlError>(DlError::InvalidFormat),
            Some(e) => match route(e) {
                Some(UnpackKind::Archive) => match zip_entry_names(data@) {
                    Some(names) => match r {
                        Ok(Unpack::Archive(v)) => views(v@) == names,
                        _ => false,
                    },
                    None => r == Err::<Unpack, DlError>(DlError::CorruptArchive),
                },
                Some(UnpackKind::Executable) => match r {
                    Ok(Unpack::Executable(f)) => f@ == name@,
                    _ => false,
                },
                None => match r {
                    Err(DlError::UnsupportedFormat(x)) => x@ == e,
                    _ => false,
                },
            },
        },
{
    match classify(name) {
        Err(e) => Err(e),
        Ok(UnpackKind::Archive) => match read_zip_names(data) {
            Some(v) => Ok(Unpack::Archive(v)),
            None => Err(DlError::CorruptArchive),
        },
        Ok(UnpackKind::Executable) => Ok(Unpack::Executable(name.to_owned())),
    }
}

} // verus!
