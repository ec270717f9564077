//! The ways a run can fail.
use vstd::prelude::*;

verus! {

/// Every failure is fatal to a run; this names which one it was.
#[derive(Debug, Clone, PartialEq, Eq)]
pub enum DlError {
    /// The release API or the download failed.
    Network,
    /// No release, an empty asset list, or no asset of the wanted name.
    NotFound,
    /// The command-line identifier names no asset kind; holds it.
    InvalidArgument(String),
    /// The asset's file name has no extension.
    InvalidFormat,
    /// The extension is neither an archive nor an executable; holds it.
    UnsupportedFormat(String),
    /// The downloaded bytes are not a valid archive.
    CorruptArchive,
    /// Writing a file failed.
    Io,
    /// The release notes hold a construct without a translation.
    UnknownMarkup,
}

} // verus!
