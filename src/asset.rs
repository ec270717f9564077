//! The asset kinds that can be asked for by name, and the command line.
use vstd::prelude::*;

use crate::ascii::{eq_ignore_case, equals, equals_ignore_case};
use crate::error::DlError;

verus! {

/// A logical asset identifier; each names exactly one file of a release.
#[derive(Debug, Clone, Copy, PartialEq, Eq, Structural)]
pub enum AssetKind {
    OpenGl,
    ZipOpenGl,
    Vulkan,
    ZipVulkan,
}

/// The identifier of a kind as the command line spells it.
pub open spec fn kind_name(k: AssetKind) -> Seq<char> {
    match k {
        AssetKind::OpenGl => "OpenGl"@,
        AssetKind::ZipOpenGl => "ZipOpenGl"@,
        AssetKind::Vulkan => "Vulkan"@,
        AssetKind::ZipVulkan => "ZipVulkan"@,
    }
}

/// The release file that a kind stands for.
pub open spec fn kind_file(k: AssetKind) -> Seq<char> {
    match k {
        AssetKind::OpenGl => "zed-opengl.exe"@,
        AssetKind::ZipOpenGl => "zed-opengl.zip"@,
        AssetKind::Vulkan => "zed.exe"@,
        AssetKind::ZipVulkan => "zed.zip"@,
    }
}

/// All kinds, in the order in which help lists them.
pub open spec fn all_kinds() -> Seq<AssetKind> {
    seq![AssetKind::OpenGl, AssetKind::ZipOpenGl, AssetKind::Vulkan, AssetKind::ZipVulkan]
}

/// The kind whose identifier equals `s` but for ASCII case, trying them in
/// order.
pub open spec fn kind_of(s: Seq<char>) -> Option<AssetKind> {
    if eq_ignore_case(s, "OpenGl"@) {
        Some(AssetKind::OpenGl)
    } else if eq_ignore_case(s, "ZipOpenGl"@) {
        Some(AssetKind::ZipOpenGl)
    } else if eq_ignore_case(s, "Vulkan"@) {
        Some(AssetKind::Vulkan)
    } else if eq_ignore_case(s, "ZipVulkan"@) {
        Some(AssetKind::ZipVulkan)
    } else {
        None
    }
}

impl AssetKind {
    /// The identifier of this kind.
    pub fn name(&self) -> (r: &'static str)
        ensures
            r@ == kind_name(*self),
    {
        match self {
            AssetKind::OpenGl => "OpenGl",
            AssetKind::ZipOpenGl => "ZipOpenGl",
            AssetKind::Vulkan => "Vulkan",
            AssetKind::ZipVulkan => "ZipVulkan",
        }
    }

    /// The release file this kind stands for.
    pub fn file_name(&self) -> (r: &'static str)
        ensures
            r@ == kind_file(*self),
    {
        match self {
            AssetKind::OpenGl => "zed-opengl.exe",
            AssetKind::ZipOpenGl => "zed-opengl.zip",
            AssetKind::Vulkan => "zed.exe",
            AssetKind::ZipVulkan => "zed.zip",
        }
    }
}

/// All kinds, in the order in which help lists them.
pub fn kinds() -> (r: Vec<AssetKind>)
    ensures
        r@ == all_kinds(),
{
    let r = vec![AssetKind::OpenGl, AssetKind::ZipOpenGl, AssetKind::Vulkan, AssetKind::ZipVulkan];
    proof { assert(r@ =~= all_kinds()); }
    r
}

/// Reads an identifier, ignoring ASCII case.
pub fn parse_asset_kind(s: &str) -> (r: Result<AssetKind, DlError>)
    ensures
        match r {
            Ok(k) => kind_of(s@) == Some(k),
            Err(e) => kind_of(s@) is None && (match e {
                DlError::InvalidArgument(a) => a@ == s@,
                _ => false,
            }),
        },
{
    if equals_ignore_case(s, "OpenGl") {
        Ok(AssetKind::OpenGl)
    } else if equals_ignore_case(s, "ZipOpenGl") {
        Ok(AssetKind::ZipOpenGl)
    } else if equals_ignore_case(s, "Vulkan") {
        Ok(AssetKind::Vulkan)
    } else if equals_ignore_case(s, "ZipVulkan") {
        Ok(AssetKind::ZipVulkan)
    } else {
        Err(DlError::InvalidArgument(s.to_owned()))
    }
}

/// Identifiers that differ only in ASCII case name the same kind, and so the
/// same file.
pub proof fn lemma_kind_ignores_case(a: Seq<char>, b: Seq<char>)
    requires
        eq_ignore_case(a, b),
    ensures
        kind_of(a) == kind_of(b),
{
}

/// One line per identifier, each ended by a newline.
pub open spec fn kind_lines(ks: Seq<AssetKind>) -> Seq<char>
    decreases ks.len(),
{
    if ks.len() == 0 {
        Seq::empty()
    } else {
        kind_lines(ks.drop_last()) + kind_name(ks.last()) + "\n"@
    }
}

/// The usage text: a usage line, then every identifier.
pub open spec fn usage_text() -> Seq<char> {
    "zed-dl <ASSET>\n\nAsset types are as follows (case-insensitive):\n"@ + kind_lines(all_kinds())
}

/// The usage text that `--help` prints.
pub fn help_message() -> (r: String)
    ensures
        r@ == usage_text(),
{
    let mut msg = String::from_str("zed-dl <ASSET>\n\nAsset types are as follows (case-insensitive):\n");
    let ghost head = msg@;
    let ks = kinds();
    let mut i: usize = 0;
    while i < ks.len()
        invariant
            ks@ == all_kinds(),
            i <= ks@.len(),
            msg@ == head + kind_lines(ks@.subrange(0, i as int)),
        decreases ks@.len() - i,
    {
        msg.append(ks[i].name());
        msg.append("\n");
        proof {
            assert(ks@.subrange(0, i + 1 as int).drop_last() =~= ks@.subrange(0, i as int));
            assert(msg@ =~= head + kind_lines(ks@.subrange(0, i + 1 as int)));
        }
        i = i + 1;
    }
    proof { assert(ks@.subrange(0, ks@.len() as int) =~= ks@); }
    msg
}

/// Which asset of the latest release to fetch.
#[derive(Debug, Clone, Copy, PartialEq, Eq, Structural)]
pub enum Selection {
    /// The first asset listed.
    First,
    /// The asset whose name is the kind's file name, ignoring ASCII case.
    Kind(AssetKind),
}

/// What one invocation does.
#[derive(Debug, Clone, Copy, PartialEq, Eq, Structural)]
pub enum Command {
    /// Print the usage text; touch no network.
    Help,
    /// Fetch and unpack one asset.
    Download(Selection),
}

/// Whether an argument asks for help.
pub open spec fn is_help_flag(s: Seq<char>) -> bool {
    s == "--help"@ || s == "-h"@
}

/// Reads the first command-line argument: none fetches the first asset, a
/// help flag asks for help, anything else must be an identifier.
pub fn parse_command(arg: Option<&str>) -> (r: Result<Command, DlError>)
    ensures
        arg is None ==> r == Ok::<Command, DlError>(Command::Download(Selection::First)),
        arg is Some && is_help_flag(arg.unwrap()@) ==> r == Ok::<Command, DlError>(Command::Help),
        arg is Some && !is_help_flag(arg.unwrap()@) ==> match kind_of(arg.unwrap()@) {
            Some(k) => r == Ok::<Command, DlError>(Command::Download(Selection::Kind(k))),
            None => match r {
                Err(DlError::InvalidArgument(a)) => a@ == arg.unwrap()@,
                _ => false,
            },
        },
{
    match arg {
        None => Ok(Command::Download(Selection::First)),
        Some(s) => {
            if equals(s, "--help") || equals(s, "-h") {
                Ok(Command::Help)
            } else {
                match parse_asset_kind(s) {
                    Ok(k) => Ok(Command::Download(Selection::Kind(k))),
                    Err(e) => Err(e),
                }
            }
        },
    }
}

} // verus!
