//! A release as the hosting API describes it, and the choice of one asset.
use vstd::prelude::*;

use crate::ascii::{eq_ignore_case, equals_ignore_case};
use crate::asset::{kind_file, Selection};
use crate::error::DlError;
use crate::markup::{cmark_events, render_body, rendered};

verus! {

/// A downloadable file attached to a release.
#[derive(Debug, Clone, PartialEq, Eq)]
pub struct ReleaseAsset {
    pub name: String,
    pub download_url: String,
}

/// The latest published release of a repository.
#[derive(Debug, Clone, PartialEq, Eq)]
pub struct Release {
    pub tag: String,
    pub body: Option<String>,
    pub assets: Vec<ReleaseAsset>,
}

/// Whether some asset's name equals `file` but for ASCII case.
pub open spec fn has_match(assets: Seq<ReleaseAsset>, file: Seq<char>) -> bool {
    exists|i: int| 0 <= i < assets.len() && eq_ignore_case(#[trigger] assets[i].name@, file)
}

/// Whether asset `i` is the first whose name equals `file` but for ASCII case.
pub open spec fn is_first_match(assets: Seq<ReleaseAsset>, file: Seq<char>, i: int) -> bool {
    &&& 0 <= i < assets.len()
    &&& eq_ignore_case(assets[i].name@, file)
    &&& forall|j: int| 0 <= j < i ==> !eq_ignore_case(#[trigger] assets[j].name@, file)
}

/// Whether selecting from `assets` finds nothing.
pub open spec fn selection_fails(assets: Seq<ReleaseAsset>, sel: Selection) -> bool {
    match sel {
        Selection::First => assets.len() == 0,
        Selection::Kind(k) => !has_match(assets, kind_file(k)),
    }
}

/// Whether asset `i` is the one that `sel` picks.
pub open spec fn is_selected(assets: Seq<ReleaseAsset>, sel: Selection, i: int) -> bool {
    match sel {
        Selection::First => i == 0 && assets.len() > 0,
        Selection::Kind(k) => is_first_match(assets, kind_file(k), i),
    }
}

/// The position of the first asset whose name equals `file` but for ASCII
/// case.
pub fn find_asset(assets: &Vec<ReleaseAsset>, file: &str) -> (r: Option<usize>)
    ensures
        match r {
            Some(i) => is_first_match(assets@, file@, i as int),
            None => !has_match(assets@, file@),
        },
{
    let mut i: usize = 0;
    while i < assets.len()
        invariant
            i <= assets@.len(),
            forall|j: int| 0 <= j < i ==> !eq_ignore_case(#[trigger] assets@[j].name@, file@),
        decreases assets@.len() - i,
    {
        if equals_ignore_case(assets[i].name.as_str(), file) {
            return Some(i);
        }
        i = i + 1;
    }
    None
}

/// The position of the asset that `sel` picks; `NotFound` where there is
/// none.
pub fn select_asset(assets: &Vec<ReleaseAsset>, sel: Selection) -> (r: Result<usize, DlError>)
    ensures
        match r {
            Ok(i) => is_selected(assets@, sel, i as int),
            Err(e) => e == DlError::NotFound && selection_fails(assets@, sel),
        },
{
    match sel {
        Selection::First => {
            if assets.len() == 0 {
                Err(DlError::NotFound)
            } else {
                Ok(0)
            }
        },
        Selection::Kind(k) => match find_asset(assets, k.file_name()) {
            Some(i) => Ok(i),
            None => Err(DlError::NotFound),
        },
    }
}

/// With no assets, every selection finds nothing.
pub proof fn lemma_empty_assets_not_found(assets: Seq<ReleaseAsset>, sel: Selection)
    requires
        assets.len() == 0,
    ensures
        selection_fails(assets, sel),
        forall|i: int| !is_selected(assets, sel, i),
{
}

impl Release {
    /// The position of the asset that `sel` picks from this release.
    pub fn select(&self, sel: Selection) -> (r: Result<usize, DlError>)
        ensures
            match r {
                Ok(i) => is_selected(self.assets@, sel, i as int),
                Err(e) => e == DlError::NotFound && selection_fails(self.assets@, sel),
            },
    {
        select_asset(&self.assets, sel)
    }

    /// The release notes as terminal text; `None` where the release has no
    /// body.
    pub fn notes(&self) -> (r: Result<Option<String>, DlError>)
        ensures
            self.body is None ==> r == Ok::<Option<String>, DlError>(None),
            self.body is Some ==> match r {
                Ok(Some(s)) => rendered(cmark_events(self.body.unwrap()@)) == Some(s@),
                Ok(None) => false,
                Err(e) => e == DlError::UnknownMarkup
                    && rendered(cmark_events(self.body.unwrap()@)) is None,
            },
    {
        match &self.body {
            None => Ok(None),
            Some(b) => match render_body(b.as_str()) {
                Ok(s) => Ok(Some(s)),
                Err(e) => Err(e),
            },
        }
    }
}

} // verus!
