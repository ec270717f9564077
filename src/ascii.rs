//! ASCII case-insensitive comparison of text.
use vstd::prelude::*;
use vstd::string::*;

verus! {

/// The code of a character with ASCII upper case folded to lower case.
pub open spec fn fold_char(c: char) -> u32 {
    if 65 <= c as u32 <= 90 {
        (c as u32 + 32) as u32
    } else {
        c as u32
    }
}

/// A text with ASCII upper case folded to lower case, as character codes.
pub open spec fn fold(s: Seq<char>) -> Seq<u32> {
    s.map_values(|c: char| fold_char(c))
}

/// Equal but for the case of ASCII letters.
pub open spec fn eq_ignore_case(a: Seq<char>, b: Seq<char>) -> bool {
    fold(a) == fold(b)
}

fn fold_code(c: char) -> (r: u32)
    ensures
        r == fold_char(c),
{
    let x = c as u32;
    if 65 <= x && x <= 90 {
        x + 32
    } else {
        x
    }
}

/// Whether `a` and `b` are equal but for the case of ASCII letters.
pub fn equals_ignore_case(a: &str, b: &str) -> (r: bool)
    ensures
        r == eq_ignore_case(a@, b@),
{
    let n = a.unicode_len();
    if n != b.unicode_len() {
        proof { assert(fold(a@).len() != fold(b@).len()); }
        return false;
    }
    let mut i: usize = 0;
    while i < n
        invariant
            n == a@.len() == b@.len(),
            i <= n,
            forall|j: int| 0 <= j < i ==> fold_char(#[trigger] a@[j]) == fold_char(b@[j]),
        decreases n - i,
    {
        if fold_code(a.get_char(i)) != fold_code(b.get_char(i)) {
            proof { assert(fold(a@)[i as int] != fold(b@)[i as int]); }
            return false;
        }
        i = i + 1;
    }
    proof { assert(fold(a@) =~= fold(b@)); }
    true
}

/// Whether `a` and `b` hold the same characters.
pub fn equals(a: &str, b: &str) -> (r: bool)
    ensures
        r == (a@ == b@),
{
    let n = a.unicode_len();
    if n != b.unicode_len() {
        return false;
    }
    let mut i: usize = 0;
    while i < n
        invariant
            n == a@.len() == b@.len(),
            i <= n,
            forall|j: int| 0 <= j < i ==> a@[j] == b@[j],
        decreases n - i,
    {
        if a.get_char(i) != b.get_char(i) {
            return false;
        }
        i = i + 1;
    }
    proof { assert(a@ =~= b@); }
    true
}

} // verus!
