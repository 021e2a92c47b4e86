//! The attachment naming pattern: an eight-digit date directly followed by
//! the fixed spreadsheet suffix, anywhere in the name.

use vstd::prelude::*;

verus! {

/// The fixed suffix that follows the eight digits: the bytes of
/// `data.xlsx`.
pub open spec fn spec_suffix() -> Seq<u8> {
    seq![100u8, 97u8, 116u8, 97u8, 46u8, 120u8, 108u8, 115u8, 120u8]
}

pub open spec fn spec_is_digit(b: u8) -> bool {
    48 <= b <= 57
}

/// The window of 17 bytes starting at `i` is eight digits followed by the
/// suffix.
pub open spec fn spec_window_matches(s: Seq<u8>, i: int) -> bool {
    &&& 0 <= i
    &&& i + 17 <= s.len()
    &&& forall|j: int| i <= j < i + 8 ==> spec_is_digit(#[trigger] s[j])
    &&& forall|j: int| 0 <= j < 9 ==> s[i + 8 + j] == #[trigger] spec_suffix()[j]
}

/// A name qualifies when some window of it matches.
pub open spec fn spec_name_matches(s: Seq<u8>) -> bool {
    exists|i: int| spec_window_matches(s, i)
}

/// Whether the window starting at `i` is eight digits followed by the suffix.
fn window_matches(name: &[u8], i: usize) -> (r: bool)
    requires
        i + 17 <= name@.len(),
        name@.len() <= usize::MAX,
    ensures
        r == spec_window_matches(name@, i as int),
{
    let mut j: usize = 0;
    while j < 8
        invariant
            j <= 8,
            i + 17 <= name@.len(),
            name@.len() <= usize::MAX,
            forall|k: int| i <= k < i + j ==> spec_is_digit(#[trigger] name@[k]),
        decreases 8 - j,
    {
        let b = name[i + j];
        if !(48 <= b && b <= 57) {
            return false;
        }
        j = j + 1;
    }
    let suffix: [u8; 9] = [100, 97, 116, 97, 46, 120, 108, 115, 120];
    let mut k: usize = 0;
    while k < 9
        invariant
            k <= 9,
            i + 17 <= name@.len(),
            name@.len() <= usize::MAX,
            forall|m: int| i <= m < i + 8 ==> spec_is_digit(#[trigger] name@[m]),
            suffix@ == spec_suffix(),
            forall|m: int| 0 <= m < k ==> name@[i + 8 + m] == #[trigger] spec_suffix()[m],
        decreases 9 - k,
    {
        if name[i + 8 + k] != suffix[k] {
            return false;
        }
        k = k + 1;
    }
    true
}

/// Whether the attachment name contains an eight-digit date directly
/// followed by the fixed spreadsheet suffix.
pub fn name_matches_pattern(name: &[u8]) -> (r: bool)
    ensures
        r == spec_name_matches(name@),
{
    let n = name.len();
    if n < 17 {
        return false;
    }
    let mut i: usize = 0;
    while i <= n - 17
        invariant
            n == name@.len(),
            17 <= n,
            i <= n - 17 + 1,
            forall|k: int| 0 <= k < i ==> !spec_window_matches(name@, k),
        decreases n - i,
    {
        if window_matches(name, i) {
            return true;
        }
        i = i + 1;
    }
    assert forall|k: int| !spec_window_matches(name@, k) by {
        if 0 <= k && k + 17 <= name@.len() {
            assert(k < i);
        }
    }
    false
}

} // verus!
