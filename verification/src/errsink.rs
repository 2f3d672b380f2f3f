//! Classification of uncaptured GPU error reports.
//!
//! The driver reports validation errors asynchronously. Diagnostics that
//! come from compiling the reloadable fragment stage carry a label marker in
//! their descriptive text; exactly those are shown to the shader's author.
//! Whatever the classification says, the report itself pauses rendering —
//! that transition lives in the render state machine. The classifier works
//! on the UTF-8 bytes of the description.

use vstd::prelude::*;

verus! {

/// Whether `pat` occurs in `text` starting at position `i`.
pub open spec fn matches_at(text: Seq<u8>, pat: Seq<u8>, i: int) -> bool {
    &&& 0 <= i
    &&& i + pat.len() <= text.len()
    &&& forall|k: int| 0 <= k < pat.len() ==> text[i + k] == pat[k]
}

/// Whether `pat` occurs anywhere in `text`.
pub open spec fn contains_bytes(text: Seq<u8>, pat: Seq<u8>) -> bool {
    exists|i: int| matches_at(text, pat, i)
}

/// The marker that tags diagnostics from the reloadable fragment stage: the
/// UTF-8 bytes of the text "note: label = `Fragment shader`", the label the
/// builder gives that shader module.
pub open spec fn fragment_label_marker() -> Seq<u8> {
    seq![
        110u8, 111u8, 116u8, 101u8, 58u8, 32u8, 108u8, 97u8, 98u8, 101u8, 108u8, 32u8, 61u8,
        32u8, 96u8, 70u8, 114u8, 97u8, 103u8, 109u8, 101u8, 110u8, 116u8, 32u8, 115u8, 104u8,
        97u8, 100u8, 101u8, 114u8, 96u8,
    ]
}

/// Builds the marker's bytes for the search.
pub fn fragment_label_marker_bytes() -> (v: Vec<u8>)
    ensures
        v@ == fragment_label_marker(),
{
    let mut v: Vec<u8> = Vec::new();
    v.push(110);
    v.push(111);
    v.push(116);
    v.push(101);
    v.push(58);
    v.push(32);
    v.push(108);
    v.push(97);
    v.push(98);
    v.push(101);
    v.push(108);
    v.push(32);
    v.push(61);
    v.push(32);
    v.push(96);
    v.push(70);
    v.push(114);
    v.push(97);
    v.push(103);
    v.push(109);
    v.push(101);
    v.push(110);
    v.push(116);
    v.push(32);
    v.push(115);
    v.push(104);
    v.push(97);
    v.push(100);
    v.push(101);
    v.push(114);
    v.push(96);
    proof {
        assert(v@ =~= fragment_label_marker());
    }
    v
}

/// Whether `pat` occurs in `text` starting exactly at position `i`.
fn matches_prefix(text: &[u8], pat: &[u8], i: usize) -> (r: bool)
    requires
        i + pat@.len() <= text@.len(),
    ensures
        r == matches_at(text@, pat@, i as int),
{
    let n = pat.len();
    let t = text.len();
    let mut j: usize = 0;
    while j < n
        invariant
            i + n <= t,
            t == text@.len(),
            n == pat@.len(),
            j <= n,
            forall|k: int| 0 <= k < j ==> text@[i + k] == pat@[k],
        decreases n - j,
    {
        if text[i + j] != pat[j] {
            return false;
        }
        j = j + 1;
    }
    true
}

/// Whether `pat` occurs anywhere in `text`.
pub fn contains_subslice(text: &[u8], pat: &[u8]) -> (r: bool)
    ensures
        r == contains_bytes(text@, pat@),
{
    let n = pat.len();
    let h = text.len();
    if n > h {
        return false;
    }
    let mut i: usize = 0;
    while i <= h - n
        invariant
            n <= h,
            h == text@.len(),
            n == pat@.len(),
            i <= h - n + 1,
            forall|j: int| 0 <= j < i ==> !matches_at(text@, pat@, j),
        decreases h - n + 1 - i,
    {
        if matches_prefix(text, pat, i) {
            return true;
        }
        i = i + 1;
    }
    false
}

/// Classifies one GPU error report, given as the UTF-8 bytes of its
/// descriptive text: true exactly when the text carries the fragment-shader
/// label marker, i.e. when the diagnostic originated from the reloaded
/// fragment stage and should be logged for the shader's author.
pub fn is_fragment_shader_error(description: &[u8]) -> (r: bool)
    ensures
        r == contains_bytes(description@, fragment_label_marker()),
{
    let marker = fragment_label_marker_bytes();
    contains_subslice(description, marker.as_slice())
}

} // verus!
