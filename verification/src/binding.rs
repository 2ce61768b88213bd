//! The shortcut bindings that start a transcription.

use vstd::prelude::*;

verus! {

/// Whether `id` names one of the two bindings that start a transcription.
pub open spec fn transcribe_binding(id: Seq<char>) -> bool {
    id == "transcribe"@ || id == "transcribe_with_post_process"@
}

/// The post-processing choice of a session that `id` starts: on for
/// `transcribe_with_post_process`, off for every other binding.
pub open spec fn seeded_post_process(id: Seq<char>) -> bool {
    id == "transcribe_with_post_process"@
}

/// Whether `id` names one of the two bindings that start a transcription.
pub fn is_transcribe_binding(id: &str) -> (r: bool)
    ensures
        r == transcribe_binding(id@),
{
    same_text(id, "transcribe") || same_text(id, "transcribe_with_post_process")
}

/// Whether two string slices hold the same characters.
pub(crate) fn same_text(a: &str, b: &str) -> (r: bool)
    ensures
        r == (a@ == b@),
{
    let x: &[u8] = a.as_bytes();
    let y: &[u8] = b.as_bytes();
    proof {
        vstd::utf8::encode_utf8_decode_utf8(a@);
        vstd::utf8::encode_utf8_decode_utf8(b@);
    }
    if x.len() != y.len() {
        return false;
    }
    let mut i: usize = 0;
    while i < x.len()
        invariant
            i <= x.len(),
            x.len() == y.len(),
            x@ == vstd::utf8::encode_utf8(a@),
            y@ == vstd::utf8::encode_utf8(b@),
            forall|j: int| 0 <= j < i ==> x@[j] == y@[j],
        decreases x.len() - i,
    {
        if x[i] != y[i] {
            return false;
        }
        i = i + 1;
    }
    assert(x@ =~= y@);
    true
}

} // verus!
