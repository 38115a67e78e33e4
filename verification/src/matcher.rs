//! Substring search over raw byte buffers.

use vstd::prelude::*;

verus! {

/// `needle` lies in `haystack` starting at index `i`.
pub open spec fn occurs_at(haystack: Seq<u8>, needle: Seq<u8>, i: int) -> bool {
    &&& 0 <= i
    &&& i + needle.len() <= haystack.len()
    &&& haystack.subrange(i, i + needle.len()) == needle
}

/// `needle` is non-empty and occurs somewhere in `haystack` as a contiguous run.
pub open spec fn is_subslice(haystack: Seq<u8>, needle: Seq<u8>) -> bool {
    needle.len() > 0 && exists|i: int| occurs_at(haystack, needle, i)
}

/// `i` is the lowest index at which the non-empty `needle` occurs in `haystack`.
pub open spec fn is_first_occurrence(haystack: Seq<u8>, needle: Seq<u8>, i: int) -> bool {
    &&& needle.len() > 0
    &&& occurs_at(haystack, needle, i)
    &&& forall|j: int| 0 <= j < i ==> !occurs_at(haystack, needle, j)
}

/// The lowest index at which the non-empty `needle` occurs, if it occurs at all.
pub open spec fn first_occurrence(haystack: Seq<u8>, needle: Seq<u8>) -> Option<int> {
    if exists|i: int| is_first_occurrence(haystack, needle, i) {
        Some(choose|i: int| is_first_occurrence(haystack, needle, i))
    } else {
        None
    }
}

/// A first occurrence is unique, so it is the one `first_occurrence` names.
pub proof fn lemma_first_occurrence_is(haystack: Seq<u8>, needle: Seq<u8>, i: int)
    requires
        is_first_occurrence(haystack, needle, i),
    ensures
        first_occurrence(haystack, needle) == Some(i),
{
    let k = choose|k: int| is_first_occurrence(haystack, needle, k);
    assert(is_first_occurrence(haystack, needle, k));
    if k < i {
        assert(!occurs_at(haystack, needle, k));
    }
    if i < k {
        assert(!occurs_at(haystack, needle, i));
    }
}

/// Without any occurrence there is no first one, and the other way round.
pub proof fn lemma_first_occurrence_none(haystack: Seq<u8>, needle: Seq<u8>)
    ensures
        first_occurrence(haystack, needle) is None <==> !is_subslice(haystack, needle),
        first_occurrence(haystack, needle) matches Some(i) ==> is_first_occurrence(
            haystack,
            needle,
            i,
        ),
{
    if is_subslice(haystack, needle) {
        let w = choose|i: int| occurs_at(haystack, needle, i);
        lemma_least_occurrence(haystack, needle, w);
    } else {
        if exists|i: int| is_first_occurrence(haystack, needle, i) {
            let k = choose|i: int| is_first_occurrence(haystack, needle, i);
            assert(occurs_at(haystack, needle, k));
        }
    }
}

/// Below any occurrence lies a first one.
proof fn lemma_least_occurrence(haystack: Seq<u8>, needle: Seq<u8>, w: int)
    requires
        needle.len() > 0,
        occurs_at(haystack, needle, w),
    ensures
        exists|i: int| 0 <= i <= w && is_first_occurrence(haystack, needle, i),
    decreases w,
{
    if exists|j: int| 0 <= j < w && occurs_at(haystack, needle, j) {
        let j = choose|j: int| 0 <= j < w && occurs_at(haystack, needle, j);
        lemma_least_occurrence(haystack, needle, j);
    } else {
        assert(is_first_occurrence(haystack, needle, w));
    }
}

/// Compares `needle` with the window of `haystack` that starts at `start`.
pub fn matches_at(haystack: &[u8], needle: &[u8], start: usize) -> (r: bool)
    requires
        start + needle@.len() <= haystack@.len(),
    ensures
        r == occurs_at(haystack@, needle@, start as int),
{
    let n: usize = needle.len();
    let h: usize = haystack.len();
    let mut k: usize = 0;
    while k < n
        invariant
            n == needle@.len(),
            h == haystack@.len(),
            k <= n,
            start + n <= h,
            forall|j: int| 0 <= j < k ==> haystack@[start + j] == needle@[j],
        decreases n - k,
    {
        if haystack[start + k] != needle[k] {
            proof {
                let w = haystack@.subrange(start as int, start + n);
                assert(w[k as int] == haystack@[start + k]);
            }
            return false;
        }
        k += 1;
    }
    assert(haystack@.subrange(start as int, start + n) =~= needle@);
    true
}

/// Index of the first occurrence of `needle` in `haystack`.
///
/// An empty needle is never found.
pub fn bytes_search(haystack: &[u8], needle: &[u8]) -> (r: Option<usize>)
    ensures
        r is Some <==> is_subslice(haystack@, needle@),
        r matches Some(i) ==> is_first_occurrence(haystack@, needle@, i as int),
        first_occurrence(haystack@, needle@) == match r {
            Some(i) => Some(i as int),
            None => None,
        },
{
    let n: usize = needle.len();
    let h: usize = haystack.len();
    proof {
        lemma_first_occurrence_none(haystack@, needle@);
    }
    if n == 0 || n > h {
        assert(forall|i: int| !occurs_at(haystack@, needle@, i) || needle@.len() == 0);
        return None;
    }
    let last: usize = h - n;
    let mut i: usize = 0;
    while i <= last
        invariant
            n == needle@.len(),
            h == haystack@.len(),
            0 < n <= h,
            last == h - n,
            i <= last + 1,
            forall|j: int| 0 <= j < i ==> !occurs_at(haystack@, needle@, j),
        decreases last + 1 - i,
    {
        if matches_at(haystack, needle, i) {
            proof {
                lemma_first_occurrence_is(haystack@, needle@, i as int);
            }
            return Some(i);
        }
        i += 1;
    }
    assert(forall|j: int| !occurs_at(haystack@, needle@, j));
    None
}

/// Whether `needle` occurs in `haystack` as a contiguous run of bytes.
///
/// An empty needle never matches.
pub fn contains(haystack: &[u8], needle: &[u8]) -> (r: bool)
    ensures
        r == is_subslice(haystack@, needle@),
        needle@.len() == 0 ==> !r,
{
    bytes_search(haystack, needle).is_some()
}

/// The byte sequence that opens an ID3 tag: the ASCII text `ID3`.
pub open spec fn id3_marker() -> Seq<u8> {
    seq![0x49u8, 0x44u8, 0x33u8]
}

/// The ASCII text `binary/`, which the cache writes in front of an audio blob
/// that was fetched over HTTP.
pub open spec fn binary_marker() -> Seq<u8> {
    seq![0x62u8, 0x69u8, 0x6eu8, 0x61u8, 0x72u8, 0x79u8, 0x2fu8]
}

/// Whether a buffer counts as holding the signature `needle`.
///
/// For every needle but the ID3 marker this is plain containment. The ID3
/// marker counts only where the buffer also holds the text `binary/`.
pub open spec fn signature_present(haystack: Seq<u8>, needle: Seq<u8>) -> bool {
    if needle == id3_marker() {
        is_subslice(haystack, id3_marker()) && is_subslice(haystack, binary_marker())
    } else {
        is_subslice(haystack, needle)
    }
}

fn is_id3_marker(needle: &[u8]) -> (r: bool)
    ensures
        r == (needle@ == id3_marker()),
{
    if needle.len() != 3 {
        return false;
    }
    let r = needle[0] == 0x49u8 && needle[1] == 0x44u8 && needle[2] == 0x33u8;
    assert(r ==> needle@ =~= id3_marker());
    r
}

fn binary_marker_bytes() -> (r: Vec<u8>)
    ensures
        r@ == binary_marker(),
{
    let r: Vec<u8> = vec![0x62u8, 0x69u8, 0x6eu8, 0x61u8, 0x72u8, 0x79u8, 0x2fu8];
    assert(r@ =~= binary_marker());
    r
}

/// Whether the buffer holds the signature `needle`, under the audio rule.
///
/// An empty needle never matches. The ID3 marker matches only together with
/// the text `binary/` in the same buffer; one of the two alone is no match.
pub fn bytes_contains(haystack: &[u8], needle: &[u8]) -> (r: bool)
    ensures
        r == signature_present(haystack@, needle@),
        needle@.len() == 0 ==> !r,
        r ==> is_subslice(haystack@, needle@),
{
    if is_id3_marker(needle) {
        let marker = binary_marker_bytes();
        contains(haystack, needle) && contains(haystack, marker.as_slice())
    } else {
        contains(haystack, needle)
    }
}

/// The ID3 marker is matched exactly where both markers lie in the buffer:
/// neither the ID3 bytes alone nor the text `binary/` alone is a match.
pub proof fn lemma_audio_match_needs_both(haystack: Seq<u8>)
    ensures
        signature_present(haystack, id3_marker()) <==> (is_subslice(haystack, id3_marker())
            && is_subslice(haystack, binary_marker())),
        !is_subslice(haystack, binary_marker()) ==> !signature_present(haystack, id3_marker()),
        !is_subslice(haystack, id3_marker()) ==> !signature_present(haystack, id3_marker()),
{
}

/// A signature that is present in a suffix of a buffer is present in the
/// whole buffer.
pub proof fn lemma_present_in_suffix(haystack: Seq<u8>, k: int, needle: Seq<u8>)
    requires
        0 <= k <= haystack.len(),
        signature_present(haystack.skip(k), needle),
    ensures
        signature_present(haystack, needle),
{
    if needle == id3_marker() {
        lemma_subslice_of_suffix(haystack, k, id3_marker());
        lemma_subslice_of_suffix(haystack, k, binary_marker());
    } else {
        lemma_subslice_of_suffix(haystack, k, needle);
    }
}

/// An occurrence in the suffix that starts at `k` is an occurrence `k` places
/// further on in the whole buffer.
pub proof fn lemma_subslice_of_suffix(haystack: Seq<u8>, k: int, needle: Seq<u8>)
    requires
        0 <= k <= haystack.len(),
        is_subslice(haystack.skip(k), needle),
    ensures
        is_subslice(haystack, needle),
{
    let i = choose|i: int| occurs_at(haystack.skip(k), needle, i);
    lemma_occurrence_shift(haystack, k, needle, i);
}

/// Index `i` of the suffix that starts at `k` is index `k + i` of the buffer.
pub proof fn lemma_occurrence_shift(haystack: Seq<u8>, k: int, needle: Seq<u8>, i: int)
    requires
        0 <= k <= haystack.len(),
        0 <= i,
    ensures
        occurs_at(haystack.skip(k), needle, i) <==> occurs_at(haystack, needle, k + i),
{
    if i + needle.len() <= haystack.len() - k {
        assert(haystack.skip(k).subrange(i, i + needle.len()) =~= haystack.subrange(
            k + i,
            k + i + needle.len(),
        ));
    }
}

} // verus!
