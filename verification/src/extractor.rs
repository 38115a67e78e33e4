//! The asset extractor: finds the signature of a blob and cuts the payload
//! out of it.

use vstd::prelude::*;
use vstd::slice::slice_subrange;
use vstd::slice::slice_to_vec;
use crate::matcher::bytes_contains;
use crate::matcher::bytes_search;
use crate::matcher::first_occurrence;
use crate::matcher::id3_marker;
use crate::matcher::is_first_occurrence;
use crate::matcher::is_subslice;
use crate::matcher::lemma_first_occurrence_is;
use crate::matcher::lemma_first_occurrence_none;
use crate::matcher::lemma_occurrence_shift;
use crate::matcher::lemma_present_in_suffix;
use crate::matcher::occurs_at;
use crate::matcher::signature_present;
use crate::registry::Category;
use crate::registry::default_extension;
use crate::registry::Signature;

verus! {

/// The first of the candidates, in their order, that the buffer holds.
pub open spec fn first_matching(haystack: Seq<u8>, candidates: Seq<Signature>) -> Option<
    Signature,
>
    decreases candidates.len(),
{
    if candidates.len() == 0 {
        None
    } else if signature_present(haystack, candidates[0].spec_bytes()) {
        Some(candidates[0])
    } else {
        first_matching(haystack, candidates.drop_first())
    }
}

/// The signature by which a buffer is told to belong to the category that
/// `mode` names: the first signature of the category that the buffer holds.
/// A token that names no category has no signatures.
pub open spec fn header_of(mode: Seq<char>, buffer: Seq<u8>) -> Option<Signature> {
    match Category::spec_from_token(mode) {
        Some(category) => first_matching(buffer, category.spec_signatures()),
        None => None,
    }
}

/// The buffer from the first occurrence of `needle` on, moved back by
/// `offset`; the whole buffer where the needle does not occur or occurs at
/// an index below `offset`.
pub open spec fn cut_at(buffer: Seq<u8>, needle: Seq<u8>, offset: nat) -> Seq<u8> {
    match first_occurrence(buffer, needle) {
        Some(i) => if i >= offset {
            buffer.skip(i - offset)
        } else {
            buffer
        },
        None => buffer,
    }
}

/// The payload that `signature` cuts out of a buffer: the buffer from the
/// first occurrence of the signature on, moved back by the signature's
/// offset. Where the signature does not occur, or occurs so early that the
/// offset would reach in front of the buffer, the payload is the whole buffer.
pub open spec fn payload_with(signature: Signature, buffer: Seq<u8>) -> Seq<u8> {
    cut_at(buffer, signature.spec_bytes(), signature.spec_offset())
}

/// The payload of a buffer under the category that `mode` names.
pub open spec fn extracted(mode: Seq<char>, buffer: Seq<u8>) -> Seq<u8> {
    match header_of(mode, buffer) {
        Some(signature) => payload_with(signature, buffer),
        None => buffer,
    }
}

/// How an extraction ended.
#[derive(Clone, Copy, Debug, PartialEq, Eq, Structural)]
pub enum ExtractStatus {
    /// The signature was found and the payload starts at the corrected index.
    Extracted,
    /// No signature was found: the payload is the buffer as it came.
    NoSignature,
    /// The signature was found nearer to the start of the buffer than its
    /// offset: the payload is the buffer as it came.
    OffsetUnderflow,
}

/// How the extraction of `buffer` with `signature` ends.
pub open spec fn status_with(signature: Signature, buffer: Seq<u8>) -> ExtractStatus {
    match first_occurrence(buffer, signature.spec_bytes()) {
        Some(i) => if i >= signature.spec_offset() {
            ExtractStatus::Extracted
        } else {
            ExtractStatus::OffsetUnderflow
        },
        None => ExtractStatus::NoSignature,
    }
}

/// A payload with the signature that was used to find it.
pub struct Extraction {
    /// The bytes of the payload.
    pub payload: Vec<u8>,
    /// The signature that the blob was told by, if any.
    pub signature: Option<Signature>,
    /// How the extraction ended.
    pub status: ExtractStatus,
}

/// The first of the candidates, in their order, that the buffer holds.
pub fn first_match(haystack: &[u8], candidates: &Vec<Signature>) -> (r: Option<Signature>)
    ensures
        r == first_matching(haystack@, candidates@),
        r matches Some(s) ==> (signature_present(haystack@, s.spec_bytes()) && exists|k: int|
            0 <= k < candidates@.len() && candidates@[k] == s && forall|j: int|
                0 <= j < k ==> !signature_present(
                    haystack@,
                    (#[trigger] candidates@[j]).spec_bytes(),
                )),
        r is None ==> forall|j: int|
            0 <= j < candidates@.len() ==> !signature_present(
                haystack@,
                (#[trigger] candidates@[j]).spec_bytes(),
            ),
{
    let n: usize = candidates.len();
    let mut k: usize = 0;
    assert(candidates@.skip(0) =~= candidates@);
    while k < n
        invariant
            n == candidates@.len(),
            k <= n,
            first_matching(haystack@, candidates@) == first_matching(
                haystack@,
                candidates@.skip(k as int),
            ),
            forall|j: int|
                0 <= j < k ==> !signature_present(
                    haystack@,
                    (#[trigger] candidates@[j]).spec_bytes(),
                ),
        decreases n - k,
    {
        let candidate: Signature = candidates[k];
        let needle: Vec<u8> = candidate.bytes();
        assert(candidates@.skip(k as int)[0] == candidate);
        assert(candidates@.skip(k as int).drop_first() =~= candidates@.skip(k + 1));
        if bytes_contains(haystack, needle.as_slice()) {
            return Some(candidate);
        }
        k += 1;
    }
    assert(candidates@.skip(k as int).len() == 0);
    None
}

/// The signature by which a buffer is told to belong to the category that
/// `mode` names, or `None` where the buffer holds none of the category's
/// signatures or `mode` names no category.
pub fn find_header(mode: &str, bytes: &[u8]) -> (r: Option<Signature>)
    ensures
        r == header_of(mode@, bytes@),
        Category::spec_from_token(mode@) is None ==> r is None,
{
    match Category::from_token(mode) {
        Some(category) => {
            let candidates = category.signatures();
            first_match(bytes, &candidates)
        },
        None => None,
    }
}

/// Cuts the payload that `signature` marks out of a buffer.
///
/// The payload starts at the first occurrence of the signature, moved back
/// by the signature's offset. Where the signature does not occur, or occurs
/// nearer to the start than its offset, the whole buffer is the payload. The
/// payload is always a suffix of the buffer.
pub fn extract_with(signature: Signature, bytes: &[u8]) -> (r: Extraction)
    ensures
        r.payload@ == payload_with(signature, bytes@),
        r.status == status_with(signature, bytes@),
        r.signature == Some(signature),
        exists|k: int| 0 <= k <= bytes@.len() && r.payload@ == bytes@.skip(k),
        r.status != ExtractStatus::Extracted ==> r.payload@ == bytes@,
{
    let needle: Vec<u8> = signature.bytes();
    let offset: usize = signature.offset();
    assert(bytes@.skip(0) =~= bytes@);
    match bytes_search(bytes, needle.as_slice()) {
        Some(index) => {
            if index >= offset {
                let start: usize = index - offset;
                let tail = slice_subrange(bytes, start, bytes.len());
                let payload = slice_to_vec(tail);
                assert(payload@ =~= bytes@.skip(start as int));
                Extraction { payload, signature: Some(signature), status: ExtractStatus::Extracted }
            } else {
                Extraction {
                    payload: slice_to_vec(bytes),
                    signature: Some(signature),
                    status: ExtractStatus::OffsetUnderflow,
                }
            }
        },
        None => Extraction {
            payload: slice_to_vec(bytes),
            signature: Some(signature),
            status: ExtractStatus::NoSignature,
        },
    }
}

/// Tells the blob by the signatures of the category that `mode` names and
/// cuts the payload out of it.
///
/// The whole buffer is searched. Where no signature of the category is
/// found, or `mode` names no category, the buffer is the payload.
pub fn extract(bytes: &[u8], mode: &str) -> (r: Extraction)
    ensures
        r.payload@ == extracted(mode@, bytes@),
        r.signature == header_of(mode@, bytes@),
        r.status == match header_of(mode@, bytes@) {
            Some(signature) => status_with(signature, bytes@),
            None => ExtractStatus::NoSignature,
        },
        exists|k: int| 0 <= k <= bytes@.len() && r.payload@ == bytes@.skip(k),
        r.status != ExtractStatus::Extracted ==> r.payload@ == bytes@,
{
    match find_header(mode, bytes) {
        Some(signature) => extract_with(signature, bytes),
        None => {
            assert(bytes@.skip(0) =~= bytes@);
            Extraction {
                payload: slice_to_vec(bytes),
                signature: None,
                status: ExtractStatus::NoSignature,
            }
        },
    }
}

/// The payload of a buffer under the category that `mode` names.
///
/// The result is the buffer from the corrected index of the category's first
/// matching signature to its end, and the unchanged buffer where there is no
/// match or the correction would reach in front of the buffer.
pub fn extract_bytes(bytes: &[u8], mode: &str) -> (r: Vec<u8>)
    ensures
        r@ == extracted(mode@, bytes@),
        exists|k: int| 0 <= k <= bytes@.len() && r@ == bytes@.skip(k),
        header_of(mode@, bytes@) is None ==> r@ == bytes@,
{
    extract(bytes, mode).payload
}

/// The extension for a file that was told by `signature`: the signature's
/// own, and that of the audio category where there was no signature.
pub open spec fn extension_of(signature: Option<Signature>) -> Seq<char> {
    match signature {
        Some(s) => s.spec_extension(),
        None => default_extension(),
    }
}

/// The extension for a file that was told by `signature`: the signature's
/// own, and that of the audio category where there was no signature.
pub fn extension_for(signature: Option<Signature>) -> (r: String)
    ensures
        r@ == extension_of(signature),
{
    match signature {
        Some(s) => s.extension(),
        None => ".ogg".to_owned(),
    }
}

/// What is to be written for one extracted file.
pub struct PreparedFile {
    /// The bytes to write.
    pub payload: Vec<u8>,
    /// The extension to give the destination, if one was asked for.
    pub extension: Option<String>,
    /// The signature that the blob was told by, if any.
    pub signature: Option<Signature>,
    /// How the extraction ended.
    pub status: ExtractStatus,
}

/// Extracts one file, given its contents: the result holds the payload to
/// write and, with `add_extension`, the extension that the destination is
/// to get. The extension is that of the signature by which the file was
/// told, and that of the audio category where there was none.
pub fn extract_file(bytes: &[u8], mode: &str, add_extension: bool) -> (r: PreparedFile)
    ensures
        r.payload@ == extracted(mode@, bytes@),
        r.signature == header_of(mode@, bytes@),
        add_extension ==> (r.extension matches Some(e) && e@ == extension_of(
            header_of(mode@, bytes@),
        )),
        !add_extension ==> r.extension is None,
        r.status == match header_of(mode@, bytes@) {
            Some(signature) => status_with(signature, bytes@),
            None => ExtractStatus::NoSignature,
        },
{
    let extraction = extract(bytes, mode);
    let extension = if add_extension {
        Some(extension_for(extraction.signature))
    } else {
        None
    };
    PreparedFile {
        payload: extraction.payload,
        extension,
        signature: extraction.signature,
        status: extraction.status,
    }
}

/// What stands for the payload of a file that could not be read: the ASCII
/// text `None`.
pub open spec fn unreadable_payload() -> Seq<u8> {
    seq![0x4eu8, 0x6fu8, 0x6eu8, 0x65u8]
}

/// The payload of a file under the category that `mode` names, given the
/// file's contents, or `None` where the file could not be read.
pub open spec fn payload_of_file(contents: Option<Vec<u8>>, mode: Seq<char>) -> Seq<u8> {
    match contents {
        Some(bytes) => extracted(mode, bytes@),
        None => unreadable_payload(),
    }
}

/// The payload of a file under the category that `mode` names.
///
/// `contents` holds what was read of the file, and `None` where it could
/// not be read: the result is then the ASCII text `None`.
pub fn extract_file_to_bytes(contents: Option<Vec<u8>>, mode: &str) -> (r: Vec<u8>)
    ensures
        r@ == payload_of_file(contents, mode@),
{
    match contents {
        Some(bytes) => extract_bytes(bytes.as_slice(), mode),
        None => {
            let r: Vec<u8> = vec![0x4eu8, 0x6fu8, 0x6eu8, 0x65u8];
            assert(r@ =~= unreadable_payload());
            r
        },
    }
}

/// The corrected index is never negative: a signature that is first found
/// at an index below its offset leaves the buffer as it is, and every
/// payload is the buffer from some index within it on.
pub proof fn lemma_offset_never_underflows(signature: Signature, buffer: Seq<u8>)
    ensures
        exists|k: int| 0 <= k <= buffer.len() && payload_with(signature, buffer) == buffer.skip(k),
        forall|i: int|
            is_first_occurrence(buffer, signature.spec_bytes(), i) && i < signature.spec_offset()
                ==> payload_with(signature, buffer) == buffer,
        forall|i: int|
            is_first_occurrence(buffer, signature.spec_bytes(), i) && i >= signature.spec_offset()
                ==> payload_with(signature, buffer) == buffer.skip(i - signature.spec_offset()),
{
    lemma_first_occurrence_none(buffer, signature.spec_bytes());
    assert(buffer.skip(0) =~= buffer);
    assert forall|i: int| is_first_occurrence(buffer, signature.spec_bytes(), i) implies (i
        < signature.spec_offset() ==> payload_with(signature, buffer) == buffer) && (i
        >= signature.spec_offset() ==> payload_with(signature, buffer) == buffer.skip(
        i - signature.spec_offset(),
    )) by {
        lemma_first_occurrence_is(buffer, signature.spec_bytes(), i);
    }
    match first_occurrence(buffer, signature.spec_bytes()) {
        Some(i) => {
            if i >= signature.spec_offset() {
                assert(payload_with(signature, buffer) == buffer.skip(i - signature.spec_offset()));
            } else {
                assert(payload_with(signature, buffer) == buffer.skip(0));
            }
        },
        None => {
            assert(payload_with(signature, buffer) == buffer.skip(0));
        },
    }
}

/// In what was cut out of a buffer at a needle, the needle first occurs
/// exactly at the offset.
proof fn lemma_needle_at_offset(buffer: Seq<u8>, needle: Seq<u8>, offset: int, i: int)
    requires
        is_first_occurrence(buffer, needle, i),
        0 <= offset <= i,
    ensures
        is_first_occurrence(buffer.skip(i - offset), needle, offset),
{
    let out = buffer.skip(i - offset);
    lemma_occurrence_shift(buffer, i - offset, needle, offset);
    assert forall|j: int| 0 <= j < offset implies !occurs_at(out, needle, j) by {
        lemma_occurrence_shift(buffer, i - offset, needle, j);
    }
}

/// Cutting twice at the same needle is cutting once.
proof fn lemma_cut_idempotent(buffer: Seq<u8>, needle: Seq<u8>, offset: nat)
    ensures
        cut_at(cut_at(buffer, needle, offset), needle, offset) == cut_at(buffer, needle, offset),
        first_occurrence(buffer, needle) matches Some(i) && i >= offset ==> is_first_occurrence(
            cut_at(buffer, needle, offset),
            needle,
            offset as int,
        ),
{
    lemma_first_occurrence_none(buffer, needle);
    match first_occurrence(buffer, needle) {
        Some(i) => {
            if i >= offset {
                let out = buffer.skip(i - offset);
                lemma_needle_at_offset(buffer, needle, offset as int, i);
                lemma_first_occurrence_is(out, needle, offset as int);
                assert(out.skip(0) =~= out);
            }
        },
        None => {},
    }
}

/// Extraction with one signature is idempotent: the payload of a payload is
/// that payload. In a payload the signature lies exactly at its offset.
pub proof fn lemma_payload_idempotent(signature: Signature, buffer: Seq<u8>)
    ensures
        payload_with(signature, payload_with(signature, buffer)) == payload_with(signature, buffer),
        status_with(signature, buffer) == ExtractStatus::Extracted ==> is_first_occurrence(
            payload_with(signature, buffer),
            signature.spec_bytes(),
            signature.spec_offset() as int,
        ),
{
    lemma_cut_idempotent(buffer, signature.spec_bytes(), signature.spec_offset());
}

/// Extraction is idempotent: extracting again from a payload, under the
/// same category, gives the payload back unchanged.
pub proof fn lemma_extract_idempotent(mode: Seq<char>, buffer: Seq<u8>)
    ensures
        extracted(mode, extracted(mode, buffer)) == extracted(mode, buffer),
{
    match Category::spec_from_token(mode) {
        Some(category) => {
            lemma_rematch(category.spec_signatures(), buffer);
        },
        None => {},
    }
}

/// The candidate lists for which extracting twice is extracting once: those
/// in which the ID3 signature, if it is there, comes last.
pub open spec fn id3_only_last(candidates: Seq<Signature>) -> bool {
    forall|j: int| 0 <= j < candidates.len() - 1 ==> candidates[j] != Signature::Id3
}

/// Only the ID3 signature has the bytes of the ID3 marker.
proof fn lemma_id3_bytes(signature: Signature)
    ensures
        signature.spec_bytes() == id3_marker() <==> signature == Signature::Id3,
{
    let b = signature.spec_bytes();
    match signature {
        Signature::Id3 => {
            assert(b =~= id3_marker());
        },
        Signature::OggS => {
            assert(b.len() == 4);
        },
        Signature::Png => {
            assert(b[0] == 0x50u8);
        },
        Signature::Webp => {
            assert(b.len() == 4);
        },
        Signature::Ktx => {
            assert(b[0] == 0x4bu8);
        },
        Signature::Roblox => {
            assert(b.len() == 8);
        },
    }
}

/// A candidate that the whole buffer does not hold is not held by a suffix.
proof fn lemma_first_matching_of_suffix(
    candidates: Seq<Signature>,
    buffer: Seq<u8>,
    k: int,
    chosen: Signature,
)
    requires
        0 <= k <= buffer.len(),
        first_matching(buffer, candidates) == Some(chosen),
        signature_present(buffer.skip(k), chosen.spec_bytes()),
    ensures
        first_matching(buffer.skip(k), candidates) == Some(chosen),
    decreases candidates.len(),
{
    if candidates.len() > 0 {
        let head = candidates[0];
        if signature_present(buffer, head.spec_bytes()) {
        } else {
            if signature_present(buffer.skip(k), head.spec_bytes()) {
                lemma_present_in_suffix(buffer, k, head.spec_bytes());
            }
            lemma_first_matching_of_suffix(candidates.drop_first(), buffer, k, chosen);
        }
    }
}

/// Where no candidate is held by a suffix of the buffer, none matches it.
proof fn lemma_none_matching_suffix(
    candidates: Seq<Signature>,
    buffer: Seq<u8>,
    k: int,
    chosen: Signature,
)
    requires
        0 <= k <= buffer.len(),
        first_matching(buffer, candidates) == Some(chosen),
        chosen == Signature::Id3,
        id3_only_last(candidates),
        !signature_present(buffer.skip(k), chosen.spec_bytes()),
    ensures
        first_matching(buffer.skip(k), candidates) is None,
    decreases candidates.len(),
{
    if candidates.len() > 0 {
        let head = candidates[0];
        let rest = candidates.drop_first();
        assert forall|j: int| 0 <= j < rest.len() - 1 implies rest[j] != Signature::Id3 by {
            assert(rest[j] == candidates[j + 1]);
        }
        if signature_present(buffer, head.spec_bytes()) {
            assert(head == Signature::Id3);
            if candidates.len() > 1 {
                assert(candidates[0] != Signature::Id3);
            }
            assert(rest.len() == 0);
            assert(first_matching(buffer.skip(k), rest) is None);
        } else {
            if signature_present(buffer.skip(k), head.spec_bytes()) {
                lemma_present_in_suffix(buffer, k, head.spec_bytes());
            }
            lemma_none_matching_suffix(rest, buffer, k, chosen);
        }
    }
}

/// The first matching candidate is one that the buffer holds.
proof fn lemma_first_matching_present(candidates: Seq<Signature>, buffer: Seq<u8>)
    ensures
        first_matching(buffer, candidates) matches Some(s) ==> signature_present(
            buffer,
            s.spec_bytes(),
        ),
    decreases candidates.len(),
{
    if candidates.len() > 0 && !signature_present(buffer, candidates[0].spec_bytes()) {
        lemma_first_matching_present(candidates.drop_first(), buffer);
    }
}

/// Extracting with a candidate list in which ID3 comes last, if at all,
/// is idempotent.
proof fn lemma_rematch(candidates: Seq<Signature>, buffer: Seq<u8>)
    requires
        id3_only_last(candidates),
    ensures
        ({
            let out = match first_matching(buffer, candidates) {
                Some(s) => payload_with(s, buffer),
                None => buffer,
            };
            out == match first_matching(out, candidates) {
                Some(s) => payload_with(s, out),
                None => out,
            }
        }),
{
    match first_matching(buffer, candidates) {
        Some(s) => {
            let out = payload_with(s, buffer);
            let needle = s.spec_bytes();
            lemma_first_matching_present(candidates, buffer);
            lemma_payload_idempotent(s, buffer);
            lemma_offset_never_underflows(s, buffer);
            lemma_first_occurrence_none(buffer, needle);
            lemma_id3_bytes(s);
            if status_with(s, buffer) == ExtractStatus::Extracted {
                let i = first_occurrence(buffer, needle)->0;
                let k = i - s.spec_offset();
                assert(out == buffer.skip(k));
                assert(occurs_at(out, needle, s.spec_offset() as int));
                assert(is_subslice(out, needle));
                if signature_present(out, needle) {
                    lemma_first_matching_of_suffix(candidates, buffer, k, s);
                } else {
                    assert(s == Signature::Id3);
                    lemma_none_matching_suffix(candidates, buffer, k, s);
                }
            } else {
                assert(out == buffer);
            }
        },
        None => {},
    }
}

} // verus!
