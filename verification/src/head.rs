//! Locating the end of a request head in the bytes of the first read.

use vstd::prelude::*;

verus! {

/// The four bytes CR LF CR LF start at index `i` of `data`.
pub open spec fn marker_at(data: Seq<u8>, i: int) -> bool {
    &&& 0 <= i
    &&& i + 3 < data.len()
    &&& data[i] == 13u8
    &&& data[i + 1] == 10u8
    &&& data[i + 2] == 13u8
    &&& data[i + 3] == 10u8
}

/// `i` is the smallest index at which the marker starts.
pub open spec fn first_marker_at(data: Seq<u8>, i: int) -> bool {
    &&& marker_at(data, i)
    &&& forall|j: int| 0 <= j < i ==> !marker_at(data, j)
}

/// Whether `data` holds the marker anywhere.
pub open spec fn has_marker(data: Seq<u8>) -> bool {
    exists|i: int| marker_at(data, i)
}

/// Length of the request head: up to and including the first marker, or all
/// of `data` when it holds none.
pub open spec fn head_len(data: Seq<u8>) -> int {
    if has_marker(data) {
        (choose|i: int| first_marker_at(data, i)) + 4
    } else {
        data.len() as int
    }
}

/// The head ends four bytes after the first index at which the marker
/// starts, and is all of `data` when the marker is absent.
pub proof fn lemma_head_len(data: Seq<u8>, i: int)
    ensures
        first_marker_at(data, i) ==> head_len(data) == i + 4,
        !has_marker(data) ==> head_len(data) == data.len(),
        0 <= head_len(data) <= data.len(),
{
    if has_marker(data) {
        let m = choose|m: int| marker_at(data, m);
        lemma_first_marker(data, m);
    }
}

/// Where the marker occurs at all, it occurs at a first index.
proof fn lemma_first_marker(data: Seq<u8>, m: int) -> (f: int)
    requires
        marker_at(data, m),
    ensures
        first_marker_at(data, f),
        f <= m,
    decreases m,
{
    if exists|j: int| 0 <= j < m && marker_at(data, j) {
        let j = choose|j: int| 0 <= j < m && marker_at(data, j);
        lemma_first_marker(data, j)
    } else {
        m
    }
}

/// Returns the offset just past the first CR LF CR LF, or `data.len()` when
/// the marker is absent.
pub fn find_request_end(data: &[u8]) -> (end: usize)
    ensures
        end == head_len(data@),
        end <= data@.len(),
        forall|i: int| first_marker_at(data@, i) ==> end == i + 4,
        !has_marker(data@) ==> end == data@.len(),
{
    let n: usize = data.len();
    if n < 4 {
        return n;
    }
    let mut i: usize = 0;
    while i < n - 3
        invariant
            n == data@.len(),
            n >= 4,
            i <= n - 3,
            forall|j: int| 0 <= j < i ==> !marker_at(data@, j),
        decreases n - i,
    {
        if data[i] == 13u8 && data[i + 1] == 10u8 && data[i + 2] == 13u8 && data[i + 3] == 10u8 {
            proof {
                lemma_head_len(data@, i as int);
                assert forall|k: int| first_marker_at(data@, k) implies k == i by {
                    lemma_head_len(data@, k);
                }
            }
            return i + 4;
        }
        i += 1;
    }
    n
}

/// The text that lossy UTF-8 decoding makes of `bytes`: valid sequences
/// decode to their characters, invalid ones to U+FFFD.
pub uninterp spec fn utf8_lossy(bytes: Seq<u8>) -> Seq<char>;

/// Calls `String::from_utf8_lossy` and takes ownership of the text.
///
/// Trusted: the text depends on `bytes` alone, so it is `utf8_lossy` of them.
#[verifier::external_body]
pub(crate) fn decode_lossy(bytes: &[u8]) -> (text: String)
    ensures
        text@ == utf8_lossy(bytes@),
{
    String::from_utf8_lossy(bytes).into_owned()
}

} // verus!
