//! The validity check a cached suggestion set must pass before anything in
//! it is surfaced.
//!
//! A suggestion is valid for presentation only if the queried buffer is the
//! one recorded when the suggestion was generated and both endpoints of its
//! range still resolve to positions in the current snapshot. One stale
//! candidate invalidates the whole set for presentation: the consumer is
//! expected to show nothing rather than a mismatched edit. The check is a
//! pure query: it never mutates the cache.

use vstd::prelude::*;
use crate::suggestion::Suggestion;

verus! {

/// Whether `c` may still be shown: the recorded buffer identity matches the
/// queried one and both range endpoints lie within the current snapshot,
/// whose text is `text_len` characters long.
pub open spec fn spec_is_valid(
    c: Suggestion,
    recorded_buffer: Option<u64>,
    buffer_id: u64,
    text_len: nat,
) -> bool {
    &&& recorded_buffer == Some(buffer_id)
    &&& c.range_start <= text_len
    &&& c.range_end <= text_len
}

/// Whether every candidate of `s` is still valid; one mismatch invalidates
/// the entire set.
pub open spec fn spec_all_valid(
    s: Seq<Suggestion>,
    recorded_buffer: Option<u64>,
    buffer_id: u64,
    text_len: nat,
) -> bool {
    forall|i: int|
        0 <= i < s.len() ==> spec_is_valid(#[trigger] s[i], recorded_buffer, buffer_id, text_len)
}

/// Checks a cached suggestion against the buffer it would be shown in.
pub fn is_valid(
    c: &Suggestion,
    recorded_buffer: Option<u64>,
    buffer_id: u64,
    text_len: usize,
) -> (r: bool)
    ensures
        r == spec_is_valid(*c, recorded_buffer, buffer_id, text_len as nat),
{
    let recorded_matches = match recorded_buffer {
        Some(b) => b == buffer_id,
        None => false,
    };
    recorded_matches && c.range_start <= text_len && c.range_end <= text_len
}

/// Checks every cached suggestion against the buffer the set would be shown
/// in.
pub fn all_valid(
    s: &Vec<Suggestion>,
    recorded_buffer: Option<u64>,
    buffer_id: u64,
    text_len: usize,
) -> (r: bool)
    ensures
        r == spec_all_valid(s@, recorded_buffer, buffer_id, text_len as nat),
{
    let n = s.len();
    let mut i: usize = 0;
    while i < n
        invariant
            i <= n,
            n == s@.len(),
            forall|j: int|
                0 <= j < i ==> spec_is_valid(
                    #[trigger] s@[j],
                    recorded_buffer,
                    buffer_id,
                    text_len as nat,
                ),
        decreases n - i,
    {
        if !is_valid(&s[i], recorded_buffer, buffer_id, text_len) {
            return false;
        }
        i = i + 1;
    }
    true
}

} // verus!
