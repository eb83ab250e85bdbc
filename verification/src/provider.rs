//! The provider state machine: the debounced refresh / cycle / accept /
//! discard lifecycle over a single cached suggestion set.
//!
//! A `refresh` call only records the request and bumps the generation
//! counter; the host performs the delay and then hands the request back
//! through `complete_refresh`, which applies the fetched candidates only if
//! the request is still the most recent one (last request wins). A stale
//! completion — one whose generation was superseded by a newer `refresh` —
//! is discarded silently and changes nothing.

use vstd::prelude::*;
use vstd::string::StrSliceExecFns;
use crate::scheduler::COPILOTV2_DEBOUNCE_TIMEOUT_MS;
use crate::status::CopilotV2Status;
use crate::suggestion::{Direction, Suggestion, SuggestionSet, spec_cycle_index};
use crate::text::{
    ends_with, extension_of, lemma_rfind_characterisation, rfind_before, spec_current_line,
    spec_ends_with, spec_extension, spec_is_blank, spec_trim_end, trim_end, is_blank,
};
use crate::validity::{all_valid, spec_all_valid, spec_is_valid};

verus! {

/// What the provider knows about a buffer at one instant: its identity, its
/// text, and the name of the file it holds, if any. Positions count
/// characters of `text`.
pub struct BufferSnapshot {
    pub id: u64,
    pub text: String,
    pub file_name: Option<String>,
}

/// A unit of refresh work handed to the host: which buffer and position to
/// fetch for, how long to wait first, and the generation that decides
/// whether the result is still wanted when it comes back.
#[derive(Clone, Copy, Debug, PartialEq, Eq, Structural)]
pub struct RefreshRequest {
    pub generation: u64,
    pub buffer_id: u64,
    pub position: usize,
    pub delay_ms: u64,
}

/// One edit of a surfaced prediction: replace the half-open character range
/// `start..end` with `text`.
#[derive(Debug)]
pub struct Edit {
    pub start: usize,
    pub end: usize,
    pub text: String,
}

/// The prediction handed to the editor: an identifier for the accept
/// notification and the edits to apply.
#[derive(Debug)]
pub struct EditPrediction {
    pub id: Option<String>,
    pub edits: Vec<Edit>,
}

/// The provider: the current suggestion set, the buffer identity and file
/// extension it was generated for, the refresh generation counter, and the
/// request still in flight, if any.
pub struct CopilotV2Provider {
    pub buffer_id: Option<u64>,
    pub cache: SuggestionSet,
    pub file_extension: Option<String>,
    pub generation: u64,
    pub pending: Option<RefreshRequest>,
}

/// The text a candidate completes the current line with, chosen from the
/// line's content once trailing whitespace is ignored.
pub open spec fn spec_mock_text(line: Seq<char>) -> Seq<char> {
    if spec_ends_with(spec_trim_end(line), "function "@) {
        "myFunction() {\n    // TODO: Implement function\n}"@
    } else if spec_ends_with(spec_trim_end(line), "//"@) {
        " TODO: Add implementation here"@
    } else if spec_ends_with(spec_trim_end(line), "console."@) {
        "log('Debug message')"@
    } else {
        "// CopilotV2 suggestion"@
    }
}

/// What `refresh` does: bump the generation and record the new request as
/// pending, leaving the cached suggestions untouched.
pub open spec fn spec_refresh(
    p: CopilotV2Provider,
    buffer_id: u64,
    position: usize,
    debounce: bool,
) -> (CopilotV2Provider, RefreshRequest) {
    let req = RefreshRequest {
        generation: (p.generation + 1) as u64,
        buffer_id,
        position,
        delay_ms: if debounce {
            COPILOTV2_DEBOUNCE_TIMEOUT_MS as u64
        } else {
            0
        },
    };
    (
        CopilotV2Provider {
            generation: (p.generation + 1) as u64,
            pending: Some(req),
            ..p
        },
        req,
    )
}

/// Whether `suggest` surfaces the active suggestion: there must be one, the
/// set must have been generated for the queried buffer with every
/// candidate's range endpoints still resolving in the current snapshot (one
/// stale candidate invalidates the whole set for presentation), the active
/// candidate's range must be an insertion exactly at the queried cursor,
/// and its text must not be blank.
pub open spec fn spec_suggest_ok(
    p: CopilotV2Provider,
    buffer_id: u64,
    text_len: nat,
    cursor: usize,
) -> bool {
    match p.cache.spec_active() {
        None => false,
        Some(c) => {
            &&& spec_all_valid(p.cache.suggestions@, p.buffer_id, buffer_id, text_len)
            &&& c.range_start == c.range_end
            &&& c.range_start == cursor
            &&& !spec_is_blank(c.text@)
        },
    }
}

/// How `complete_refresh` relates the provider before (`pre`) and after
/// (`post`) the call. A stale completion — its generation superseded by a
/// newer refresh — changes nothing. A current one returns the machine to
/// idle and replaces the cached set wholesale with the candidates fetched
/// for (`snapshot`, `position`): one insertion candidate when the position
/// lies within the text, the empty set when it does not (an invalid
/// position is recovered by an empty set, never surfaced as an error).
pub open spec fn spec_completed(
    pre: CopilotV2Provider,
    post: CopilotV2Provider,
    generation: u64,
    snapshot: BufferSnapshot,
    position: usize,
) -> bool {
    if generation != pre.generation {
        post == pre
    } else {
        &&& post.generation == pre.generation
        &&& post.pending is None
        &&& post.buffer_id == Some(snapshot.id)
        &&& post.cache.active_index == 0
        &&& match (snapshot.file_name, post.file_extension) {
            (Some(name), Some(e)) => spec_extension(name@) == Some(e@),
            (Some(name), None) => spec_extension(name@) is None,
            (None, ext) => ext is None,
        }
        &&& if position > snapshot.text@.len() {
            post.cache.suggestions@ == Seq::<Suggestion>::empty()
        } else {
            &&& post.cache.suggestions@.len() == 1
            &&& post.cache.suggestions@[0].id == 0
            &&& post.cache.suggestions@[0].range_start == position
            &&& post.cache.suggestions@[0].range_end == position
            &&& post.cache.suggestions@[0].text@ == spec_mock_text(
                spec_current_line(snapshot.text@, position as int),
            )
        }
    }
}

impl CopilotV2Provider {
    /// The cache is well formed and a pending request always carries the
    /// current generation.
    pub open spec fn wf(self) -> bool {
        &&& self.cache.wf()
        &&& match self.pending {
            Some(req) => req.generation == self.generation,
            None => true,
        }
    }

    /// A fresh provider: no suggestions, no recorded buffer, nothing in
    /// flight.
    pub fn new() -> (r: CopilotV2Provider)
        ensures
            r.wf(),
            r.buffer_id is None,
            r.cache.suggestions@ == Seq::<Suggestion>::empty(),
            r.cache.active_index == 0,
            r.file_extension is None,
            r.generation == 0,
            r.pending is None,
    {
        CopilotV2Provider {
            buffer_id: None,
            cache: SuggestionSet::new(),
            file_extension: None,
            generation: 0,
            pending: None,
        }
    }

    /// The currently active suggestion, if any.
    pub fn active_completion(&self) -> (r: Option<&Suggestion>)
        requires
            self.wf(),
        ensures
            r == match self.cache.spec_active() {
                Some(_) => Some(&self.cache.suggestions[self.cache.active_index as int]),
                None => None::<&Suggestion>,
            },
            r is Some <==> self.cache.suggestions.len() > 0,
    {
        self.cache.active()
    }

    /// A refresh is reported only while one is in flight and the cache is
    /// still empty; refreshing an already-populated cache stays quiet to
    /// avoid flicker.
    pub fn is_refreshing(&self) -> (r: bool)
        ensures
            r == (self.pending is Some && self.cache.suggestions.len() == 0),
    {
        self.pending.is_some() && self.cache.len() == 0
    }

    /// Whether predictions are offered at all: the provider delegates to
    /// the backing service's status and offers predictions exactly while a
    /// user is signed in.
    pub fn is_enabled(&self, status: &CopilotV2Status) -> (r: bool)
        ensures
            r == (status is SignedIn),
    {
        status.is_authorized()
    }

    /// Issues a new refresh for (`buffer_id`, `position`): any request still
    /// in flight is superseded, and the returned request — to be executed by
    /// the host after its delay — becomes the only one whose completion will
    /// be applied.
    pub fn refresh(&mut self, buffer_id: u64, position: usize, debounce: bool) -> (r:
        RefreshRequest)
        requires
            old(self).wf(),
            old(self).generation < u64::MAX,
        ensures
            final(self).wf(),
            *final(self) == spec_refresh(*old(self), buffer_id, position, debounce).0,
            r == spec_refresh(*old(self), buffer_id, position, debounce).1,
            final(self).generation == old(self).generation + 1,
            final(self).pending == Some(r),
            final(self).cache == old(self).cache,
            r.delay_ms == if debounce {
                COPILOTV2_DEBOUNCE_TIMEOUT_MS as u64
            } else {
                0u64
            },
    {
        self.generation = self.generation + 1;
        let req = RefreshRequest {
            generation: self.generation,
            buffer_id,
            position,
            delay_ms: if debounce {
                COPILOTV2_DEBOUNCE_TIMEOUT_MS
            } else {
                0
            },
        };
        self.pending = Some(req);
        req
    }

    /// Generates the candidates for `snapshot` at `cursor_offset`. An offset
    /// beyond the end of the text short-circuits to no candidates; otherwise
    /// exactly one insertion candidate at the cursor is produced, its text
    /// chosen from the content of the current line.
    pub fn generate_mock_completions(&self, snapshot: &BufferSnapshot, cursor_offset: usize) -> (r:
        Vec<Suggestion>)
        ensures
            cursor_offset > snapshot.text@.len() ==> r@.len() == 0,
            cursor_offset <= snapshot.text@.len() ==> {
                &&& r@.len() == 1
                &&& r@[0].id == 0
                &&& r@[0].range_start == cursor_offset
                &&& r@[0].range_end == cursor_offset
                &&& r@[0].text@ == spec_mock_text(
                    spec_current_line(snapshot.text@, cursor_offset as int),
                )
            },
    {
        let s = snapshot.text.as_str();
        let text_len = s.unicode_len();
        if cursor_offset > text_len {
            return Vec::new();
        }
        let line_start: usize = match rfind_before(s, '\n', cursor_offset) {
            Some(i) => {
                proof {
                    lemma_rfind_characterisation(s@.take(cursor_offset as int), '\n');
                }
                i + 1
            },
            None => 0,
        };
        let current_line = s.substring_char(line_start, cursor_offset);
        let trimmed = trim_end(current_line);
        proof {
            assert(current_line@ == spec_current_line(snapshot.text@, cursor_offset as int));
        }
        let completion_text: &'static str = if ends_with(trimmed, "function ") {
            "myFunction() {\n    // TODO: Implement function\n}"
        } else if ends_with(trimmed, "//") {
            " TODO: Add implementation here"
        } else if ends_with(trimmed, "console.") {
            "log('Debug message')"
        } else {
            "// CopilotV2 suggestion"
        };
        let candidate = Suggestion {
            id: 0,
            range_start: cursor_offset,
            range_end: cursor_offset,
            text: completion_text.to_owned(),
        };
        let mut r: Vec<Suggestion> = Vec::new();
        r.push(candidate);
        r
    }

    /// Applies the outcome of the refresh issued as `generation`, fetching
    /// the candidates for (`snapshot`, `position`). If a newer refresh has
    /// been issued since, the completion is stale and nothing changes.
    /// Otherwise the machine returns to idle and the cached set is replaced
    /// wholesale, recorded for `snapshot`'s buffer and file extension: with
    /// the fetched candidates and the active index reset to 0, or with the
    /// empty set when the generation-time position lay beyond the text.
    pub fn complete_refresh(&mut self, generation: u64, snapshot: &BufferSnapshot, position: usize)
        requires
            old(self).wf(),
        ensures
            final(self).wf(),
            spec_completed(*old(self), *final(self), generation, *snapshot, position),
            generation != old(self).generation ==> *final(self) == *old(self),
    {
        if generation != self.generation {
            // A newer refresh superseded this one: drop the stale response.
            return ;
        }
        let candidates = self.generate_mock_completions(snapshot, position);
        self.pending = None;
        self.cache.clear();
        self.buffer_id = Some(snapshot.id);
        self.file_extension = match &snapshot.file_name {
            Some(name) => extension_of(name.as_str()),
            None => None,
        };
        if candidates.len() > 0 {
            let first = candidates[0].clone();
            self.cache.push(first);
        }
    }

    /// Rotates the active index over the cached candidates; on an empty
    /// cache this changes nothing. Cycling never triggers a fetch.
    pub fn cycle(&mut self, direction: Direction)
        requires
            old(self).wf(),
        ensures
            final(self).wf(),
            final(self).cache.suggestions == old(self).cache.suggestions,
            final(self).cache.active_index == spec_cycle_index(
                old(self).cache.suggestions.len() as nat,
                old(self).cache.active_index as nat,
                direction,
            ),
            final(self).buffer_id == old(self).buffer_id,
            final(self).file_extension == old(self).file_extension,
            final(self).generation == old(self).generation,
            final(self).pending == old(self).pending,
            old(self).cache.suggestions.len() == 0 ==> *final(self) == *old(self),
    {
        self.cache.cycle(direction);
    }

    /// Reads the active suggestion for acceptance, returning the identifier
    /// to notify the source with. With nothing active this is a no-op and
    /// nothing is notified.
    pub fn accept(&self) -> (r: Option<u64>)
        requires
            self.wf(),
        ensures
            r == match self.cache.spec_active() {
                Some(c) => Some(c.id),
                None => None::<u64>,
            },
    {
        match self.cache.active() {
            Some(c) => Some(c.id),
            None => None,
        }
    }

    /// Reports the cached suggestions as rejected, returning the identifiers
    /// to notify the source with: none when prediction display is disabled
    /// or the cache is empty. The cache itself is not cleared.
    pub fn discard(&self, predictions_enabled: bool) -> (r: Vec<u64>)
        ensures
            !predictions_enabled ==> r@ == Seq::<u64>::empty(),
            predictions_enabled ==> r@ == self.cache.suggestions@.map_values(
                |c: Suggestion| c.id,
            ),
    {
        let mut ids: Vec<u64> = Vec::new();
        if !predictions_enabled {
            return ids;
        }
        let n = self.cache.len();
        let mut i: usize = 0;
        while i < n
            invariant
                n == self.cache.suggestions.len(),
                i <= n,
                ids@ == self.cache.suggestions@.take(i as int).map_values(|c: Suggestion| c.id),
            decreases n - i,
        {
            ids.push(self.cache.suggestions[i].id);
            proof {
                assert(self.cache.suggestions@.take(i + 1).map_values(|c: Suggestion| c.id)
                    =~= self.cache.suggestions@.take(i as int).map_values(|c: Suggestion| c.id).push(
                    self.cache.suggestions@[i as int].id,
                ));
            }
            i = i + 1;
        }
        proof {
            assert(self.cache.suggestions@.take(n as int) =~= self.cache.suggestions@);
        }
        ids
    }

    /// Surfaces the active suggestion for (`buffer_id`, `cursor_offset`), or
    /// `None` unless the set was generated for this very buffer, every
    /// cached candidate still resolves in the current snapshot, and the
    /// active one is a non-blank insertion exactly at the cursor.
    pub fn suggest(&self, buffer_id: u64, snapshot: &BufferSnapshot, cursor_offset: usize) -> (r:
        Option<EditPrediction>)
        requires
            self.wf(),
        ensures
            r is Some <==> spec_suggest_ok(*self, buffer_id, snapshot.text@.len(), cursor_offset),
            self.buffer_id != Some(buffer_id) ==> r is None,
            match r {
                Some(p) => {
                    &&& match p.id {
                        Some(pid) => pid@ == "copilotv2-mock"@,
                        None => false,
                    }
                    &&& p.edits@.len() == 1
                    &&& p.edits@[0].start == cursor_offset
                    &&& p.edits@[0].end == cursor_offset
                    &&& p.edits@[0].text@ == match self.cache.spec_active() {
                        Some(c) => c.text@,
                        None => Seq::<char>::empty(),
                    }
                },
                None => true,
            },
    {
        let completion = match self.cache.active() {
            Some(c) => c,
            None => {
                return None;
            },
        };
        let text_len = snapshot.text.as_str().unicode_len();
        if !all_valid(&self.cache.suggestions, self.buffer_id, buffer_id, text_len) {
            return None;
        }
        proof {
            assert(spec_is_valid(
                self.cache.suggestions@[self.cache.active_index as int],
                self.buffer_id,
                buffer_id,
                text_len as nat,
            ));
        }
        if completion.range_start == completion.range_end && completion.range_start
            == cursor_offset {
            if !is_blank(completion.text.as_str()) {
                return Some(
                    EditPrediction {
                        id: Some("copilotv2-mock".to_owned()),
                        edits: vec![
                            Edit {
                                start: cursor_offset,
                                end: cursor_offset,
                                text: completion.text.clone(),
                            },
                        ],
                    },
                );
            }
        }
        None
    }
}

/// Last request wins: once a second refresh has been issued, the request of
/// the first no longer carries the current generation — so by
/// `complete_refresh`'s contract its late completion is discarded and
/// changes nothing — while the second one does.
pub proof fn lemma_last_refresh_wins(
    p0: CopilotV2Provider,
    b1: u64,
    pos1: usize,
    d1: bool,
    b2: u64,
    pos2: usize,
    d2: bool,
)
    requires
        p0.generation + 2 <= u64::MAX,
    ensures
        ({
            let (p1, r1) = spec_refresh(p0, b1, pos1, d1);
            let (p2, r2) = spec_refresh(p1, b2, pos2, d2);
            r1.generation != p2.generation && r2.generation == p2.generation
        }),
{
}

/// With an empty cache there is no active suggestion, so `suggest` surfaces
/// nothing — whatever buffer, snapshot or cursor it is asked about.
pub proof fn lemma_empty_cache_suggests_nothing(
    p: CopilotV2Provider,
    buffer_id: u64,
    text_len: nat,
    cursor: usize,
)
    requires
        p.cache.suggestions@.len() == 0,
    ensures
        !spec_suggest_ok(p, buffer_id, text_len, cursor),
{
}

/// A suggestion set recorded for one buffer is never surfaced in another:
/// if the queried identity differs from the recorded one, `suggest` yields
/// `None`.
pub proof fn lemma_foreign_buffer_suggests_nothing(
    p: CopilotV2Provider,
    buffer_id: u64,
    text_len: nat,
    cursor: usize,
)
    requires
        p.buffer_id != Some(buffer_id),
    ensures
        !spec_suggest_ok(p, buffer_id, text_len, cursor),
{
    match p.cache.spec_active() {
        None => {},
        Some(_) => {
            let i = p.cache.active_index as int;
            assert(!spec_is_valid(p.cache.suggestions@[i], p.buffer_id, buffer_id, text_len));
        },
    }
}

/// An invalid generation-time position is recovered by the empty set: a
/// refresh that completes un-superseded with its position beyond the text
/// leaves an empty cache, and such a provider surfaces no suggestion for
/// any buffer, snapshot or cursor it is asked about.
pub proof fn lemma_invalid_position_never_surfaces(
    pre: CopilotV2Provider,
    post: CopilotV2Provider,
    generation: u64,
    snapshot: BufferSnapshot,
    position: usize,
    buffer_id: u64,
    text_len: nat,
    cursor: usize,
)
    requires
        generation == pre.generation,
        position > snapshot.text@.len(),
        spec_completed(pre, post, generation, snapshot, position),
    ensures
        post.cache.suggestions@ == Seq::<Suggestion>::empty(),
        !spec_suggest_ok(post, buffer_id, text_len, cursor),
{
}

/// The full supersession scenario: a refresh is overtaken by a second one
/// before it completes. After the second request's completion and however
/// late the first one's fetch resolves, the observable state is the one the
/// second request produced — its buffer recorded, its position's candidate
/// cached (or the empty set if that position lay beyond the text), and the
/// stale completion writing nothing.
pub proof fn lemma_superseded_scenario(
    p0: CopilotV2Provider,
    buffer_id: u64,
    pos1: usize,
    d1: bool,
    pos2: usize,
    d2: bool,
    snap_a: BufferSnapshot,
    snap_b: BufferSnapshot,
    p3: CopilotV2Provider,
    p4: CopilotV2Provider,
)
    requires
        p0.generation + 2 <= u64::MAX,
        spec_completed(
            spec_refresh(spec_refresh(p0, buffer_id, pos1, d1).0, buffer_id, pos2, d2).0,
            p3,
            spec_refresh(spec_refresh(p0, buffer_id, pos1, d1).0, buffer_id, pos2, d2).1.generation,
            snap_b,
            pos2,
        ),
        spec_completed(p3, p4, spec_refresh(p0, buffer_id, pos1, d1).1.generation, snap_a, pos1),
    ensures
        p4 == p3,
        p3.buffer_id == Some(snap_b.id),
        p3.pending is None,
        pos2 <= snap_b.text@.len() ==> p3.cache.suggestions@.len() == 1
            && p3.cache.suggestions@[0].range_start == pos2 && p3.cache.suggestions@[0].range_end
            == pos2,
        pos2 > snap_b.text@.len() ==> p3.cache.suggestions@ == Seq::<Suggestion>::empty(),
{
    let r1 = spec_refresh(p0, buffer_id, pos1, d1).1;
    let p2 = spec_refresh(spec_refresh(p0, buffer_id, pos1, d1).0, buffer_id, pos2, d2).0;
    assert(r1.generation == p0.generation + 1);
    assert(p2.generation == p0.generation + 2);
    assert(p3.generation == p2.generation);
    assert(r1.generation != p3.generation);
}

} // verus!
