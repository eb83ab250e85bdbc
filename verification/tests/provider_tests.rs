use copilot_v2::provider::{BufferSnapshot, CopilotV2Provider};
use copilot_v2::status::CopilotV2Status;
use copilot_v2::suggestion::{Direction, Suggestion, SuggestionSet};

fn snapshot(id: u64, text: &str) -> BufferSnapshot {
    BufferSnapshot {
        id,
        text: text.to_string(),
        file_name: None,
    }
}

fn named_snapshot(id: u64, text: &str, file_name: &str) -> BufferSnapshot {
    BufferSnapshot {
        id,
        text: text.to_string(),
        file_name: Some(file_name.to_string()),
    }
}

#[test]
fn fresh_provider_is_empty() {
    let p = CopilotV2Provider::new();
    assert!(p.buffer_id.is_none());
    assert_eq!(p.cache.suggestions.len(), 0);
    assert_eq!(p.cache.active_index, 0);
    assert!(p.file_extension.is_none());
    assert_eq!(p.generation, 0);
    assert!(p.pending.is_none());
    assert!(!p.is_refreshing());
}

#[test]
fn refresh_records_request_and_delay() {
    let mut p = CopilotV2Provider::new();
    let debounced = p.refresh(7, 3, true);
    assert_eq!(debounced.generation, 1);
    assert_eq!(debounced.buffer_id, 7);
    assert_eq!(debounced.position, 3);
    assert_eq!(debounced.delay_ms, 75);
    assert!(p.is_refreshing());

    let immediate = p.refresh(7, 4, false);
    assert_eq!(immediate.generation, 2);
    assert_eq!(immediate.delay_ms, 0);
}

#[test]
fn complete_refresh_populates_cache() {
    let mut p = CopilotV2Provider::new();
    let snap = snapshot(7, "let x = 1;\nlet y");
    let req = p.refresh(7, 16, false);
    p.complete_refresh(req.generation, &snap, 16);
    assert_eq!(p.cache.suggestions.len(), 1);
    assert_eq!(p.buffer_id, Some(7));
    assert!(p.pending.is_none());
    assert!(!p.is_refreshing());
    let c = &p.cache.suggestions[0];
    assert_eq!(c.range_start, 16);
    assert_eq!(c.range_end, 16);
    assert_eq!(c.text, "// CopilotV2 suggestion");
}

// Reordering: a newer refresh is issued while an older fetch is still in
// flight; whichever order the completions arrive in, only the newest
// request's result is ever observable.
#[test]
fn stale_completion_is_discarded() {
    let mut p = CopilotV2Provider::new();
    let snap = snapshot(1, "console.\nlet z = 0;");
    let req_a = p.refresh(1, 8, false);
    let req_b = p.refresh(1, 12, false);
    // B completes first and wins.
    p.complete_refresh(req_b.generation, &snap, 12);
    assert_eq!(p.cache.suggestions[0].range_start, 12);
    // A's fetch resolves afterwards: silently dropped.
    p.complete_refresh(req_a.generation, &snap, 8);
    assert_eq!(p.cache.suggestions.len(), 1);
    assert_eq!(p.cache.suggestions[0].range_start, 12);
    assert_eq!(p.cache.suggestions[0].text, "// CopilotV2 suggestion");
}

// Scenario: refresh(buffer=B1, pos=10, debounce=true), then before the
// delay elapses refresh(buffer=B1, pos=12, debounce=false). Exactly one
// suggestion set remains, reflecting pos 12, and the first request's late
// fetch must not overwrite it.
#[test]
fn debounced_request_superseded_before_delay() {
    let mut p = CopilotV2Provider::new();
    let snap = snapshot(1, "abcdefghijklmnop");
    let first = p.refresh(1, 10, true);
    assert_eq!(first.delay_ms, 75);
    let second = p.refresh(1, 12, false);
    assert_eq!(second.delay_ms, 0);
    p.complete_refresh(second.generation, &snap, 12);
    assert_eq!(p.cache.suggestions.len(), 1);
    assert_eq!(p.cache.suggestions[0].range_start, 12);
    // The debounced fetch finally fires, long superseded.
    p.complete_refresh(first.generation, &snap, 10);
    assert_eq!(p.cache.suggestions.len(), 1);
    assert_eq!(p.cache.suggestions[0].range_start, 12);
}

// The other arrival order: the superseded fetch resolves before the newest
// one. It must not be applied, and the newest still wins.
#[test]
fn superseded_fetch_resolving_first_is_ignored() {
    let mut p = CopilotV2Provider::new();
    let snap = snapshot(1, "abcdefghijklmnop");
    let req_a = p.refresh(1, 10, true);
    let req_b = p.refresh(1, 12, false);
    p.complete_refresh(req_a.generation, &snap, 10);
    assert_eq!(p.cache.suggestions.len(), 0);
    assert!(p.is_refreshing());
    p.complete_refresh(req_b.generation, &snap, 12);
    assert_eq!(p.cache.suggestions.len(), 1);
    assert_eq!(p.cache.suggestions[0].range_start, 12);
}

// A refresh whose generation-time offset lies beyond the text recovers by
// replacing the cache with the empty set: the previous suggestions are
// gone, the machine is idle again, and nothing is surfaced.
#[test]
fn out_of_range_fetch_replaces_cache_with_empty_set() {
    let mut p = CopilotV2Provider::new();
    let snap = snapshot(1, "abc");
    let req = p.refresh(1, 2, false);
    p.complete_refresh(req.generation, &snap, 2);
    assert_eq!(p.cache.suggestions[0].range_start, 2);
    let req2 = p.refresh(1, 10, false);
    p.complete_refresh(req2.generation, &snap, 10);
    assert_eq!(p.cache.suggestions.len(), 0);
    assert_eq!(p.cache.active_index, 0);
    assert!(p.pending.is_none());
    assert!(!p.is_refreshing());
    assert_eq!(p.buffer_id, Some(1));
    assert!(p.suggest(1, &snap, 2).is_none());
    assert!(p.suggest(1, &snap, 10).is_none());
}

// An out-of-range generation-time offset yields no candidates: offset ==
// text length is still valid, text length + 1 is not.
#[test]
fn offset_boundary_at_text_length() {
    let mut p = CopilotV2Provider::new();
    let snap = snapshot(1, "abc");
    let req = p.refresh(1, 3, false);
    p.complete_refresh(req.generation, &snap, 3);
    assert_eq!(p.cache.suggestions.len(), 1);
    assert!(p.suggest(1, &snap, 3).is_some());

    let mut q = CopilotV2Provider::new();
    let req = q.refresh(1, 4, false);
    q.complete_refresh(req.generation, &snap, 4);
    assert_eq!(q.cache.suggestions.len(), 0);
    assert!(q.pending.is_none());
    assert!(q.suggest(1, &snap, 4).is_none());
    assert!(q.suggest(1, &snap, 3).is_none());
}

#[test]
fn suggest_requires_matching_buffer() {
    let mut p = CopilotV2Provider::new();
    let snap = snapshot(1, "hello");
    let req = p.refresh(1, 5, false);
    p.complete_refresh(req.generation, &snap, 5);
    assert!(p.suggest(1, &snap, 5).is_some());
    // Same snapshot text, different buffer identity.
    let other = snapshot(2, "hello");
    assert!(p.suggest(2, &other, 5).is_none());
}

#[test]
fn suggest_requires_cursor_at_insertion_point() {
    let mut p = CopilotV2Provider::new();
    let snap = snapshot(1, "hello");
    let req = p.refresh(1, 5, false);
    p.complete_refresh(req.generation, &snap, 5);
    assert!(p.suggest(1, &snap, 4).is_none());
    let prediction = p.suggest(1, &snap, 5).expect("suggestion expected");
    assert_eq!(prediction.id.as_deref(), Some("copilotv2-mock"));
    assert_eq!(prediction.edits.len(), 1);
    assert_eq!(prediction.edits[0].start, 5);
    assert_eq!(prediction.edits[0].end, 5);
    assert_eq!(prediction.edits[0].text, "// CopilotV2 suggestion");
}

// One stale candidate invalidates the entire set for presentation: even
// though the active candidate still resolves, nothing is surfaced while a
// sibling's endpoints do not.
#[test]
fn one_stale_candidate_invalidates_whole_set() {
    let cached = |id: u64, at: usize, text: &str| Suggestion {
        id,
        range_start: at,
        range_end: at,
        text: text.to_string(),
    };
    let p = CopilotV2Provider {
        buffer_id: Some(1),
        cache: SuggestionSet {
            suggestions: vec![cached(0, 2, "fresh"), cached(1, 9, "stale")],
            active_index: 0,
        },
        file_extension: None,
        generation: 1,
        pending: None,
    };
    // Five characters: the active candidate (offset 2) resolves, the other
    // (offset 9) does not.
    let snap = snapshot(1, "hello");
    assert!(p.suggest(1, &snap, 2).is_none());

    let q = CopilotV2Provider {
        buffer_id: Some(1),
        cache: SuggestionSet {
            suggestions: vec![cached(0, 2, "fresh"), cached(1, 4, "also fresh")],
            active_index: 0,
        },
        file_extension: None,
        generation: 1,
        pending: None,
    };
    assert!(q.suggest(1, &snap, 2).is_some());
}

#[test]
fn suggest_rejects_stale_range_endpoints() {
    let mut p = CopilotV2Provider::new();
    let snap = snapshot(1, "hello");
    let req = p.refresh(1, 5, false);
    p.complete_refresh(req.generation, &snap, 5);
    // The buffer shrank: the recorded endpoints no longer resolve.
    let shrunk = snapshot(1, "hi");
    assert!(p.suggest(1, &shrunk, 2).is_none());
}

// The function-keyword pattern ends in a space, but the line is compared
// only after its trailing whitespace is trimmed away — so that branch can
// never fire and such a line gets the generic fallback.
#[test]
fn mock_completion_for_function_line() {
    let mut p = CopilotV2Provider::new();
    let text = "function ";
    let snap = snapshot(1, text);
    let req = p.refresh(1, text.len(), false);
    p.complete_refresh(req.generation, &snap, text.len());
    assert_eq!(p.cache.suggestions[0].text, "// CopilotV2 suggestion");
}

#[test]
fn mock_completion_for_comment_line() {
    let mut p = CopilotV2Provider::new();
    let text = "let a = 1;\n//";
    let snap = snapshot(1, text);
    let req = p.refresh(1, text.len(), false);
    p.complete_refresh(req.generation, &snap, text.len());
    assert_eq!(p.cache.suggestions[0].text, " TODO: Add implementation here");
}

#[test]
fn mock_completion_for_console_line() {
    let mut p = CopilotV2Provider::new();
    let text = "console.";
    let snap = snapshot(1, text);
    let req = p.refresh(1, text.len(), false);
    p.complete_refresh(req.generation, &snap, text.len());
    assert_eq!(p.cache.suggestions[0].text, "log('Debug message')");
}

#[test]
fn mock_completion_trims_trailing_whitespace() {
    let mut p = CopilotV2Provider::new();
    // The line ends in whitespace; trimming exposes the "console." suffix.
    let text = "console.  ";
    let snap = snapshot(1, text);
    let req = p.refresh(1, text.len(), false);
    p.complete_refresh(req.generation, &snap, text.len());
    assert_eq!(p.cache.suggestions[0].text, "log('Debug message')");
}

#[test]
fn file_extension_is_recorded() {
    let mut p = CopilotV2Provider::new();
    let snap = named_snapshot(1, "fn main() {}", "main.rs");
    let req = p.refresh(1, 0, false);
    p.complete_refresh(req.generation, &snap, 0);
    assert_eq!(p.file_extension.as_deref(), Some("rs"));

    let mut q = CopilotV2Provider::new();
    let snap = named_snapshot(1, "all: build", "Makefile");
    let req = q.refresh(1, 0, false);
    q.complete_refresh(req.generation, &snap, 0);
    assert!(q.file_extension.is_none());

    let mut r = CopilotV2Provider::new();
    let snap = named_snapshot(1, "*.o", ".gitignore");
    let req = r.refresh(1, 0, false);
    r.complete_refresh(req.generation, &snap, 0);
    assert!(r.file_extension.is_none());
}

#[test]
fn is_refreshing_only_while_cache_empty() {
    let mut p = CopilotV2Provider::new();
    let snap = snapshot(1, "hello");
    let req = p.refresh(1, 5, false);
    assert!(p.is_refreshing());
    p.complete_refresh(req.generation, &snap, 5);
    assert!(!p.is_refreshing());
    // A refresh over an already-populated cache does not report as
    // refreshing, to avoid flicker.
    let _req2 = p.refresh(1, 4, true);
    assert!(!p.is_refreshing());
}

// Cycling on an empty cache changes nothing and does not fault.
#[test]
fn cycle_on_empty_cache_is_noop() {
    let mut p = CopilotV2Provider::new();
    p.cycle(Direction::Next);
    p.cycle(Direction::Prev);
    assert_eq!(p.cache.active_index, 0);
    assert_eq!(p.cache.suggestions.len(), 0);
}

#[test]
fn cycle_on_single_suggestion_stays_put() {
    let mut p = CopilotV2Provider::new();
    let snap = snapshot(1, "hello");
    let req = p.refresh(1, 5, false);
    p.complete_refresh(req.generation, &snap, 5);
    p.cycle(Direction::Next);
    assert_eq!(p.cache.active_index, 0);
    p.cycle(Direction::Prev);
    assert_eq!(p.cache.active_index, 0);
}

// accept() with an empty cache returns without effect.
#[test]
fn accept_with_empty_cache_is_noop() {
    let p = CopilotV2Provider::new();
    assert!(p.accept().is_none());
}

#[test]
fn accept_returns_active_suggestion_id() {
    let mut p = CopilotV2Provider::new();
    let snap = snapshot(1, "hello");
    let req = p.refresh(1, 5, false);
    p.complete_refresh(req.generation, &snap, 5);
    assert_eq!(p.accept(), Some(0));
}

// discard() with zero cached suggestions emits no notification and changes
// no state.
#[test]
fn discard_with_empty_cache_emits_nothing() {
    let p = CopilotV2Provider::new();
    assert!(p.discard(true).is_empty());
    assert!(p.discard(false).is_empty());
    assert_eq!(p.cache.suggestions.len(), 0);
}

#[test]
fn discard_reports_cached_ids_without_clearing() {
    let mut p = CopilotV2Provider::new();
    let snap = snapshot(1, "hello");
    let req = p.refresh(1, 5, false);
    p.complete_refresh(req.generation, &snap, 5);
    assert_eq!(p.discard(true), vec![0]);
    // The cache itself is not cleared by a discard.
    assert_eq!(p.cache.suggestions.len(), 1);
    // With prediction display disabled, discard is a no-op.
    assert!(p.discard(false).is_empty());
}

#[test]
fn is_enabled_follows_sign_in_status() {
    let p = CopilotV2Provider::new();
    assert!(p.is_enabled(&CopilotV2Status::SignedIn {
        username: "test-user".to_string()
    }));
    assert!(!p.is_enabled(&CopilotV2Status::SignedOut));
    assert!(!p.is_enabled(&CopilotV2Status::Starting));
    assert!(!p.is_enabled(&CopilotV2Status::SigningIn {
        prompt: "enter code".to_string()
    }));
    assert!(!p.is_enabled(&CopilotV2Status::Unauthorized));
}

#[test]
fn active_completion_follows_cache() {
    let mut p = CopilotV2Provider::new();
    assert!(p.active_completion().is_none());
    let snap = snapshot(1, "hello");
    let req = p.refresh(1, 5, false);
    p.complete_refresh(req.generation, &snap, 5);
    let active = p.active_completion().expect("one suggestion");
    assert_eq!(active.text, "// CopilotV2 suggestion");
}
