//! Assembling provider trial outcomes into comparison rows.
//!
//! Each provider trial ends in a `CompletionResult`; this module builds one
//! from what the trial got back, renders the rows of the side-by-side
//! comparison table, and decides whether the providers disagree. Printing —
//! and running the trials themselves — is the host's business.

use vstd::prelude::*;
use vstd::string::{StrSliceExecFns, StringExecFns};
use crate::request::{Completion, Position, TextRange};
use crate::text::{
    join_with, pad_to, spec_decimal, spec_join, spec_padded, spec_preview, text_preview,
    u64_to_string, views_of,
};

verus! {

/// How a trial's outcome is presented.
#[derive(Clone, Copy, Debug, PartialEq, Eq, Structural)]
pub enum OutputFormat {
    Human,
    Json,
    Table,
}

/// What one provider trial produced: which provider ran, what kind of
/// completion came back, the affected range and text, a jump target if the
/// provider pointed elsewhere, whether it supports jumps at all, an error
/// if the trial failed, and how long it took in milliseconds.
#[derive(Debug)]
pub struct CompletionResult {
    pub provider: String,
    pub completion_type: Option<String>,
    pub range: Option<String>,
    pub text: Option<String>,
    pub jump_target: Option<String>,
    pub supports_jump: bool,
    pub error: Option<String>,
    pub duration_ms: u64,
}

impl Clone for CompletionResult {
    fn clone(&self) -> (res: Self)
        ensures
            res == *self,
    {
        CompletionResult {
            provider: self.provider.clone(),
            completion_type: clone_opt(&self.completion_type),
            range: clone_opt(&self.range),
            text: clone_opt(&self.text),
            jump_target: clone_opt(&self.jump_target),
            supports_jump: self.supports_jump,
            error: clone_opt(&self.error),
            duration_ms: self.duration_ms,
        }
    }
}

fn clone_opt(o: &Option<String>) -> (r: Option<String>)
    ensures
        r == *o,
{
    match o {
        Some(s) => Some(s.clone()),
        None => None,
    }
}

/// A document position rendered as `(line,character)`.
pub open spec fn spec_point(line: nat, character: nat) -> Seq<char> {
    "("@ + spec_decimal(line) + ","@ + spec_decimal(character) + ")"@
}

/// A document span rendered as `(line,character)..(line,character)`.
pub open spec fn spec_range_label(r: TextRange) -> Seq<char> {
    spec_point(r.start.line as nat, r.start.character as nat) + ".."@ + spec_point(
        r.end.line as nat,
        r.end.character as nat,
    )
}

/// Renders one document position.
pub fn point_label(p: &Position) -> (r: String)
    ensures
        r@ == spec_point(p.line as nat, p.character as nat),
{
    let mut r = "(".to_owned();
    let line = u64_to_string(p.line as u64);
    r.append(line.as_str());
    r.append(",");
    let character = u64_to_string(p.character as u64);
    r.append(character.as_str());
    r.append(")");
    r
}

/// Renders one document span.
pub fn range_label(range: &TextRange) -> (r: String)
    ensures
        r@ == spec_range_label(*range),
{
    let mut r = point_label(&range.start);
    r.append("..");
    let end = point_label(&range.end);
    r.append(end.as_str());
    r
}

/// What a zed trial got back, reduced to plain values.
pub enum ZedPrediction {
    /// Edits local to the queried buffer: each a document span and its
    /// replacement text.
    Local { edits: Vec<(TextRange, String)> },
    /// A pointer to a different place instead of a local edit.
    Jump { file: String, line: u32, character: u32 },
}

/// The span labels of a list of edits, in order.
pub open spec fn spec_edit_ranges(edits: Seq<(TextRange, String)>) -> Seq<Seq<char>> {
    edits.map_values(|e: (TextRange, String)| spec_range_label(e.0))
}

/// The text views of a list of edits, in order.
pub open spec fn spec_edit_texts(edits: Seq<(TextRange, String)>) -> Seq<Seq<char>> {
    edits.map_values(|e: (TextRange, String)| e.1@)
}

/// Builds the zed row of the comparison: the edits' spans joined with
/// `", "` and their texts concatenated, a jump target when the provider
/// pointed elsewhere, and a fixed error note when nothing came back.
pub fn test_zed(prediction: Option<ZedPrediction>, duration_ms: u64) -> (r: CompletionResult)
    ensures
        r.provider@ == "zed"@,
        r.supports_jump,
        r.duration_ms == duration_ms,
        match prediction {
            Some(ZedPrediction::Local { edits }) => {
                &&& match r.completion_type {
                    Some(t) => t@ == "Local"@,
                    None => false,
                }
                &&& match r.range {
                    Some(s) => s@ == spec_join(spec_edit_ranges(edits@), ", "@),
                    None => false,
                }
                &&& match r.text {
                    Some(s) => s@ == spec_join(spec_edit_texts(edits@), Seq::<char>::empty()),
                    None => false,
                }
                &&& r.jump_target is None
                &&& r.error is None
            },
            Some(ZedPrediction::Jump { file, line, character }) => {
                &&& match r.completion_type {
                    Some(t) => t@ == "Jump"@,
                    None => false,
                }
                &&& r.range is None
                &&& r.text is None
                &&& match r.jump_target {
                    Some(s) => s@ == file@ + ":"@ + spec_point(line as nat, character as nat),
                    None => false,
                }
                &&& r.error is None
            },
            None => {
                &&& r.completion_type is None
                &&& r.range is None
                &&& r.text is None
                &&& r.jump_target is None
                &&& match r.error {
                    Some(e) => e@ == "No completion returned"@,
                    None => false,
                }
            },
        },
{
    match prediction {
        Some(ZedPrediction::Local { edits }) => {
            let n = edits.len();
            let mut ranges: Vec<String> = Vec::new();
            let mut texts: Vec<String> = Vec::new();
            let mut i: usize = 0;
            while i < n
                invariant
                    i <= n,
                    n == edits@.len(),
                    ranges@.len() == i,
                    texts@.len() == i,
                    forall|j: int| 0 <= j < i ==> (#[trigger] ranges@[j])@ == spec_range_label(
                        edits@[j].0,
                    ),
                    forall|j: int| 0 <= j < i ==> (#[trigger] texts@[j])@ == edits@[j].1@,
                decreases n - i,
            {
                let label = range_label(&edits[i].0);
                ranges.push(label);
                texts.push(edits[i].1.clone());
                i = i + 1;
            }
            proof {
                assert(views_of(ranges@) =~= spec_edit_ranges(edits@));
                assert(views_of(texts@) =~= spec_edit_texts(edits@));
                reveal_strlit("");
                assert(""@ =~= Seq::<char>::empty());
            }
            CompletionResult {
                provider: "zed".to_owned(),
                completion_type: Some("Local".to_owned()),
                range: Some(join_with(&ranges, ", ")),
                text: Some(join_with(&texts, "")),
                jump_target: None,
                supports_jump: true,
                error: None,
                duration_ms,
            }
        },
        Some(ZedPrediction::Jump { file, line, character }) => {
            let mut target = file;
            target.append(":");
            let point = point_label(&Position { line, character });
            target.append(point.as_str());
            CompletionResult {
                provider: "zed".to_owned(),
                completion_type: Some("Jump".to_owned()),
                range: None,
                text: None,
                jump_target: Some(target),
                supports_jump: true,
                error: None,
                duration_ms,
            }
        },
        None => CompletionResult {
            provider: "zed".to_owned(),
            completion_type: None,
            range: None,
            text: None,
            jump_target: None,
            supports_jump: true,
            error: Some("No completion returned".to_owned()),
            duration_ms,
        },
    }
}

/// Builds the copilot row of the comparison from the completions the trial
/// got back: the first completion's span and text, or a fixed error note
/// when the list is empty.
pub fn test_copilot(completions: &Vec<Completion>, duration_ms: u64) -> (r: CompletionResult)
    ensures
        r.provider@ == "copilot"@,
        !r.supports_jump,
        r.jump_target is None,
        r.duration_ms == duration_ms,
        completions@.len() == 0 ==> {
            &&& r.completion_type is None
            &&& r.range is None
            &&& r.text is None
            &&& match r.error {
                Some(e) => e@ == "No completions returned"@,
                None => false,
            }
        },
        completions@.len() > 0 ==> {
            &&& match r.completion_type {
                Some(t) => t@ == "Local"@,
                None => false,
            }
            &&& match r.range {
                Some(s) => s@ == spec_range_label(completions@[0].range),
                None => false,
            }
            &&& match r.text {
                Some(s) => s@ == completions@[0].text@,
                None => false,
            }
            &&& r.error is None
        },
{
    if completions.len() == 0 {
        return CompletionResult {
            provider: "copilot".to_owned(),
            completion_type: None,
            range: None,
            text: None,
            jump_target: None,
            supports_jump: false,
            error: Some("No completions returned".to_owned()),
            duration_ms,
        };
    }
    let first = &completions[0];
    CompletionResult {
        provider: "copilot".to_owned(),
        completion_type: Some("Local".to_owned()),
        range: Some(range_label(&first.range)),
        text: Some(first.text.clone()),
        jump_target: None,
        supports_jump: false,
        error: None,
        duration_ms,
    }
}

/// Builds the supermaven row of the comparison: the trial's completion text
/// over the span from the cursor to the end of its line, or a fixed error
/// note when no text came back.
pub fn test_supermaven(
    completion_text: String,
    cursor: Position,
    end_of_line: Position,
    duration_ms: u64,
) -> (r: CompletionResult)
    ensures
        r.provider@ == "supermaven"@,
        !r.supports_jump,
        r.jump_target is None,
        r.duration_ms == duration_ms,
        completion_text@.len() == 0 ==> {
            &&& r.completion_type is None
            &&& r.range is None
            &&& r.text is None
            &&& match r.error {
                Some(e) => e@ == "No completion text returned"@,
                None => false,
            }
        },
        completion_text@.len() > 0 ==> {
            &&& match r.completion_type {
                Some(t) => t@ == "Local"@,
                None => false,
            }
            &&& match r.range {
                Some(s) => s@ == spec_range_label(TextRange { start: cursor, end: end_of_line }),
                None => false,
            }
            &&& match r.text {
                Some(s) => s@ == completion_text@,
                None => false,
            }
            &&& r.error is None
        },
{
    if completion_text.as_str().is_empty() {
        return CompletionResult {
            provider: "supermaven".to_owned(),
            completion_type: None,
            range: None,
            text: None,
            jump_target: None,
            supports_jump: false,
            error: Some("No completion text returned".to_owned()),
            duration_ms,
        };
    }
    let range = TextRange { start: cursor, end: end_of_line };
    CompletionResult {
        provider: "supermaven".to_owned(),
        completion_type: Some("Local".to_owned()),
        range: Some(range_label(&range)),
        text: Some(completion_text),
        jump_target: None,
        supports_jump: false,
        error: None,
        duration_ms,
    }
}

/// The three providers' results in the order the comparison presents them.
pub fn compare_all(
    zed: CompletionResult,
    copilot: CompletionResult,
    supermaven: CompletionResult,
) -> (r: Vec<CompletionResult>)
    ensures
        r@.len() == 3,
        r@[0] == zed,
        r@[1] == copilot,
        r@[2] == supermaven,
{
    let mut r: Vec<CompletionResult> = Vec::new();
    r.push(zed);
    r.push(copilot);
    r.push(supermaven);
    r
}

/// The completion type a result shows in the table and in the difference
/// report: its type label, or `None` when it has none.
pub open spec fn spec_type_label(r: CompletionResult) -> Seq<char> {
    match r.completion_type {
        Some(t) => t@,
        None => "None"@,
    }
}

/// The text a result contributes to the difference report: its text, or
/// nothing when it has none.
pub open spec fn spec_text_label(r: CompletionResult) -> Seq<char> {
    match r.text {
        Some(t) => t@,
        None => Seq::empty(),
    }
}

/// The range cell of a result's table row.
pub open spec fn spec_range_cell(r: CompletionResult) -> Seq<char> {
    match r.range {
        Some(t) => t@,
        None => "N/A"@,
    }
}

/// The text-preview cell of a result's table row.
pub open spec fn spec_preview_cell(r: CompletionResult) -> Seq<char> {
    match r.text {
        Some(t) => spec_preview(t@),
        None => "N/A"@,
    }
}

/// The jump cell of a result's table row.
pub open spec fn spec_jump_cell(r: CompletionResult) -> Seq<char> {
    if r.supports_jump {
        "Yes"@
    } else {
        "No"@
    }
}

/// One table row: the five cells padded to their column widths and joined
/// with `" | "`.
pub open spec fn spec_table_row(
    provider: Seq<char>,
    ctype: Seq<char>,
    range: Seq<char>,
    preview: Seq<char>,
    jump: Seq<char>,
) -> Seq<char> {
    spec_padded(provider, 12) + " | "@ + spec_padded(ctype, 10) + " | "@ + spec_padded(range, 20)
        + " | "@ + spec_padded(preview, 30) + " | "@ + spec_padded(jump, 10)
}

fn append_cell(row: &mut String, cell: &str, width: usize)
    ensures
        final(row)@ == old(row)@ + " | "@ + spec_padded(cell@, width as nat),
{
    row.append(" | ");
    let padded = pad_to(cell, width);
    row.append(padded.as_str());
}

/// The header row of the comparison table.
pub fn comparison_header() -> (r: String)
    ensures
        r@ == spec_table_row("Provider"@, "Type"@, "Range"@, "Text Preview"@, "Jump"@),
{
    let mut r = pad_to("Provider", 12);
    append_cell(&mut r, "Type", 10);
    append_cell(&mut r, "Range", 20);
    append_cell(&mut r, "Text Preview", 30);
    append_cell(&mut r, "Jump", 10);
    r
}

/// The rule drawn under the header: one hundred dashes.
pub fn separator_line() -> (r: String)
    ensures
        r@ == Seq::new(100, |i: int| '-'),
{
    let mut r = String::new();
    let mut i: usize = 0;
    proof {
        reveal_strlit("-");
        assert(r@ =~= Seq::new(0, |j: int| '-'));
    }
    while i < 100
        invariant
            i <= 100,
            r@ == Seq::new(i as nat, |j: int| '-'),
        decreases 100 - i,
    {
        r.append("-");
        i = i + 1;
        proof {
            reveal_strlit("-");
            assert(r@ =~= Seq::new(i as nat, |j: int| '-'));
        }
    }
    r
}

/// Renders the table row of one result: provider, type, range, a preview of
/// the text, and whether the provider supports jumps.
pub fn comparison_row(result: &CompletionResult) -> (r: String)
    ensures
        r@ == spec_table_row(
            result.provider@,
            spec_type_label(*result),
            spec_range_cell(*result),
            spec_preview_cell(*result),
            spec_jump_cell(*result),
        ),
{
    let mut r = pad_to(result.provider.as_str(), 12);
    match &result.completion_type {
        Some(t) => append_cell(&mut r, t.as_str(), 10),
        None => append_cell(&mut r, "None", 10),
    };
    match &result.range {
        Some(s) => append_cell(&mut r, s.as_str(), 20),
        None => append_cell(&mut r, "N/A", 20),
    };
    match &result.text {
        Some(t) => {
            let preview = text_preview(t.as_str());
            append_cell(&mut r, preview.as_str(), 30);
        },
        None => append_cell(&mut r, "N/A", 30),
    };
    if result.supports_jump {
        append_cell(&mut r, "Yes", 10);
    } else {
        append_cell(&mut r, "No", 10);
    }
    r
}

/// The type label of a result, as the difference report shows it.
pub fn type_label(result: &CompletionResult) -> (r: String)
    ensures
        r@ == spec_type_label(*result),
{
    match &result.completion_type {
        Some(t) => t.clone(),
        None => "None".to_owned(),
    }
}

/// The text of a result, as the difference report compares it.
pub fn text_label(result: &CompletionResult) -> (r: String)
    ensures
        r@ == spec_text_label(*result),
{
    match &result.text {
        Some(t) => t.clone(),
        None => String::new(),
    }
}

/// Whether any result reports a different completion type than the first.
pub fn types_differ(results: &Vec<CompletionResult>) -> (r: bool)
    requires
        results@.len() > 0,
    ensures
        r == exists|i: int|
            0 <= i < results@.len() && spec_type_label(#[trigger] results@[i]) != spec_type_label(
                results@[0],
            ),
{
    let head = type_label(&results[0]);
    let n = results.len();
    let mut i: usize = 1;
    while i < n
        invariant
            1 <= i <= n,
            n == results@.len(),
            head@ == spec_type_label(results@[0]),
            forall|j: int|
                0 <= j < i ==> spec_type_label(#[trigger] results@[j]) == spec_type_label(
                    results@[0],
                ),
        decreases n - i,
    {
        let label = type_label(&results[i]);
        if !(label == head) {
            return true;
        }
        i = i + 1;
    }
    false
}

/// Whether any result carries different completion text than the first.
pub fn texts_differ(results: &Vec<CompletionResult>) -> (r: bool)
    requires
        results@.len() > 0,
    ensures
        r == exists|i: int|
            0 <= i < results@.len() && spec_text_label(#[trigger] results@[i]) != spec_text_label(
                results@[0],
            ),
{
    let head = text_label(&results[0]);
    let n = results.len();
    let mut i: usize = 1;
    while i < n
        invariant
            1 <= i <= n,
            n == results@.len(),
            head@ == spec_text_label(results@[0]),
            forall|j: int|
                0 <= j < i ==> spec_text_label(#[trigger] results@[j]) == spec_text_label(
                    results@[0],
                ),
        decreases n - i,
    {
        let label = text_label(&results[i]);
        if !(label == head) {
            return true;
        }
        i = i + 1;
    }
    false
}

} // verus!
