//! Verified text helpers: decimal rendering, padding, suffix tests,
//! trimming, backwards search and joining.
//!
//! Positions and lengths throughout the crate count characters, not bytes,
//! so every helper here is specified over the `Seq<char>` view of its
//! arguments.

use vstd::prelude::*;
use vstd::string::{StrSliceExecFns, StringExecFns};

verus! {

/// The decimal digit character for `d` (0 through 9).
pub open spec fn digit_char(d: nat) -> char {
    if d == 0 {
        '0'
    } else if d == 1 {
        '1'
    } else if d == 2 {
        '2'
    } else if d == 3 {
        '3'
    } else if d == 4 {
        '4'
    } else if d == 5 {
        '5'
    } else if d == 6 {
        '6'
    } else if d == 7 {
        '7'
    } else if d == 8 {
        '8'
    } else {
        '9'
    }
}

/// The decimal rendering of `n`, most significant digit first, without
/// leading zeros (except for `n == 0` itself).
pub open spec fn spec_decimal(n: nat) -> Seq<char>
    decreases n,
{
    if n < 10 {
        seq![digit_char(n)]
    } else {
        spec_decimal(n / 10).push(digit_char(n % 10))
    }
}

fn digit_str(d: u64) -> (r: &'static str)
    requires
        d < 10,
    ensures
        r@ == seq![digit_char(d as nat)],
{
    let r: &'static str = if d == 0 {
        "0"
    } else if d == 1 {
        "1"
    } else if d == 2 {
        "2"
    } else if d == 3 {
        "3"
    } else if d == 4 {
        "4"
    } else if d == 5 {
        "5"
    } else if d == 6 {
        "6"
    } else if d == 7 {
        "7"
    } else if d == 8 {
        "8"
    } else {
        "9"
    };
    proof {
        reveal_strlit("0");
        reveal_strlit("1");
        reveal_strlit("2");
        reveal_strlit("3");
        reveal_strlit("4");
        reveal_strlit("5");
        reveal_strlit("6");
        reveal_strlit("7");
        reveal_strlit("8");
        reveal_strlit("9");
        assert(r@ =~= seq![digit_char(d as nat)]);
    }
    r
}

/// Renders `n` in decimal.
pub fn u64_to_string(n: u64) -> (r: String)
    ensures
        r@ == spec_decimal(n as nat),
    decreases n,
{
    if n < 10 {
        digit_str(n).to_owned()
    } else {
        let mut r = u64_to_string(n / 10);
        r.append(digit_str(n % 10));
        r
    }
}

/// `n` space characters.
pub open spec fn spaces(n: nat) -> Seq<char> {
    Seq::new(n, |i: int| ' ')
}

/// `s` padded with trailing spaces to `width` characters; a string already
/// that wide stays as it is.
pub open spec fn spec_padded(s: Seq<char>, width: nat) -> Seq<char> {
    if s.len() >= width {
        s
    } else {
        s + spaces((width - s.len()) as nat)
    }
}

/// Pads `s` with trailing spaces up to `width` characters; a string already
/// that wide is returned unchanged.
pub fn pad_to(s: &str, width: usize) -> (r: String)
    ensures
        r@ == spec_padded(s@, width as nat),
        s@.len() >= width ==> r@ == s@,
        s@.len() < width ==> r@ == s@ + spaces((width - s@.len()) as nat),
{
    let mut r = s.to_owned();
    let mut k = s.unicode_len();
    proof {
        reveal_strlit(" ");
        assert(s@.len() >= width ==> r@ =~= s@ + spaces(0));
        assert(r@ =~= s@ + spaces((k - s@.len()) as nat));
    }
    while k < width
        invariant
            s@.len() <= k,
            k <= width || k == s@.len(),
            r@ == s@ + spaces((k - s@.len()) as nat),
        decreases width - k,
    {
        r.append(" ");
        k = k + 1;
        proof {
            reveal_strlit(" ");
            assert(r@ =~= s@ + spaces((k - s@.len()) as nat));
        }
    }
    proof {
        if s@.len() >= width {
            assert(r@ =~= s@);
        }
    }
    r
}

/// The text preview shown in a table cell: text longer than 30 characters
/// is cut down to its first 27 followed by `"..."`.
pub open spec fn spec_preview(t: Seq<char>) -> Seq<char> {
    if t.len() > 30 {
        t.take(27) + "..."@
    } else {
        t
    }
}

/// Shortens `t` for display in a table cell.
pub fn text_preview(t: &str) -> (r: String)
    ensures
        r@ == spec_preview(t@),
{
    let n = t.unicode_len();
    if n > 30 {
        let mut r = t.substring_char(0, 27).to_owned();
        r.append("...");
        proof {
            assert(r@ =~= t@.take(27) + "..."@);
        }
        r
    } else {
        t.to_owned()
    }
}

/// Whether `t` is a suffix of `s`.
pub open spec fn spec_ends_with(s: Seq<char>, t: Seq<char>) -> bool {
    t.len() <= s.len() && s.subrange(s.len() - t.len(), s.len() as int) == t
}

/// Whether `s` ends with `suffix`, character for character.
pub fn ends_with(s: &str, suffix: &str) -> (r: bool)
    ensures
        r == spec_ends_with(s@, suffix@),
{
    let n = s.unicode_len();
    let m = suffix.unicode_len();
    if m > n {
        return false;
    }
    let offset = n - m;
    let mut i: usize = 0;
    while i < m
        invariant
            m <= n,
            n == s@.len(),
            m == suffix@.len(),
            offset == n - m,
            i <= m,
            forall|j: int| 0 <= j < i ==> s@[offset + j] == suffix@[j],
        decreases m - i,
    {
        if s.get_char(offset + i) != suffix.get_char(i) {
            proof {
                let tail = s@.subrange(s@.len() - suffix@.len(), s@.len() as int);
                assert(tail[i as int] != suffix@[i as int]);
            }
            return false;
        }
        i = i + 1;
    }
    proof {
        assert(s@.subrange(s@.len() - suffix@.len(), s@.len() as int) =~= suffix@);
    }
    true
}

/// The whitespace characters that trimming and blank tests recognise.
pub open spec fn is_space(c: char) -> bool {
    c == ' ' || c == '\t' || c == '\r' || c == '\n'
}

/// Whether `c` is one of the recognised whitespace characters.
pub fn is_space_char(c: char) -> (r: bool)
    ensures
        r == is_space(c),
{
    c == ' ' || c == '\t' || c == '\r' || c == '\n'
}

/// `s` with its trailing whitespace removed.
pub open spec fn spec_trim_end(s: Seq<char>) -> Seq<char>
    decreases s.len(),
{
    if s.len() > 0 && is_space(s[s.len() - 1]) {
        spec_trim_end(s.drop_last())
    } else {
        s
    }
}

/// Returns the prefix of `s` that remains once trailing whitespace is
/// removed.
pub fn trim_end<'a>(s: &'a str) -> (r: &'a str)
    ensures
        r@ == spec_trim_end(s@),
{
    let n = s.unicode_len();
    let mut k = n;
    proof {
        assert(s@.take(k as int) =~= s@);
    }
    while k > 0 && is_space_char(s.get_char(k - 1))
        invariant
            k <= n,
            n == s@.len(),
            spec_trim_end(s@) == spec_trim_end(s@.take(k as int)),
        decreases k,
    {
        proof {
            assert(s@.take(k as int).drop_last() =~= s@.take(k - 1));
        }
        k = k - 1;
    }
    let r = s.substring_char(0, k);
    proof {
        assert(r@ =~= s@.take(k as int));
    }
    r
}

/// Whether every character of `s` is whitespace (true of the empty string).
pub open spec fn spec_is_blank(s: Seq<char>) -> bool {
    forall|i: int| 0 <= i < s.len() ==> is_space(#[trigger] s[i])
}

/// Whether `s` consists of whitespace only.
pub fn is_blank(s: &str) -> (r: bool)
    ensures
        r == spec_is_blank(s@),
{
    let n = s.unicode_len();
    let mut i: usize = 0;
    while i < n
        invariant
            i <= n,
            n == s@.len(),
            forall|j: int| 0 <= j < i ==> is_space(#[trigger] s@[j]),
        decreases n - i,
    {
        if !is_space_char(s.get_char(i)) {
            return false;
        }
        i = i + 1;
    }
    true
}

/// The index of the last occurrence of `c` in `s`, if any.
pub open spec fn spec_rfind(s: Seq<char>, c: char) -> Option<int>
    decreases s.len(),
{
    if s.len() == 0 {
        None
    } else if s[s.len() - 1] == c {
        Some(s.len() - 1)
    } else {
        spec_rfind(s.drop_last(), c)
    }
}

/// Searches the first `end` characters of `s` backwards for `c`.
pub fn rfind_before(s: &str, c: char, end: usize) -> (r: Option<usize>)
    requires
        end <= s@.len(),
    ensures
        match r {
            Some(i) => spec_rfind(s@.take(end as int), c) == Some(i as int),
            None => spec_rfind(s@.take(end as int), c) is None,
        },
{
    let mut k = end;
    while k > 0
        invariant
            k <= end,
            end <= s@.len(),
            spec_rfind(s@.take(end as int), c) == spec_rfind(s@.take(k as int), c),
        decreases k,
    {
        if s.get_char(k - 1) == c {
            return Some(k - 1);
        }
        proof {
            assert(s@.take(k as int).drop_last() =~= s@.take(k - 1));
        }
        k = k - 1;
    }
    proof {
        assert(s@.take(0) =~= Seq::<char>::empty());
    }
    None
}

/// Where `spec_rfind` finds `c`: at the last index holding `c`, with no
/// later occurrence; and only when `c` occurs at all.
pub proof fn lemma_rfind_characterisation(s: Seq<char>, c: char)
    ensures
        match spec_rfind(s, c) {
            Some(i) => 0 <= i < s.len() && s[i] == c && (forall|j: int|
                i < j < s.len() ==> s[j] != c),
            None => forall|j: int| 0 <= j < s.len() ==> s[j] != c,
        },
    decreases s.len(),
{
    if s.len() > 0 && s[s.len() - 1] != c {
        lemma_rfind_characterisation(s.drop_last(), c);
        assert forall|j: int| 0 <= j < s.len() - 1 implies s[j] == s.drop_last()[j] by {}
    }
}

/// The current line up to the cursor: the characters from just after the
/// last newline before `cursor` (or from the start of the text if there is
/// none) up to `cursor`.
pub open spec fn spec_current_line(text: Seq<char>, cursor: int) -> Seq<char> {
    let start = match spec_rfind(text.take(cursor), '\n') {
        Some(i) => i + 1,
        None => 0,
    };
    text.subrange(start, cursor)
}

/// The file extension read off a file name: the characters after the last
/// dot, provided that dot is neither the first character nor absent.
pub open spec fn spec_extension(name: Seq<char>) -> Option<Seq<char>> {
    match spec_rfind(name, '.') {
        Some(i) => if i > 0 {
            Some(name.skip(i + 1))
        } else {
            None
        },
        None => None,
    }
}

/// Extracts the file extension of `name`, if it has one.
pub fn extension_of(name: &str) -> (r: Option<String>)
    ensures
        match r {
            Some(e) => spec_extension(name@) == Some(e@),
            None => spec_extension(name@) is None,
        },
{
    let n = name.unicode_len();
    proof {
        assert(name@.take(n as int) =~= name@);
        lemma_rfind_characterisation(name@, '.');
    }
    match rfind_before(name, '.', n) {
        Some(i) if i > 0 => {
            let ext = name.substring_char(i + 1, n);
            proof {
                assert(ext@ =~= name@.skip(i + 1));
            }
            Some(ext.to_owned())
        },
        _ => None,
    }
}

/// The character views of a sequence of strings.
pub open spec fn views_of(parts: Seq<String>) -> Seq<Seq<char>> {
    parts.map_values(|p: String| p@)
}

/// The parts joined with `sep` between consecutive parts.
pub open spec fn spec_join(parts: Seq<Seq<char>>, sep: Seq<char>) -> Seq<char>
    decreases parts.len(),
{
    if parts.len() == 0 {
        Seq::empty()
    } else if parts.len() == 1 {
        parts[0]
    } else {
        spec_join(parts.drop_last(), sep) + sep + parts.last()
    }
}

/// Joins the strings of `parts` with `sep` between consecutive entries.
pub fn join_with(parts: &Vec<String>, sep: &str) -> (r: String)
    ensures
        r@ == spec_join(views_of(parts@), sep@),
{
    let mut r = String::new();
    let n = parts.len();
    let mut i: usize = 0;
    if n == 0 {
        proof {
            assert(r@ =~= spec_join(views_of(parts@), sep@));
        }
        return r;
    }
    while i < n
        invariant
            0 < n == parts@.len(),
            i <= n,
            i == 0 ==> r@ == Seq::<char>::empty(),
            i > 0 ==> r@ == spec_join(views_of(parts@.take(i as int)), sep@),
        decreases n - i,
    {
        if i > 0 {
            r.append(sep);
        }
        r.append(parts[i].as_str());
        i = i + 1;
        proof {
            let pre = views_of(parts@.take(i as int));
            assert(pre.len() == i);
            assert(pre.last() == parts@[i - 1]@);
            if i > 1 {
                assert(pre.drop_last() =~= views_of(parts@.take(i - 1)));
            }
            assert(r@ =~= spec_join(pre, sep@));
        }
    }
    proof {
        assert(parts@.take(n as int) =~= parts@);
    }
    r
}

} // verus!
