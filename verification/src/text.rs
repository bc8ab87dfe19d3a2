//! Text handling: flavor-text sanitization and guess normalization.

use vstd::prelude::*;

verus! {

/// True for the two control characters that flavor text embeds as line
/// breaks: newline and form feed.
pub open spec fn is_break_char(c: char) -> bool {
    c == '\n' || c == '\u{0C}'
}

/// What sanitization does to one character: line-break characters become a
/// single space, everything else is kept.
pub open spec fn sanitize_char(c: char) -> char {
    if is_break_char(c) {
        ' '
    } else {
        c
    }
}

/// The sanitized form of a text: every newline and form feed replaced by a
/// space, all other characters unchanged.
pub open spec fn sanitize_spec(s: Seq<char>) -> Seq<char> {
    s.map_values(|c: char| sanitize_char(c))
}

/// Relies on String::push: appends the given character to the string.
#[verifier::external_body]
fn push_char(s: &mut String, c: char)
    ensures
        final(s)@ == old(s)@.push(c),
{
    s.push(c);
}

/// Replaces every newline and every form-feed character of `text` with a
/// single space; no other transformation.
pub fn sanitize_text(text: &str) -> (r: String)
    ensures
        r@ == sanitize_spec(text@),
{
    let n: usize = text.unicode_len();
    let mut out: String = String::new();
    let mut i: usize = 0;
    while i < n
        invariant
            i <= n,
            n == text@.len(),
            out@ == sanitize_spec(text@.subrange(0, i as int)),
        decreases n - i,
    {
        let c = text.get_char(i);
        if c == '\n' || c == '\u{0C}' {
            push_char(&mut out, ' ');
        } else {
            push_char(&mut out, c);
        }
        proof {
            assert(text@.subrange(0, i + 1) =~= text@.subrange(0, i as int).push(text@[i as int]));
            assert(sanitize_spec(text@.subrange(0, i + 1)) =~= sanitize_spec(
                text@.subrange(0, i as int),
            ).push(sanitize_char(text@[i as int])));
        }
        i = i + 1;
    }
    proof {
        assert(text@.subrange(0, n as int) =~= text@);
    }
    out
}

/// True for the characters with the Unicode White_Space property, the set
/// that `str::trim` removes from either end; guess normalization trims the
/// same set.
pub open spec fn is_space_char(c: char) -> bool {
    ||| ('\u{09}' <= c && c <= '\u{0D}')
    ||| c == ' '
    ||| c == '\u{85}'
    ||| c == '\u{A0}'
    ||| c == '\u{1680}'
    ||| ('\u{2000}' <= c && c <= '\u{200A}')
    ||| c == '\u{2028}'
    ||| c == '\u{2029}'
    ||| c == '\u{202F}'
    ||| c == '\u{205F}'
    ||| c == '\u{3000}'
}

/// The Unicode-lowercased form of a text: what `str::to_lowercase` returns,
/// a function of the characters alone.
pub uninterp spec fn lower_of(s: Seq<char>) -> Seq<char>;

/// Relies on str::to_lowercase: the lowercased text depends on the
/// characters alone.
#[verifier::external_body]
fn lowercase(s: &str) -> (r: String)
    ensures
        r@ == lower_of(s@),
{
    s.to_lowercase()
}

/// The text with its leading whitespace removed.
pub open spec fn trim_front_spec(s: Seq<char>) -> Seq<char>
    decreases s.len(),
{
    if s.len() > 0 && is_space_char(s[0]) {
        trim_front_spec(s.subrange(1, s.len() as int))
    } else {
        s
    }
}

/// The text with its trailing whitespace removed.
pub open spec fn trim_back_spec(s: Seq<char>) -> Seq<char>
    decreases s.len(),
{
    if s.len() > 0 && is_space_char(s[s.len() - 1]) {
        trim_back_spec(s.subrange(0, s.len() - 1))
    } else {
        s
    }
}

/// How a player's guess is normalized before comparison: the text is
/// lowercased, then surrounding whitespace is trimmed.
pub open spec fn normalize_guess_spec(s: Seq<char>) -> Seq<char> {
    trim_back_spec(trim_front_spec(lower_of(s)))
}

proof fn lemma_trim_front_at(s: Seq<char>, k: int)
    requires
        0 <= k <= s.len(),
        forall|j: int| 0 <= j < k ==> is_space_char(#[trigger] s[j]),
        k < s.len() ==> !is_space_char(s[k]),
    ensures
        trim_front_spec(s) == s.subrange(k, s.len() as int),
    decreases k,
{
    if k == 0 {
        assert(s.subrange(0, s.len() as int) =~= s);
    } else {
        let tail = s.subrange(1, s.len() as int);
        lemma_trim_front_at(tail, k - 1);
        assert(tail.subrange(k - 1, tail.len() as int) =~= s.subrange(k, s.len() as int));
    }
}

proof fn lemma_trim_back_at(s: Seq<char>, e: int)
    requires
        0 <= e <= s.len(),
        forall|j: int| e <= j < s.len() ==> is_space_char(#[trigger] s[j]),
        e > 0 ==> !is_space_char(s[e - 1]),
    ensures
        trim_back_spec(s) == s.subrange(0, e),
    decreases s.len() - e,
{
    if e == s.len() {
        assert(s.subrange(0, s.len() as int) =~= s);
    } else {
        let head = s.subrange(0, s.len() - 1);
        lemma_trim_back_at(head, e);
        assert(head.subrange(0, e) =~= s.subrange(0, e));
    }
}

/// Lowercases `input` as `str::to_lowercase` does, then trims the Unicode
/// whitespace surrounding the result; interior characters are otherwise
/// unchanged.
pub fn normalize_guess(input: &str) -> (r: String)
    ensures
        r@ == normalize_guess_spec(input@),
{
    let lowered: String = lowercase(input);
    let low: &str = lowered.as_str();
    let n: usize = low.unicode_len();
    let mut start: usize = 0;
    while start < n && is_space(low.get_char(start))
        invariant
            start <= n,
            n == low@.len(),
            low@ == lower_of(input@),
            forall|j: int| 0 <= j < start ==> is_space_char(#[trigger] low@[j]),
        decreases n - start,
    {
        start = start + 1;
    }
    let mut end: usize = n;
    while end > start && is_space(low.get_char(end - 1))
        invariant
            start <= end <= n,
            n == low@.len(),
            low@ == lower_of(input@),
            forall|j: int| end <= j < n ==> is_space_char(#[trigger] low@[j]),
        decreases end,
    {
        end = end - 1;
    }
    proof {
        lemma_trim_front_at(low@, start as int);
        let t = low@.subrange(start as int, n as int);
        lemma_trim_back_at(t, end - start);
        assert(t.subrange(0, end - start) =~= low@.subrange(start as int, end as int));
    }
    let mut out: String = String::new();
    let mut i: usize = start;
    while i < end
        invariant
            start <= i <= end <= n,
            n == low@.len(),
            out@ == low@.subrange(start as int, i as int),
        decreases end - i,
    {
        let c = low.get_char(i);
        push_char(&mut out, c);
        proof {
            assert(low@.subrange(start as int, i + 1) =~= low@.subrange(
                start as int,
                i as int,
            ).push(low@[i as int]));
        }
        i = i + 1;
    }
    out
}

/// Executable test for the whitespace characters of `is_space_char`.
fn is_space(c: char) -> (r: bool)
    ensures
        r == is_space_char(c),
{
    ('\u{09}' <= c && c <= '\u{0D}') || c == ' ' || c == '\u{85}' || c == '\u{A0}' || c
        == '\u{1680}' || ('\u{2000}' <= c && c <= '\u{200A}') || c == '\u{2028}' || c == '\u{2029}'
        || c == '\u{202F}' || c == '\u{205F}' || c == '\u{3000}'
}

/// Sanitizing is idempotent: sanitizing already-sanitized text yields the
/// same text.
pub proof fn lemma_sanitize_idempotent(s: Seq<char>)
    ensures
        sanitize_spec(sanitize_spec(s)) == sanitize_spec(s),
{
    assert(sanitize_spec(sanitize_spec(s)) =~= sanitize_spec(s));
}

/// Sanitized text contains no newline and no form-feed character.
pub proof fn lemma_sanitize_removes_breaks(s: Seq<char>)
    ensures
        forall|i: int| 0 <= i < sanitize_spec(s).len() ==> !is_break_char(#[trigger] sanitize_spec(s)[i]),
{
}

} // verus!
