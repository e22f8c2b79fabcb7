//! Removal of terminal control sequences, by a regular expression.

use vstd::prelude::*;

verus! {

#[verifier::external_type_specification]
#[verifier::external_body]
pub struct ExRegex(regex::Regex);

#[verifier::external_type_specification]
#[verifier::external_body]
pub struct ExRegexError(regex::Error);

/// Whether `regex::Regex::new` accepts `pattern`.
pub uninterp spec fn regex_compiles(pattern: Seq<char>) -> bool;

/// The pattern that a compiled expression was made from.
pub uninterp spec fn regex_source(re: regex::Regex) -> Seq<char>;

/// The matches of `pattern` that `Regex::find_iter` yields for `haystack`, one
/// after the other, each as the positions `(start, end)` of its first
/// character and of the character after its last.
pub uninterp spec fn regex_matches(pattern: Seq<char>, haystack: Seq<char>) -> Seq<(int, int)>;

/// The control sequences that are removed: `ESC [`, then nothing, or one or two
/// digits, or two such groups with `;` between them, then one of `m`, `G`, `K`.
pub const ANSI_PATTERN: &'static str = "\\x1B\\[([0-9]{1,2}(;[0-9]{1,2})?)?[mGK]";

/// The spans lie within a text of `len` characters, one after the other,
/// without overlap.
pub open spec fn successive(spans: Seq<(int, int)>, len: int) -> bool {
    &&& forall|k: int| 0 <= k < spans.len() ==> 0 <= (#[trigger] spans[k]).0 <= spans[k].1 <= len
    &&& forall|j: int, k: int|
        0 <= j < k < spans.len() ==> (#[trigger] spans[j]).1 <= (#[trigger] spans[k]).0
}

/// The text from position `from` on, with `replacement` in place of each span:
/// what lies before the first span, the replacement, and so on from the
/// span's end.
pub open spec fn replaced(
    haystack: Seq<char>,
    spans: Seq<(int, int)>,
    replacement: Seq<char>,
    from: int,
) -> Seq<char>
    decreases spans.len(),
{
    if spans.len() == 0 {
        haystack.skip(from)
    } else {
        haystack.subrange(from, spans[0].0) + replacement + replaced(
            haystack,
            spans.drop_first(),
            replacement,
            spans[0].1,
        )
    }
}

/// `result` is `haystack` with `replacement` in place of each of the
/// successive spans.
pub open spec fn is_replacement_of(
    result: Seq<char>,
    haystack: Seq<char>,
    spans: Seq<(int, int)>,
    replacement: Seq<char>,
) -> bool {
    &&& successive(spans, haystack.len() as int)
    &&& result == replaced(haystack, spans, replacement, 0)
}

/// Position `i` lies within one of the spans.
pub open spec fn in_some_span(spans: Seq<(int, int)>, i: int) -> bool {
    exists|k: int| 0 <= k < spans.len() && (#[trigger] spans[k]).0 <= i < spans[k].1
}

/// The characters of `text` from position `from` on that lie in none of the
/// spans, in their order.
pub open spec fn unmatched(text: Seq<char>, spans: Seq<(int, int)>, from: int) -> Seq<char>
    decreases text.len() - from,
{
    if from < 0 || from >= text.len() {
        Seq::empty()
    } else if in_some_span(spans, from) {
        unmatched(text, spans, from + 1)
    } else {
        seq![text[from]] + unmatched(text, spans, from + 1)
    }
}

/// `s` without the matches of `pattern`: the characters of `s` outside every
/// match, in their order.
pub open spec fn stripped(pattern: Seq<char>, s: Seq<char>) -> Seq<char> {
    unmatched(s, regex_matches(pattern, s), 0)
}

/// Calls `regex::Regex::new`. Whether a pattern compiles depends on the pattern
/// alone; a compiled expression remembers its pattern.
#[verifier::external_body]
pub(crate) fn regex_new(pattern: &str) -> (r: Result<regex::Regex, regex::Error>)
    ensures
        r is Ok <==> regex_compiles(pattern@),
        r matches Ok(re) ==> regex_source(re) == pattern@,
{
    regex::Regex::new(pattern)
}

/// Calls `Regex::replace_all` with a replacement text that holds no `$`, so
/// that it stands for itself, and takes ownership of the result. The call
/// walks the matches that `Regex::find_iter` yields for the haystack, which
/// are successive and do not overlap, and builds the result from the text
/// between them and the replacement in place of each.
#[verifier::external_body]
pub(crate) fn regex_replace_all(re: &regex::Regex, haystack: &str, replacement: &str) -> (s: String)
    requires
        !replacement@.contains('$'),
    ensures
        is_replacement_of(
            s@,
            haystack@,
            regex_matches(regex_source(*re), haystack@),
            replacement@,
        ),
{
    re.replace_all(haystack, replacement).into_owned()
}

/// No position from `from` up to `to` lies in a span: all of them are kept.
proof fn lemma_unmatched_gap(text: Seq<char>, spans: Seq<(int, int)>, from: int, to: int)
    requires
        0 <= from <= to <= text.len(),
        forall|i: int| from <= i < to ==> !in_some_span(spans, i),
    ensures
        unmatched(text, spans, from) == text.subrange(from, to) + unmatched(text, spans, to),
    decreases to - from,
{
    if from < to {
        lemma_unmatched_gap(text, spans, from + 1, to);
        assert(!in_some_span(spans, from));
        assert(seq![text[from]] + text.subrange(from + 1, to) =~= text.subrange(from, to));
        assert(unmatched(text, spans, from) =~= text.subrange(from, to) + unmatched(
            text,
            spans,
            to,
        ));
    } else {
        assert(text.subrange(from, to) + unmatched(text, spans, to) =~= unmatched(
            text,
            spans,
            to,
        ));
    }
}

/// Every position from `from` up to `to` lies in a span: none of them is kept.
proof fn lemma_unmatched_span(text: Seq<char>, spans: Seq<(int, int)>, from: int, to: int)
    requires
        0 <= from <= to <= text.len(),
        forall|i: int| from <= i < to ==> in_some_span(spans, i),
    ensures
        unmatched(text, spans, from) == unmatched(text, spans, to),
    decreases to - from,
{
    if from < to {
        lemma_unmatched_span(text, spans, from + 1, to);
        assert(in_some_span(spans, from));
    }
}

/// From the end of the first span on, the first span decides nothing.
proof fn lemma_unmatched_after_first(text: Seq<char>, spans: Seq<(int, int)>, from: int)
    requires
        spans.len() > 0,
        successive(spans, text.len() as int),
        spans[0].1 <= from,
    ensures
        unmatched(text, spans, from) == unmatched(text, spans.drop_first(), from),
    decreases text.len() - from,
{
    if 0 <= from < text.len() {
        lemma_unmatched_after_first(text, spans, from + 1);
        let rest = spans.drop_first();
        if in_some_span(spans, from) {
            let k = choose|k: int| 0 <= k < spans.len() && (#[trigger] spans[k]).0 <= from < spans[k].1;
            assert(k > 0);
            assert(rest[k - 1] == spans[k]);
            assert(in_some_span(rest, from));
        }
        if in_some_span(rest, from) {
            let k = choose|k: int| 0 <= k < rest.len() && (#[trigger] rest[k]).0 <= from < rest[k].1;
            assert(rest[k] == spans[k + 1]);
            assert(in_some_span(spans, from));
        }
    }
}

/// Replacing successive spans by nothing keeps the text outside them and
/// nothing else: every character at a position outside all spans, in order and
/// unchanged.
pub proof fn lemma_removal_keeps_unmatched(text: Seq<char>, spans: Seq<(int, int)>, from: int)
    requires
        successive(spans, text.len() as int),
        0 <= from <= text.len(),
        spans.len() > 0 ==> from <= spans[0].0,
    ensures
        replaced(text, spans, Seq::empty(), from) == unmatched(text, spans, from),
    decreases spans.len(),
{
    if spans.len() == 0 {
        assert forall|i: int| from <= i < text.len() implies !in_some_span(spans, i) by {}
        lemma_unmatched_gap(text, spans, from, text.len() as int);
        assert(unmatched(text, spans, text.len() as int) =~= Seq::<char>::empty());
        assert(text.subrange(from, text.len() as int) + Seq::<char>::empty() =~= text.skip(from));
    } else {
        let (a, b) = spans[0];
        let rest = spans.drop_first();
        assert(spans[0].0 == a && spans[0].1 == b);
        assert forall|i: int| from <= i < a implies !in_some_span(spans, i) by {
            if in_some_span(spans, i) {
                let k = choose|k: int| 0 <= k < spans.len() && (#[trigger] spans[k]).0 <= i < spans[k].1;
                if k > 0 {
                    assert(spans[0].1 <= spans[k].0);
                }
            }
        }
        lemma_unmatched_gap(text, spans, from, a);
        assert forall|i: int| a <= i < b implies in_some_span(spans, i) by {
            assert(spans[0].0 <= i < spans[0].1);
        }
        lemma_unmatched_span(text, spans, a, b);
        lemma_unmatched_after_first(text, spans, b);
        assert(successive(rest, text.len() as int)) by {
            assert forall|k: int| 0 <= k < rest.len() implies 0 <= (#[trigger] rest[k]).0
                <= rest[k].1 <= text.len() by {
                assert(rest[k] == spans[k + 1]);
            }
            assert forall|j: int, k: int| 0 <= j < k < rest.len() implies (#[trigger] rest[j]).1
                <= (#[trigger] rest[k]).0 by {
                assert(rest[j] == spans[j + 1]);
                assert(rest[k] == spans[k + 1]);
            }
        }
        if rest.len() > 0 {
            assert(rest[0] == spans[1]);
            assert(spans[0].1 <= spans[1].0);
        }
        lemma_removal_keeps_unmatched(text, rest, b);
        assert(text.subrange(from, a) + Seq::<char>::empty() + replaced(
            text,
            rest,
            Seq::empty(),
            b,
        ) =~= text.subrange(from, a) + unmatched(text, rest, b));
    }
}

} // verus!
