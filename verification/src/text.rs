//! Text transforms applied to a log line before it is sent.

use vstd::prelude::*;
use vstd::std_specs::iter::IteratorSpec;
use vstd::string::*;
use vstd::utf8::{decode_utf8, valid_utf8};

verus! {

/// Whether `c` has the Unicode `White_Space` property, as `char::is_whitespace` reports it.
pub uninterp spec fn is_white_space(c: char) -> bool;

/// The text that `String::from_utf8_lossy` decodes `bytes` to, with U+FFFD in
/// place of what is not valid UTF-8.
pub uninterp spec fn utf8_lossy(bytes: Seq<u8>) -> Seq<char>;

/// Calls `char::is_whitespace`, whose answer depends on the character alone.
/// The contract names it.
#[verifier::external_body]
fn char_is_whitespace(c: char) -> (b: bool)
    ensures
        b == is_white_space(c),
{
    c.is_whitespace()
}

/// Calls `String::from_utf8_lossy` and takes ownership of the text. The call
/// never fails. The decoded text depends on the bytes alone, and the contract
/// names it; valid UTF-8 is decoded as it stands.
#[verifier::external_body]
fn from_utf8_lossy(buf: &[u8]) -> (s: String)
    ensures
        s@ == utf8_lossy(buf@),
        valid_utf8(buf@) ==> s@ == decode_utf8(buf@),
{
    String::from_utf8_lossy(buf).into_owned()
}

/// `i` is the position of the first space of `s`.
pub open spec fn is_first_space(s: Seq<char>, i: int) -> bool {
    &&& 0 <= i < s.len()
    &&& s[i] == ' '
    &&& forall|j: int| 0 <= j < i ==> s[j] != ' '
}

/// `s` without its leading token: what follows the first space, or nothing
/// where `s` holds no space.
pub open spec fn without_leading_token(s: Seq<char>) -> Seq<char> {
    if exists|i: int| is_first_space(s, i) {
        s.skip((choose|i: int| is_first_space(s, i)) + 1)
    } else {
        Seq::empty()
    }
}

/// `s[a..b]` is `s` without its leading and trailing whitespace.
pub open spec fn is_trim_bounds(s: Seq<char>, a: int, b: int) -> bool {
    &&& 0 <= a <= b <= s.len()
    &&& forall|j: int| 0 <= j < a ==> is_white_space(#[trigger] s[j])
    &&& forall|j: int| b <= j < s.len() ==> is_white_space(#[trigger] s[j])
    &&& a < b ==> !is_white_space(s[a]) && !is_white_space(s[b - 1])
}

/// `s` without its leading and trailing whitespace.
pub open spec fn trimmed(s: Seq<char>) -> Seq<char> {
    let (a, b) = choose|a: int, b: int| is_trim_bounds(s, a, b);
    s.subrange(a, b)
}

/// A string has one first space at most.
pub proof fn lemma_first_space_unique(s: Seq<char>, i: int, k: int)
    requires
        is_first_space(s, i),
        is_first_space(s, k),
    ensures
        i == k,
{
    if i < k {
        assert(s[i] != ' ');
    } else if k < i {
        assert(s[k] != ' ');
    }
}

/// Any two trim bounds of one string cut out the same text.
pub proof fn lemma_trim_bounds_agree(s: Seq<char>, a: int, b: int, c: int, d: int)
    requires
        is_trim_bounds(s, a, b),
        is_trim_bounds(s, c, d),
    ensures
        s.subrange(a, b) == s.subrange(c, d),
{
    if a < b {
        assert(!is_white_space(s[a]));
        assert(!is_white_space(s[b - 1]));
        if c < d {
            assert(!is_white_space(s[c]));
            assert(!is_white_space(s[d - 1]));
            assert(a == c);
            assert(b == d);
        } else {
            assert(is_white_space(s[a]));
        }
    } else {
        if c < d {
            assert(!is_white_space(s[c]));
            assert(is_white_space(s[c]));
        }
        assert(s.subrange(a, b) =~= s.subrange(c, d));
    }
}

/// Any trim bounds of `s` cut out `trimmed(s)`.
pub proof fn lemma_trimmed_is(s: Seq<char>, a: int, b: int)
    requires
        is_trim_bounds(s, a, b),
    ensures
        trimmed(s) == s.subrange(a, b),
{
    let (c, d) = choose|c: int, d: int| is_trim_bounds(s, c, d);
    lemma_trim_bounds_agree(s, a, b, c, d);
}

/// The characters of `text`, in one pass.
fn chars_of(text: &str) -> (chars: Vec<char>)
    ensures
        chars@ == text@,
{
    broadcast use {axiom_spec_iter, next_postcondition};

    let mut chars: Vec<char> = Vec::new();
    let mut rest = text.chars();
    loop
        invariant
            rest.obeys_prophetic_iter_laws(),
            rest.decrease() is Some,
            chars@ + rest.remaining() == text@,
        ensures
            chars@ == text@,
        decreases rest.decrease()->0,
    {
        let ghost taken = chars@;
        let ghost before = rest.remaining();
        match rest.next() {
            Some(c) => {
                chars.push(c);
                assert(before =~= seq![c] + before.drop_first());
                assert(chars@ + rest.remaining() =~= taken + before);
            },
            None => {
                assert(chars@ + rest.remaining() =~= chars@);
                break;
            },
        }
    }
    chars
}

/// Drops the token before the first space, and that space. A line without a
/// space is all token, and nothing is left of it.
pub fn drop_leading_token(line: &str) -> (rest: String)
    ensures
        rest@ == without_leading_token(line@),
{
    let chars = chars_of(line);
    let n: usize = chars.len();
    let mut i: usize = 0;
    while i < n
        invariant
            chars@ == line@,
            n == line@.len(),
            i <= n,
            forall|j: int| 0 <= j < i ==> line@[j] != ' ',
        decreases n - i,
    {
        if chars[i] == ' ' {
            proof {
                assert(is_first_space(line@, i as int));
                let k = choose|k: int| is_first_space(line@, k);
                lemma_first_space_unique(line@, i as int, k);
            }
            return String::from_str(line.substring_char(i + 1, n));
        }
        i = i + 1;
    }
    proof {
        assert(!exists|k: int| is_first_space(line@, k));
    }
    String::new()
}

/// Removes leading and trailing whitespace.
pub fn trim(text: &str) -> (inner: String)
    ensures
        inner@ == trimmed(text@),
{
    let chars = chars_of(text);
    let n: usize = chars.len();
    let mut a: usize = 0;
    while a < n && char_is_whitespace(chars[a])
        invariant
            chars@ == text@,
            n == text@.len(),
            a <= n,
            forall|j: int| 0 <= j < a ==> is_white_space(#[trigger] text@[j]),
        decreases n - a,
    {
        a = a + 1;
    }
    let mut b: usize = n;
    while b > a && char_is_whitespace(chars[b - 1])
        invariant
            chars@ == text@,
            n == text@.len(),
            a <= b <= n,
            forall|j: int| b <= j < n ==> is_white_space(#[trigger] text@[j]),
        decreases b,
    {
        b = b - 1;
    }
    proof {
        assert(is_trim_bounds(text@, a as int, b as int));
        lemma_trimmed_is(text@, a as int, b as int);
    }
    String::from_str(text.substring_char(a, b))
}

/// Decodes bytes as text, replacing what is not valid UTF-8, and trims the
/// result: the one line that a write of `buf` stands for. No input is
/// rejected.
pub fn decode_line(buf: &[u8]) -> (line: String)
    ensures
        line@ == trimmed(utf8_lossy(buf@)),
        valid_utf8(buf@) ==> line@ == trimmed(decode_utf8(buf@)),
{
    let text = from_utf8_lossy(buf);
    trim(text.as_str())
}

} // verus!
