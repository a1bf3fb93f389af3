//! Text handling: token substitution, trimming and prefix tests, over the
//! characters of a string.

use vstd::prelude::*;
use vstd::string::StringExecFns;

verus! {

/// Whether a character is white space, as `char::is_whitespace` decides it.
pub uninterp spec fn white_space(c: char) -> bool;

/// A text in lower case, as `str::to_lowercase` gives it.
pub uninterp spec fn lowercased(text: Seq<char>) -> Seq<char>;

/// `char::is_whitespace`: the answer depends on the character alone.
#[verifier::external_body]
fn is_white_space(c: char) -> (answer: bool)
    ensures
        answer == white_space(c),
{
    c.is_whitespace()
}

/// `str::to_lowercase`: the lower-case text depends on the text alone.
#[verifier::external_body]
pub(crate) fn lowercase(text: &str) -> (lower: String)
    ensures
        lower@ == lowercased(text@),
{
    text.to_lowercase()
}

/// `String::push`: the character is appended to the end of the string.
#[verifier::external_body]
fn push_char(text: &mut String, c: char)
    ensures
        final(text)@ == old(text)@.push(c),
{
    text.push(c);
}

/// `text` with each occurrence of `token` replaced by `with`. Occurrences
/// are found from the left and do not overlap. An empty token is never
/// replaced.
pub open spec fn substituted(text: Seq<char>, token: Seq<char>, with: Seq<char>) -> Seq<char>
    decreases text.len(),
{
    if token.len() == 0 || text.len() == 0 {
        text
    } else if token.is_prefix_of(text) {
        with + substituted(text.skip(token.len() as int), token, with)
    } else {
        seq![text[0]] + substituted(text.skip(1), token, with)
    }
}

/// `token` stands somewhere in `text`.
pub open spec fn occurs_in(token: Seq<char>, text: Seq<char>) -> bool {
    exists|at: int| 0 <= at <= text.len() && token.is_prefix_of(#[trigger] text.skip(at))
}

/// `text` without the white space before its first other character.
pub open spec fn trimmed_start(text: Seq<char>) -> Seq<char>
    decreases text.len(),
{
    if text.len() > 0 && white_space(text[0]) {
        trimmed_start(text.skip(1))
    } else {
        text
    }
}

/// `text` without the white space after its last other character.
pub open spec fn trimmed_end(text: Seq<char>) -> Seq<char>
    decreases text.len(),
{
    if text.len() > 0 && white_space(text.last()) {
        trimmed_end(text.drop_last())
    } else {
        text
    }
}

/// `text` without leading and trailing white space.
pub open spec fn trimmed(text: Seq<char>) -> Seq<char> {
    trimmed_end(trimmed_start(text))
}

/// The characters of a string, in order.
pub fn chars_of(text: &str) -> (chars: Vec<char>)
    ensures
        chars@ == text@,
{
    let mut chars: Vec<char> = Vec::new();
    for c in it: text.chars()
        invariant
            chars@ == it.seq().take(it.index() as int),
            it.seq() == text@,
    {
        chars.push(c);
    }
    chars
}

/// Whether `pattern` stands in `chars` at position `at`.
fn stands_at(chars: &Vec<char>, at: usize, pattern: &Vec<char>) -> (found: bool)
    requires
        at <= chars.len(),
    ensures
        found == pattern@.is_prefix_of(chars@.skip(at as int)),
{
    if pattern.len() > chars.len() - at {
        return false;
    }
    let mut k: usize = 0;
    while k < pattern.len()
        invariant
            k <= pattern.len(),
            at + pattern.len() <= chars.len(),
            forall|j: int| 0 <= j < k ==> pattern[j] == chars[at + j],
        decreases pattern.len() - k,
    {
        if pattern[k] != chars[at + k] {
            assert(chars@.skip(at as int).subrange(0, pattern@.len() as int)[k as int]
                != pattern@[k as int]);
            return false;
        }
        k += 1;
    }
    assert(pattern@ =~= chars@.skip(at as int).subrange(0, pattern@.len() as int));
    true
}

/// Whether `text` begins with `prefix`.
pub fn starts_with(text: &str, prefix: &str) -> (found: bool)
    ensures
        found == prefix@.is_prefix_of(text@),
{
    let chars = chars_of(text);
    let pattern = chars_of(prefix);
    assert(chars@.skip(0) =~= chars@);
    stands_at(&chars, 0, &pattern)
}

/// Replaces each occurrence of `token` in `text` by `with`.
pub fn substitute(text: &str, token: &str, with: &str) -> (out: String)
    ensures
        out@ == substituted(text@, token@, with@),
{
    let chars = chars_of(text);
    let pattern = chars_of(token);
    if pattern.len() == 0 {
        return text.to_owned();
    }
    let mut out = String::new();
    let mut at: usize = 0;
    assert(chars@.skip(0) =~= chars@);
    while at < chars.len()
        invariant
            at <= chars.len(),
            pattern@.len() > 0,
            out@ + substituted(chars@.skip(at as int), pattern@, with@) == substituted(
                chars@,
                pattern@,
                with@,
            ),
        decreases chars.len() - at,
    {
        let ghost rest = chars@.skip(at as int);
        if stands_at(&chars, at, &pattern) {
            assert(rest.skip(pattern@.len() as int) =~= chars@.skip(at + pattern@.len()));
            assert((out@ + with@) + substituted(rest.skip(pattern@.len() as int), pattern@, with@)
                =~= out@ + (with@ + substituted(
                rest.skip(pattern@.len() as int),
                pattern@,
                with@,
            )));
            out.append(with);
            at += pattern.len();
        } else {
            assert(rest.skip(1) =~= chars@.skip(at + 1));
            assert(out@.push(chars@[at as int]) + substituted(rest.skip(1), pattern@, with@)
                =~= out@ + (seq![rest[0]] + substituted(rest.skip(1), pattern@, with@)));
            push_char(&mut out, chars[at]);
            at += 1;
        }
    }
    assert(chars@.skip(at as int) =~= Seq::<char>::empty());
    assert(out@ + Seq::<char>::empty() =~= out@);
    out
}

/// Removes leading and trailing white space.
pub fn trim(text: &str) -> (out: String)
    ensures
        out@ == trimmed(text@),
{
    let chars = chars_of(text);
    let mut start: usize = 0;
    assert(chars@.skip(0) =~= chars@);
    while start < chars.len() && is_white_space(chars[start])
        invariant
            start <= chars.len(),
            trimmed_start(chars@.skip(start as int)) == trimmed_start(chars@),
        decreases chars.len() - start,
    {
        assert(chars@.skip(start as int).skip(1) =~= chars@.skip(start + 1));
        start += 1;
    }
    let mut end: usize = chars.len();
    assert(chars@.subrange(start as int, end as int) =~= chars@.skip(start as int));
    while end > start && is_white_space(chars[end - 1])
        invariant
            start <= end <= chars.len(),
            trimmed_end(chars@.subrange(start as int, end as int)) == trimmed(chars@),
        decreases end - start,
    {
        assert(chars@.subrange(start as int, end as int).drop_last() =~= chars@.subrange(
            start as int,
            end - 1,
        ));
        end -= 1;
    }
    let mut out = String::new();
    let mut i: usize = start;
    while i < end
        invariant
            start <= i <= end <= chars.len(),
            out@ == chars@.subrange(start as int, i as int),
        decreases end - i,
    {
        push_char(&mut out, chars[i]);
        assert(chars@.subrange(start as int, i as int).push(chars@[i as int]) =~= chars@.subrange(
            start as int,
            i + 1,
        ));
        i += 1;
    }
    out
}

/// A text in which the token stands nowhere is left as it is.
pub proof fn lemma_substituted_without_token(text: Seq<char>, token: Seq<char>, with: Seq<char>)
    requires
        !occurs_in(token, text),
    ensures
        substituted(text, token, with) == text,
    decreases text.len(),
{
    if token.len() > 0 && text.len() > 0 {
        assert(text.skip(0) =~= text);
        assert(!token.is_prefix_of(text));
        let rest = text.skip(1);
        assert forall|at: int| 0 <= at <= rest.len() implies !token.is_prefix_of(
            #[trigger] rest.skip(at),
        ) by {
            assert(rest.skip(at) =~= text.skip(at + 1));
        }
        lemma_substituted_without_token(rest, token, with);
        assert(seq![text[0]] + rest =~= text);
    }
}

/// Where the token stands in a text, its replacement stands in the result.
pub proof fn lemma_substituted_holds_replacement(
    text: Seq<char>,
    token: Seq<char>,
    with: Seq<char>,
)
    requires
        token.len() > 0,
        occurs_in(token, text),
    ensures
        occurs_in(with, substituted(text, token, with)),
    decreases text.len(),
{
    let found = choose|at: int|
        0 <= at <= text.len() && token.is_prefix_of(#[trigger] text.skip(at));
    let result = substituted(text, token, with);
    assert(text.skip(0) =~= text);
    if token.is_prefix_of(text) {
        assert(result.skip(0) =~= result);
        assert(with.is_prefix_of(result.skip(0)));
    } else {
        let rest = text.skip(1);
        assert(found >= 1);
        assert(rest.skip(found - 1) =~= text.skip(found));
        lemma_substituted_holds_replacement(rest, token, with);
        let inner = substituted(rest, token, with);
        let k = choose|k: int| 0 <= k <= inner.len() && with.is_prefix_of(#[trigger] inner.skip(k));
        assert(result.skip(k + 1) =~= inner.skip(k));
    }
}

/// Trimming leaves a stretch of the text that neither starts nor ends with
/// white space; only white space is cut away before and after it.
pub proof fn lemma_trimmed_is_the_core(text: Seq<char>) -> (bounds: (int, int))
    ensures
        0 <= bounds.0 <= bounds.1 <= text.len(),
        trimmed(text) == text.subrange(bounds.0, bounds.1),
        forall|i: int| 0 <= i < bounds.0 ==> white_space(#[trigger] text[i]),
        forall|i: int| bounds.1 <= i < text.len() ==> white_space(#[trigger] text[i]),
        bounds.0 < bounds.1 ==> !white_space(text[bounds.0]) && !white_space(text[bounds.1 - 1]),
{
    let start = lemma_trimmed_start_cuts_white_space(text);
    let middle = text.skip(start);
    let end = lemma_trimmed_end_cuts_white_space(middle);
    assert(middle.take(end) =~= text.subrange(start, start + end));
    assert forall|i: int| start + end <= i < text.len() implies white_space(#[trigger] text[i]) by {
        assert(text[i] == middle[i - start]);
    }
    if end > 0 {
        assert(text[start] == middle[0]);
        assert(text[start + end - 1] == middle[end - 1]);
    }
    (start, start + end)
}

/// The white space that `trimmed_start` cuts: how many characters it is.
proof fn lemma_trimmed_start_cuts_white_space(text: Seq<char>) -> (cut: int)
    ensures
        0 <= cut <= text.len(),
        trimmed_start(text) == text.skip(cut),
        forall|i: int| 0 <= i < cut ==> white_space(#[trigger] text[i]),
        cut < text.len() ==> !white_space(text[cut]),
    decreases text.len(),
{
    if text.len() > 0 && white_space(text[0]) {
        let rest = text.skip(1);
        let inner = lemma_trimmed_start_cuts_white_space(rest);
        assert(rest.skip(inner) =~= text.skip(inner + 1));
        assert forall|i: int| 0 <= i < inner + 1 implies white_space(#[trigger] text[i]) by {
            if i > 0 {
                assert(text[i] == rest[i - 1]);
            }
        }
        if inner + 1 < text.len() {
            assert(text[inner + 1] == rest[inner]);
        }
        inner + 1
    } else {
        assert(text.skip(0) =~= text);
        0
    }
}

/// The text that `trimmed_end` keeps: how many characters it is.
proof fn lemma_trimmed_end_cuts_white_space(text: Seq<char>) -> (kept: int)
    ensures
        0 <= kept <= text.len(),
        trimmed_end(text) == text.take(kept),
        forall|i: int| kept <= i < text.len() ==> white_space(#[trigger] text[i]),
        kept > 0 ==> !white_space(text[kept - 1]),
    decreases text.len(),
{
    if text.len() > 0 && white_space(text.last()) {
        let rest = text.drop_last();
        let inner = lemma_trimmed_end_cuts_white_space(rest);
        assert(rest.take(inner) =~= text.take(inner));
        assert forall|i: int| inner <= i < text.len() implies white_space(#[trigger] text[i]) by {
            if i < text.len() - 1 {
                assert(text[i] == rest[i]);
            }
        }
        if inner > 0 {
            assert(text[inner - 1] == rest[inner - 1]);
        }
        inner
    } else {
        assert(text.take(text.len() as int) =~= text);
        text.len() as int
    }
}

} // verus!
