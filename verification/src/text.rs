//! Text as a sequence of characters: searching, trimming, splitting into lines.
//!
//! The spec functions say what each operation means on `Seq<char>`; the
//! executable functions work on vectors of characters and are proved against
//! them.
use vstd::prelude::*;

verus! {

/// Whether `c` has the Unicode property `White_Space`.
pub open spec fn is_white(c: char) -> bool {
    let u = c as u32;
    ||| 0x09 <= u <= 0x0d
    ||| u == 0x20
    ||| u == 0x85
    ||| u == 0xa0
    ||| u == 0x1680
    ||| 0x2000 <= u <= 0x200a
    ||| u == 0x2028
    ||| u == 0x2029
    ||| u == 0x202f
    ||| u == 0x205f
    ||| u == 0x3000
}

/// `char::is_whitespace` of std: true exactly on the characters with the
/// Unicode property `White_Space`, which `is_white` lists.
pub assume_specification[ char::is_whitespace ](c: char) -> (r: bool)
    ensures
        r == is_white(c),
;

/// `s` without its leading white space.
pub open spec fn trim_start(s: Seq<char>) -> Seq<char>
    decreases s.len(),
{
    if s.len() > 0 && is_white(s[0]) {
        trim_start(s.skip(1))
    } else {
        s
    }
}

/// `s` without its trailing white space.
pub open spec fn trim_end(s: Seq<char>) -> Seq<char>
    decreases s.len(),
{
    if s.len() > 0 && is_white(s.last()) {
        trim_end(s.drop_last())
    } else {
        s
    }
}

/// `s` without its leading and its trailing white space.
pub open spec fn trim(s: Seq<char>) -> Seq<char> {
    trim_end(trim_start(s))
}

/// The lower-case form of an ASCII letter; any other character as it is.
pub open spec fn ascii_lower_char(c: char) -> char {
    if 'A' <= c <= 'Z' {
        ((c as u32 + 32) as u32) as char
    } else {
        c
    }
}

/// `s` with its ASCII letters in lower case.
pub open spec fn ascii_lower(s: Seq<char>) -> Seq<char> {
    s.map_values(|c: char| ascii_lower_char(c))
}

/// `str::to_ascii_lowercase` of std: maps the ASCII letters `A` to `Z` to `a`
/// to `z` and leaves every other character as it is.
pub assume_specification[ str::to_ascii_lowercase ](s: &str) -> (r: String)
    ensures
        r@ == ascii_lower(s@),
;

/// What `str::to_lowercase` of std returns: the Unicode lower-case form.
pub uninterp spec fn lowercase(s: Seq<char>) -> Seq<char>;

/// Whether every character of `s` is an ASCII character.
pub open spec fn is_ascii(s: Seq<char>) -> bool {
    forall|i: int| 0 <= i < s.len() ==> (#[trigger] s[i] as u32) < 0x80
}

/// `str::to_lowercase` of std: a function of the text alone, named
/// `lowercase`. On text that is all ASCII it lowers the ASCII letters and
/// nothing else.
pub assume_specification[ str::to_lowercase ](s: &str) -> (r: String)
    ensures
        r@ == lowercase(s@),
        is_ascii(s@) ==> r@ == ascii_lower(s@),
;

/// Whether `pattern` stands in `text` at position `i`.
pub open spec fn occurs_at(text: Seq<char>, pattern: Seq<char>, i: int) -> bool {
    0 <= i && i + pattern.len() <= text.len() && text.subrange(i, i + pattern.len()) == pattern
}

/// Whether `pattern` stands anywhere in `text`.
pub open spec fn has_substring(text: Seq<char>, pattern: Seq<char>) -> bool {
    exists|i: int| occurs_at(text, pattern, i)
}

/// The first position at which `pattern` stands in `text`.
pub open spec fn find(text: Seq<char>, pattern: Seq<char>) -> Option<int>
    decreases text.len(),
{
    if pattern.is_prefix_of(text) {
        Some(0)
    } else if text.len() == 0 {
        None
    } else {
        match find(text.skip(1), pattern) {
            Some(i) => Some(i + 1),
            None => None,
        }
    }
}

/// `line` without the carriage return at its end, if there is one.
pub open spec fn strip_carriage_return(line: Seq<char>) -> Seq<char> {
    if line.len() > 0 && line.last() == '\r' {
        line.drop_last()
    } else {
        line
    }
}

/// The lines of `s`: each ends at a line feed, with or without a carriage
/// return in front of it, or at the end of the text.
pub open spec fn lines(s: Seq<char>) -> Seq<Seq<char>>
    decreases s.len(),
{
    if s.len() == 0 {
        Seq::empty()
    } else {
        match find(s, seq!['\n']) {
            Some(i) => if 0 <= i < s.len() {
                seq![strip_carriage_return(s.take(i))] + lines(s.skip(i + 1))
            } else {
                Seq::empty()
            },
            None => seq![s],
        }
    }
}

/// `text` on a new line after `so_far`; `text` alone where nothing came before.
pub open spec fn append_line(so_far: Seq<char>, text: Seq<char>) -> Seq<char> {
    if so_far.len() == 0 {
        text
    } else {
        so_far.push('\n') + text
    }
}

/// The text, or the empty text where there is none.
pub open spec fn text_or_empty(text: Option<String>) -> Seq<char> {
    match text {
        Some(t) => t@,
        None => Seq::empty(),
    }
}

/// `find` gives the least position at which the pattern occurs, and one exactly
/// where the text has the pattern.
pub proof fn lemma_find(text: Seq<char>, pattern: Seq<char>)
    ensures
        find(text, pattern) is Some <==> has_substring(text, pattern),
        find(text, pattern) matches Some(i) ==> occurs_at(text, pattern, i) && forall|j: int|
            0 <= j < i ==> !occurs_at(text, pattern, j),
    decreases text.len(),
{
    if pattern.is_prefix_of(text) {
        assert(occurs_at(text, pattern, 0));
    } else {
        assert(!occurs_at(text, pattern, 0));
        if text.len() > 0 {
            let rest = text.skip(1);
            lemma_find(rest, pattern);
            assert forall|j: int| 0 <= j implies (occurs_at(rest, pattern, j) <==> occurs_at(
                text,
                pattern,
                j + 1,
            )) by {
                if j + 1 + pattern.len() <= text.len() {
                    assert(rest.subrange(j, j + pattern.len()) =~= text.subrange(
                        j + 1,
                        j + 1 + pattern.len(),
                    ));
                }
            }
            if has_substring(text, pattern) {
                let i = choose|i: int| occurs_at(text, pattern, i);
                assert(occurs_at(rest, pattern, i - 1));
            }
            if let Some(i) = find(rest, pattern) {
                assert(occurs_at(text, pattern, i + 1));
                assert forall|j: int| 0 <= j < i + 1 implies !occurs_at(text, pattern, j) by {
                    if j > 0 {
                        assert(!occurs_at(rest, pattern, j - 1));
                        assert(occurs_at(rest, pattern, j - 1) <==> occurs_at(text, pattern, j));
                    }
                }
            }
        }
    }
}

/// A position that is the least at which the pattern occurs is what `find` gives.
pub proof fn lemma_find_is(text: Seq<char>, pattern: Seq<char>, i: int)
    requires
        occurs_at(text, pattern, i),
        forall|j: int| 0 <= j < i ==> !occurs_at(text, pattern, j),
    ensures
        find(text, pattern) == Some(i),
{
    lemma_find(text, pattern);
    let k = find(text, pattern)->0;
    if k < i {
        assert(!occurs_at(text, pattern, k));
    }
    if i < k {
        assert(!occurs_at(text, pattern, i));
    }
}

/// The characters of `s`.
pub(crate) fn chars_of(s: &str) -> (r: Vec<char>)
    ensures
        r@ == s@,
{
    let mut r: Vec<char> = Vec::new();
    for c in iter: s.chars()
        invariant
            r@ == iter.seq().take(iter.index() as int),
            iter.seq() == s@,
    {
        r.push(c);
        assert(r@ =~= iter.seq().take(iter.index() + 1));
    }
    assert(r@ =~= s@);
    r
}

/// `String::push` of std: appends the character.
pub assume_specification[ String::push ](s: &mut String, c: char)
    ensures
        final(s)@ == old(s)@.push(c),
;

/// Whether two texts are the same.
pub(crate) fn same_text(a: &str, b: &str) -> (r: bool)
    ensures
        r == (a@ == b@),
{
    a.to_owned() == b.to_owned()
}

/// A copy of the text, or the empty text where there is none.
pub(crate) fn or_empty(text: &Option<String>) -> (r: String)
    ensures
        r@ == text_or_empty(*text),
{
    match text {
        Some(t) => t.clone(),
        None => String::new(),
    }
}

/// Whether `pattern` stands in `text` at position `i`.
fn matches_at(text: &[char], pattern: &[char], i: usize) -> (r: bool)
    requires
        i <= text@.len(),
    ensures
        r == occurs_at(text@, pattern@, i as int),
{
    if text.len() - i < pattern.len() {
        return false;
    }
    for k in 0..pattern.len()
        invariant
            i + pattern@.len() <= text@.len() <= usize::MAX,
            forall|j: int| 0 <= j < k ==> text@[i + j] == pattern@[j],
    {
        if text[i + k] != pattern[k] {
            proof {
                assert(text@.subrange(i as int, i + pattern@.len())[k as int] == text@[i + k]);
            }
            return false;
        }
    }
    assert(text@.subrange(i as int, i + pattern@.len()) =~= pattern@);
    true
}

/// The first position at which `pattern` stands in `text`.
pub(crate) fn position_of(text: &[char], pattern: &[char]) -> (r: Option<usize>)
    ensures
        match r {
            Some(i) => find(text@, pattern@) == Some(i as int) && i + pattern@.len() <= text@.len(),
            None => find(text@, pattern@) is None,
        },
{
    for i in 0..text.len()
        invariant
            forall|j: int| 0 <= j < i ==> !occurs_at(text@, pattern@, j),
    {
        if matches_at(text, pattern, i) {
            proof {
                lemma_find_is(text@, pattern@, i as int);
            }
            return Some(i);
        }
    }
    let n: usize = text.len();
    if matches_at(text, pattern, n) {
        proof {
            lemma_find_is(text@, pattern@, n as int);
        }
        return Some(n);
    }
    proof {
        lemma_find(text@, pattern@);
        if has_substring(text@, pattern@) {
            let i = choose|i: int| occurs_at(text@, pattern@, i);
            assert(!occurs_at(text@, pattern@, i));
        }
    }
    None
}

/// Whether `pattern` stands anywhere in `text`.
pub(crate) fn contains_text(text: &str, pattern: &str) -> (r: bool)
    ensures
        r == has_substring(text@, pattern@),
{
    let text_chars = chars_of(text);
    let pattern_chars = chars_of(pattern);
    proof {
        lemma_find(text@, pattern@);
    }
    position_of(&text_chars, &pattern_chars).is_some()
}

/// Whether `text` begins with `prefix`.
pub(crate) fn begins_with(text: &[char], prefix: &[char]) -> (r: bool)
    ensures
        r == prefix@.is_prefix_of(text@),
{
    matches_at(text, prefix, 0)
}

proof fn lemma_trim_start_skips(s: Seq<char>, i: int)
    requires
        0 <= i <= s.len(),
        forall|j: int| 0 <= j < i ==> is_white(#[trigger] s[j]),
    ensures
        trim_start(s) == trim_start(s.skip(i)),
    decreases i,
{
    if i > 0 {
        assert forall|j: int| 0 <= j < i - 1 implies is_white(#[trigger] s.skip(1)[j]) by {
            assert(s.skip(1)[j] == s[j + 1]);
        }
        lemma_trim_start_skips(s.skip(1), i - 1);
        assert(s.skip(1).skip(i - 1) =~= s.skip(i));
    } else {
        assert(s.skip(0) =~= s);
    }
}

proof fn lemma_trim_end_drops(s: Seq<char>, n: int)
    requires
        0 <= n <= s.len(),
        forall|j: int| n <= j < s.len() ==> is_white(#[trigger] s[j]),
    ensures
        trim_end(s) == trim_end(s.take(n)),
    decreases s.len() - n,
{
    if n < s.len() {
        lemma_trim_end_drops(s.drop_last(), n);
        assert(s.drop_last().take(n) =~= s.take(n));
    } else {
        assert(s.take(n) =~= s);
    }
}

proof fn lemma_trim_start_stops(s: Seq<char>, t: Seq<char>, i: int)
    requires
        0 <= i < s.len(),
        !is_white(s[i]),
    ensures
        trim_start(s + t) == trim_start(s) + t,
    decreases i,
{
    if is_white(s[0]) {
        assert((s + t).skip(1) =~= s.skip(1) + t);
        lemma_trim_start_stops(s.skip(1), t, i - 1);
    }
}

/// White space around a text does not matter to what is left of it when it is
/// trimmed.
pub proof fn lemma_trim_ignores_space(before: Seq<char>, s: Seq<char>, after: Seq<char>)
    requires
        forall|i: int| 0 <= i < before.len() ==> is_white(#[trigger] before[i]),
        forall|i: int| 0 <= i < after.len() ==> is_white(#[trigger] after[i]),
    ensures
        trim(before + s + after) == trim(s),
{
    let whole = before + s + after;
    let rest = s + after;
    assert forall|j: int| 0 <= j < before.len() implies is_white(#[trigger] whole[j]) by {
        assert(whole[j] == before[j]);
    }
    lemma_trim_start_skips(whole, before.len() as int);
    assert(whole.skip(before.len() as int) =~= rest);
    if exists|i: int| 0 <= i < s.len() && !is_white(#[trigger] s[i]) {
        let i = choose|i: int| 0 <= i < s.len() && !is_white(#[trigger] s[i]);
        lemma_trim_start_stops(s, after, i);
        let body = trim_start(s);
        let all = body + after;
        assert forall|j: int| body.len() <= j < all.len() implies is_white(#[trigger] all[j]) by {
            assert(all[j] == after[j - body.len()]);
        }
        lemma_trim_end_drops(all, body.len() as int);
        assert(all.take(body.len() as int) =~= body);
    } else {
        assert forall|j: int| 0 <= j < rest.len() implies is_white(#[trigger] rest[j]) by {
            if j < s.len() {
                assert(is_white(s[j]));
            } else {
                assert(is_white(after[j - s.len()]));
            }
        }
        lemma_trim_start_skips(rest, rest.len() as int);
        lemma_trim_start_skips(s, s.len() as int);
        assert(rest.skip(rest.len() as int) =~= Seq::<char>::empty());
        assert(s.skip(s.len() as int) =~= Seq::<char>::empty());
    }
}

/// The part of `text` from position `from` on, without leading and trailing
/// white space.
pub(crate) fn trimmed_from(text: &[char], from: usize) -> (r: String)
    requires
        from <= text@.len(),
    ensures
        r@ == trim(text@.skip(from as int)),
{
    let n: usize = text.len();
    let mut start: usize = from;
    let ghost s = text@.skip(from as int);
    while start < n && text[start].is_whitespace()
        invariant
            n == text@.len(),
            from <= start <= n,
            s == text@.skip(from as int),
            forall|j: int| 0 <= j < start - from ==> is_white(#[trigger] s[j]),
        decreases n - start,
    {
        assert(s[start - from] == text@[start as int]);
        start += 1;
    }
    let ghost body = text@.skip(start as int);
    proof {
        lemma_trim_start_skips(s, start - from);
        assert(s.skip(start - from) =~= body);
        if start < n {
            assert(body[0] == text@[start as int]);
        }
        assert(trim_start(s) == body);
    }
    let mut end: usize = n;
    while end > start && text[end - 1].is_whitespace()
        invariant
            n == text@.len(),
            start <= end <= n,
            body == text@.skip(start as int),
            forall|j: int| end - start <= j < body.len() ==> is_white(#[trigger] body[j]),
        decreases end,
    {
        assert(body[end - 1 - start] == text@[end - 1]);
        end -= 1;
    }
    proof {
        lemma_trim_end_drops(body, end - start);
        if end > start {
            assert(body.take(end - start).last() == text@[end - 1]);
        }
        assert(trim_end(body) == body.take(end - start));
    }
    let mut r = String::new();
    for i in start..end
        invariant
            start <= end <= text@.len(),
            r@ == text@.subrange(start as int, i as int),
    {
        r.push(text[i]);
        assert(r@ =~= text@.subrange(start as int, i + 1));
    }
    assert(r@ =~= body.take(end - start));
    r
}

/// The texts that the vectors hold.
pub open spec fn texts(v: Seq<Vec<char>>) -> Seq<Seq<char>> {
    v.map_values(|line: Vec<char>| line@)
}

/// The lines of `text`.
pub(crate) fn split_lines(text: &[char]) -> (r: Vec<Vec<char>>)
    ensures
        texts(r@) == lines(text@),
{
    let newline = vec!['\n'];
    let mut r: Vec<Vec<char>> = Vec::new();
    let mut rest: Vec<char> = Vec::new();
    for i in 0..text.len()
        invariant
            rest@ == text@.take(i as int),
    {
        rest.push(text[i]);
        assert(rest@ =~= text@.take(i + 1));
    }
    assert(rest@ =~= text@);
    assert(newline@ =~= seq!['\n']);
    assert(texts(r@) + lines(rest@) =~= lines(text@));
    while rest.len() > 0
        invariant
            newline@ == seq!['\n'],
            texts(r@) + lines(rest@) == lines(text@),
        decreases rest@.len(),
    {
        let ghost before = texts(r@);
        let ghost s = rest@;
        match position_of(&rest, &newline) {
            Some(i) => {
                let tail = rest.split_off(i + 1);
                rest.truncate(i);
                if i > 0 && rest[i - 1] == '\r' {
                    rest.truncate(i - 1);
                }
                assert(rest@ =~= strip_carriage_return(s.take(i as int)));
                assert(tail@ =~= s.skip(i + 1));
                r.push(rest);
                rest = tail;
                assert(texts(r@) =~= before.push(strip_carriage_return(s.take(i as int))));
                assert(texts(r@) + lines(rest@) =~= before + lines(s));
            },
            None => {
                r.push(rest);
                rest = Vec::new();
                assert(texts(r@) =~= before.push(s));
                assert(texts(r@) + lines(rest@) =~= before + lines(s));
            },
        }
    }
    assert(texts(r@) =~= lines(text@));
    r
}

} // verus!
