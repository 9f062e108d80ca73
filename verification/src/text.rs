//! Text primitives shared by the rest of the crate: white space, searching, cutting and joining.
//!
//! Text is modelled as the sequence of its characters.

use vstd::prelude::*;

verus! {

/// `str::eq`: two string slices are equal exactly when they hold the same characters.
pub assume_specification[ <str as PartialEq>::eq ](a: &str, b: &str) -> (res: bool)
    ensures
        res == (a@ == b@),
;

/// `String::push`: the character goes to the end of the string.
pub assume_specification[ String::push ](text: &mut String, c: char)
    ensures
        final(text)@ == old(text)@.push(c),
;

/// The characters of an optional text.
pub open spec fn opt_view(text: Option<String>) -> Option<Seq<char>> {
    match text {
        Some(text) => Some(text@),
        None => None,
    }
}

/// The characters of an optional borrowed text.
pub open spec fn opt_str_view(text: Option<&str>) -> Option<Seq<char>> {
    match text {
        Some(text) => Some(text@),
        None => None,
    }
}

/// Two optional texts are both absent, or both there with the same characters.
pub open spec fn same_text(a: Option<String>, b: Option<String>) -> bool {
    match (a, b) {
        (Some(x), Some(y)) => x@ == y@,
        (None, None) => true,
        _ => false,
    }
}

/// Borrows an optional text.
pub fn borrowed(text: &Option<String>) -> (res: Option<&str>)
    ensures
        opt_str_view(res) == opt_view(*text),
        match res {
            Some(part) => *text matches Some(whole) && part@ == whole@,
            None => *text is None,
        },
{
    match text {
        Some(text) => Some(text.as_str()),
        None => None,
    }
}

/// Copies an optional text.
pub fn copied(text: &Option<String>) -> (res: Option<String>)
    ensures
        opt_view(res) == opt_view(*text),
        res == *text,
{
    match text {
        Some(text) => Some(text.clone()),
        None => None,
    }
}

// ---- characters ------------------------------------------------------------

/// The characters with the Unicode `White_Space` property.
pub open spec fn is_white(c: char) -> bool {
    ||| '\u{9}' <= c <= '\u{d}'
    ||| c == ' '
    ||| c == '\u{85}'
    ||| c == '\u{a0}'
    ||| c == '\u{1680}'
    ||| '\u{2000}' <= c <= '\u{200a}'
    ||| c == '\u{2028}'
    ||| c == '\u{2029}'
    ||| c == '\u{202f}'
    ||| c == '\u{205f}'
    ||| c == '\u{3000}'
}

pub open spec fn is_digit(c: char) -> bool {
    '0' <= c <= '9'
}

pub open spec fn is_alphanumeric(c: char) -> bool {
    is_digit(c) || 'a' <= c <= 'z' || 'A' <= c <= 'Z'
}

/// The lowercase form of an ASCII capital; every other character is kept.
pub open spec fn lower(c: char) -> char {
    if 'A' <= c <= 'Z' {
        (c as u32 + 32) as char
    } else {
        c
    }
}

/// `s` with its ASCII capitals in lower case.
pub open spec fn lowered(s: Seq<char>) -> Seq<char> {
    s.map_values(|c: char| lower(c))
}

pub fn white_space(c: char) -> (res: bool)
    ensures
        res == is_white(c),
{
    ('\u{9}' <= c && c <= '\u{d}') || c == ' ' || c == '\u{85}' || c == '\u{a0}' || c == '\u{1680}'
        || ('\u{2000}' <= c && c <= '\u{200a}') || c == '\u{2028}' || c == '\u{2029}' || c
        == '\u{202f}' || c == '\u{205f}' || c == '\u{3000}'
}

pub fn ascii_digit(c: char) -> (res: bool)
    ensures
        res == is_digit(c),
{
    '0' <= c && c <= '9'
}

pub fn ascii_alphanumeric(c: char) -> (res: bool)
    ensures
        res == is_alphanumeric(c),
{
    ascii_digit(c) || ('a' <= c && c <= 'z') || ('A' <= c && c <= 'Z')
}

fn ascii_lower(c: char) -> (res: char)
    ensures
        res == lower(c),
{
    if 'A' <= c && c <= 'Z' {
        let code: u8 = c as u8 + 32;
        code as char
    } else {
        c
    }
}

/// The characters of `text`, in order.
pub fn chars_of(text: &str) -> (res: Vec<char>)
    ensures
        res@ == text@,
{
    let mut chars: Vec<char> = Vec::new();
    for c in it: text.chars()
        invariant
            it.seq() == text@,
            chars@ == text@.take(it.index() as int),
    {
        chars.push(c);
    }
    chars
}

/// `text` with its ASCII capitals in lower case.
pub fn to_lower(text: &str) -> (res: String)
    ensures
        res@ == lowered(text@),
{
    let mut out = String::new();
    for c in it: text.chars()
        invariant
            it.seq() == text@,
            out@ == lowered(text@.take(it.index() as int)),
    {
        out.push(ascii_lower(c));
    }
    out
}

/// Lowering a lowered text changes nothing.
pub proof fn lowering_is_idempotent(s: Seq<char>)
    ensures
        lowered(lowered(s)) == lowered(s),
{
    assert forall|i: int| 0 <= i < s.len() implies lower(lower(#[trigger] s[i])) == lower(s[i]) by {
        let c = s[i];
        if 'A' <= c <= 'Z' {
            assert(97 <= lower(c) as u32 <= 122);
        }
    }
    assert(lowered(lowered(s)) =~= lowered(s));
}

// ---- trimming --------------------------------------------------------------

/// `s` without the white space it starts with.
pub open spec fn trim_start(s: Seq<char>) -> Seq<char>
    decreases s.len(),
{
    if s.len() > 0 && is_white(s.first()) {
        trim_start(s.drop_first())
    } else {
        s
    }
}

/// `s` without the white space it ends with.
pub open spec fn trim_end(s: Seq<char>) -> Seq<char>
    decreases s.len(),
{
    if s.len() > 0 && is_white(s.last()) {
        trim_end(s.drop_last())
    } else {
        s
    }
}

/// `s` without the white space at either end.
pub open spec fn trimmed(s: Seq<char>) -> Seq<char> {
    trim_end(trim_start(s))
}

/// `text` without the white space at either end.
pub fn trim(text: &str) -> (res: &str)
    ensures
        res@ == trimmed(text@),
{
    let chars = chars_of(text);
    let mut start: usize = 0;
    assert(text@.skip(0) =~= text@);
    while start < chars.len() && white_space(chars[start])
        invariant
            chars@ == text@,
            start <= chars.len(),
            trim_start(text@) == trim_start(text@.skip(start as int)),
        decreases chars.len() - start,
    {
        assert(text@.skip(start as int).drop_first() =~= text@.skip(start + 1));
        start += 1;
    }
    assert(trim_start(text@) == text@.skip(start as int));
    let mut end: usize = chars.len();
    assert(text@.subrange(start as int, end as int) =~= text@.skip(start as int));
    while start < end && white_space(chars[end - 1])
        invariant
            chars@ == text@,
            start <= end <= chars.len(),
            trimmed(text@) == trim_end(text@.subrange(start as int, end as int)),
        decreases end,
    {
        assert(text@.subrange(start as int, end as int).drop_last() =~= text@.subrange(
            start as int,
            end - 1,
        ));
        end -= 1;
    }
    text.substring_char(start, end)
}

/// Trimming takes only white space away, from both ends, and leaves none there.
pub proof fn trimming_strips_white_space_only(s: Seq<char>)
    ensures
        exists|i: int, j: int|
            {
                &&& 0 <= i <= j <= s.len()
                &&& #[trigger] s.subrange(i, j) == trimmed(s)
                &&& forall|k: int| 0 <= k < i || j <= k < s.len() ==> is_white(#[trigger] s[k])
            },
        trimmed(s).len() > 0 ==> !is_white(trimmed(s).first()) && !is_white(trimmed(s).last()),
{
    let i = lemma_trim_start(s);
    let t = s.skip(i);
    let j = lemma_trim_end(t);
    assert(s.subrange(i, i + j) =~= t.take(j));
    assert forall|k: int| 0 <= k < i || i + j <= k < s.len() implies is_white(#[trigger] s[k]) by {
        if i + j <= k {
            assert(t[k - i] == s[k]);
        }
    }
    if trimmed(s).len() > 0 {
        assert(t.take(j).first() == t.first());
    }
}

/// Trimming a trimmed text changes nothing.
pub proof fn trimming_is_idempotent(s: Seq<char>)
    ensures
        trimmed(trimmed(s)) == trimmed(s),
{
    trimming_strips_white_space_only(s);
    let t = trimmed(s);
    if t.len() > 0 {
        assert(trim_start(t) == t);
        assert(trim_end(t) == t);
    }
}

proof fn lemma_trim_start(s: Seq<char>) -> (i: int)
    ensures
        0 <= i <= s.len(),
        trim_start(s) == s.skip(i),
        forall|k: int| 0 <= k < i ==> is_white(#[trigger] s[k]),
        i < s.len() ==> !is_white(s[i]),
    decreases s.len(),
{
    if s.len() > 0 && is_white(s.first()) {
        let rest = s.drop_first();
        let i = lemma_trim_start(rest);
        assert(rest.skip(i) =~= s.skip(i + 1));
        assert forall|k: int| 0 <= k < i + 1 implies is_white(#[trigger] s[k]) by {
            if k > 0 {
                assert(rest[k - 1] == s[k]);
            }
        }
        i + 1
    } else {
        assert(s.skip(0) =~= s);
        0
    }
}

proof fn lemma_trim_end(s: Seq<char>) -> (j: int)
    ensures
        0 <= j <= s.len(),
        trim_end(s) == s.take(j),
        forall|k: int| j <= k < s.len() ==> is_white(#[trigger] s[k]),
        0 < j ==> !is_white(s[j - 1]),
    decreases s.len(),
{
    if s.len() > 0 && is_white(s.last()) {
        let rest = s.drop_last();
        let j = lemma_trim_end(rest);
        assert(rest.take(j) =~= s.take(j));
        assert forall|k: int| j <= k < s.len() implies is_white(#[trigger] s[k]) by {
            if k < s.len() - 1 {
                assert(rest[k] == s[k]);
            }
        }
        j
    } else {
        assert(s.take(s.len() as int) =~= s);
        s.len() as int
    }
}

/// Trimming the end takes a suffix of white space away and keeps the rest as it stands.
pub proof fn trim_end_keeps(s: Seq<char>) -> (j: int)
    ensures
        0 <= j <= s.len(),
        trim_end(s) == s.take(j),
        forall|k: int| j <= k < s.len() ==> is_white(#[trigger] s[k]),
{
    lemma_trim_end(s)
}

/// White space cut off the end beforehand makes no difference to trimming.
pub proof fn trimmed_after_trim_end(s: Seq<char>, j: int)
    requires
        0 <= j <= s.len(),
        forall|k: int| j <= k < s.len() ==> is_white(#[trigger] s[k]),
    ensures
        trimmed(s.take(j)) == trimmed(s),
    decreases s.len() - j,
{
    if j == s.len() {
        assert(s.take(j) =~= s);
    } else {
        trimmed_after_trim_end(s, j + 1);
        let longer = s.take(j + 1);
        assert(longer.drop_last() =~= s.take(j));
        assert(longer.last() == s[j]);
        lemma_trimmed_without_last(longer);
    }
}

proof fn lemma_trimmed_without_last(s: Seq<char>)
    requires
        s.len() > 0,
        is_white(s.last()),
    ensures
        trimmed(s.drop_last()) == trimmed(s),
    decreases s.len(),
{
    if is_white(s.first()) {
        if s.len() > 1 {
            assert(s.drop_last().drop_first() =~= s.drop_first().drop_last());
            lemma_trimmed_without_last(s.drop_first());
        } else {
            assert(s.drop_first() =~= s.drop_last());
        }
    }
}

// ---- searching and cutting -------------------------------------------------

/// `needle` stands somewhere in `hay` as one run of characters.
pub open spec fn occurs(needle: Seq<char>, hay: Seq<char>) -> bool {
    exists|i: int|
        0 <= i <= hay.len() - needle.len() && #[trigger] hay.subrange(i, i + needle.len())
            == needle
}

/// Where `c` first stands in `s`, or the length of `s` if it stands nowhere.
pub open spec fn first_index(s: Seq<char>, c: char) -> int
    decreases s.len(),
{
    if s.len() == 0 || s.first() == c {
        0
    } else {
        1 + first_index(s.drop_first(), c)
    }
}

/// Where `c` last stands in `s`, or -1 if it stands nowhere.
pub open spec fn last_index(s: Seq<char>, c: char) -> int
    decreases s.len(),
{
    if s.len() == 0 {
        -1
    } else if s.last() == c {
        s.len() - 1
    } else {
        last_index(s.drop_last(), c)
    }
}

/// What stands in `s` before the first `c`: all of it if there is no `c`.
pub open spec fn before_first(s: Seq<char>, c: char) -> Seq<char> {
    s.take(first_index(s, c))
}

/// What stands in `s` after the first `c`, if there is one.
pub open spec fn after_first(s: Seq<char>, c: char) -> Option<Seq<char>> {
    if first_index(s, c) < s.len() {
        Some(s.skip(first_index(s, c) + 1))
    } else {
        None
    }
}

/// What stands in `s` after the last `c`: all of it if there is no `c`.
pub open spec fn after_last(s: Seq<char>, c: char) -> Seq<char> {
    s.skip(last_index(s, c) + 1)
}

/// The first index is in range, holds `c`, and nothing before it does.
pub proof fn first_index_is_first(s: Seq<char>, c: char)
    ensures
        0 <= first_index(s, c) <= s.len(),
        first_index(s, c) < s.len() ==> s[first_index(s, c)] == c,
        forall|k: int| 0 <= k < first_index(s, c) ==> #[trigger] s[k] != c,
    decreases s.len(),
{
    if s.len() > 0 && s.first() != c {
        let rest = s.drop_first();
        first_index_is_first(rest, c);
        assert forall|k: int| 0 <= k < first_index(s, c) implies #[trigger] s[k] != c by {
            if k > 0 {
                assert(rest[k - 1] == s[k]);
            }
        }
    }
}

/// The last index is in range, holds `c`, and nothing behind it does.
pub proof fn last_index_is_last(s: Seq<char>, c: char)
    ensures
        -1 <= last_index(s, c) < s.len(),
        0 <= last_index(s, c) ==> s[last_index(s, c)] == c,
        forall|k: int| last_index(s, c) < k < s.len() ==> #[trigger] s[k] != c,
    decreases s.len(),
{
    if s.len() > 0 && s.last() != c {
        let rest = s.drop_last();
        last_index_is_last(rest, c);
        assert forall|k: int| last_index(s, c) < k < s.len() implies #[trigger] s[k] != c by {
            if k < s.len() - 1 {
                assert(rest[k] == s[k]);
            }
        }
    }
}

/// The first index is the only position that holds `c` with no `c` before it.
pub proof fn first_index_at(s: Seq<char>, c: char, i: int)
    requires
        0 <= i < s.len(),
        s[i] == c,
        forall|k: int| 0 <= k < i ==> #[trigger] s[k] != c,
    ensures
        first_index(s, c) == i,
{
    first_index_is_first(s, c);
    let at = first_index(s, c);
    if at < i {
        assert(s[at] != c);
    } else if at > i {
        assert(s[i] != c);
    }
}

/// The last index is the only position that holds `c` with no `c` behind it.
pub proof fn last_index_at(s: Seq<char>, c: char, i: int)
    requires
        0 <= i < s.len(),
        s[i] == c,
        forall|k: int| i < k < s.len() ==> #[trigger] s[k] != c,
    ensures
        last_index(s, c) == i,
{
    last_index_is_last(s, c);
    let at = last_index(s, c);
    if at < i {
        assert(s[i] != c);
    } else if at > i {
        assert(s[at] != c);
    }
}

/// Tells whether `needle` stands somewhere in `hay`.
pub fn contains(hay: &str, needle: &str) -> (res: bool)
    ensures
        res == occurs(needle@, hay@),
{
    let hay_chars = chars_of(hay);
    let needle_chars = chars_of(needle);
    if needle_chars.len() > hay_chars.len() {
        return false;
    }
    let mut i: usize = 0;
    while i <= hay_chars.len() - needle_chars.len()
        invariant
            hay_chars@ == hay@,
            needle_chars@ == needle@,
            needle@.len() <= hay@.len(),
            i <= hay@.len() - needle@.len() + 1,
            forall|k: int|
                0 <= k < i ==> #[trigger] hay@.subrange(k, k + needle@.len()) != needle@,
        decreases hay_chars.len() - i + 1,
    {
        let mut n: usize = 0;
        while n < needle_chars.len() && hay_chars[i + n] == needle_chars[n]
            invariant
                hay_chars@ == hay@,
                needle_chars@ == needle@,
                n <= needle@.len(),
                i + needle@.len() <= hay_chars.len(),
                hay@.subrange(i as int, i + n) == needle@.take(n as int),
            decreases needle_chars.len() - n,
        {
            assert(hay@.subrange(i as int, i + n + 1) =~= needle@.take(n + 1));
            n += 1;
        }
        if n == needle_chars.len() {
            assert(needle@.take(n as int) =~= needle@);
            return true;
        }
        assert(hay@.subrange(i as int, i + needle@.len())[n as int] != needle@[n as int]);
        i += 1;
    }
    false
}

/// Tells whether `c` stands somewhere in `text`.
pub fn contains_char(text: &str, c: char) -> (res: bool)
    ensures
        res == text@.contains(c),
{
    let chars = chars_of(text);
    let at = position_of(&chars, c);
    proof {
        first_index_is_first(text@, c);
    }
    at < chars.len()
}

fn position_of(chars: &Vec<char>, c: char) -> (res: usize)
    ensures
        res == first_index(chars@, c),
        res <= chars@.len(),
{
    let mut i: usize = 0;
    assert(chars@.skip(0) =~= chars@);
    while i < chars.len() && chars[i] != c
        invariant
            i <= chars@.len(),
            first_index(chars@, c) == i + first_index(chars@.skip(i as int), c),
        decreases chars.len() - i,
    {
        assert(chars@.skip(i as int).drop_first() =~= chars@.skip(i + 1));
        i += 1;
    }
    i
}

/// The position behind the last `c`: 0 if there is no `c`.
fn position_after_last(chars: &Vec<char>, c: char) -> (res: usize)
    ensures
        res == last_index(chars@, c) + 1,
        res <= chars@.len(),
{
    let mut i: usize = chars.len();
    assert(chars@.take(i as int) =~= chars@);
    while i > 0 && chars[i - 1] != c
        invariant
            i <= chars@.len(),
            last_index(chars@, c) == last_index(chars@.take(i as int), c),
        decreases i,
    {
        assert(chars@.take(i as int).drop_last() =~= chars@.take(i - 1));
        i -= 1;
    }
    i
}

/// Splits `text` at the first `c`: what stands before it, and what stands behind it if there is
/// a `c` at all.
pub fn cut(text: &str, c: char) -> (res: (&str, Option<&str>))
    ensures
        res.0@ == before_first(text@, c),
        opt_str_view(res.1) == after_first(text@, c),
{
    let chars = chars_of(text);
    let at = position_of(&chars, c);
    let head = text.substring_char(0, at);
    assert(text@.subrange(0, at as int) =~= text@.take(at as int));
    if at < chars.len() {
        let tail = text.substring_char(at + 1, chars.len());
        assert(text@.subrange(at + 1, text@.len() as int) =~= text@.skip(at + 1));
        (head, Some(tail))
    } else {
        (head, None)
    }
}

/// What stands in `text` behind the last `c`: all of it if there is no `c`.
pub fn behind_last(text: &str, c: char) -> (res: &str)
    ensures
        res@ == after_last(text@, c),
{
    let chars = chars_of(text);
    let at = position_after_last(&chars, c);
    assert(text@.subrange(at as int, text@.len() as int) =~= text@.skip(at as int));
    text.substring_char(at, chars.len())
}

/// What follows `prefix` in `s`, if `s` starts with it.
pub open spec fn after_prefix(s: Seq<char>, prefix: Seq<char>) -> Option<Seq<char>> {
    if prefix.len() <= s.len() && s.take(prefix.len() as int) == prefix {
        Some(s.skip(prefix.len() as int))
    } else {
        None
    }
}

/// What follows `prefix` in `text`, if `text` starts with it.
pub fn strip_prefix<'a>(text: &'a str, prefix: &str) -> (res: Option<&'a str>)
    ensures
        opt_str_view(res) == after_prefix(text@, prefix@),
{
    let size = text.unicode_len();
    let prefix_size = prefix.unicode_len();
    if size < prefix_size {
        return None;
    }
    let head = text.substring_char(0, prefix_size);
    assert(head@ =~= text@.take(prefix_size as int));
    if *head == *prefix {
        let rest = text.substring_char(prefix_size, size);
        assert(rest@ =~= text@.skip(prefix_size as int));
        Some(rest)
    } else {
        None
    }
}

// ---- numbers ---------------------------------------------------------------

/// The decimal digit for a number below ten.
pub open spec fn digit(n: nat) -> char {
    (n + 48) as char
}

/// `n` in decimal, without leading zeros.
pub open spec fn decimal(n: nat) -> Seq<char>
    decreases n,
{
    if n < 10 {
        seq![digit(n)]
    } else {
        decimal(n / 10).push(digit(n % 10))
    }
}

/// `n` in decimal.
pub fn to_decimal(n: u32) -> (res: String)
    ensures
        res@ == decimal(n as nat),
    decreases n,
{
    let last: u8 = (n % 10) as u8 + 48;
    let mut out = if n < 10 {
        String::new()
    } else {
        to_decimal(n / 10)
    };
    out.push(last as char);
    assert(n < 10 ==> out@ =~= decimal(n as nat));
    out
}

// ---- laws ------------------------------------------------------------------

proof fn lemma_trim_start_skips(before: Seq<char>, rest: Seq<char>)
    requires
        forall|i: int| 0 <= i < before.len() ==> is_white(#[trigger] before[i]),
    ensures
        trim_start(before + rest) == trim_start(rest),
    decreases before.len(),
{
    if before.len() == 0 {
        assert(before + rest =~= rest);
    } else {
        assert((before + rest).first() == before[0]);
        assert((before + rest).drop_first() =~= before.drop_first() + rest);
        lemma_trim_start_skips(before.drop_first(), rest);
    }
}

proof fn lemma_trim_end_skips(rest: Seq<char>, after: Seq<char>)
    requires
        forall|i: int| 0 <= i < after.len() ==> is_white(#[trigger] after[i]),
    ensures
        trim_end(rest + after) == trim_end(rest),
    decreases after.len(),
{
    if after.len() == 0 {
        assert(rest + after =~= rest);
    } else {
        assert((rest + after).last() == after[after.len() - 1]);
        assert((rest + after).drop_last() =~= rest + after.drop_last());
        lemma_trim_end_skips(rest, after.drop_last());
    }
}

/// What stands between white space, with none at its own ends, is what trimming leaves.
pub proof fn trimming_takes_the_white_space_off(
    before: Seq<char>,
    middle: Seq<char>,
    after: Seq<char>,
)
    requires
        forall|i: int| 0 <= i < before.len() ==> is_white(#[trigger] before[i]),
        forall|i: int| 0 <= i < after.len() ==> is_white(#[trigger] after[i]),
        middle.len() > 0 ==> !is_white(middle.first()) && !is_white(middle.last()),
    ensures
        trimmed(before + middle + after) == middle,
{
    assert(before + middle + after =~= before + (middle + after));
    lemma_trim_start_skips(before, middle + after);
    if middle.len() == 0 {
        assert(middle + after =~= after + Seq::<char>::empty());
        lemma_trim_start_skips(after, Seq::empty());
    } else {
        assert((middle + after).first() == middle.first());
        lemma_trim_end_skips(middle, after);
    }
}

/// White space before a text makes no difference to trimming it.
pub proof fn trimming_skips_leading_white_space(before: Seq<char>, rest: Seq<char>)
    requires
        forall|i: int| 0 <= i < before.len() ==> is_white(#[trigger] before[i]),
    ensures
        trimmed(before + rest) == trimmed(rest),
{
    lemma_trim_start_skips(before, rest);
}

/// `trim` gives back what stands between the white space.
pub proof fn trim_gives_what_stands_between_white_space(
    text: &str,
    before: Seq<char>,
    middle: Seq<char>,
    after: Seq<char>,
    res: &str,
)
    requires
        call_ensures(trim, (text,), res),
        text@ == before + middle + after,
        forall|i: int| 0 <= i < before.len() ==> is_white(#[trigger] before[i]),
        forall|i: int| 0 <= i < after.len() ==> is_white(#[trigger] after[i]),
        middle.len() > 0 ==> !is_white(middle.first()) && !is_white(middle.last()),
    ensures
        res@ == middle,
{
    trimming_takes_the_white_space_off(before, middle, after);
}

/// Lowering changes capital ASCII letters to the small ones and nothing else, character by
/// character.
pub proof fn lowering_changes_capitals_alone(text: &str, res: String)
    requires
        call_ensures(to_lower, (text,), res),
    ensures
        res@.len() == text@.len(),
        forall|i: int|
            0 <= i < text@.len() ==> if 65 <= text@[i] as u32 <= 90 {
                (#[trigger] res@[i]) as u32 == text@[i] as u32 + 32
            } else {
                res@[i] == text@[i]
            },
{
}

/// A text contains another exactly when it is something, then the other, then something.
pub proof fn containing_is_standing_between(hay: &str, needle: &str, res: bool)
    requires
        call_ensures(contains, (hay, needle), res),
    ensures
        res <==> exists|before: Seq<char>, after: Seq<char>|
            hay@ == #[trigger] (before + needle@ + after),
{
    occurring_is_standing_between(needle@, hay@);
}

/// One text occurs in another exactly when the other is something, then it, then something.
pub proof fn occurring_is_standing_between(needle: Seq<char>, hay: Seq<char>)
    ensures
        occurs(needle, hay) <==> exists|before: Seq<char>, after: Seq<char>|
            hay == #[trigger] (before + needle + after),
{
    if occurs(needle, hay) {
        let i = choose|i: int|
            0 <= i <= hay.len() - needle.len() && #[trigger] hay.subrange(i, i + needle.len())
                == needle;
        assert(hay =~= hay.take(i) + needle + hay.skip(i + needle.len())) by {
            assert forall|k: int| i <= k < i + needle.len() implies #[trigger] hay[k] == needle[k
                - i] by {
                assert(hay.subrange(i, i + needle.len())[k - i] == hay[k]);
            }
        }
    }
    if exists|before: Seq<char>, after: Seq<char>| hay == #[trigger] (before + needle + after) {
        let (before, after) = choose|before: Seq<char>, after: Seq<char>|
            hay == #[trigger] (before + needle + after);
        assert(hay.subrange(before.len() as int, (before.len() + needle.len()) as int) =~= needle);
    }
}

/// Around the first occurrence of a character stand what is before it and what is after it.
pub proof fn the_first_index_splits(before: Seq<char>, c: char, after: Seq<char>)
    requires
        !before.contains(c),
    ensures
        before_first(before + seq![c] + after, c) == before,
        after_first(before + seq![c] + after, c) == Some(after),
{
    let s = before + seq![c] + after;
    assert forall|k: int| 0 <= k < before.len() implies #[trigger] s[k] != c by {
        assert(before.contains(before[k]));
    }
    first_index_at(s, c, before.len() as int);
    assert(s.take(before.len() as int) =~= before);
    assert(s.skip((before.len() + 1) as int) =~= after);
}

/// Without the character, all of a text stands before its first occurrence.
pub proof fn without_the_character_all_stands_before(s: Seq<char>, c: char)
    requires
        !s.contains(c),
    ensures
        before_first(s, c) == s,
        after_first(s, c) is None,
{
    first_index_is_first(s, c);
    assert(s.take(s.len() as int) =~= s);
    if first_index(s, c) < s.len() {
        assert(s.contains(s[first_index(s, c)]));
    }
}

/// Cutting splits at the first occurrence of the character; without one, all of the text stands
/// before the cut.
pub proof fn cutting_splits_at_the_first(
    text: &str,
    c: char,
    before: Seq<char>,
    after: Seq<char>,
    res: (&str, Option<&str>),
)
    requires
        call_ensures(cut, (text, c), res),
        !before.contains(c),
    ensures
        text@ == before + seq![c] + after ==> res.0@ == before && (res.1 matches Some(rest)
            && rest@ == after),
        text@ == before ==> res.0@ == before && res.1 is None,
{
    the_first_index_splits(before, c, after);
    without_the_character_all_stands_before(before, c);
}

/// Behind the last occurrence of a character stands the part that holds none of it.
pub proof fn the_last_index_splits(before: Seq<char>, c: char, after: Seq<char>)
    requires
        !after.contains(c),
    ensures
        after_last(before + seq![c] + after, c) == after,
        last_index(before + seq![c] + after, c) == before.len(),
        after_last(after, c) == after,
        last_index(after, c) == -1,
{
    let s = before + seq![c] + after;
    assert forall|k: int| before.len() < k < s.len() implies #[trigger] s[k] != c by {
        assert(after.contains(after[k - before.len() - 1]));
    }
    last_index_at(s, c, before.len() as int);
    assert(s.skip((before.len() + 1) as int) =~= after);
    last_index_is_last(after, c);
    if last_index(after, c) >= 0 {
        assert(after.contains(after[last_index(after, c)]));
    }
    assert(after.skip(0) =~= after);
}

/// What stands behind the last occurrence of a character holds none of it and ends the text; it
/// is all of the text where there is no occurrence.
pub proof fn what_stands_behind_the_last(
    text: &str,
    c: char,
    before: Seq<char>,
    after: Seq<char>,
    res: &str,
)
    requires
        call_ensures(behind_last, (text, c), res),
        !after.contains(c),
    ensures
        text@ == before + seq![c] + after ==> res@ == after,
        text@ == after ==> res@ == after,
{
    the_last_index_splits(before, c, after);
}

/// Stripping a prefix takes exactly that prefix away, and fails exactly where the text does not
/// start with it.
pub proof fn stripping_takes_the_prefix_away(text: &str, prefix: &str, res: Option<&str>)
    requires
        call_ensures(strip_prefix, (text, prefix), res),
    ensures
        forall|rest: Seq<char>| text@ == #[trigger] (prefix@ + rest) ==> (res matches Some(r)
            && r@ == rest),
        res matches Some(r) ==> text@ == prefix@ + r@,
{
    assert forall|rest: Seq<char>| text@ == #[trigger] (prefix@ + rest) implies (res matches Some(r)
        && r@ == rest) by {
        assert((prefix@ + rest).take(prefix@.len() as int) =~= prefix@);
        assert((prefix@ + rest).skip(prefix@.len() as int) =~= rest);
    }
    if let Some(r) = res {
        assert(text@ =~= text@.take(prefix@.len() as int) + text@.skip(prefix@.len() as int));
    }
}

/// The number that a row of decimal digits stands for.
pub open spec fn number_of(digits: Seq<char>) -> int
    decreases digits.len(),
{
    if digits.len() == 0 {
        0
    } else {
        10 * number_of(digits.drop_last()) + (digits.last() as u32 - '0' as u32)
    }
}

proof fn lemma_decimal_reads_back(n: nat)
    ensures
        number_of(decimal(n)) == n,
        decimal(n).len() > 0,
        forall|i: int| 0 <= i < decimal(n).len() ==> 48 <= (#[trigger] decimal(n)[i]) as u32 <= 57,
        decimal(n)[0] == '0' ==> n == 0 && decimal(n).len() == 1,
    decreases n,
{
    reveal_with_fuel(number_of, 2);
    if n < 10 {
        assert(decimal(n).drop_last() =~= Seq::<char>::empty());
    } else {
        lemma_decimal_reads_back(n / 10);
        assert(decimal(n).drop_last() =~= decimal(n / 10));
        assert(decimal(n)[0] == decimal(n / 10)[0]);
        assert forall|i: int| 0 <= i < decimal(n).len() implies 48 <= (#[trigger] decimal(n)[i]) as u32
            <= 57 by {
            if i < decimal(n).len() - 1 {
                assert(decimal(n)[i] == decimal(n / 10)[i]);
            }
        }
    }
}

/// A number is written in the digits 0 to 9, without leading zeros, and reads back as itself.
pub proof fn written_numbers_read_back(n: u32, res: String)
    requires
        call_ensures(to_decimal, (n,), res),
    ensures
        number_of(res@) == n,
        res@.len() > 0,
        forall|i: int| 0 <= i < res@.len() ==> 48 <= (#[trigger] res@[i]) as u32 <= 57,
        res@[0] == '0' ==> n == 0 && res@.len() == 1,
{
    lemma_decimal_reads_back(n as nat);
}

} // verus!
