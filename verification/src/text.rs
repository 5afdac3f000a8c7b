//! Character and string helpers the rest of the crate builds on.
//!
//! Strings are specified by their view, a `Seq<char>`; each helper states its
//! result as a spec function over such sequences.
use vstd::prelude::*;
use vstd::string::StringExecFns;

verus! {

broadcast use vstd::string::group_string_axioms;

/// Code points with the Unicode `White_Space` property.
pub open spec fn is_whitespace(c: char) -> bool {
    let n = c as u32;
    ||| (0x09 <= n && n <= 0x0D)
    ||| n == 0x20
    ||| n == 0x85
    ||| n == 0xA0
    ||| n == 0x1680
    ||| (0x2000 <= n && n <= 0x200A)
    ||| n == 0x2028
    ||| n == 0x2029
    ||| n == 0x202F
    ||| n == 0x205F
    ||| n == 0x3000
}

/// An ASCII digit.
pub open spec fn is_ascii_digit(c: char) -> bool {
    '0' <= c && c <= '9'
}

/// An ASCII letter.
pub open spec fn is_ascii_letter(c: char) -> bool {
    ('a' <= c && c <= 'z') || ('A' <= c && c <= 'Z')
}

/// An ASCII letter or digit.
pub open spec fn is_ascii_alphanumeric(c: char) -> bool {
    is_ascii_digit(c) || is_ascii_letter(c)
}

/// Whether `c` is whitespace.
pub fn char_is_whitespace(c: char) -> (b: bool)
    ensures
        b == is_whitespace(c),
{
    let n: u32 = c as u32;
    (0x09 <= n && n <= 0x0D) || n == 0x20 || n == 0x85 || n == 0xA0 || n == 0x1680 || (0x2000 <= n
        && n <= 0x200A) || n == 0x2028 || n == 0x2029 || n == 0x202F || n == 0x205F || n == 0x3000
}

/// Whether `c` is an ASCII letter or digit.
pub fn char_is_ascii_alphanumeric(c: char) -> (b: bool)
    ensures
        b == is_ascii_alphanumeric(c),
{
    ('0' <= c && c <= '9') || ('a' <= c && c <= 'z') || ('A' <= c && c <= 'Z')
}

/// The characters of `s`, in order.
pub fn chars_of(s: &str) -> (out: Vec<char>)
    ensures
        out@ == s@,
{
    let mut out: Vec<char> = Vec::new();
    for c in it: s.chars()
        invariant
            it.seq() == s@,
            out@ == s@.take(it.index() as int),
    {
        out.push(c);
    }
    out
}

/// `String::from_iter` over a slice of characters: the string holds exactly
/// those characters, in order.
#[verifier::external_body]
pub(crate) fn string_of(chars: &[char]) -> (out: String)
    ensures
        out@ == chars@,
{
    chars.iter().collect()
}

/// Whether every byte is an ASCII byte.
pub open spec fn all_ascii(bytes: Seq<u8>) -> bool {
    forall|i: int| 0 <= i < bytes.len() ==> #[trigger] bytes[i] < 128
}

/// The characters that ASCII bytes stand for.
pub open spec fn ascii_text(bytes: Seq<u8>) -> Seq<char> {
    Seq::new(bytes.len(), |i: int| bytes[i] as char)
}

/// What `String::from_utf8_lossy` makes of `bytes`.
pub uninterp spec fn utf8_lossy_text(bytes: Seq<u8>) -> Seq<char>;

/// `String::from_utf8_lossy`: the text that the bytes encode, with a
/// replacement character for what is no valid UTF-8. Bytes that are all
/// ASCII are valid, and each stands for its character.
#[verifier::external_body]
pub(crate) fn lossy_text(bytes: &[u8]) -> (text: String)
    ensures
        text@ == utf8_lossy_text(bytes@),
        all_ascii(bytes@) ==> text@ == ascii_text(bytes@),
{
    String::from_utf8_lossy(bytes).into_owned()
}

/// What `char::to_lowercase` yields for `c`.
pub uninterp spec fn lowercase_of(c: char) -> Seq<char>;

/// The lowercase form of an ASCII character: that of a capital letter is
/// the small letter, every other character is its own.
pub open spec fn ascii_lowercase(c: char) -> char {
    if 'A' <= c && c <= 'Z' {
        ((c as u8) + 32) as char
    } else {
        c
    }
}

/// `char::to_lowercase`, collected: the lowercase mapping of the character,
/// which for an ASCII character is its ASCII lowercase form.
#[verifier::external_body]
pub(crate) fn char_lowercase(c: char) -> (lower: Vec<char>)
    ensures
        lower@ == lowercase_of(c),
        (c as u32) < 128 ==> lower@ == seq![ascii_lowercase(c)],
{
    c.to_lowercase().collect()
}

/// Whether two strings hold the same characters.
pub fn str_eq(a: &str, b: &str) -> (same: bool)
    ensures
        same == (a@ == b@),
{
    let left = chars_of(a);
    let right = chars_of(b);
    if left.len() != right.len() {
        return false;
    }
    let mut i: usize = 0;
    while i < left.len()
        invariant
            left@ == a@,
            right@ == b@,
            left.len() == right.len(),
            i <= left.len(),
            left@.take(i as int) == right@.take(i as int),
        decreases left.len() - i,
    {
        if left[i] != right[i] {
            assert(left@[i as int] != right@[i as int]);
            return false;
        }
        assert(left@.take(i + 1) == left@.take(i as int).push(left@[i as int]));
        assert(right@.take(i + 1) == right@.take(i as int).push(right@[i as int]));
        i += 1;
    }
    assert(left@ == left@.take(left.len() as int));
    assert(right@ == right@.take(right.len() as int));
    true
}

/// The first index at or after `from` whose character is not whitespace.
pub open spec fn skip_whitespace(s: Seq<char>, from: int) -> int
    decreases s.len() - from,
{
    if 0 <= from < s.len() && is_whitespace(s[from]) {
        skip_whitespace(s, from + 1)
    } else {
        from
    }
}

/// The end of the shortest prefix of `s` that is followed by whitespace only,
/// never below `floor`.
pub open spec fn skip_whitespace_back(s: Seq<char>, floor: int, end: int) -> int
    decreases end,
{
    if 0 <= floor < end <= s.len() && is_whitespace(s[end - 1]) {
        skip_whitespace_back(s, floor, end - 1)
    } else {
        end
    }
}

/// `s` without its leading and trailing whitespace.
pub open spec fn trimmed(s: Seq<char>) -> Seq<char> {
    let start = skip_whitespace(s, 0);
    let end = skip_whitespace_back(s, start, s.len() as int);
    s.subrange(start, end)
}

/// Skipping whitespace forward stays within the text.
pub proof fn lemma_skip_whitespace_bounds(s: Seq<char>, from: int)
    requires
        0 <= from <= s.len(),
    ensures
        from <= skip_whitespace(s, from) <= s.len(),
    decreases s.len() - from,
{
    if from < s.len() && is_whitespace(s[from]) {
        lemma_skip_whitespace_bounds(s, from + 1);
    }
}

/// Skipping whitespace backward stays between floor and end.
pub proof fn lemma_skip_whitespace_back_bounds(s: Seq<char>, floor: int, end: int)
    requires
        0 <= floor <= end <= s.len(),
    ensures
        floor <= skip_whitespace_back(s, floor, end) <= end,
    decreases end,
{
    if floor < end && is_whitespace(s[end - 1]) {
        lemma_skip_whitespace_back_bounds(s, floor, end - 1);
    }
}

/// The characters of `chars` between its leading and trailing whitespace.
pub fn trim_chars(chars: &Vec<char>) -> (out: Vec<char>)
    ensures
        out@ == trimmed(chars@),
{
    let n = chars.len();
    let mut start: usize = 0;
    while start < n && char_is_whitespace(chars[start])
        invariant
            n == chars.len(),
            start <= n,
            skip_whitespace(chars@, 0) == skip_whitespace(chars@, start as int),
        decreases n - start,
    {
        start += 1;
    }
    let mut end: usize = n;
    while start < end && char_is_whitespace(chars[end - 1])
        invariant
            n == chars.len(),
            start <= end <= n,
            skip_whitespace_back(chars@, start as int, n as int) == skip_whitespace_back(
                chars@,
                start as int,
                end as int,
            ),
        decreases end,
    {
        end -= 1;
    }
    let mut out: Vec<char> = Vec::new();
    let mut i: usize = start;
    while i < end
        invariant
            start <= i <= end <= chars.len(),
            out@ == chars@.subrange(start as int, i as int),
        decreases end - i,
    {
        out.push(chars[i]);
        assert(chars@.subrange(start as int, i + 1) == chars@.subrange(
            start as int,
            i as int,
        ).push(chars@[i as int]));
        i += 1;
    }
    out
}

/// `s` without its leading and trailing whitespace.
pub fn trim(s: &str) -> (out: String)
    ensures
        out@ == trimmed(s@),
{
    let chars = chars_of(s);
    let kept = trim_chars(&chars);
    string_of(kept.as_slice())
}

/// Text whose first and last characters are not whitespace is its own
/// trimmed form; so is the empty text.
pub proof fn lemma_trimmed_is_identity(s: Seq<char>)
    requires
        s.len() > 0 ==> !is_whitespace(s[0]) && !is_whitespace(s.last()),
    ensures
        trimmed(s) == s,
{
    assert(s.subrange(0, s.len() as int) == s);
}

/// Trimming never lengthens, and what it returns starts and ends with
/// characters that are not whitespace.
pub proof fn lemma_trimmed_has_no_outer_whitespace(s: Seq<char>)
    ensures
        trimmed(s).len() <= s.len(),
        trimmed(s).len() > 0 ==> !is_whitespace(trimmed(s)[0]) && !is_whitespace(
            trimmed(s).last(),
        ),
{
    let start = skip_whitespace(s, 0);
    lemma_skip_whitespace_bounds(s, 0);
    lemma_skip_whitespace_stops(s, 0);
    let end = skip_whitespace_back(s, start, s.len() as int);
    lemma_skip_whitespace_back_bounds(s, start, s.len() as int);
    lemma_skip_whitespace_back_stops(s, start, s.len() as int);
}

/// Skipping whitespace forward stops at a character that is none.
pub proof fn lemma_skip_whitespace_stops(s: Seq<char>, from: int)
    requires
        0 <= from <= s.len(),
    ensures
        skip_whitespace(s, from) < s.len() ==> !is_whitespace(s[skip_whitespace(s, from)]),
    decreases s.len() - from,
{
    if from < s.len() && is_whitespace(s[from]) {
        lemma_skip_whitespace_stops(s, from + 1);
    }
}

/// Skipping whitespace backward stops behind a character that is none.
pub proof fn lemma_skip_whitespace_back_stops(s: Seq<char>, floor: int, end: int)
    requires
        0 <= floor <= end <= s.len(),
    ensures
        skip_whitespace_back(s, floor, end) > floor ==> !is_whitespace(
            s[skip_whitespace_back(s, floor, end) - 1],
        ),
    decreases end,
{
    if floor < end && is_whitespace(s[end - 1]) {
        lemma_skip_whitespace_back_stops(s, floor, end - 1);
    }
}

/// Where `component` lands when it is appended to the path `base`: an
/// absolute component replaces the base; otherwise it follows the base, after
/// a separator unless the base is empty or already ends in one.
pub open spec fn joined_path(base: Seq<char>, component: Seq<char>) -> Seq<char> {
    if component.len() > 0 && component[0] == '/' {
        component
    } else if base.len() == 0 || base.last() == '/' {
        base + component
    } else {
        base + "/"@ + component
    }
}

/// Appends `component` to the path `base`.
pub fn join_path(base: &str, component: &str) -> (path: String)
    ensures
        path@ == joined_path(base@, component@),
{
    let head = chars_of(base);
    let tail = chars_of(component);
    if tail.len() > 0 && tail[0] == '/' {
        return component.to_owned();
    }
    let mut path = base.to_owned();
    if head.len() > 0 && head[head.len() - 1] != '/' {
        path.append("/");
    }
    path.append(component);
    path
}

/// Whether `s` begins with `prefix`.
pub open spec fn has_prefix(s: Seq<char>, prefix: Seq<char>) -> bool {
    prefix.len() <= s.len() && s.subrange(0, prefix.len() as int) == prefix
}

/// Whether `s` holds `needle` at index `at`.
pub open spec fn occurs_at(s: Seq<char>, needle: Seq<char>, at: int) -> bool {
    0 <= at && at + needle.len() <= s.len() && s.subrange(at, at + needle.len()) == needle
}

/// Whether `needle` occurs somewhere in `s`.
pub open spec fn has_substring(s: Seq<char>, needle: Seq<char>) -> bool {
    exists|at: int| occurs_at(s, needle, at)
}

/// Whether `chars` holds `needle` at index `at`.
pub fn chars_occur_at(chars: &Vec<char>, needle: &Vec<char>, at: usize) -> (found: bool)
    ensures
        found == occurs_at(chars@, needle@, at as int),
{
    if needle.len() > chars.len() || at > chars.len() - needle.len() {
        return false;
    }
    let mut i: usize = 0;
    while i < needle.len()
        invariant
            i <= needle.len(),
            at + needle.len() <= chars.len(),
            chars@.subrange(at as int, at + i) == needle@.take(i as int),
        decreases needle.len() - i,
    {
        if chars[at + i] != needle[i] {
            assert(chars@.subrange(at as int, at + needle.len())[i as int] != needle@[i as int]);
            return false;
        }
        assert(chars@.subrange(at as int, at + i + 1) == chars@.subrange(at as int, at + i).push(
            chars@[at + i],
        ));
        assert(needle@.take(i + 1) == needle@.take(i as int).push(needle@[i as int]));
        i += 1;
    }
    assert(needle@.take(needle.len() as int) == needle@);
    true
}

/// Whether `s` begins with `prefix`.
pub fn starts_with(s: &str, prefix: &str) -> (found: bool)
    ensures
        found == has_prefix(s@, prefix@),
{
    let chars = chars_of(s);
    let head = chars_of(prefix);
    chars_occur_at(&chars, &head, 0)
}

/// Whether `needle` occurs somewhere in `s`.
pub fn contains(s: &str, needle: &str) -> (found: bool)
    ensures
        found == has_substring(s@, needle@),
{
    let chars = chars_of(s);
    let wanted = chars_of(needle);
    if wanted.len() > chars.len() {
        assert forall|at: int| !occurs_at(s@, needle@, at) by {}
        return false;
    }
    let last = chars.len() - wanted.len();
    let mut at: usize = 0;
    while at < last
        invariant
            chars@ == s@,
            wanted@ == needle@,
            wanted.len() <= chars.len(),
            last == chars.len() - wanted.len(),
            at <= last,
            forall|k: int| 0 <= k < at ==> !occurs_at(s@, needle@, k),
        decreases last - at,
    {
        if chars_occur_at(&chars, &wanted, at) {
            return true;
        }
        at += 1;
    }
    if chars_occur_at(&chars, &wanted, last) {
        return true;
    }
    assert forall|k: int| !occurs_at(s@, needle@, k) by {}
    false
}

/// `s` without `prefix` in front, if it begins with it.
pub open spec fn without_prefix(s: Seq<char>, prefix: Seq<char>) -> Option<Seq<char>> {
    if has_prefix(s, prefix) {
        Some(s.subrange(prefix.len() as int, s.len() as int))
    } else {
        None
    }
}

/// The characters of `chars` from index `from` on.
pub(crate) fn chars_from(chars: &Vec<char>, from: usize) -> (out: Vec<char>)
    requires
        from <= chars.len(),
    ensures
        out@ == chars@.subrange(from as int, chars.len() as int),
{
    chars_between(chars, from, chars.len())
}

/// The characters of `chars` from index `from` up to `to`.
pub(crate) fn chars_between(chars: &Vec<char>, from: usize, to: usize) -> (out: Vec<char>)
    requires
        from <= to <= chars.len(),
    ensures
        out@ == chars@.subrange(from as int, to as int),
{
    let mut out: Vec<char> = Vec::new();
    let mut i: usize = from;
    while i < to
        invariant
            from <= i <= to <= chars.len(),
            out@ == chars@.subrange(from as int, i as int),
        decreases to - i,
    {
        out.push(chars[i]);
        assert(chars@.subrange(from as int, i + 1) == chars@.subrange(from as int, i as int).push(
            chars@[i as int],
        ));
        i += 1;
    }
    out
}

/// `s` without `prefix` in front, if it begins with it.
pub fn strip_prefix(s: &str, prefix: &str) -> (rest: Option<String>)
    ensures
        match without_prefix(s@, prefix@) {
            Some(tail) => rest matches Some(text) && text@ == tail,
            None => rest is None,
        },
{
    let chars = chars_of(s);
    let head = chars_of(prefix);
    if chars_occur_at(&chars, &head, 0) {
        let tail = chars_from(&chars, head.len());
        Some(string_of(tail.as_slice()))
    } else {
        None
    }
}

/// The end of `s` once every `c` at its end is dropped.
pub open spec fn end_without(s: Seq<char>, c: char, end: int) -> int
    decreases end,
{
    if 0 < end <= s.len() && s[end - 1] == c {
        end_without(s, c, end - 1)
    } else {
        end
    }
}

/// `s` without the run of `c` at its end.
pub open spec fn without_trailing(s: Seq<char>, c: char) -> Seq<char> {
    s.subrange(0, end_without(s, c, s.len() as int))
}

/// `s` without the run of `c` at its end.
pub fn trim_end_matches(s: &str, c: char) -> (out: String)
    ensures
        out@ == without_trailing(s@, c),
{
    let chars = chars_of(s);
    let mut end: usize = chars.len();
    while end > 0 && chars[end - 1] == c
        invariant
            end <= chars.len(),
            end_without(chars@, c, chars.len() as int) == end_without(chars@, c, end as int),
        decreases end,
    {
        end -= 1;
    }
    let kept = chars_between(&chars, 0, end);
    string_of(kept.as_slice())
}

/// The first index at or after `from` that holds `c`, or the length where
/// none does.
pub open spec fn index_of(s: Seq<char>, c: char, from: int) -> int
    decreases s.len() - from,
{
    if from < 0 || from >= s.len() {
        s.len() as int
    } else if s[from] == c {
        from
    } else {
        index_of(s, c, from + 1)
    }
}

/// The first index at or after `from` that holds `c`, or the length where
/// none does.
pub(crate) fn find_char(chars: &Vec<char>, c: char, from: usize) -> (at: usize)
    requires
        from <= chars.len(),
    ensures
        at == index_of(chars@, c, from as int),
        from <= at <= chars.len(),
{
    let mut at: usize = from;
    while at < chars.len() && chars[at] != c
        invariant
            from <= at <= chars.len(),
            index_of(chars@, c, from as int) == index_of(chars@, c, at as int),
        decreases chars.len() - at,
    {
        at += 1;
    }
    at
}

/// What comes before the first `c` in `s`; all of `s` where there is none.
pub open spec fn before_first(s: Seq<char>, c: char) -> Seq<char> {
    s.subrange(0, index_of(s, c, 0))
}

/// What comes before the first `c` in `s`.
pub fn before_char(s: &str, c: char) -> (head: String)
    ensures
        head@ == before_first(s@, c),
{
    let chars = chars_of(s);
    let at = find_char(&chars, c, 0);
    let kept = chars_between(&chars, 0, at);
    string_of(kept.as_slice())
}

/// The line that starts at index `from` and ends before index `end`, where
/// a line feed or the end of the text stands: a carriage return right before
/// the line feed belongs to the line ending.
pub open spec fn line_between(s: Seq<char>, from: int, end: int) -> Seq<char> {
    if end < s.len() && from < end && s[end - 1] == '\r' {
        s.subrange(from, end - 1)
    } else {
        s.subrange(from, end)
    }
}

/// The lines of `s` from index `from` on. Lines end at a line feed, with or
/// without a carriage return before it; the last line need not end at all.
pub open spec fn lines_from(s: Seq<char>, from: int) -> Seq<Seq<char>>
    decreases s.len() - from,
{
    if from < 0 || from >= s.len() {
        seq![]
    } else {
        let end = index_of(s, '\n', from);
        if end < from || end >= s.len() {
            seq![line_between(s, from, end)]
        } else {
            seq![line_between(s, from, end)] + lines_from(s, end + 1)
        }
    }
}

/// The lines of `s`.
pub open spec fn lines_of(s: Seq<char>) -> Seq<Seq<char>> {
    lines_from(s, 0)
}

/// The sequences that the vectors of `list` hold.
pub open spec fn char_lists(list: Seq<Vec<char>>) -> Seq<Seq<char>> {
    Seq::new(list.len(), |i: int| list[i]@)
}

/// The lines of `chars`.
pub fn split_lines(chars: &Vec<char>) -> (lines: Vec<Vec<char>>)
    ensures
        char_lists(lines@) == lines_of(chars@),
{
    let mut lines: Vec<Vec<char>> = Vec::new();
    let mut from: usize = 0;
    while from < chars.len()
        invariant
            from <= chars.len(),
            char_lists(lines@) + lines_from(chars@, from as int) == lines_of(chars@),
        decreases chars.len() - from,
    {
        let end = find_char(chars, '\n', from);
        let stop = if end < chars.len() && from < end && chars[end - 1] == '\r' {
            end - 1
        } else {
            end
        };
        let line = chars_between(chars, from, stop);
        let ghost before = char_lists(lines@);
        lines.push(line);
        assert(char_lists(lines@) == before.push(line_between(chars@, from as int, end as int)));
        if end >= chars.len() {
            assert(before + seq![line_between(chars@, from as int, end as int)] == char_lists(
                lines@,
            ));
            assert(lines_from(chars@, chars.len() as int) == Seq::<Seq<char>>::empty());
            assert(char_lists(lines@) + Seq::<Seq<char>>::empty() == char_lists(lines@));
            from = chars.len();
        } else {
            assert(before + (seq![line_between(chars@, from as int, end as int)] + lines_from(
                chars@,
                end + 1,
            )) == before.push(line_between(chars@, from as int, end as int)) + lines_from(
                chars@,
                end + 1,
            ));
            from = end + 1;
        }
    }
    assert(lines_from(chars@, from as int) == Seq::<Seq<char>>::empty());
    assert(char_lists(lines@) + Seq::<Seq<char>>::empty() == char_lists(lines@));
    lines
}

/// The first index at or after `from` whose character is whitespace, or the
/// length where none is.
pub open spec fn skip_word(s: Seq<char>, from: int) -> int
    decreases s.len() - from,
{
    if 0 <= from < s.len() && !is_whitespace(s[from]) {
        skip_word(s, from + 1)
    } else {
        from
    }
}

/// Skipping a word stays within the text, and moves on where a word begins.
pub proof fn lemma_skip_word_bounds(s: Seq<char>, from: int)
    requires
        0 <= from <= s.len(),
    ensures
        from <= skip_word(s, from) <= s.len(),
        from < s.len() && !is_whitespace(s[from]) ==> from < skip_word(s, from),
    decreases s.len() - from,
{
    if from < s.len() && !is_whitespace(s[from]) {
        lemma_skip_word_bounds(s, from + 1);
    }
}

/// The words of `s` from index `from` on: the maximal runs of characters
/// that are not whitespace.
pub open spec fn words_from(s: Seq<char>, from: int) -> Seq<Seq<char>>
    decreases s.len() - from, 1nat,
{
    if from < 0 || from >= s.len() {
        seq![]
    } else if is_whitespace(s[from]) {
        words_from(s, from + 1)
    } else {
        words_after(s, from, skip_word(s, from))
    }
}

/// The word from `from` up to `end`, followed by the words after it.
pub open spec fn words_after(s: Seq<char>, from: int, end: int) -> Seq<Seq<char>>
    decreases s.len() - from, 0nat,
{
    if from < end <= s.len() {
        seq![s.subrange(from, end)] + words_from(s, end)
    } else {
        seq![]
    }
}

/// The words of `s`.
pub open spec fn words_of(s: Seq<char>) -> Seq<Seq<char>> {
    words_from(s, 0)
}

/// The words of `chars`.
pub fn split_whitespace(chars: &Vec<char>) -> (words: Vec<Vec<char>>)
    ensures
        char_lists(words@) == words_of(chars@),
{
    let mut words: Vec<Vec<char>> = Vec::new();
    let mut from: usize = 0;
    while from < chars.len()
        invariant
            from <= chars.len(),
            char_lists(words@) + words_from(chars@, from as int) == words_of(chars@),
        decreases chars.len() - from,
    {
        if char_is_whitespace(chars[from]) {
            from += 1;
        } else {
            let mut end: usize = from;
            while end < chars.len() && !char_is_whitespace(chars[end])
                invariant
                    from <= end <= chars.len(),
                    skip_word(chars@, from as int) == skip_word(chars@, end as int),
                decreases chars.len() - end,
            {
                end += 1;
            }
            proof {
                lemma_skip_word_bounds(chars@, from as int);
                assert(skip_word(chars@, end as int) == end);
                assert(!is_whitespace(chars@[from as int]));
                assert(from < end);
                assert(words_from(chars@, from as int) == words_after(
                    chars@,
                    from as int,
                    skip_word(chars@, from as int),
                ));
                assert(words_after(chars@, from as int, end as int) == seq![
                    chars@.subrange(from as int, end as int),
                ] + words_from(chars@, end as int));
                assert(words_from(chars@, from as int) == seq![
                    chars@.subrange(from as int, end as int),
                ] + words_from(chars@, end as int));
            }
            let word = chars_between(chars, from, end);
            let ghost before = char_lists(words@);
            words.push(word);
            assert(char_lists(words@) == before.push(chars@.subrange(from as int, end as int)));
            assert(before + (seq![chars@.subrange(from as int, end as int)] + words_from(
                chars@,
                end as int,
            )) == before.push(chars@.subrange(from as int, end as int)) + words_from(
                chars@,
                end as int,
            ));
            from = end;
        }
    }
    assert(words_from(chars@, from as int) == Seq::<Seq<char>>::empty());
    assert(char_lists(words@) + Seq::<Seq<char>>::empty() == char_lists(words@));
    words
}

/// `items` with `separator` between each two of the first `count`.
pub open spec fn joined(items: Seq<Seq<char>>, separator: Seq<char>, count: int) -> Seq<char>
    decreases count,
{
    if count <= 0 || count > items.len() {
        seq![]
    } else if count == 1 {
        items[0]
    } else {
        joined(items, separator, count - 1) + separator + items[count - 1]
    }
}

/// The views of a list of texts.
pub open spec fn text_views(list: Seq<String>) -> Seq<Seq<char>> {
    Seq::new(list.len(), |i: int| list[i]@)
}

/// `items` with `separator` between each two.
pub fn join(items: &Vec<String>, separator: &str) -> (out: String)
    ensures
        out@ == joined(text_views(items@), separator@, items@.len() as int),
{
    let mut out = String::new();
    let mut i: usize = 0;
    while i < items.len()
        invariant
            i <= items.len(),
            out@ == joined(text_views(items@), separator@, i as int),
        decreases items.len() - i,
    {
        if i > 0 {
            out.append(separator);
        }
        out.append(items[i].as_str());
        assert(text_views(items@)[i as int] == items@[i as int]@);
        if i == 0 {
            assert(Seq::<char>::empty() + items@[0]@ == items@[0]@);
        }
        i += 1;
    }
    out
}

/// The character of a decimal digit.
pub open spec fn digit_char(d: nat) -> char {
    ((48 + d) as u8) as char
}

/// `n` written in decimal, without sign or leading zeros.
pub open spec fn decimal_digits(n: nat) -> Seq<char>
    decreases n,
{
    if n < 10 {
        seq![digit_char(n)]
    } else {
        decimal_digits(n / 10).push(digit_char(n % 10))
    }
}

fn push_decimal(out: &mut Vec<char>, n: u128)
    ensures
        final(out)@ == old(out)@ + decimal_digits(n as nat),
    decreases n,
{
    if n >= 10 {
        push_decimal(out, n / 10);
    }
    let d: u8 = (n % 10) as u8;
    out.push((48u8 + d) as char);
    assert(final(out)@ == old(out)@ + decimal_digits(n as nat)) by {
        if n >= 10 {
            assert(old(out)@ + decimal_digits((n / 10) as nat).push(digit_char((n % 10) as nat))
                == (old(out)@ + decimal_digits((n / 10) as nat)).push(
                digit_char((n % 10) as nat),
            ));
        } else {
            assert(old(out)@ + seq![digit_char(n as nat)] == old(out)@.push(digit_char(n as nat)));
        }
    }
}

/// `n` written in decimal.
pub fn decimal(n: u64) -> (out: String)
    ensures
        out@ == decimal_digits(n as nat),
{
    decimal_wide(n as u128)
}

/// `n` written in decimal.
pub fn decimal_wide(n: u128) -> (out: String)
    ensures
        out@ == decimal_digits(n as nat),
{
    let mut digits: Vec<char> = Vec::new();
    push_decimal(&mut digits, n);
    assert(Seq::<char>::empty() + decimal_digits(n as nat) == decimal_digits(n as nat));
    string_of(digits.as_slice())
}

/// The number that the decimal digits `digits` stand for.
pub open spec fn decimal_value(digits: Seq<char>) -> nat
    decreases digits.len(),
{
    if digits.len() == 0 {
        0
    } else {
        decimal_value(digits.drop_last()) * 10 + (digits.last() as nat - 48) as nat
    }
}

/// Whether every character is a decimal digit.
pub open spec fn all_digits(digits: Seq<char>) -> bool {
    forall|i: int| 0 <= i < digits.len() ==> is_ascii_digit(#[trigger] digits[i])
}

/// What follows the optional plus sign in front of a numeral.
pub open spec fn unsigned_digits(s: Seq<char>) -> Seq<char> {
    if s.len() > 0 && s[0] == '+' {
        s.subrange(1, s.len() as int)
    } else {
        s
    }
}

/// The 32-bit number that `s` denotes: an optional plus sign followed by
/// one or more decimal digits and nothing else, not above `u32::MAX`.
pub open spec fn parsed_u32(s: Seq<char>) -> Option<u32> {
    let digits = unsigned_digits(s);
    if digits.len() > 0 && all_digits(digits) && decimal_value(digits) <= u32::MAX {
        Some(decimal_value(digits) as u32)
    } else {
        None
    }
}

/// The value of a numeral is at least the value of each of its prefixes.
pub proof fn lemma_decimal_value_grows(digits: Seq<char>, shorter: int)
    requires
        0 <= shorter <= digits.len(),
        all_digits(digits),
    ensures
        decimal_value(digits.take(shorter)) <= decimal_value(digits),
    decreases digits.len() - shorter,
{
    if shorter < digits.len() {
        lemma_decimal_value_grows(digits, shorter + 1);
        assert(digits.take(shorter + 1).drop_last() == digits.take(shorter));
        assert(is_ascii_digit(digits[shorter]));
    } else {
        assert(digits.take(shorter) == digits);
    }
}

/// Reads `s` as a 32-bit number.
pub fn parse_u32(s: &str) -> (value: Option<u32>)
    ensures
        value == parsed_u32(s@),
{
    let chars = chars_of(s);
    let start: usize = if chars.len() > 0 && chars[0] == '+' {
        1
    } else {
        0
    };
    let ghost digits = unsigned_digits(s@);
    assert(digits == chars@.subrange(start as int, chars.len() as int));
    if start == chars.len() {
        return None;
    }
    let mut value: u64 = 0;
    let mut i: usize = start;
    while i < chars.len()
        invariant
            start <= i <= chars.len(),
            start < chars.len(),
            digits == unsigned_digits(s@),
            digits == chars@.subrange(start as int, chars.len() as int),
            value == decimal_value(digits.take(i - start)),
            value <= u32::MAX,
            all_digits(digits.take(i - start)),
        decreases chars.len() - i,
    {
        let c = chars[i];
        assert(digits[i - start] == c);
        assert(digits.take(i - start + 1).drop_last() == digits.take(i - start));
        if !('0' <= c && c <= '9') {
            assert(!is_ascii_digit(digits[i - start]));
            return None;
        }
        let d: u64 = (c as u32 - 48) as u64;
        value = value * 10 + d;
        assert(all_digits(digits.take(i - start + 1))) by {
            assert forall|k: int| 0 <= k < i - start + 1 implies is_ascii_digit(
                #[trigger] digits.take(i - start + 1)[k],
            ) by {
                if k < i - start {
                    assert(digits.take(i - start)[k] == digits[k]);
                }
            }
        }
        if value > 0xFFFF_FFFF {
            proof {
                if all_digits(digits) {
                    lemma_decimal_value_grows(digits, i - start + 1);
                }
            }
            return None;
        }
        i += 1;
    }
    assert(digits.take(chars.len() - start) == digits);
    Some(value as u32)
}

/// `n` written in decimal, with a minus sign in front where it is negative.
pub open spec fn signed_digits(n: int) -> Seq<char> {
    if n < 0 {
        "-"@ + decimal_digits((-n) as nat)
    } else {
        decimal_digits(n as nat)
    }
}

/// `n` written in decimal.
pub fn decimal_signed(n: i64) -> (out: String)
    ensures
        out@ == signed_digits(n as int),
{
    if n < 0 {
        let magnitude: u128 = (-(n as i128)) as u128;
        let mut out = "-".to_owned();
        let digits = decimal_wide(magnitude);
        out.append(digits.as_str());
        out
    } else {
        decimal_wide(n as u128)
    }
}

/// `n` written in octal, without sign or leading zeros.
pub open spec fn octal_digits(n: nat) -> Seq<char>
    decreases n,
{
    if n < 8 {
        seq![digit_char(n)]
    } else {
        octal_digits(n / 8).push(digit_char(n % 8))
    }
}

fn push_octal(out: &mut Vec<char>, n: u64)
    ensures
        final(out)@ == old(out)@ + octal_digits(n as nat),
    decreases n,
{
    if n >= 8 {
        push_octal(out, n / 8);
    }
    let d: u8 = (n % 8) as u8;
    out.push((48u8 + d) as char);
    assert(final(out)@ == old(out)@ + octal_digits(n as nat)) by {
        if n >= 8 {
            assert(old(out)@ + octal_digits((n / 8) as nat).push(digit_char((n % 8) as nat)) == (
            old(out)@ + octal_digits((n / 8) as nat)).push(digit_char((n % 8) as nat)));
        } else {
            assert(old(out)@ + seq![digit_char(n as nat)] == old(out)@.push(digit_char(n as nat)));
        }
    }
}

/// `n` written in octal.
pub fn octal(n: u64) -> (out: String)
    ensures
        out@ == octal_digits(n as nat),
{
    let mut digits: Vec<char> = Vec::new();
    push_octal(&mut digits, n);
    assert(Seq::<char>::empty() + octal_digits(n as nat) == octal_digits(n as nat));
    string_of(digits.as_slice())
}

/// A decimal numeral is never empty and holds digits only.
pub proof fn lemma_decimal_digits_are_digits(n: nat)
    ensures
        decimal_digits(n).len() >= 1,
        forall|i: int| 0 <= i < decimal_digits(n).len() ==> is_ascii_digit(#[trigger] decimal_digits(n)[i]),
    decreases n,
{
    if n >= 10 {
        lemma_decimal_digits_are_digits(n / 10);
    }
}

} // verus!
