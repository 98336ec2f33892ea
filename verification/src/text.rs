//! Text helpers: the small vocabulary over character sequences that the
//! rest of the crate states its contracts in, and the executable functions
//! that compute it.

use vstd::prelude::*;

verus! {

/// The test for being the character `wanted`.
pub open spec fn is_char(wanted: char) -> spec_fn(char) -> bool {
    |c: char| c == wanted
}

/// The test for not being white space.
pub open spec fn is_text() -> spec_fn(char) -> bool {
    |c: char| !is_whitespace(c)
}

/// The first index at or after `from` whose character satisfies `wanted`, or
/// the length of `s` if there is none.
pub open spec fn first_index(s: Seq<char>, wanted: spec_fn(char) -> bool, from: int) -> int
    decreases s.len() - from,
{
    if from < 0 || from >= s.len() {
        s.len() as int
    } else if wanted(s[from]) {
        from
    } else {
        first_index(s, wanted, from + 1)
    }
}

/// `first_index` is the one index at which the search stops.
pub proof fn lemma_first_index(s: Seq<char>, wanted: spec_fn(char) -> bool, from: int, at: int)
    requires
        0 <= from <= at <= s.len(),
        forall|i: int| from <= i < at ==> !wanted(#[trigger] s[i]),
        at < s.len() ==> wanted(s[at]),
    ensures
        first_index(s, wanted, from) == at,
    decreases at - from,
{
    if from < at {
        lemma_first_index(s, wanted, from + 1, at);
    }
}

/// What holds at the index that `first_index` gives.
pub proof fn lemma_first_index_found(s: Seq<char>, wanted: spec_fn(char) -> bool, from: int)
    requires
        0 <= from <= s.len(),
    ensures
        from <= first_index(s, wanted, from) <= s.len(),
        forall|i: int| from <= i < first_index(s, wanted, from) ==> !wanted(#[trigger] s[i]),
        first_index(s, wanted, from) < s.len() ==> wanted(s[first_index(s, wanted, from)]),
    decreases s.len() - from,
{
    if from < s.len() && !wanted(s[from]) {
        lemma_first_index_found(s, wanted, from + 1);
    }
}

/// The index just past the last character before `upto` that satisfies
/// `wanted`, or `floor` if there is none at or after `floor`.
pub open spec fn end_index(s: Seq<char>, wanted: spec_fn(char) -> bool, floor: int, upto: int)
    -> int
    decreases upto - floor,
{
    if upto <= floor || upto > s.len() || floor < 0 {
        floor
    } else if wanted(s[upto - 1]) {
        upto
    } else {
        end_index(s, wanted, floor, upto - 1)
    }
}

/// `end_index` is the one index at which the search from the back stops.
pub proof fn lemma_end_index(
    s: Seq<char>,
    wanted: spec_fn(char) -> bool,
    floor: int,
    upto: int,
    at: int,
)
    requires
        0 <= floor <= at <= upto <= s.len(),
        forall|i: int| at <= i < upto ==> !wanted(#[trigger] s[i]),
        at > floor ==> wanted(s[at - 1]),
    ensures
        end_index(s, wanted, floor, upto) == at,
    decreases upto - at,
{
    if at < upto {
        lemma_end_index(s, wanted, floor, upto - 1, at);
    }
}

/// Whether `c` is white space as Unicode defines it (the property
/// `White_Space`), which is what `char::is_whitespace` tests.
pub open spec fn is_whitespace(c: char) -> bool {
    let code = c as u32;
    (0x09 <= code <= 0x0D) || code == 0x20 || code == 0x85 || code == 0xA0 || code == 0x1680 || (
    0x2000 <= code <= 0x200A) || code == 0x2028 || code == 0x2029 || code == 0x202F || code
        == 0x205F || code == 0x3000
}

/// Whether `c` is white space.
pub fn char_is_whitespace(c: char) -> (white: bool)
    ensures
        white == is_whitespace(c),
{
    let code: u32 = c as u32;
    (0x09 <= code && code <= 0x0D) || code == 0x20 || code == 0x85 || code == 0xA0 || code
        == 0x1680 || (0x2000 <= code && code <= 0x200A) || code == 0x2028 || code == 0x2029
        || code == 0x202F || code == 0x205F || code == 0x3000
}

/// Where the text of `s` starts once leading white space is left out.
pub open spec fn trim_start(s: Seq<char>) -> int {
    first_index(s, is_text(), 0)
}

/// Where the text of `s` ends once trailing white space is left out.
pub open spec fn trim_end(s: Seq<char>) -> int {
    end_index(s, is_text(), trim_start(s), s.len() as int)
}

/// `s` without the white space at its two ends.
pub open spec fn trimmed(s: Seq<char>) -> Seq<char> {
    s.subrange(trim_start(s), trim_end(s))
}

/// `String::push`: the string afterwards is the string before with `c` at
/// its end.
#[verifier::external_body]
pub(crate) fn push_char(text: &mut String, c: char)
    ensures
        final(text)@ == old(text)@.push(c),
{
    text.push(c);
}

/// What `str::to_uppercase` gives for `text`: its upper-case form by the
/// Unicode tables, which may be longer than the text.
pub uninterp spec fn text_uppercase(text: Seq<char>) -> Seq<char>;

/// `c` in upper case where it is an ASCII small letter; any other character
/// as it is.
pub open spec fn ascii_upper(c: char) -> char {
    if 'a' <= c <= 'z' {
        ((c as u8) - 32) as char
    } else {
        c
    }
}

/// `str::to_uppercase`: the upper-case form of `text`. ASCII text keeps its
/// length: its small letters become capitals and nothing else changes.
#[verifier::external_body]
pub(crate) fn uppercase_of(text: &str) -> (upper: String)
    ensures
        upper@ == text_uppercase(text@),
        (forall|i: int| 0 <= i < text@.len() ==> (#[trigger] text@[i] as u32) < 128) ==> upper@
            == text@.map_values(|c: char| ascii_upper(c)),
{
    text.to_uppercase()
}

/// The upper-case form of one character.
pub open spec fn char_uppercase(c: char) -> Seq<char> {
    text_uppercase(seq![c])
}

/// The upper-case form of one character. An ASCII small letter gives its
/// capital, any other ASCII character itself.
pub fn uppercase_char(c: char) -> (upper: String)
    ensures
        upper@ == char_uppercase(c),
        (c as u32) < 128 ==> upper@ == seq![ascii_upper(c)],
{
    let mut single = String::new();
    push_char(&mut single, c);
    assert(single@ =~= seq![c]);
    let upper = uppercase_of(single.as_str());
    proof {
        if (c as u32) < 128 {
            assert(seq![c].map_values(|c: char| ascii_upper(c)) =~= seq![ascii_upper(c)]);
        }
    }
    upper
}

/// The string that holds the characters `chars[from..upto]`.
pub fn string_of(chars: &Vec<char>, from: usize, upto: usize) -> (text: String)
    requires
        from <= upto <= chars.len(),
    ensures
        text@ == chars@.subrange(from as int, upto as int),
{
    let mut text = String::new();
    let mut i: usize = from;
    while i < upto
        invariant
            from <= i <= upto <= chars.len(),
            text@ == chars@.subrange(from as int, i as int),
        decreases upto - i,
    {
        push_char(&mut text, chars[i]);
        proof {
            assert(chars@.subrange(from as int, i + 1) =~= chars@.subrange(
                from as int,
                i as int,
            ).push(chars@[i as int]));
        }
        i = i + 1;
    }
    text
}

/// The decimal digit for `digit`, which is below ten.
pub open spec fn digit_char(digit: nat) -> char {
    (('0' as u8) + (digit as u8)) as char
}

/// `n` written in decimal, without leading zeros.
pub open spec fn decimal(n: nat) -> Seq<char>
    decreases n,
{
    if n < 10 {
        seq![digit_char(n)]
    } else {
        decimal(n / 10).push(digit_char(n % 10))
    }
}

/// Writes `n` in decimal at the end of `text`.
pub fn push_decimal(text: &mut String, n: u64)
    ensures
        final(text)@ == old(text)@ + decimal(n as nat),
    decreases n,
{
    if n >= 10 {
        push_decimal(text, n / 10);
    }
    let digit: u8 = (n % 10) as u8;
    push_char(text, (48u8 + digit) as char);
    proof {
        if n >= 10 {
            assert(old(text)@ + decimal(n as nat) =~= (old(text)@ + decimal((n / 10) as nat)).push(
                digit_char((n % 10) as nat),
            ));
        } else {
            assert(old(text)@ + decimal(n as nat) =~= old(text)@.push(digit_char(n as nat)));
        }
    }
}

/// The characters of a string, one by one.
pub fn chars_of(s: &str) -> (chars: Vec<char>)
    ensures
        chars@ == s@,
{
    let mut chars: Vec<char> = Vec::new();
    for c in it: s.chars()
        invariant
            it.seq() == s@,
            chars@ == it.seq().take(it.index() as int),
    {
        chars.push(c);
    }
    chars
}

/// The first index at or after `from` that holds `wanted`, or the length.
pub fn find_char(chars: &Vec<char>, wanted: char, from: usize) -> (at: usize)
    requires
        from <= chars.len(),
    ensures
        at == first_index(chars@, is_char(wanted), from as int),
        from <= at <= chars.len(),
        at < chars.len() ==> chars[at as int] == wanted,
{
    let mut at: usize = from;
    while at < chars.len() && chars[at] != wanted
        invariant
            from <= at <= chars.len(),
            forall|i: int| from <= i < at ==> chars@[i] != wanted,
        decreases chars.len() - at,
    {
        at = at + 1;
    }
    proof {
        lemma_first_index(chars@, is_char(wanted), from as int, at as int);
    }
    at
}

/// The bounds of the text between `from` and `upto` once the white space at
/// its two ends is left out.
pub fn trim_range(chars: &Vec<char>, from: usize, upto: usize) -> (bounds: (usize, usize))
    requires
        from <= upto <= chars.len(),
    ensures
        from <= bounds.0 <= bounds.1 <= upto,
        bounds.0 == from + trim_start(chars@.subrange(from as int, upto as int)),
        bounds.1 == from + trim_end(chars@.subrange(from as int, upto as int)),
        chars@.subrange(bounds.0 as int, bounds.1 as int) == trimmed(
            chars@.subrange(from as int, upto as int),
        ),
{
    let ghost piece = chars@.subrange(from as int, upto as int);
    let ghost text = is_text();
    let mut start: usize = from;
    while start < upto && char_is_whitespace(chars[start])
        invariant
            from <= start <= upto <= chars.len(),
            piece == chars@.subrange(from as int, upto as int),
            forall|i: int| 0 <= i < start - from ==> is_whitespace(#[trigger] piece[i]),
        decreases upto - start,
    {
        start = start + 1;
    }
    let mut end: usize = upto;
    while end > start && char_is_whitespace(chars[end - 1])
        invariant
            from <= start <= end <= upto <= chars.len(),
            piece == chars@.subrange(from as int, upto as int),
            forall|i: int| end - from <= i < upto - from ==> is_whitespace(#[trigger] piece[i]),
        decreases end - start,
    {
        end = end - 1;
    }
    proof {
        assert(start < upto ==> piece[start - from] == chars@[start as int]);
        assert(end > start ==> piece[end - from - 1] == chars@[end - 1]);
        lemma_first_index(piece, text, 0, start - from);
        lemma_end_index(piece, text, start - from, upto - from, end - from);
        assert(chars@.subrange(start as int, end as int) =~= piece.subrange(
            start - from,
            end - from,
        ));
    }
    (start, end)
}

/// The texts a list of strings holds.
pub open spec fn texts(strings: Seq<String>) -> Seq<Seq<char>> {
    strings.map_values(|text: String| text@)
}

/// The pieces of `s` from `from` on that `separator` parts, each without the
/// white space at its ends. There is always at least one piece; it may be
/// empty.
pub open spec fn fields_from(s: Seq<char>, separator: char, from: int) -> Seq<Seq<char>>
    decreases s.len() - from,
{
    let end = first_index(s, is_char(separator), from);
    if from < 0 || from > s.len() {
        Seq::empty()
    } else if from <= end < s.len() {
        seq![trimmed(s.subrange(from, end))] + fields_from(s, separator, end + 1)
    } else {
        seq![trimmed(s.subrange(from, s.len() as int))]
    }
}

/// The pieces of `s` that `separator` parts, trimmed.
pub open spec fn fields(s: Seq<char>, separator: char) -> Seq<Seq<char>> {
    fields_from(s, separator, 0)
}

/// Splits `chars` at each `separator` and trims the pieces.
pub fn split_trimmed(chars: &Vec<char>, separator: char) -> (pieces: Vec<String>)
    ensures
        texts(pieces@) == fields(chars@, separator),
        pieces.len() >= 1,
{
    let mut pieces: Vec<String> = Vec::new();
    let mut from: usize = 0;
    let mut done = false;
    while !done
        invariant
            from <= chars.len(),
            done ==> texts(pieces@) == fields(chars@, separator) && pieces.len() >= 1,
            !done ==> texts(pieces@) + fields_from(chars@, separator, from as int) == fields(
                chars@,
                separator,
            ),
        decreases
                (if done {
                    0
                } else {
                    chars.len() - from + 1
                }),
    {
        let end = find_char(chars, separator, from);
        let bounds = trim_range(chars, from, end);
        let piece = string_of(chars, bounds.0, bounds.1);
        let ghost before = pieces@;
        pieces.push(piece);
        proof {
            assert(texts(pieces@) =~= texts(before).push(piece@));
            let rest = if end < chars.len() {
                fields_from(chars@, separator, end + 1)
            } else {
                Seq::<Seq<char>>::empty()
            };
            assert(fields_from(chars@, separator, from as int) =~= seq![piece@] + rest);
            assert(texts(pieces@) + rest =~= texts(before) + fields_from(
                chars@,
                separator,
                from as int,
            ));
        }
        if end < chars.len() {
            from = end + 1;
        } else {
            done = true;
            proof {
                assert(texts(pieces@) + Seq::<Seq<char>>::empty() =~= texts(pieces@));
            }
        }
    }
    pieces
}

/// Whether `first` stands directly before `second` somewhere in `s`.
pub open spec fn has_pair(s: Seq<char>, first: char, second: char) -> bool {
    exists|i: int| 0 <= i < s.len() - 1 && #[trigger] s[i] == first && s[i + 1] == second
}

/// Whether `first` stands directly before `second` somewhere in `chars`.
pub fn contains_pair(chars: &Vec<char>, first: char, second: char) -> (found: bool)
    ensures
        found == has_pair(chars@, first, second),
{
    if chars.len() < 2 {
        return false;
    }
    let mut i: usize = 0;
    while i < chars.len() - 1
        invariant
            i <= chars.len() - 1,
            chars.len() >= 2,
            forall|j: int| 0 <= j < i ==> !(#[trigger] chars@[j] == first && chars@[j + 1] == second),
        decreases chars.len() - i,
    {
        if chars[i] == first && chars[i + 1] == second {
            return true;
        }
        i = i + 1;
    }
    false
}

/// `c` in lower case where it is an ASCII capital; any other character as
/// it is.
pub open spec fn ascii_lower(c: char) -> char {
    if 'A' <= c <= 'Z' {
        ((c as u8) + 32) as char
    } else {
        c
    }
}

/// `s` with its ASCII capitals in lower case.
pub open spec fn ascii_lowercase(s: Seq<char>) -> Seq<char> {
    s.map_values(|c: char| ascii_lower(c))
}

/// Whether two texts are the same but for the case of ASCII letters.
pub open spec fn same_ignoring_ascii_case(a: Seq<char>, b: Seq<char>) -> bool {
    ascii_lowercase(a) == ascii_lowercase(b)
}

/// `c` in lower case where it is an ASCII capital.
pub fn to_ascii_lower(c: char) -> (lower: char)
    ensures
        lower == ascii_lower(c),
{
    if 'A' <= c && c <= 'Z' {
        ((c as u8) + 32) as char
    } else {
        c
    }
}

/// Whether two texts are the same but for the case of ASCII letters.
pub fn eq_ignore_ascii_case(a: &Vec<char>, b: &Vec<char>) -> (same: bool)
    ensures
        same == same_ignoring_ascii_case(a@, b@),
{
    if a.len() != b.len() {
        assert(ascii_lowercase(a@).len() != ascii_lowercase(b@).len());
        return false;
    }
    let mut i: usize = 0;
    while i < a.len()
        invariant
            i <= a.len(),
            a.len() == b.len(),
            forall|j: int| 0 <= j < i ==> ascii_lower(a@[j]) == ascii_lower(b@[j]),
        decreases a.len() - i,
    {
        if to_ascii_lower(a[i]) != to_ascii_lower(b[i]) {
            assert(ascii_lowercase(a@)[i as int] != ascii_lowercase(b@)[i as int]);
            return false;
        }
        i = i + 1;
    }
    assert(ascii_lowercase(a@) =~= ascii_lowercase(b@));
    true
}

/// Whether two lists of characters are the same.
pub fn chars_equal(a: &Vec<char>, b: &Vec<char>) -> (same: bool)
    ensures
        same == (a@ == b@),
{
    if a.len() != b.len() {
        return false;
    }
    let mut i: usize = 0;
    while i < a.len()
        invariant
            i <= a.len(),
            a.len() == b.len(),
            forall|j: int| 0 <= j < i ==> a@[j] == b@[j],
        decreases a.len() - i,
    {
        if a[i] != b[i] {
            return false;
        }
        i = i + 1;
    }
    assert(a@ =~= b@);
    true
}

/// Whether two strings hold the same text.
pub fn str_equal(a: &str, b: &str) -> (same: bool)
    ensures
        same == (a@ == b@),
{
    let left = chars_of(a);
    let right = chars_of(b);
    chars_equal(&left, &right)
}

/// Whether `needle` stands in `s` at `at`.
pub open spec fn occurs_at(s: Seq<char>, needle: Seq<char>, at: int) -> bool {
    0 <= at && at + needle.len() <= s.len() && s.subrange(at, at + needle.len()) == needle
}

/// Whether `needle` stands somewhere in `s`.
pub open spec fn contains_text(s: Seq<char>, needle: Seq<char>) -> bool {
    exists|at: int| occurs_at(s, needle, at)
}

/// Whether `needle` stands in `chars` at `at`.
pub fn matches_at(chars: &Vec<char>, needle: &Vec<char>, at: usize) -> (matches: bool)
    requires
        at + needle.len() <= chars.len(),
    ensures
        matches == occurs_at(chars@, needle@, at as int),
{
    let mut i: usize = 0;
    while i < needle.len()
        invariant
            i <= needle.len(),
            at + needle.len() <= chars.len(),
            forall|j: int| 0 <= j < i ==> chars@[at + j] == needle@[j],
        decreases needle.len() - i,
    {
        if chars[at + i] != needle[i] {
            assert(chars@.subrange(at as int, at + needle.len())[i as int] != needle@[i as int]);
            return false;
        }
        i = i + 1;
    }
    assert(chars@.subrange(at as int, at + needle.len()) =~= needle@);
    true
}

/// Whether `needle` stands somewhere in `chars`.
pub fn contains(chars: &Vec<char>, needle: &Vec<char>) -> (found: bool)
    ensures
        found == contains_text(chars@, needle@),
{
    if needle.len() > chars.len() {
        return false;
    }
    let last: usize = chars.len() - needle.len();
    let mut at: usize = 0;
    while at < last
        invariant
            last == chars.len() - needle.len(),
            at <= last,
            forall|k: int| 0 <= k < at ==> !occurs_at(chars@, needle@, k),
        decreases last - at,
    {
        if matches_at(chars, needle, at) {
            return true;
        }
        at = at + 1;
    }
    matches_at(chars, needle, last)
}

/// Whether `chars` begins with `prefix`.
pub fn starts_with(chars: &Vec<char>, prefix: &Vec<char>) -> (starts: bool)
    ensures
        starts == prefix@.is_prefix_of(chars@),
{
    if prefix.len() > chars.len() {
        return false;
    }
    let mut i: usize = 0;
    while i < prefix.len()
        invariant
            i <= prefix.len() <= chars.len(),
            forall|j: int| 0 <= j < i ==> chars@[j] == prefix@[j],
        decreases prefix.len() - i,
    {
        if chars[i] != prefix[i] {
            assert(chars@.subrange(0, prefix@.len() as int)[i as int] != prefix@[i as int]);
            return false;
        }
        i = i + 1;
    }
    assert(chars@.subrange(0, prefix@.len() as int) =~= prefix@);
    true
}

} // verus!
