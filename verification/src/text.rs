//! Texts that go on the wire: numbers in decimal and the `Range` header.

use vstd::prelude::*;
use vstd::string::*;

verus! {

/// The decimal digit `d` as a character.
pub open spec fn spec_digit(d: int) -> char {
    if d == 0 {
        '0'
    } else if d == 1 {
        '1'
    } else if d == 2 {
        '2'
    } else if d == 3 {
        '3'
    } else if d == 4 {
        '4'
    } else if d == 5 {
        '5'
    } else if d == 6 {
        '6'
    } else if d == 7 {
        '7'
    } else if d == 8 {
        '8'
    } else {
        '9'
    }
}

/// The number `n` in decimal, without sign and without leading zeros.
pub open spec fn spec_decimal(n: nat) -> Seq<char>
    decreases n,
{
    if n < 10 {
        seq![spec_digit(n as int)]
    } else {
        spec_decimal(n / 10).push(spec_digit((n % 10) as int))
    }
}

/// The value of the header `Range` that asks for the bytes from `start` to
/// `end_inclusive`.
pub open spec fn spec_range_header(start: u64, end_inclusive: u64) -> Seq<char> {
    "bytes="@ + spec_decimal(start as nat) + "-"@ + spec_decimal(end_inclusive as nat)
}

/// The decimal digit `d` as a text of one character.
fn digit_text(d: u64) -> (text: &'static str)
    requires
        d < 10,
    ensures
        text@ == seq![spec_digit(d as int)],
{
    let text = if d == 0 {
        "0"
    } else if d == 1 {
        "1"
    } else if d == 2 {
        "2"
    } else if d == 3 {
        "3"
    } else if d == 4 {
        "4"
    } else if d == 5 {
        "5"
    } else if d == 6 {
        "6"
    } else if d == 7 {
        "7"
    } else if d == 8 {
        "8"
    } else {
        "9"
    };
    proof {
        reveal_strlit("0");
        reveal_strlit("1");
        reveal_strlit("2");
        reveal_strlit("3");
        reveal_strlit("4");
        reveal_strlit("5");
        reveal_strlit("6");
        reveal_strlit("7");
        reveal_strlit("8");
        reveal_strlit("9");
        assert(text@ =~= seq![spec_digit(d as int)]);
    }
    text
}

/// Appends `n` in decimal to `text`.
pub fn push_decimal(text: &mut String, n: u64)
    ensures
        final(text)@ == old(text)@ + spec_decimal(n as nat),
    decreases n,
{
    if n >= 10 {
        push_decimal(text, n / 10);
    }
    text.append(digit_text(n % 10));
    assert(final(text)@ =~= old(text)@ + spec_decimal(n as nat));
}

/// The number `n` in decimal.
pub fn decimal(n: u64) -> (text: String)
    ensures
        text@ == spec_decimal(n as nat),
{
    let mut text = String::new();
    push_decimal(&mut text, n);
    assert(Seq::<char>::empty() + spec_decimal(n as nat) =~= spec_decimal(n as nat));
    text
}

/// The value of the header `Range` for one chunk: `bytes=`, the first byte,
/// a hyphen, the last byte.
pub fn range_header(start: u64, end_inclusive: u64) -> (header: String)
    ensures
        header@ == spec_range_header(start, end_inclusive),
{
    let mut header = String::from_str("bytes=");
    push_decimal(&mut header, start);
    header.append("-");
    push_decimal(&mut header, end_inclusive);
    header
}

/// What each of the texts holds.
pub open spec fn spec_texts(texts: Seq<String>) -> Seq<Seq<char>> {
    texts.map_values(|text: String| text@)
}

/// Whether `copy` holds the text `text`, or both are absent.
pub open spec fn spec_holds_text(copy: Option<String>, text: Option<Seq<char>>) -> bool {
    match copy {
        Some(c) => text == Some(c@),
        None => text is None,
    }
}

/// Whether two texts are the same.
pub fn same_text(a: &str, b: &str) -> (same: bool)
    ensures
        same == (a@ == b@),
{
    let a = a.to_owned();
    let b = b.to_owned();
    a == b
}

/// The characters of a text, one by one.
pub fn chars_of(text: &str) -> (chars: Vec<char>)
    ensures
        chars@ == text@,
{
    let mut chars: Vec<char> = Vec::new();
    for c in it: text.chars()
        invariant
            chars@ == it.seq().take(it.index() as int),
            it.seq() == text@,
    {
        chars.push(c);
    }
    chars
}

/// The characters of `text` from `from` up to `to`, as a text of their own.
pub fn piece(text: &str, from: usize, to: usize) -> (cut: String)
    requires
        from <= to <= text@.len(),
    ensures
        cut@ == text@.subrange(from as int, to as int),
{
    text.substring_char(from, to).to_owned()
}

/// Whether `text` begins with `prefix`.
pub open spec fn spec_starts_with(text: Seq<char>, prefix: Seq<char>) -> bool {
    prefix.len() <= text.len() && text.take(prefix.len() as int) == prefix
}

/// Whether `text` ends with `suffix`.
pub open spec fn spec_ends_with(text: Seq<char>, suffix: Seq<char>) -> bool {
    suffix.len() <= text.len() && text.skip(text.len() - suffix.len()) == suffix
}

/// Where `c` first stands in `text` at or after `from`; the length of the
/// text where it does not.
pub open spec fn spec_find(text: Seq<char>, c: char, from: int) -> int
    decreases text.len() - from,
{
    if from >= text.len() {
        text.len() as int
    } else if text[from] == c {
        from
    } else {
        spec_find(text, c, from + 1)
    }
}

/// Where `c` last stands in `text` before `before`; -1 where it does not.
pub open spec fn spec_rfind(text: Seq<char>, c: char, before: int) -> int
    decreases before,
{
    if before <= 0 {
        -1
    } else if text[before - 1] == c {
        before - 1
    } else {
        spec_rfind(text, c, before - 1)
    }
}

/// The pieces of `text` between the separators `sep`: one more piece than
/// there are separators, empty pieces among them.
pub open spec fn spec_split(text: Seq<char>, sep: char) -> Seq<Seq<char>>
    decreases text.len(),
{
    let at = spec_find(text, sep, 0);
    if at >= text.len() {
        seq![text]
    } else {
        proof {
            lemma_find(text, sep, 0);
        }
        seq![text.take(at)] + spec_split(text.skip(at + 1), sep)
    }
}

/// `text` without the prefix `prefix`, as often as it begins with it.
pub open spec fn spec_trim_start(text: Seq<char>, prefix: Seq<char>) -> Seq<char>
    decreases text.len(),
{
    if prefix.len() > 0 && spec_starts_with(text, prefix) {
        spec_trim_start(text.skip(prefix.len() as int), prefix)
    } else {
        text
    }
}

/// `text` without the characters `c` at its end.
pub open spec fn spec_trim_end_char(text: Seq<char>, c: char) -> Seq<char>
    decreases text.len(),
{
    if text.len() > 0 && text.last() == c {
        spec_trim_end_char(text.drop_last(), c)
    } else {
        text
    }
}

/// `spec_find` gives the first place of `c`, within the text.
pub proof fn lemma_find(text: Seq<char>, c: char, from: int)
    requires
        0 <= from <= text.len(),
    ensures
        from <= spec_find(text, c, from) <= text.len(),
        spec_find(text, c, from) < text.len() ==> text[spec_find(text, c, from)] == c,
        forall|i: int| from <= i < spec_find(text, c, from) ==> text[i] != c,
    decreases text.len() - from,
{
    if from < text.len() && text[from] != c {
        lemma_find(text, c, from + 1);
    }
}

/// `spec_rfind` gives the last place of `c` before `before`.
pub proof fn lemma_rfind(text: Seq<char>, c: char, before: int)
    requires
        0 <= before <= text.len(),
    ensures
        -1 <= spec_rfind(text, c, before) < before,
        spec_rfind(text, c, before) >= 0 ==> text[spec_rfind(text, c, before)] == c,
        forall|i: int| spec_rfind(text, c, before) < i < before ==> text[i] != c,
    decreases before,
{
    if before > 0 && text[before - 1] != c {
        lemma_rfind(text, c, before - 1);
    }
}

/// Where `c` first stands in `chars` at or after `from`.
pub fn find(chars: &Vec<char>, c: char, from: usize) -> (at: usize)
    requires
        from <= chars@.len(),
    ensures
        at == spec_find(chars@, c, from as int),
        from <= at <= chars@.len(),
{
    let mut i = from;
    while i < chars.len()
        invariant
            from <= i <= chars@.len(),
            spec_find(chars@, c, from as int) == spec_find(chars@, c, i as int),
        decreases chars@.len() - i,
    {
        if chars[i] == c {
            return i;
        }
        i = i + 1;
    }
    i
}

/// Where `c` last stands in `chars`, if it stands there at all.
pub fn rfind(chars: &Vec<char>, c: char) -> (at: Option<usize>)
    ensures
        match at {
            Some(i) => i == spec_rfind(chars@, c, chars@.len() as int),
            None => spec_rfind(chars@, c, chars@.len() as int) == -1,
        },
{
    let mut i = chars.len();
    while i > 0
        invariant
            i <= chars@.len(),
            spec_rfind(chars@, c, chars@.len() as int) == spec_rfind(chars@, c, i as int),
        decreases i,
    {
        if chars[i - 1] == c {
            return Some(i - 1);
        }
        i = i - 1;
    }
    None
}

/// Whether `chars` holds `prefix` from `from` on.
pub fn holds_at(chars: &Vec<char>, from: usize, prefix: &Vec<char>) -> (b: bool)
    requires
        from <= chars@.len(),
    ensures
        b == spec_starts_with(chars@.skip(from as int), prefix@),
{
    if prefix.len() > chars.len() - from {
        return false;
    }
    let mut i: usize = 0;
    while i < prefix.len()
        invariant
            i <= prefix@.len(),
            from <= chars@.len() <= usize::MAX,
            prefix@.len() <= chars@.len() - from,
            forall|j: int| 0 <= j < i ==> chars@[from + j] == prefix@[j],
        decreases prefix@.len() - i,
    {
        if chars[from + i] != prefix[i] {
            proof {
                let rest = chars@.skip(from as int);
                assert(rest.take(prefix@.len() as int)[i as int] == chars@[from + i]);
            }
            return false;
        }
        i = i + 1;
    }
    proof {
        let rest = chars@.skip(from as int);
        assert(rest.take(prefix@.len() as int) =~= prefix@);
    }
    true
}

/// Whether `text` begins with `prefix`.
pub fn starts_with(text: &str, prefix: &str) -> (b: bool)
    ensures
        b == spec_starts_with(text@, prefix@),
{
    let chars = chars_of(text);
    let prefix = chars_of(prefix);
    assert(chars@.skip(0) =~= chars@);
    holds_at(&chars, 0, &prefix)
}

/// The pieces of `text` between the separators `sep`.
pub fn split(text: &str, sep: char) -> (pieces: Vec<String>)
    ensures
        pieces@.len() > 0,
        pieces@.map_values(|p: String| p@) == spec_split(text@, sep),
{
    let chars = chars_of(text);
    let mut pieces: Vec<String> = Vec::new();
    let mut from: usize = 0;
    assert(chars@.skip(0) =~= chars@);
    loop
        invariant_except_break
            from <= chars@.len(),
            chars@ == text@,
            spec_split(text@, sep) == pieces@.map_values(|p: String| p@) + spec_split(
                chars@.skip(from as int),
                sep,
            ),
        ensures
            pieces@.len() > 0,
            pieces@.map_values(|p: String| p@) == spec_split(text@, sep),
        decreases chars@.len() - from,
    {
        let at = find(&chars, sep, from);
        let ghost rest = chars@.skip(from as int);
        let ghost before = pieces@.map_values(|p: String| p@);
        proof {
            lemma_find_in_rest(chars@, sep, from as int);
            assert(rest.take(at - from) =~= chars@.subrange(from as int, at as int));
        }
        pieces.push(piece(text, from, at));
        proof {
            let cut = chars@.subrange(from as int, at as int);
            assert(pieces@.map_values(|p: String| p@) =~= before.push(cut));
        }
        if at >= chars.len() {
            proof {
                assert(rest.take(at - from) =~= rest);
                assert(before.push(rest) =~= before + seq![rest]);
            }
            break;
        }
        proof {
            assert(rest.skip(at - from + 1) =~= chars@.skip(at + 1));
            assert(before.push(rest.take(at - from)) + spec_split(chars@.skip(at + 1), sep)
                =~= before + (seq![rest.take(at - from)] + spec_split(
                chars@.skip(at + 1),
                sep,
            )));
        }
        from = at + 1;
    }
    pieces
}

/// Looking for `c` from `from` on is looking for it in the rest of the text.
pub proof fn lemma_find_in_rest(text: Seq<char>, c: char, from: int)
    requires
        0 <= from <= text.len(),
    ensures
        spec_find(text.skip(from), c, 0) == spec_find(text, c, from) - from,
{
    lemma_find_shifted(text, c, from, from);
}

/// The same, from any place at or after `from`.
pub proof fn lemma_find_shifted(text: Seq<char>, c: char, from: int, at: int)
    requires
        0 <= from <= at <= text.len(),
    ensures
        spec_find(text.skip(from), c, at - from) == spec_find(text, c, at) - from,
    decreases text.len() - at,
{
    if at < text.len() {
        assert(text.skip(from)[at - from] == text[at]);
        if text[at] != c {
            lemma_find_shifted(text, c, from, at + 1);
        }
    }
}

/// Whether `c` is white space, as `char::is_whitespace` says: whether it has
/// the Unicode property `White_Space`.
pub uninterp spec fn is_white_space(c: char) -> bool;

/// Calls `char::is_whitespace`. Believed: the answer depends on the character
/// alone, so that it can be named `is_white_space(c)`.
#[verifier::external_body]
pub(crate) fn white_space(c: char) -> (b: bool)
    ensures
        b == is_white_space(c),
{
    c.is_whitespace()
}

/// `text` without the white space at its beginning.
pub open spec fn spec_trim_white_start(text: Seq<char>) -> Seq<char>
    decreases text.len(),
{
    if text.len() > 0 && is_white_space(text[0]) {
        spec_trim_white_start(text.drop_first())
    } else {
        text
    }
}

/// `text` without the white space at its end.
pub open spec fn spec_trim_white_end(text: Seq<char>) -> Seq<char>
    decreases text.len(),
{
    if text.len() > 0 && is_white_space(text.last()) {
        spec_trim_white_end(text.drop_last())
    } else {
        text
    }
}

/// `text` without the white space at its beginning and at its end.
pub open spec fn spec_trim(text: Seq<char>) -> Seq<char> {
    spec_trim_white_end(spec_trim_white_start(text))
}

/// `text` without the white space at its beginning and at its end.
pub fn trim(text: &str) -> (trimmed: String)
    ensures
        trimmed@ == spec_trim(text@),
{
    let chars = chars_of(text);
    let mut from: usize = 0;
    assert(chars@.skip(0) =~= chars@);
    while from < chars.len() && white_space(chars[from])
        invariant
            from <= chars@.len(),
            spec_trim_white_start(chars@) == spec_trim_white_start(chars@.skip(from as int)),
        decreases chars@.len() - from,
    {
        proof {
            assert(chars@.skip(from as int).drop_first() =~= chars@.skip(from + 1));
        }
        from = from + 1;
    }
    let mut to: usize = chars.len();
    proof {
        let rest = chars@.skip(from as int);
        assert(rest.len() == 0 || rest[0] == chars@[from as int]);
        assert(spec_trim_white_start(chars@) == rest);
        assert(rest =~= chars@.subrange(from as int, to as int));
    }
    while to > from && white_space(chars[to - 1])
        invariant
            from <= to <= chars@.len(),
            spec_trim(chars@) == spec_trim_white_end(chars@.subrange(from as int, to as int)),
        decreases to,
    {
        proof {
            assert(chars@.subrange(from as int, to as int).drop_last() =~= chars@.subrange(
                from as int,
                to - 1,
            ));
        }
        to = to - 1;
    }
    proof {
        let middle = chars@.subrange(from as int, to as int);
        assert(middle.len() == 0 || middle.last() == chars@[to - 1]);
    }
    piece(text, from, to)
}

/// `text` without the prefix `prefix`, as often as it begins with it.
pub fn trim_start(text: &str, prefix: &str) -> (trimmed: String)
    ensures
        trimmed@ == spec_trim_start(text@, prefix@),
{
    let chars = chars_of(text);
    let prefix = chars_of(prefix);
    let total = chars.len();
    let mut from: usize = 0;
    assert(chars@.skip(0) =~= chars@);
    if prefix.len() > 0 {
        while holds_at(&chars, from, &prefix)
            invariant
                from <= chars@.len() <= usize::MAX,
                prefix@.len() > 0,
                spec_trim_start(chars@, prefix@) == spec_trim_start(
                    chars@.skip(from as int),
                    prefix@,
                ),
            decreases chars@.len() - from,
        {
            proof {
                assert(prefix@.len() <= chars@.skip(from as int).len());
                assert(chars@.skip(from as int).skip(prefix@.len() as int) =~= chars@.skip(
                    from + prefix@.len(),
                ));
            }
            from = from + prefix.len();
        }
    }
    proof {
        assert(chars@.skip(from as int) =~= chars@.subrange(from as int, chars@.len() as int));
    }
    piece(text, from, total)
}

/// `text` without the characters `c` at its end.
pub fn trim_end_char(text: &str, c: char) -> (trimmed: String)
    ensures
        trimmed@ == spec_trim_end_char(text@, c),
{
    let chars = chars_of(text);
    let mut to: usize = chars.len();
    assert(chars@.take(to as int) =~= chars@);
    while to > 0 && chars[to - 1] == c
        invariant
            to <= chars@.len(),
            spec_trim_end_char(chars@, c) == spec_trim_end_char(chars@.take(to as int), c),
        decreases to,
    {
        proof {
            assert(chars@.take(to as int).drop_last() =~= chars@.take(to - 1));
        }
        to = to - 1;
    }
    proof {
        let head = chars@.take(to as int);
        assert(head.len() == 0 || head.last() == chars@[to - 1]);
        assert(head =~= chars@.subrange(0, to as int));
    }
    piece(text, 0, to)
}

/// Whether `text` ends with the character `c`.
pub fn ends_with_char(text: &str, c: char) -> (b: bool)
    ensures
        b == (text@.len() > 0 && text@.last() == c),
{
    let chars = chars_of(text);
    chars.len() > 0 && chars[chars.len() - 1] == c
}

/// The text before the last `c` and the text after it, where `text` holds `c`.
pub fn rsplit_once(text: &str, c: char) -> (r: Option<(String, String)>)
    ensures
        match r {
            Some((head, tail)) => {
                let at = spec_rfind(text@, c, text@.len() as int);
                &&& at >= 0
                &&& head@ == text@.take(at)
                &&& tail@ == text@.skip(at + 1)
            },
            None => spec_rfind(text@, c, text@.len() as int) == -1,
        },
{
    let chars = chars_of(text);
    let total = chars.len();
    proof {
        lemma_rfind(chars@, c, total as int);
    }
    match rfind(&chars, c) {
        None => None,
        Some(at) => {
            assert(at < total);
            let head = piece(text, 0, at);
            let tail = piece(text, at + 1, total);
            proof {
                assert(text@.take(at as int) =~= text@.subrange(0, at as int));
                assert(text@.skip(at + 1) =~= text@.subrange(at + 1, text@.len() as int));
            }
            Some((head, tail))
        },
    }
}

} // verus!
