//! Text as sequences of characters: trimming, splitting, joining and decimal
//! numerals, with the few facts about `std` that the rest is proved from.

use vstd::prelude::*;
use vstd::string::*;

verus! {

/// Whether `c` counts as white space: what `char::is_whitespace` answers.
pub uninterp spec fn is_whitespace(c: char) -> bool;

/// The lower-case form of a text: what `str::to_lowercase` returns.
pub uninterp spec fn lowercase(text: Seq<char>) -> Seq<char>;

/// `String::push` appends one character to the end of the text.
pub assume_specification[ String::push ](text: &mut String, c: char)
    ensures
        final(text)@ == old(text)@.push(c),
;

/// `char::is_whitespace` depends on the character alone; its answer is named
/// [`is_whitespace`].
pub assume_specification[ char::is_whitespace ](c: char) -> (white: bool)
    ensures
        white == is_whitespace(c),
;

/// `str::to_lowercase` depends on the text alone; its result is named
/// [`lowercase`].
pub assume_specification[ str::to_lowercase ](text: &str) -> (lowered: String)
    ensures
        lowered@ == lowercase(text@),
;

/// `str`'s `==` holds exactly of two texts with the same characters.
pub assume_specification[ <str as PartialEq>::eq ](a: &str, b: &str) -> (same: bool)
    ensures
        same == (a@ == b@),
;

/// The texts held by a sequence of strings.
pub open spec fn texts(strings: Seq<String>) -> Seq<Seq<char>> {
    strings.map_values(|s: String| s@)
}

/// The text held by an optional string.
pub open spec fn optional_text(string: Option<String>) -> Option<Seq<char>> {
    match string {
        Some(s) => Some(s@),
        None => None,
    }
}

/// `text` without the white space it begins with.
pub open spec fn trim_start(text: Seq<char>) -> Seq<char>
    decreases text.len(),
{
    if text.len() > 0 && is_whitespace(text[0]) {
        trim_start(text.drop_first())
    } else {
        text
    }
}

/// `text` without the white space it ends with.
pub open spec fn trim_end(text: Seq<char>) -> Seq<char>
    decreases text.len(),
{
    if text.len() > 0 && is_whitespace(text.last()) {
        trim_end(text.drop_last())
    } else {
        text
    }
}

/// `text` without the white space around it.
pub open spec fn trimmed(text: Seq<char>) -> Seq<char> {
    trim_end(trim_start(text))
}

/// The pieces of `text` between occurrences of `separator`, in order. A text
/// with no separator is one piece; there is one piece more than separators.
pub open spec fn split_on(text: Seq<char>, separator: char) -> Seq<Seq<char>>
    decreases text.len(),
{
    if text.len() == 0 {
        seq![Seq::<char>::empty()]
    } else {
        let before = split_on(text.drop_last(), separator);
        if text.last() == separator {
            before.push(Seq::<char>::empty())
        } else {
            before.drop_last().push(before.last().push(text.last()))
        }
    }
}

/// The parts written one after another with `separator` between neighbours.
pub open spec fn joined(parts: Seq<Seq<char>>, separator: Seq<char>) -> Seq<char>
    decreases parts.len(),
{
    if parts.len() == 0 {
        Seq::<char>::empty()
    } else if parts.len() == 1 {
        parts[0]
    } else {
        joined(parts.drop_last(), separator) + separator + parts.last()
    }
}

/// The character for a decimal digit.
pub open spec fn digit(d: int) -> char {
    (48 + d) as char
}

/// The decimal numeral of `n`, without leading zeros.
pub open spec fn decimal(n: nat) -> Seq<char>
    decreases n,
{
    if n < 10 {
        seq![digit(n as int)]
    } else {
        decimal(n / 10).push(digit((n % 10) as int))
    }
}

/// The decimal numeral of `n`, with a minus sign before a negative number.
pub open spec fn signed_decimal(n: int) -> Seq<char> {
    if n < 0 {
        seq!['-'] + decimal((-n) as nat)
    } else {
        decimal(n as nat)
    }
}

/// Whether `a` comes before `b`, or equals it, in the order of their
/// characters' code points, a shorter text before its extensions.
pub open spec fn text_le(a: Seq<char>, b: Seq<char>) -> bool
    decreases a.len(),
{
    if a.len() == 0 {
        true
    } else if b.len() == 0 {
        false
    } else if a[0] != b[0] {
        (a[0] as u32) < (b[0] as u32)
    } else {
        text_le(a.drop_first(), b.drop_first())
    }
}

/// Whether each text is followed only by texts that are not before it.
pub open spec fn ascending(list: Seq<Seq<char>>) -> bool {
    forall|i: int, j: int| 0 <= i <= j < list.len() ==> text_le(list[i], list[j])
}

/// The characters of a text.
pub fn chars(text: &str) -> (list: Vec<char>)
    ensures
        list@ == text@,
{
    let mut list: Vec<char> = Vec::new();
    for c in it: text.chars()
        invariant
            it.seq() == text@,
            list@ == text@.take(it.index() as int),
    {
        list.push(c);
    }
    list
}

/// The text made of the characters from `from` up to, not including, `to`.
pub fn text_of(list: &Vec<char>, from: usize, to: usize) -> (text: String)
    requires
        from <= to <= list.len(),
    ensures
        text@ == list@.subrange(from as int, to as int),
{
    let mut text = String::new();
    let mut at: usize = from;
    while at < to
        invariant
            from <= at <= to <= list.len(),
            text@ == list@.subrange(from as int, at as int),
        decreases to - at,
    {
        text.push(list[at]);
        at = at + 1;
    }
    text
}

/// Whether two lists hold the same texts in the same order.
pub fn same_texts(a: &Vec<String>, b: &Vec<String>) -> (same: bool)
    ensures
        same == (texts(a@) == texts(b@)),
{
    if a.len() != b.len() {
        return false;
    }
    let mut at: usize = 0;
    while at < a.len()
        invariant
            at <= a.len() == b.len(),
            forall|i: int| 0 <= i < at ==> a@[i]@ == b@[i]@,
        decreases a.len() - at,
    {
        if !a[at].as_str().eq(b[at].as_str()) {
            assert(texts(a@)[at as int] != texts(b@)[at as int]);
            return false;
        }
        at = at + 1;
    }
    assert(texts(a@) =~= texts(b@));
    true
}

/// Whether `c` occurs in `text`.
pub fn contains_char(text: &str, c: char) -> (found: bool)
    ensures
        found == text@.contains(c),
{
    let mut found = false;
    for x in it: text.chars()
        invariant
            it.seq() == text@,
            found == (exists|i: int| 0 <= i < it.index() && text@[i] == c),
    {
        if x == c {
            found = true;
        }
    }
    found
}

/// Removes the white space around a text.
pub fn trim(text: &str) -> (inner: String)
    ensures
        inner@ == trimmed(text@),
{
    let list = chars(text);
    let n = list.len();
    let mut start: usize = 0;
    assert(list@.skip(0) =~= list@);
    while start < n && list[start].is_whitespace()
        invariant
            start <= n == list.len(),
            trim_start(list@) == trim_start(list@.skip(start as int)),
        decreases n - start,
    {
        assert(list@.skip(start as int).drop_first() =~= list@.skip(start as int + 1));
        start = start + 1;
    }
    let mut end: usize = n;
    while end > start && list[end - 1].is_whitespace()
        invariant
            start <= end <= n == list.len(),
            trimmed(list@) == trim_end(list@.subrange(start as int, end as int)),
        decreases end,
    {
        assert(list@.subrange(start as int, end as int).drop_last() =~= list@.subrange(
            start as int,
            end as int - 1,
        ));
        end = end - 1;
    }
    text_of(&list, start, end)
}

/// Cuts a text at every occurrence of `separator`.
pub fn split(text: &str, separator: char) -> (pieces: Vec<String>)
    ensures
        texts(pieces@) == split_on(text@, separator),
{
    let mut done: Vec<String> = Vec::new();
    let mut piece = String::new();
    for c in it: text.chars()
        invariant
            it.seq() == text@,
            texts(done@).push(piece@) == split_on(text@.take(it.index() as int), separator),
    {
        let ghost seen = text@.take(it.index() as int);
        let ghost more = text@.take(it.index() as int + 1);
        assert(more.drop_last() =~= seen);
        if c == separator {
            done.push(piece);
            piece = String::new();
            assert(texts(done@).push(piece@) =~= split_on(seen, separator).push(
                Seq::<char>::empty(),
            ));
        } else {
            piece.push(c);
            assert(texts(done@).push(piece@) =~= split_on(seen, separator).drop_last().push(
                split_on(seen, separator).last().push(c),
            ));
        }
    }
    assert(text@.take(text@.len() as int) =~= text@);
    done.push(piece);
    done
}

/// Writes the parts one after another with `separator` between neighbours.
pub fn join(parts: &Vec<String>, separator: &str) -> (whole: String)
    ensures
        whole@ == joined(texts(parts@), separator@),
{
    let mut whole = String::new();
    let mut at: usize = 0;
    while at < parts.len()
        invariant
            at <= parts.len(),
            whole@ == joined(texts(parts@).take(at as int), separator@),
        decreases parts.len() - at,
    {
        let ghost before = texts(parts@).take(at as int);
        let ghost after = texts(parts@).take(at as int + 1);
        assert(after.drop_last() =~= before);
        if at > 0 {
            whole.append(separator);
        }
        whole.append(parts[at].as_str());
        assert(whole@ =~= joined(after, separator@));
        at = at + 1;
    }
    assert(texts(parts@).take(parts.len() as int) =~= texts(parts@));
    whole
}

/// Appends the decimal numeral of `n` to `text`.
pub fn push_decimal(text: &mut String, n: u64)
    ensures
        final(text)@ == old(text)@ + decimal(n as nat),
    decreases n,
{
    if n >= 10 {
        push_decimal(text, n / 10);
    }
    let d: u8 = (n % 10) as u8;
    text.push((48u8 + d) as char);
}

/// The decimal numeral of `n`.
pub fn decimal_text(n: i64) -> (text: String)
    ensures
        text@ == signed_decimal(n as int),
{
    let mut text = String::new();
    if n < 0 {
        text.push('-');
        let magnitude: u64 = (-(n as i128)) as u64;
        push_decimal(&mut text, magnitude);
    } else {
        push_decimal(&mut text, n as u64);
    }
    text
}

/// Sorts texts with `slice::sort`, which orders strings by their bytes, that
/// is by the code points of their characters, and drops or adds none.
#[verifier::external_body]
pub(crate) fn sort_texts(list: &mut Vec<String>)
    ensures
        ascending(texts(final(list)@)),
        texts(final(list)@).to_multiset() == texts(old(list)@).to_multiset(),
{
    list.sort();
}

} // verus!
