//! Text as sequences of characters: comparison, trimming, joining and numbers.
use vstd::prelude::*;
use vstd::utf8::{char_u32_cast, encode_scalar, encode_utf8};
use vstd::string::*;

verus! {

/// `String::push` appends one character.
pub assume_specification[ String::push ](text: &mut String, c: char)
    ensures
        final(text)@ == old(text)@.push(c),
;

/// Whether a character is white space: the Unicode `White_Space` property.
pub open spec fn is_white(c: char) -> bool {
    ||| '\u{9}' <= c && c <= '\u{d}'
    ||| c == ' ' || c == '\u{85}' || c == '\u{a0}' || c == '\u{1680}'
    ||| '\u{2000}' <= c && c <= '\u{200a}'
    ||| c == '\u{2028}' || c == '\u{2029}' || c == '\u{202f}' || c == '\u{205f}' || c == '\u{3000}'
}

pub fn char_is_white(c: char) -> (res: bool)
    ensures
        res == is_white(c),
{
    ('\u{9}' <= c && c <= '\u{d}') || c == ' ' || c == '\u{85}' || c == '\u{a0}' || c == '\u{1680}'
        || ('\u{2000}' <= c && c <= '\u{200a}') || c == '\u{2028}' || c == '\u{2029}'
        || c == '\u{202f}' || c == '\u{205f}' || c == '\u{3000}'
}

/// Whether `char::is_control` holds of a character (the Unicode category `Cc`).
pub open spec fn is_control(c: char) -> bool {
    c < ' ' || ('\u{7f}' <= c && c <= '\u{9f}')
}

/// The text that `Debug` prints for a string: quoted, with the escapes of `char::escape_debug`.
pub uninterp spec fn quoted(text: Seq<char>) -> Seq<char>;

/// `Debug` of `str`, which depends on the characters alone.
#[verifier::external_body]
pub(crate) fn debug_text(text: &str) -> (res: String)
    ensures
        res@ == quoted(text@),
{
    format!("{text:?}")
}

/// One text after another.
pub fn plus(a: &str, b: &str) -> (res: String)
    ensures
        res@ == a@ + b@,
{
    let mut out = a.to_owned();
    out.append(b);
    out
}

/// Three texts one after another.
pub fn plus3(a: &str, b: &str, c: &str) -> (res: String)
    ensures
        res@ == a@ + b@ + c@,
{
    let mut out = a.to_owned();
    out.append(b);
    out.append(c);
    out
}

/// Whether two texts hold the same characters.
pub fn same(a: &str, b: &str) -> (res: bool)
    ensures
        res == (a@ == b@),
{
    a.to_owned() == b.to_owned()
}

/// Whether an optional text is present and equal to `text`.
pub fn is_text(option: &Option<String>, text: &str) -> (res: bool)
    ensures
        res == (option matches Some(value) && value@ == text@),
{
    match option {
        Some(value) => same(value.as_str(), text),
        None => false,
    }
}

/// The characters of an optional text.
pub open spec fn option_text(option: Option<String>) -> Option<Seq<char>> {
    match option {
        Some(text) => Some(text@),
        None => None,
    }
}

/// Whether two optional texts are both absent, or both present and equal.
pub fn same_option(a: &Option<String>, b: &Option<String>) -> (res: bool)
    ensures
        res == (option_text(*a) == option_text(*b)),
{
    match (a, b) {
        (Some(x), Some(y)) => same(x.as_str(), y.as_str()),
        (None, None) => true,
        _ => false,
    }
}

/// Whether `text` begins with `prefix`.
pub open spec fn has_prefix(text: Seq<char>, prefix: Seq<char>) -> bool {
    prefix.len() <= text.len() && text.take(prefix.len() as int) == prefix
}

pub fn starts_with(text: &str, prefix: &str) -> (res: bool)
    ensures
        res == has_prefix(text@, prefix@),
{
    let n: usize = prefix.unicode_len();
    if n > text.unicode_len() {
        return false;
    }
    same(text.substring_char(0, n), prefix)
}

/// What follows `prefix` in `text`, where `text` begins with it.
pub fn strip_prefix(text: &str, prefix: &str) -> (res: Option<String>)
    ensures
        res is Some <==> has_prefix(text@, prefix@),
        res matches Some(rest) ==> rest@ == text@.skip(prefix@.len() as int) && text@ == prefix@
            + rest@,
{
    if !starts_with(text, prefix) {
        return None;
    }
    let n: usize = prefix.unicode_len();
    let rest = text.substring_char(n, text.unicode_len()).to_owned();
    assert(rest@ =~= text@.skip(n as int));
    assert(text@ =~= prefix@ + rest@) by {
        assert(text@ =~= text@.take(n as int) + text@.skip(n as int));
    }
    Some(rest)
}

/// Whether `part` occurs somewhere in `text`.
pub open spec fn has_part(text: Seq<char>, part: Seq<char>) -> bool {
    exists|i: int|
        0 <= i <= text.len() - part.len() && #[trigger] text.subrange(i, i + part.len()) == part
}

pub fn contains(text: &str, part: &str) -> (res: bool)
    ensures
        res == has_part(text@, part@),
{
    let n: usize = text.unicode_len();
    let m: usize = part.unicode_len();
    if m > n {
        return false;
    }
    let mut i: usize = 0;
    while i <= n - m
        invariant
            n == text@.len(),
            m == part@.len(),
            m <= n,
            i <= n - m + 1,
            forall|j: int| 0 <= j < i ==> #[trigger] text@.subrange(j, j + m) != part@,
        decreases n - m + 1 - i,
    {
        if same(text.substring_char(i, i + m), part) {
            assert(text@.subrange(i as int, i + m) == part@);
            return true;
        }
        if i == n - m {
            assert(forall|j: int| 0 <= j <= n - m ==> #[trigger] text@.subrange(j, j + m) != part@);
            return false;
        }
        i = i + 1;
    }
    false
}

/// `text` without the white space at both ends.
pub open spec fn trimmed(text: Seq<char>) -> Seq<char>
    decreases text.len(),
{
    if text.len() > 0 && is_white(text[0]) {
        trimmed(text.skip(1))
    } else if text.len() > 0 && is_white(text.last()) {
        trimmed(text.drop_last())
    } else {
        text
    }
}

/// What `trim` leaves is a part of the text that neither begins nor ends with white space.
pub proof fn trimmed_is_tight(text: Seq<char>)
    ensures
        trimmed(text).len() > 0 ==> !is_white(trimmed(text)[0]) && !is_white(trimmed(text).last()),
        has_part(text, trimmed(text)),
        trimmed(trimmed(text)) == trimmed(text),
    decreases text.len(),
{
    if text.len() > 0 && is_white(text[0]) {
        trimmed_is_tight(text.skip(1));
        let t = trimmed(text);
        let i = choose|i: int|
            0 <= i <= text.skip(1).len() - t.len() && #[trigger] text.skip(1).subrange(
                i,
                i + t.len(),
            ) == t;
        assert(text.subrange(i + 1, i + 1 + t.len()) =~= t);
    } else if text.len() > 0 && is_white(text.last()) {
        trimmed_is_tight(text.drop_last());
        let t = trimmed(text);
        let i = choose|i: int|
            0 <= i <= text.drop_last().len() - t.len() && #[trigger] text.drop_last().subrange(
                i,
                i + t.len(),
            ) == t;
        assert(text.subrange(i, i + t.len()) =~= t);
    } else {
        assert(text.subrange(0, 0int + text.len()) =~= text);
    }
}

pub fn trim(text: &str) -> (res: String)
    ensures
        res@ == trimmed(text@),
{
    let n: usize = text.unicode_len();
    let mut start: usize = 0;
    let mut end: usize = n;
    assert(text@.subrange(0, n as int) =~= text@);
    while start < end && char_is_white(text.get_char(start))
        invariant
            n == text@.len(),
            start <= end == n,
            trimmed(text@) == trimmed(text@.subrange(start as int, end as int)),
        decreases end - start,
    {
        assert(text@.subrange(start as int, end as int).skip(1) =~= text@.subrange(
            start + 1,
            end as int,
        ));
        start = start + 1;
    }
    while start < end && char_is_white(text.get_char(end - 1))
        invariant
            n == text@.len(),
            start <= end <= n,
            start < end ==> !is_white(text@[start as int]),
            trimmed(text@) == trimmed(text@.subrange(start as int, end as int)),
        decreases end - start,
    {
        assert(text@.subrange(start as int, end as int).drop_last() =~= text@.subrange(
            start as int,
            end - 1,
        ));
        end = end - 1;
    }
    text.substring_char(start, end).to_owned()
}

/// Whether nothing but white space is in `text`.
pub fn is_blank(text: &str) -> (res: bool)
    ensures
        res == (trimmed(text@).len() == 0),
{
    trim(text).as_str().is_empty()
}

/// The parts one after another, with `separator` between each two.
pub open spec fn joined(parts: Seq<Seq<char>>, separator: Seq<char>) -> Seq<char>
    decreases parts.len(),
{
    if parts.len() == 0 {
        Seq::empty()
    } else if parts.len() == 1 {
        parts[0]
    } else {
        joined(parts.drop_last(), separator) + separator + parts.last()
    }
}

/// The characters of each text of a list.
pub open spec fn texts(list: Seq<String>) -> Seq<Seq<char>> {
    list.map_values(|text: String| text@)
}

/// Whether two lists hold equal texts in the same order.
pub fn same_texts(a: &Vec<String>, b: &Vec<String>) -> (res: bool)
    ensures
        res == (texts(a@) == texts(b@)),
{
    if a.len() != b.len() {
        assert(texts(a@).len() != texts(b@).len());
        return false;
    }
    let mut i: usize = 0;
    while i < a.len()
        invariant
            a@.len() == b@.len(),
            i <= a@.len(),
            forall|j: int| 0 <= j < i ==> (#[trigger] a@[j])@ == b@[j]@,
        decreases a@.len() - i,
    {
        if !same(a[i].as_str(), b[i].as_str()) {
            assert(texts(a@)[i as int] != texts(b@)[i as int]);
            return false;
        }
        i = i + 1;
    }
    assert(texts(a@) =~= texts(b@));
    true
}

pub fn join(parts: &Vec<String>, separator: &str) -> (res: String)
    ensures
        res@ == joined(texts(parts@), separator@),
{
    let mut out = String::new();
    let mut i: usize = 0;
    while i < parts.len()
        invariant
            i <= parts@.len(),
            out@ == joined(texts(parts@).take(i as int), separator@),
        decreases parts@.len() - i,
    {
        let ghost before = out@;
        if i > 0 {
            out.append(separator);
        }
        out.append(parts[i].as_str());
        proof {
            let now = texts(parts@).take(i + 1);
            assert(now.drop_last() =~= texts(parts@).take(i as int));
            assert(now.last() == parts@[i as int]@);
            if i == 0 {
                assert(before =~= Seq::<char>::empty());
                assert(out@ =~= now[0]);
            }
        }
        i = i + 1;
    }
    assert(texts(parts@).take(parts@.len() as int) =~= texts(parts@));
    out
}

/// The pieces of `text` between the occurrences of `separator`: one more than there are
/// occurrences.
pub open spec fn pieces(text: Seq<char>, separator: char) -> Seq<Seq<char>>
    decreases text.len(),
{
    if text.len() == 0 {
        seq![Seq::empty()]
    } else {
        let before = pieces(text.drop_last(), separator);
        if text.last() == separator {
            before.push(Seq::empty())
        } else {
            before.update(before.len() - 1, before.last().push(text.last()))
        }
    }
}

/// A text always has at least one piece.
pub proof fn pieces_not_empty(text: Seq<char>, separator: char)
    ensures
        pieces(text, separator).len() > 0,
    decreases text.len(),
{
    if text.len() > 0 {
        pieces_not_empty(text.drop_last(), separator);
    }
}

/// Joining the pieces with the separator gives the text back.
pub proof fn pieces_join_back(text: Seq<char>, separator: char)
    ensures
        joined(pieces(text, separator), seq![separator]) == text,
    decreases text.len(),
{
    pieces_not_empty(text, separator);
    if text.len() > 0 {
        let before = pieces(text.drop_last(), separator);
        let now = pieces(text, separator);
        pieces_not_empty(text.drop_last(), separator);
        pieces_join_back(text.drop_last(), separator);
        if text.last() == separator {
            assert(now.drop_last() =~= before);
            assert(joined(now, seq![separator]) =~= text);
        } else {
            assert(now.drop_last() =~= before.drop_last());
            assert(joined(now, seq![separator]) =~= joined(before, seq![separator]).push(
                text.last(),
            ));
            assert(joined(now, seq![separator]) =~= text);
        }
    } else {
        assert(joined(pieces(text, separator), seq![separator]) =~= text);
    }
}

/// A text followed by the separator and by a text without it has one piece more.
pub proof fn pieces_of_concat(head: Seq<char>, tail: Seq<char>, separator: char)
    requires
        forall|i: int| 0 <= i < tail.len() ==> tail[i] != separator,
    ensures
        pieces(head.push(separator) + tail, separator) == pieces(head, separator).push(tail),
    decreases tail.len(),
{
    let all = head.push(separator) + tail;
    if tail.len() == 0 {
        assert(all.drop_last() =~= head);
        assert(tail =~= Seq::<char>::empty());
        assert(pieces(all, separator) =~= pieces(head, separator).push(tail));
    } else {
        let shorter = tail.drop_last();
        assert forall|i: int| 0 <= i < shorter.len() implies shorter[i] != separator by {
            assert(shorter[i] == tail[i]);
        }
        assert(all.drop_last() =~= head.push(separator) + shorter);
        pieces_of_concat(head, shorter, separator);
        assert(all.last() == tail.last());
        assert(shorter.push(tail.last()) =~= tail);
        assert(pieces(all, separator) =~= pieces(head, separator).push(tail));
    }
}

/// Two numbers with the same decimal text are the same.
pub proof fn decimal_is_injective(a: nat, b: nat)
    ensures
        decimal(a) == decimal(b) ==> a == b,
    decreases a,
{
    if decimal(a) == decimal(b) {
        if a >= 10 && b >= 10 {
            assert(decimal(a).drop_last() =~= decimal(a / 10));
            assert(decimal(b).drop_last() =~= decimal(b / 10));
            assert(decimal(a).last() == decimal(b).last());
            decimal_is_injective(a / 10, b / 10);
        } else if a < 10 && b < 10 {
            assert(decimal(a)[0] == decimal(b)[0]);
        } else if a < 10 {
            decimal_is_digits(b / 10);
            assert(decimal(b).len() > 1);
        } else {
            decimal_is_digits(a / 10);
            assert(decimal(a).len() > 1);
        }
    }
}

/// The characters of a decimal number are digits.
pub proof fn decimal_is_digits(n: nat)
    ensures
        decimal(n).len() > 0,
        forall|i: int|
            0 <= i < decimal(n).len() ==> '0' <= #[trigger] decimal(n)[i] && decimal(n)[i] <= '9',
    decreases n,
{
    if n >= 10 {
        decimal_is_digits(n / 10);
    }
}

pub fn split(text: &str, separator: char) -> (res: Vec<String>)
    ensures
        texts(res@) == pieces(text@, separator),
        res@.len() > 0,
{
    let mut done: Vec<String> = Vec::new();
    let mut last = String::new();
    assert(texts(done@).push(last@) =~= pieces(text@.take(0), separator));
    for c in iter: text.chars()
        invariant
            iter.seq() == text@,
            texts(done@).push(last@) == pieces(text@.take(iter.index() as int), separator),
    {
        let ghost now = text@.take(iter.index() + 1);
        let ghost before = texts(done@).push(last@);
        assert(now.drop_last() =~= text@.take(iter.index() as int));
        if c == separator {
            done.push(last);
            last = String::new();
            assert(texts(done@) =~= before);
            assert(texts(done@).push(last@) =~= pieces(now, separator));
        } else {
            last.push(c);
            assert(texts(done@).push(last@) =~= pieces(now, separator));
        }
    }
    assert(text@.take(text@.len() as int) =~= text@);
    let ghost before = texts(done@).push(last@);
    done.push(last);
    assert(texts(done@) =~= before);
    done
}

/// The first `count` characters of `text`, or all of it where it is shorter.
pub open spec fn prefix_chars(text: Seq<char>, count: nat) -> Seq<char> {
    if text.len() <= count {
        text
    } else {
        text.take(count as int)
    }
}

pub fn take_chars(text: &str, count: usize) -> (res: String)
    ensures
        res@ == prefix_chars(text@, count as nat),
{
    let n: usize = text.unicode_len();
    if n <= count {
        text.to_owned()
    } else {
        let res = text.substring_char(0, count).to_owned();
        assert(res@ =~= text@.take(count as int));
        res
    }
}

/// The digit of `n < 10` as a character.
pub open spec fn digit(n: nat) -> char {
    (48 + n) as char
}

/// `n` in decimal, without leading zeros.
pub open spec fn decimal(n: nat) -> Seq<char>
    decreases n,
{
    if n < 10 {
        seq![digit(n)]
    } else {
        decimal(n / 10).push(digit(n % 10))
    }
}

fn digit_char(n: u64) -> (res: char)
    requires
        n < 10,
    ensures
        res == digit(n as nat),
{
    match n {
        0 => '0',
        1 => '1',
        2 => '2',
        3 => '3',
        4 => '4',
        5 => '5',
        6 => '6',
        7 => '7',
        8 => '8',
        _ => '9',
    }
}

pub fn number(n: u64) -> (res: String)
    ensures
        res@ == decimal(n as nat),
    decreases n,
{
    if n < 10 {
        let mut out = String::new();
        out.push(digit_char(n));
        assert(out@ =~= decimal(n as nat));
        out
    } else {
        let mut out = number(n / 10);
        out.push(digit_char(n % 10));
        out
    }
}

/// The number of bytes of a character in UTF-8.
pub open spec fn utf8_units(c: char) -> nat {
    if c <= '\u{7f}' {
        1
    } else if c <= '\u{7ff}' {
        2
    } else if c <= '\u{ffff}' {
        3
    } else {
        4
    }
}

pub fn char_utf8_units(c: char) -> (res: usize)
    ensures
        res == utf8_units(c),
{
    if c <= '\u{7f}' {
        1
    } else if c <= '\u{7ff}' {
        2
    } else if c <= '\u{ffff}' {
        3
    } else {
        4
    }
}

/// The number of 16-bit units of a character in UTF-16.
pub open spec fn utf16_units(c: char) -> nat {
    if c <= '\u{ffff}' {
        1
    } else {
        2
    }
}

pub fn char_utf16_units(c: char) -> (res: usize)
    ensures
        res == utf16_units(c),
{
    if c <= '\u{ffff}' {
        1
    } else {
        2
    }
}

/// The number of bytes of a text in UTF-8.
pub open spec fn utf8_length(text: Seq<char>) -> nat
    decreases text.len(),
{
    if text.len() == 0 {
        0
    } else {
        utf8_length(text.drop_last()) + utf8_units(text.last())
    }
}

/// The number of 16-bit units of a text in UTF-16.
pub open spec fn utf16_length(text: Seq<char>) -> nat
    decreases text.len(),
{
    if text.len() == 0 {
        0
    } else {
        utf16_length(text.drop_last()) + utf16_units(text.last())
    }
}

/// A shorter prefix never has more UTF-16 units.
pub proof fn utf16_length_grows(text: Seq<char>, i: int, j: int)
    requires
        0 <= i <= j <= text.len(),
    ensures
        utf16_length(text.take(i)) + (j - i) <= utf16_length(text.take(j)),
    decreases j - i,
{
    if i < j {
        utf16_length_grows(text, i, j - 1);
        assert(text.take(j).drop_last() =~= text.take(j - 1));
    }
}

/// A shorter prefix never has more UTF-8 bytes.
pub proof fn utf8_length_grows(text: Seq<char>, i: int, j: int)
    requires
        0 <= i <= j <= text.len(),
    ensures
        utf8_length(text.take(i)) + (j - i) <= utf8_length(text.take(j)),
    decreases j - i,
{
    if i < j {
        utf8_length_grows(text, i, j - 1);
        assert(text.take(j).drop_last() =~= text.take(j - 1));
    }
}

/// The longest prefix of `text` that has at most `limit` UTF-16 units.
pub open spec fn utf16_prefix(text: Seq<char>, limit: nat) -> Seq<char>
    decreases text.len(),
{
    if utf16_length(text) <= limit {
        text
    } else if text.len() == 0 {
        text
    } else {
        utf16_prefix(text.drop_last(), limit)
    }
}

/// `utf16_prefix` is the prefix of the given length, where that length is the last that fits.
pub proof fn utf16_prefix_is(text: Seq<char>, limit: nat, n: int)
    requires
        0 <= n <= text.len(),
        utf16_length(text.take(n)) <= limit,
        n < text.len() ==> utf16_length(text.take(n + 1)) > limit,
    ensures
        utf16_prefix(text, limit) == text.take(n),
    decreases text.len(),
{
    if n == text.len() {
        assert(text.take(n) =~= text);
    } else {
        utf16_length_grows(text, n + 1, text.len() as int);
        assert(text.take(text.len() as int) =~= text);
        let shorter = text.drop_last();
        assert(shorter.take(n) =~= text.take(n));
        if n < shorter.len() {
            assert(shorter.take(n + 1) =~= text.take(n + 1));
        }
        utf16_prefix_is(shorter, limit, n);
    }
}

/// The longest prefix of `text` within `limit` UTF-16 units.
pub fn cut_utf16(text: &str, limit: usize) -> (res: String)
    requires
        limit < usize::MAX - 2,
    ensures
        res@ == utf16_prefix(text@, limit as nat),
{
    let mut out = String::new();
    let mut units: usize = 0;
    let mut full: bool = false;
    proof {
        assert(text@.take(0) =~= Seq::<char>::empty());
    }
    for c in iter: text.chars()
        invariant
            iter.seq() == text@,
            limit < usize::MAX - 2,
            out@.len() <= iter.index(),
            out@ == text@.take(out@.len() as int),
            units == utf16_length(out@),
            units <= limit,
            !full ==> out@.len() == iter.index(),
            full ==> out@.len() < iter.index() && utf16_length(text@.take(out@.len() as int + 1)) > limit,
    {
        if !full {
            let next: usize = units + char_utf16_units(c);
            let ghost more = text@.take(iter.index() + 1);
            assert(more.drop_last() =~= out@);
            assert(utf16_length(more) == next);
            if next > limit {
                full = true;
            } else {
                out.push(c);
                units = next;
                assert(out@ =~= more);
            }
        }
    }
    proof {
        utf16_prefix_is(text@, limit as nat, out@.len() as int);
    }
    out
}

/// Whether `text` has more than `limit` UTF-16 units.
pub fn longer_than_utf16(text: &str, limit: usize) -> (res: bool)
    requires
        limit < usize::MAX - 2,
    ensures
        res == (utf16_length(text@) > limit),
{
    let mut units: usize = 0;
    let mut over: bool = false;
    proof {
        assert(text@.take(0) =~= Seq::<char>::empty());
    }
    for c in iter: text.chars()
        invariant
            iter.seq() == text@,
            limit < usize::MAX - 2,
            !over ==> units == utf16_length(text@.take(iter.index() as int)) && units <= limit,
            over ==> utf16_length(text@.take(iter.index() as int)) > limit,
    {
        proof {
            utf16_length_grows(text@, iter.index() as int, iter.index() + 1);
            assert(text@.take(iter.index() + 1).drop_last() =~= text@.take(iter.index() as int));
        }
        if !over {
            units = units + char_utf16_units(c);
            if units > limit {
                over = true;
            }
        }
    }
    assert(text@.take(text@.len() as int) =~= text@);
    over
}

/// The count of bytes from the front.
proof fn utf8_length_front(text: Seq<char>)
    requires
        text.len() > 0,
    ensures
        utf8_length(text) == utf8_units(text[0]) + utf8_length(text.drop_first()),
    decreases text.len(),
{
    if text.len() == 1 {
        assert(text.drop_last() =~= Seq::<char>::empty());
        assert(text.drop_first() =~= Seq::<char>::empty());
    } else {
        utf8_length_front(text.drop_last());
        assert(text.drop_last().drop_first() =~= text.drop_first().drop_last());
    }
}

/// The length of a text in UTF-8 is the number of the bytes that it is encoded in.
pub proof fn utf8_length_counts_bytes(text: Seq<char>)
    ensures
        encode_utf8(text).len() == utf8_length(text),
    decreases text.len(),
{
    if text.len() > 0 {
        let c = text[0];
        char_u32_cast(c, c as u32);
        assert(encode_scalar(c as u32).len() == utf8_units(c));
        utf8_length_front(text);
        utf8_length_counts_bytes(text.drop_first());
    }
}

/// The bytes of two texts add up.
pub proof fn utf8_length_of_concat(a: Seq<char>, b: Seq<char>)
    ensures
        utf8_length(a + b) == utf8_length(a) + utf8_length(b),
    decreases b.len(),
{
    if b.len() == 0 {
        assert(a + b =~= a);
    } else {
        assert((a + b).drop_last() =~= a + b.drop_last());
        utf8_length_of_concat(a, b.drop_last());
    }
}

/// An ASCII character takes one byte.
pub proof fn utf8_length_of_ascii(text: Seq<char>)
    requires
        forall|i: int| 0 <= i < text.len() ==> #[trigger] text[i] <= '\u{7f}',
    ensures
        utf8_length(text) == text.len(),
    decreases text.len(),
{
    if text.len() > 0 {
        utf8_length_of_ascii(text.drop_last());
    }
}

proof fn utf16_is_shorter(text: Seq<char>)
    ensures
        utf16_length(text) <= utf8_length(text),
    decreases text.len(),
{
    if text.len() > 0 {
        utf16_is_shorter(text.drop_last());
    }
}

/// The length of a text in UTF-16.
pub fn utf16_count(text: &str) -> (res: usize)
    ensures
        res == utf16_length(text@),
{
    let bytes: usize = text.as_bytes().len();
    proof {
        utf16_is_shorter(text@);
        utf8_length_counts_bytes(text@);
    }
    let mut units: usize = 0;
    let n: usize = text.unicode_len();
    let mut i: usize = 0;
    while i < n
        invariant
            n == text@.len(),
            i <= n,
            units == utf16_length(text@.take(i as int)),
            utf16_length(text@) <= usize::MAX,
        decreases n - i,
    {
        let c = text.get_char(i);
        assert(text@.take(i + 1).drop_last() =~= text@.take(i as int));
        proof {
            utf16_length_grows(text@, i + 1, n as int);
            assert(text@.take(n as int) =~= text@);
        }
        units = units + char_utf16_units(c);
        i = i + 1;
    }
    assert(text@.take(n as int) =~= text@);
    units
}

/// Whether `char::is_control` holds of a character (the Unicode category `Cc`).
pub fn char_is_control(c: char) -> (res: bool)
    ensures
        res == is_control(c),
{
    c < ' ' || ('\u{7f}' <= c && c <= '\u{9f}')
}

/// The characters of a text that are not control characters.
pub open spec fn printable(text: Seq<char>) -> Seq<char>
    decreases text.len(),
{
    if text.len() == 0 {
        text
    } else if is_control(text.last()) {
        printable(text.drop_last())
    } else {
        printable(text.drop_last()).push(text.last())
    }
}

pub fn only_printable(text: &str) -> (res: String)
    ensures
        res@ == printable(text@),
{
    let mut out = String::new();
    let n: usize = text.unicode_len();
    let mut i: usize = 0;
    assert(out@ =~= printable(text@.take(0)));
    while i < n
        invariant
            n == text@.len(),
            i <= n,
            out@ == printable(text@.take(i as int)),
        decreases n - i,
    {
        let c = text.get_char(i);
        assert(text@.take(i + 1).drop_last() =~= text@.take(i as int));
        if !char_is_control(c) {
            out.push(c);
        }
        i = i + 1;
    }
    assert(text@.take(n as int) =~= text@);
    out
}

/// Whether a text holds anything but control characters and white space.
pub open spec fn is_visible(text: Seq<char>) -> bool {
    exists|i: int| 0 <= i < text.len() && !is_control(#[trigger] text[i]) && !is_white(text[i])
}

pub fn has_visible(text: &str) -> (res: bool)
    ensures
        res == is_visible(text@),
{
    let n: usize = text.unicode_len();
    let mut i: usize = 0;
    while i < n
        invariant
            n == text@.len(),
            i <= n,
            forall|j: int| 0 <= j < i ==> is_control(#[trigger] text@[j]) || is_white(text@[j]),
        decreases n - i,
    {
        let c = text.get_char(i);
        if !char_is_control(c) && !char_is_white(c) {
            assert(!is_control(text@[i as int]));
            return true;
        }
        i = i + 1;
    }
    false
}

/// A list that is joined tells a change of any one of its texts.
pub proof fn joined_tells_one_change(
    a: Seq<Seq<char>>,
    b: Seq<Seq<char>>,
    separator: Seq<char>,
    i: int,
)
    requires
        a.len() == b.len(),
        0 <= i < a.len(),
        a[i] != b[i],
        forall|j: int| 0 <= j < a.len() && j != i ==> #[trigger] a[j] == b[j],
    ensures
        joined(a, separator) != joined(b, separator),
    decreases a.len(),
{
    if a.len() > 1 {
        let head = joined(a.drop_last(), separator);
        let other = joined(b.drop_last(), separator);
        if i == a.len() - 1 {
            assert(a.drop_last() =~= b.drop_last());
            let n = (head + separator).len() as int;
            if joined(a, separator) == joined(b, separator) {
                assert(a.last() =~= joined(a, separator).skip(n));
                assert(b.last() =~= joined(b, separator).skip(n));
            }
        } else {
            assert forall|j: int| 0 <= j < a.drop_last().len() && j != i implies #[trigger]
                a.drop_last()[j] == b.drop_last()[j] by {
                assert(a[j] == b[j]);
            }
            joined_tells_one_change(a.drop_last(), b.drop_last(), separator, i);
            assert(a.last() == b.last()) by {
                assert(a[a.len() - 1] == b[a.len() - 1]);
            }
            if joined(a, separator) == joined(b, separator) {
                assert(joined(a, separator).len() == head.len() + separator.len() + a.last().len());
                assert(joined(b, separator).len() == other.len() + separator.len() + b.last().len());
                assert(head =~= joined(a, separator).take(head.len() as int));
                assert(other =~= joined(b, separator).take(head.len() as int));
            }
        }
    }
}

/// A prefix by UTF-16 units is the start of its text that fits: the whole text where it fits, and
/// else a start that a character more would make too long.
pub proof fn utf16_prefix_is_longest(text: Seq<char>, limit: nat)
    ensures
        ({
            let prefix = utf16_prefix(text, limit);
            let n = prefix.len() as int;
            &&& n <= text.len()
            &&& prefix == text.take(n)
            &&& utf16_length(prefix) <= limit
            &&& utf16_length(text) <= limit <==> n == text.len()
            &&& n < text.len() ==> utf16_length(text.take(n + 1)) > limit
        }),
    decreases text.len(),
{
    if utf16_length(text) <= limit {
        assert(text.take(text.len() as int) =~= text);
    } else if text.len() > 0 {
        let shorter = text.drop_last();
        utf16_prefix_is_longest(shorter, limit);
        let n = utf16_prefix(text, limit).len() as int;
        assert(shorter.take(n) =~= text.take(n));
        if n < shorter.len() {
            assert(shorter.take(n + 1) =~= text.take(n + 1));
        } else {
            assert(text.take(n + 1) =~= text);
        }
    }
}

/// No piece of a text holds the separator.
pub proof fn pieces_hold_no_separator(text: Seq<char>, separator: char, i: int, j: int)
    requires
        0 <= i < pieces(text, separator).len(),
        0 <= j < pieces(text, separator)[i].len(),
    ensures
        pieces(text, separator)[i][j] != separator,
    decreases text.len(),
{
    if text.len() > 0 {
        let head = text.drop_last();
        let before = pieces(head, separator);
        pieces_not_empty(head, separator);
        if i < before.len() && j < before[i].len() {
            pieces_hold_no_separator(head, separator, i, j);
        }
    }
}

/// The number that decimal digits stand for.
pub open spec fn number_of(digits: Seq<char>) -> nat
    decreases digits.len(),
{
    if digits.len() == 0 {
        0
    } else {
        number_of(digits.drop_last()) * 10 + (digits.last() as nat - '0' as nat) as nat
    }
}

/// A number in decimal is read back as the number.
pub proof fn decimal_is_read_back(n: nat)
    ensures
        number_of(decimal(n)) == n,
        n > 0 ==> decimal(n)[0] != '0',
    decreases n,
{
    if n < 10 {
        reveal_with_fuel(number_of, 2);
        assert(decimal(n).drop_last() =~= Seq::<char>::empty());
    } else {
        decimal_is_read_back(n / 10);
        assert(decimal(n).drop_last() =~= decimal(n / 10));
        assert(decimal(n / 10).len() > 0);
        assert(decimal(n)[0] == decimal(n / 10)[0]);
    }
}

/// The longest beginning of a text within a number of characters: nothing is left out of a text that
/// fits, and a longer one is cut at the limit.
pub proof fn prefix_is_longest(text: Seq<char>, count: nat)
    ensures
        prefix_chars(text, count).is_prefix_of(text),
        prefix_chars(text, count).len() <= count,
        prefix_chars(text, count).len() == count || prefix_chars(text, count) == text,
{
    let prefix = prefix_chars(text, count);
    assert(prefix =~= text.subrange(0, prefix.len() as int));
}

/// How many units a character takes: one byte for ASCII, and two 16-bit units exactly for what lies
/// beyond the first plane, which takes four bytes.
pub proof fn units_go_by_the_code_point(c: char)
    ensures
        utf8_units(c) == 1 <==> (c as int) < 0x80,
        utf8_units(c) <= 2 <==> (c as int) < 0x800,
        utf8_units(c) <= 3 <==> (c as int) < 0x1_0000,
        1 <= utf8_units(c) <= 4,
        utf16_units(c) == 2 <==> utf8_units(c) == 4,
        1 <= utf16_units(c) <= 2,
        is_control(c) <==> (c as int) < 0x20 || 0x7f <= c as int <= 0x9f,
{
}

/// A text shows something exactly where one of its characters does, wherever that stands.
pub proof fn visible_text_has_a_visible_character(head: Seq<char>, c: char, tail: Seq<char>)
    ensures
        !is_visible(Seq::empty()),
        !is_control(c) && !is_white(c) ==> is_visible(head.push(c) + tail),
        is_control(c) || is_white(c) ==> !is_visible(seq![c]),
        is_visible(head) ==> is_visible(head + tail),
{
    let text = head.push(c) + tail;
    assert(text[head.len() as int] == c);
    assert(seq![c][0] == c);
    if is_visible(head) {
        let i = choose|i: int|
            0 <= i < head.len() && !is_control(#[trigger] head[i]) && !is_white(head[i]);
        assert((head + tail)[i] == head[i]);
    }
}

} // verus!
