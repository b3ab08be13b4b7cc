//! Text inside a JSON string: how it is spelled, and how such a string is
//! read back. A quote or a backslash is preceded by a backslash, a control
//! character is written as `\u` and four hexadecimal digits, and every other
//! character stands for itself.

use vstd::prelude::*;
use crate::text::push_char;

verus! {

/// The hexadecimal digit of a number below sixteen, in lower case.
pub open spec fn hex_digit(n: int) -> char {
    if n == 0 {
        '0'
    } else if n == 1 {
        '1'
    } else if n == 2 {
        '2'
    } else if n == 3 {
        '3'
    } else if n == 4 {
        '4'
    } else if n == 5 {
        '5'
    } else if n == 6 {
        '6'
    } else if n == 7 {
        '7'
    } else if n == 8 {
        '8'
    } else if n == 9 {
        '9'
    } else if n == 10 {
        'a'
    } else if n == 11 {
        'b'
    } else if n == 12 {
        'c'
    } else if n == 13 {
        'd'
    } else if n == 14 {
        'e'
    } else {
        'f'
    }
}

/// The number a hexadecimal digit stands for, in either case.
pub open spec fn hex_value(c: char) -> Option<int> {
    if '0' <= c <= '9' {
        Some(c as int - '0' as int)
    } else if 'a' <= c <= 'f' {
        Some(c as int - 'a' as int + 10)
    } else if 'A' <= c <= 'F' {
        Some(c as int - 'A' as int + 10)
    } else {
        None
    }
}

/// Whether a character is a control character, which no JSON string holds
/// as it is.
pub open spec fn is_control(c: char) -> bool {
    (c as u32) < 0x20
}

/// How one character is spelled inside a JSON string.
pub open spec fn escaped_char(c: char) -> Seq<char> {
    if c == '"' {
        seq!['\\', '"']
    } else if c == '\\' {
        seq!['\\', '\\']
    } else if is_control(c) {
        seq!['\\', 'u', '0', '0', hex_digit((c as u32) as int / 16), hex_digit((c as u32) as int % 16)]
    } else {
        seq![c]
    }
}

/// How a text is spelled inside a JSON string: character by character.
pub open spec fn json_escaped(text: Seq<char>) -> Seq<char>
    decreases text.len(),
{
    if text.len() == 0 {
        seq![]
    } else {
        json_escaped(text.drop_last()) + escaped_char(text.last())
    }
}

/// The character a short escape stands for, by the letter behind the
/// backslash.
pub open spec fn short_escape(letter: char) -> Option<char> {
    if letter == '"' {
        Some('"')
    } else if letter == '\\' {
        Some('\\')
    } else if letter == '/' {
        Some('/')
    } else if letter == 'b' {
        Some('\u{8}')
    } else if letter == 'f' {
        Some('\u{c}')
    } else if letter == 'n' {
        Some('\n')
    } else if letter == 'r' {
        Some('\r')
    } else if letter == 't' {
        Some('\t')
    } else {
        None
    }
}

/// The number that four hexadecimal digits stand for, if they are such.
pub open spec fn hex_quad(a: char, b: char, c: char, d: char) -> Option<int> {
    match (hex_value(a), hex_value(b), hex_value(c), hex_value(d)) {
        (Some(h3), Some(h2), Some(h1), Some(h0)) => Some(4096 * h3 + 256 * h2 + 16 * h1 + h0),
        _ => None,
    }
}

/// What follows the reading of one character: the character is put before
/// what the rest reads as, and the count of what was read grows by `width`.
pub open spec fn read_after(c: char, width: int, rest: Option<(Seq<char>, int)>) -> Option<
    (Seq<char>, int),
> {
    match rest {
        Some((text, end)) => Some((seq![c] + text, end + width)),
        None => None,
    }
}

/// Reads a JSON string from just behind its opening quote: the text it
/// stands for, and how many characters precede the quote that closes it.
/// `None` where no quote closes it, where a control character stands in it,
/// or where a backslash is followed by what is no escape. A `\u` escape is
/// read on its own; one that names half of a surrogate pair is not read.
pub open spec fn read_json_string(s: Seq<char>) -> Option<(Seq<char>, int)>
    decreases s.len(),
{
    if s.len() == 0 {
        None
    } else if s[0] == '"' {
        Some((seq![], 0))
    } else if is_control(s[0]) {
        None
    } else if s[0] != '\\' {
        read_after(s[0], 1, read_json_string(s.skip(1)))
    } else if s.len() < 2 {
        None
    } else if s[1] == 'u' {
        if s.len() < 6 {
            None
        } else {
            match hex_quad(s[2], s[3], s[4], s[5]) {
                Some(code) => if 0xD800 <= code <= 0xDFFF {
                    None
                } else {
                    read_after((code as u32) as char, 6, read_json_string(s.skip(6)))
                },
                None => None,
            }
        }
    } else {
        match short_escape(s[1]) {
            Some(c) => read_after(c, 2, read_json_string(s.skip(2))),
            None => None,
        }
    }
}

fn hex_digit_of(n: u32) -> (digit: char)
    ensures
        digit == hex_digit(n as int),
{
    if n == 0 {
        '0'
    } else if n == 1 {
        '1'
    } else if n == 2 {
        '2'
    } else if n == 3 {
        '3'
    } else if n == 4 {
        '4'
    } else if n == 5 {
        '5'
    } else if n == 6 {
        '6'
    } else if n == 7 {
        '7'
    } else if n == 8 {
        '8'
    } else if n == 9 {
        '9'
    } else if n == 10 {
        'a'
    } else if n == 11 {
        'b'
    } else if n == 12 {
        'c'
    } else if n == 13 {
        'd'
    } else if n == 14 {
        'e'
    } else {
        'f'
    }
}

fn push_escaped(out: &mut String, c: char)
    ensures
        final(out)@ == old(out)@ + escaped_char(c),
{
    let code: u32 = c as u32;
    if c == '"' {
        push_char(out, '\\');
        push_char(out, '"');
        assert(out@ =~= old(out)@ + escaped_char(c));
    } else if c == '\\' {
        push_char(out, '\\');
        push_char(out, '\\');
        assert(out@ =~= old(out)@ + escaped_char(c));
    } else if code < 0x20 {
        push_char(out, '\\');
        push_char(out, 'u');
        push_char(out, '0');
        push_char(out, '0');
        push_char(out, hex_digit_of(code / 16));
        push_char(out, hex_digit_of(code % 16));
        assert(out@ =~= old(out)@ + escaped_char(c));
    } else {
        push_char(out, c);
        assert(out@ =~= old(out)@ + escaped_char(c));
    }
}

/// Spells a text as it stands inside a JSON string.
pub fn escape_json(text: &str) -> (escaped: String)
    ensures
        escaped@ == json_escaped(text@),
{
    let mut escaped = String::new();
    for c in it: text.chars()
        invariant
            it.seq() == text@,
            escaped@ == json_escaped(text@.take(it.index())),
    {
        push_escaped(&mut escaped, c);
        assert(text@.take(it.index() + 1).drop_last() == text@.take(it.index()));
    }
    assert(text@.take(text@.len() as int) == text@);
    escaped
}

/// A text followed by another is spelled as the one followed by the other.
pub proof fn lemma_escaped_concat(first: Seq<char>, second: Seq<char>)
    ensures
        json_escaped(first + second) == json_escaped(first) + json_escaped(second),
    decreases second.len(),
{
    if second.len() == 0 {
        assert(first + second =~= first);
    } else {
        lemma_escaped_concat(first, second.drop_last());
        assert((first + second).drop_last() =~= first + second.drop_last());
        assert((first + second).last() == second.last());
    }
}

/// A hexadecimal digit stands for the number it was made from.
pub proof fn lemma_hex_digit_reads_back(n: int)
    requires
        0 <= n < 16,
    ensures
        hex_value(hex_digit(n)) == Some(n),
{
}

/// An escaped text, closed by a quote, reads back as the text itself, and
/// the reading ends at that quote whatever follows it: the escaped text
/// holds no quote that would close the string before.
pub proof fn lemma_escaped_reads_back(text: Seq<char>, rest: Seq<char>)
    ensures
        read_json_string(json_escaped(text) + seq!['"'] + rest) == Some(
            (text, json_escaped(text).len() as int),
        ),
    decreases text.len(),
{
    let s = json_escaped(text) + seq!['"'] + rest;
    if text.len() == 0 {
        assert(s[0] == '"');
        assert(read_json_string(s).unwrap().0 =~= text);
    } else {
        let c = text[0];
        let tail = text.drop_first();
        let unit = escaped_char(c);
        let after = json_escaped(tail) + seq!['"'] + rest;
        assert(text =~= seq![c] + tail);
        lemma_escaped_concat(seq![c], tail);
        assert(json_escaped(seq![c]) =~= unit) by {
            assert(seq![c].drop_last() =~= Seq::<char>::empty());
            reveal_with_fuel(json_escaped, 2);
        }
        assert(s =~= unit + after);
        lemma_escaped_reads_back(tail, rest);
        assert(s.skip(unit.len() as int) =~= after);
        let code = (c as u32) as int;
        if c == '"' || c == '\\' {
            assert(s[0] == '\\' && s[1] == c);
            assert(short_escape(s[1]) == Some(c));
        } else if is_control(c) {
            lemma_hex_digit_reads_back(code / 16);
            lemma_hex_digit_reads_back(code % 16);
            assert(s[0] == '\\' && s[1] == 'u' && s[2] == '0' && s[3] == '0');
            assert(s[4] == hex_digit(code / 16) && s[5] == hex_digit(code % 16));
            assert(hex_value('0') == Some(0int));
            assert(hex_quad(s[2], s[3], s[4], s[5]) == Some(code));
            assert(((code as u32) as char) == c) by {
                vstd::utf8::char_u32_cast(c, code as u32);
            }
        } else {
            assert(s[0] == c);
        }
        assert(read_json_string(s) == read_after(c, unit.len() as int, read_json_string(after)));
        assert(json_escaped(text).len() == unit.len() + json_escaped(tail).len());
    }
}

/// An escaped text, followed by a plain word and then by anything that
/// begins with a quote, reads back as the text and the word, and the reading
/// ends at that quote.
pub proof fn lemma_escaped_field_reads_back(text: Seq<char>, word: Seq<char>, rest: Seq<char>)
    requires
        is_plain(word),
        rest.len() > 0,
        rest[0] == '"',
    ensures
        read_json_string(json_escaped(text) + word + rest) == Some(
            (text + word, (json_escaped(text).len() + word.len()) as int),
        ),
{
    lemma_plain_text_is_kept(word);
    lemma_escaped_concat(text, word);
    lemma_escaped_reads_back(text + word, rest.skip(1));
    assert(json_escaped(text) + word + rest =~= json_escaped(text + word) + seq!['"'] + rest.skip(
        1,
    ));
}

/// A plain word before a string's text is read as it is, and the reading
/// goes on behind it.
pub proof fn lemma_plain_head_reads_on(word: Seq<char>, s: Seq<char>)
    requires
        is_plain(word),
    ensures
        read_json_string(word + s) == match read_json_string(s) {
            Some((text, end)) => Some((word + text, end + word.len())),
            None => None,
        },
    decreases word.len(),
{
    if word.len() == 0 {
        assert(word + s =~= s);
        if let Some((text, end)) = read_json_string(s) {
            assert(word + text =~= text);
        }
    } else {
        let tail = word.drop_first();
        assert(is_plain(tail)) by {
            assert forall|i: int| 0 <= i < tail.len() implies tail[i] != '"' && tail[i] != '\\'
                && !is_control(#[trigger] tail[i]) by {
                assert(tail[i] == word[i + 1]);
            }
        }
        lemma_plain_head_reads_on(tail, s);
        assert((word + s)[0] == word[0]);
        assert((word + s).skip(1) =~= tail + s);
        if let Some((text, end)) = read_json_string(s) {
            assert(seq![word[0]] + (tail + text) =~= word + text);
        }
    }
}

/// Whether a text holds no quote, no backslash and no control character.
pub open spec fn is_plain(text: Seq<char>) -> bool {
    forall|i: int|
        0 <= i < text.len() ==> text[i] != '"' && text[i] != '\\' && !is_control(
            #[trigger] text[i],
        )
}

/// A text without quote, backslash or control character is spelled as it is.
pub proof fn lemma_plain_text_is_kept(text: Seq<char>)
    requires
        is_plain(text),
    ensures
        json_escaped(text) == text,
    decreases text.len(),
{
    if text.len() > 0 {
        lemma_plain_text_is_kept(text.drop_last());
        assert(json_escaped(text) =~= text.drop_last() + seq![text.last()]);
        assert(text.drop_last() + seq![text.last()] =~= text);
    }
}

} // verus!
