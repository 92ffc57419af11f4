//! Text building blocks: appending characters and writing numbers in decimal.

use vstd::prelude::*;

verus! {

/// `String::push` appends one character to the end of the string.
pub assume_specification[ String::push ](s: &mut String, c: char)
    ensures
        final(s)@ == old(s)@.push(c),
;

/// `String::pop` removes the last character and hands it out; an empty string
/// stays as it is and nothing is handed out.
pub assume_specification[ String::pop ](s: &mut String) -> (c: Option<char>)
    ensures
        old(s)@.len() == 0 ==> c is None && final(s)@ == old(s)@,
        old(s)@.len() > 0 ==> c == Some(old(s)@.last()) && final(s)@ == old(s)@.drop_last(),
;

/// What `char::is_whitespace` says of a character of which nothing is written
/// down in [`is_white`].
pub uninterp spec fn white_space(c: char) -> bool;

/// Whether a character is white space, as Unicode defines it with the property
/// `White_Space`. The space, the line feed and the no-break space are white
/// space, and no visible ASCII character is; of every other character the
/// answer is that of `char::is_whitespace`.
pub open spec fn is_white(c: char) -> bool {
    if c == ' ' || c == '\n' || c == '\u{a0}' {
        true
    } else if 0x21 <= c as u32 <= 0x7e {
        false
    } else {
        white_space(c)
    }
}

/// `char::is_whitespace` says whether the character has the Unicode property
/// `White_Space`: it does for the space, the line feed and the no-break space,
/// and it does not for the visible ASCII characters, from `!` to `~`.
pub assume_specification[ char::is_whitespace ](c: char) -> (white: bool)
    ensures
        white == (if c == ' ' || c == '\n' || c == '\u{a0}' {
            true
        } else if 0x21 <= c as u32 <= 0x7e {
            false
        } else {
            white_space(c)
        }),
;

/// A text without the white space at its end.
pub open spec fn trimmed(text: Seq<char>) -> Seq<char>
    decreases text.len(),
{
    if text.len() > 0 && is_white(text.last()) {
        trimmed(text.drop_last())
    } else {
        text
    }
}

/// Takes the white space at the end of `text` away.
pub fn trim_end(text: &mut Vec<char>)
    ensures
        final(text)@ == trimmed(old(text)@),
{
    loop
        invariant
            trimmed(text@) == trimmed(old(text)@),
        ensures
            text@ == trimmed(old(text)@),
        decreases text@.len(),
    {
        if text.len() == 0 {
            break ;
        }
        if !text[text.len() - 1].is_whitespace() {
            break ;
        }
        text.pop();
    }
}

/// The character that stands for a single decimal digit; `9` for any
/// greater number.
pub open spec fn digit_char(d: nat) -> char {
    if d == 0 {
        '0'
    } else if d == 1 {
        '1'
    } else if d == 2 {
        '2'
    } else if d == 3 {
        '3'
    } else if d == 4 {
        '4'
    } else if d == 5 {
        '5'
    } else if d == 6 {
        '6'
    } else if d == 7 {
        '7'
    } else if d == 8 {
        '8'
    } else {
        '9'
    }
}

/// The decimal representation of a natural number, without leading zeros.
pub open spec fn decimal(n: nat) -> Seq<char>
    decreases n,
{
    if n < 10 {
        seq![digit_char(n)]
    } else {
        decimal(n / 10).push(digit_char(n % 10))
    }
}

/// Returns the character for a decimal digit.
pub fn digit(d: u8) -> (c: char)
    ensures
        c == digit_char(d as nat),
{
    if d == 0 {
        '0'
    } else if d == 1 {
        '1'
    } else if d == 2 {
        '2'
    } else if d == 3 {
        '3'
    } else if d == 4 {
        '4'
    } else if d == 5 {
        '5'
    } else if d == 6 {
        '6'
    } else if d == 7 {
        '7'
    } else if d == 8 {
        '8'
    } else {
        '9'
    }
}

/// Appends the decimal representation of `n` to `out`.
pub fn push_decimal(out: &mut String, n: u128)
    ensures
        final(out)@ == old(out)@ + decimal(n as nat),
    decreases n,
{
    if n >= 10 {
        push_decimal(out, n / 10);
    }
    let d: u8 = (n % 10) as u8;
    out.push(digit(d));
}

/// The decimal representation of an integer, with `-` before a negative one.
pub open spec fn signed_decimal(n: int) -> Seq<char> {
    if n < 0 {
        seq!['-'] + decimal((-n) as nat)
    } else {
        decimal(n as nat)
    }
}

/// Appends the decimal representation of `n` to `out`.
pub fn push_signed(out: &mut String, n: i64)
    ensures
        final(out)@ == old(out)@ + signed_decimal(n as int),
{
    if n < 0 {
        out.push('-');
        push_decimal(out, (-(n as i128)) as u128);
    } else {
        push_decimal(out, n as u128);
    }
}

/// A number of hundredths as a decimal fraction with two digits behind the
/// point.
pub open spec fn hundredths(v: nat) -> Seq<char> {
    decimal(v / 100) + seq!['.', digit_char((v / 10) % 10), digit_char(v % 10)]
}

/// Appends `v` hundredths as a decimal fraction to `out`.
pub fn push_hundredths(out: &mut String, v: u64)
    ensures
        final(out)@ == old(out)@ + hundredths(v as nat),
{
    push_decimal(out, (v / 100) as u128);
    out.push('.');
    out.push(digit(((v / 10) % 10) as u8));
    out.push(digit((v % 10) as u8));
}

/// `n` spaces.
pub open spec fn spaces(n: nat) -> Seq<char> {
    Seq::new(n, |i: int| ' ')
}

/// A text behind as many spaces as bring it to `width` characters; a text
/// that is as long or longer stays as it is.
pub open spec fn pad_left(text: Seq<char>, width: nat) -> Seq<char> {
    if text.len() >= width {
        text
    } else {
        spaces((width - text.len()) as nat) + text
    }
}

/// Appends `n` spaces to `out`.
pub fn push_spaces(out: &mut String, n: usize)
    ensures
        final(out)@ == old(out)@ + spaces(n as nat),
{
    let mut i: usize = 0;
    assert(spaces(0) =~= Seq::empty());
    while i < n
        invariant
            i <= n,
            out@ == old(out)@ + spaces(i as nat),
        decreases n - i,
    {
        out.push(' ');
        assert(spaces(i as nat).push(' ') =~= spaces((i + 1) as nat));
        i += 1;
    }
}

/// Appends `text` to `out`, behind as many spaces as bring it to `width`
/// characters.
pub fn push_padded(out: &mut String, text: &str, width: usize)
    ensures
        final(out)@ == old(out)@ + pad_left(text@, width as nat),
{
    let n = text.unicode_len();
    if n < width {
        push_spaces(out, width - n);
    }
    out.append(text);
}

/// The number of bytes that a text takes in UTF-8.
pub open spec fn byte_len(text: Seq<char>) -> u64 {
    vstd::utf8::encode_utf8(text).len() as usize as u64
}

/// The number of bytes of `text`.
pub fn text_len(text: &str) -> (n: u64)
    ensures
        n == byte_len(text@),
{
    text.len() as u64
}

/// The characters of `text` from place `from` up to, not including, place
/// `to`, as far as the text has them.
pub open spec fn span(text: Seq<char>, from: int, to: int) -> Seq<char> {
    let end = if to < text.len() {
        to
    } else {
        text.len() as int
    };
    if 0 <= from < end {
        text.subrange(from, end)
    } else {
        Seq::empty()
    }
}

/// Appends the characters of `text` from place `from` up to, not including,
/// place `to`, as far as the text has them.
pub fn push_span(out: &mut String, text: &Vec<char>, from: usize, to: usize)
    ensures
        final(out)@ == old(out)@ + span(text@, from as int, to as int),
{
    let end = if to < text.len() {
        to
    } else {
        text.len()
    };
    let mut i = from;
    if from < end {
        assert(text@.subrange(from as int, from as int) =~= Seq::empty());
        while i < end
            invariant
                from <= i <= end <= text.len(),
                out@ == old(out)@ + text@.subrange(from as int, i as int),
            decreases end - i,
        {
            out.push(text[i]);
            assert(text@.subrange(from as int, i as int).push(text@[i as int]) =~= text@.subrange(
                from as int,
                i + 1,
            ));
            i += 1;
        }
    }
}

/// The characters of a text, one by one.
pub fn chars_of(text: &str) -> (chars: Vec<char>)
    ensures
        chars@ == text@,
{
    let mut chars: Vec<char> = Vec::new();
    for c in it: text.chars()
        invariant
            it.seq() == text@,
            chars@ == text@.take(it.index() as int),
    {
        chars.push(c);
        assert(text@.take(it.index() as int).push(c) =~= text@.take(it.index() as int + 1));
    }
    assert(text@.take(text@.len() as int) =~= text@);
    chars
}

/// The first `n` lines, with a newline between every two of them.
pub open spec fn joined(lines: Seq<Seq<char>>, n: nat) -> Seq<char>
    decreases n,
{
    if n == 0 || n > lines.len() {
        Seq::empty()
    } else if n == 1 {
        lines[0]
    } else {
        joined(lines, (n - 1) as nat) + seq!['\n'] + lines[n - 1]
    }
}

/// What a list of lines holds, each line as its characters.
pub open spec fn lines_view(lines: Seq<Vec<char>>) -> Seq<Seq<char>> {
    lines.map_values(|line: Vec<char>| line@)
}

/// Joins the lines with a newline between every two of them.
pub fn join_lines(lines: &Vec<Vec<char>>) -> (text: String)
    ensures
        text@ == joined(lines_view(lines@), lines@.len()),
{
    let mut text = String::new();
    let mut i: usize = 0;
    while i < lines.len()
        invariant
            i <= lines.len(),
            text@ == joined(lines_view(lines@), i as nat),
        decreases lines.len() - i,
    {
        if i > 0 {
            text.push('\n');
        }
        let ghost before = text@;
        push_span(&mut text, &lines[i], 0, lines[i].len());
        assert(span(lines@[i as int]@, 0, lines@[i as int]@.len() as int) =~= lines@[i as int]@);
        assert(lines_view(lines@)[i as int] == lines@[i as int]@);
        i += 1;
    }
    text
}

} // verus!
