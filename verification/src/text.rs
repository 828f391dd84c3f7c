//! Character classes, number parsing and number rendering used by the
//! lexer, the parser, the disassembler and the error messages.

use vstd::prelude::*;
use vstd::string::StringExecFns;
use vstd::string::StrSliceExecFns;
use crate::opcodes::spec_upper_char;

verus! {

/// An ASCII decimal digit.
pub open spec fn spec_is_dec_digit(c: char) -> bool {
    '0' <= c && c <= '9'
}

/// An ASCII hexadecimal digit, either case.
pub open spec fn spec_is_hex_digit(c: char) -> bool {
    spec_is_dec_digit(c) || ('a' <= c && c <= 'f') || ('A' <= c && c <= 'F')
}

/// An ASCII letter or digit: the characters that may open an identifier.
pub open spec fn spec_is_alnum(c: char) -> bool {
    spec_is_dec_digit(c) || ('a' <= c && c <= 'z') || ('A' <= c && c <= 'Z')
}

/// A character that may continue an identifier.
pub open spec fn spec_is_ident_char(c: char) -> bool {
    spec_is_alnum(c) || c == '_'
}

/// A blank character inside a source line.
pub open spec fn spec_is_space(c: char) -> bool {
    c == ' ' || c == '\t' || c == '\r'
}

/// The numeric value of a hexadecimal digit; meaningful only on
/// characters that satisfy `spec_is_hex_digit`.
pub open spec fn spec_hex_digit_val(c: char) -> int {
    if spec_is_dec_digit(c) {
        c as int - '0' as int
    } else if 'a' <= c && c <= 'f' {
        c as int - 'a' as int + 10
    } else {
        c as int - 'A' as int + 10
    }
}

/// The numeric value of a decimal digit.
pub open spec fn spec_dec_digit_val(c: char) -> int {
    c as int - '0' as int
}

/// All characters of the sequence are hexadecimal digits.
pub open spec fn spec_all_hex(s: Seq<char>) -> bool {
    forall|i: int| 0 <= i < s.len() ==> spec_is_hex_digit(#[trigger] s[i])
}

/// All characters of the sequence are decimal digits.
pub open spec fn spec_all_dec(s: Seq<char>) -> bool {
    forall|i: int| 0 <= i < s.len() ==> spec_is_dec_digit(#[trigger] s[i])
}

/// The value of a sequence of hexadecimal digits, most significant
/// first; an empty sequence has value zero.
pub open spec fn spec_hex_value(s: Seq<char>) -> int
    decreases s.len(),
{
    if s.len() == 0 {
        0
    } else {
        spec_hex_value(s.drop_last()) * 16 + spec_hex_digit_val(s.last())
    }
}

/// The value of a sequence of decimal digits, most significant first.
pub open spec fn spec_dec_value(s: Seq<char>) -> int
    decreases s.len(),
{
    if s.len() == 0 {
        0
    } else {
        spec_dec_value(s.drop_last()) * 10 + spec_dec_digit_val(s.last())
    }
}

pub fn is_dec_digit(c: char) -> (r: bool)
    ensures
        r == spec_is_dec_digit(c),
{
    '0' <= c && c <= '9'
}

pub fn is_hex_digit(c: char) -> (r: bool)
    ensures
        r == spec_is_hex_digit(c),
{
    is_dec_digit(c) || ('a' <= c && c <= 'f') || ('A' <= c && c <= 'F')
}

pub fn is_alnum(c: char) -> (r: bool)
    ensures
        r == spec_is_alnum(c),
{
    is_dec_digit(c) || ('a' <= c && c <= 'z') || ('A' <= c && c <= 'Z')
}

pub fn is_ident_char(c: char) -> (r: bool)
    ensures
        r == spec_is_ident_char(c),
{
    is_alnum(c) || c == '_'
}

pub fn is_space(c: char) -> (r: bool)
    ensures
        r == spec_is_space(c),
{
    c == ' ' || c == '\t' || c == '\r'
}

/// The numeric value of one hexadecimal digit.
pub fn hex_digit_val(c: char) -> (r: u8)
    requires
        spec_is_hex_digit(c),
    ensures
        r == spec_hex_digit_val(c),
        r < 16,
{
    match c {
        '0' => 0, '1' => 1, '2' => 2, '3' => 3, '4' => 4,
        '5' => 5, '6' => 6, '7' => 7, '8' => 8, '9' => 9,
        'a' | 'A' => 10, 'b' | 'B' => 11, 'c' | 'C' => 12,
        'd' | 'D' => 13, 'e' | 'E' => 14, 'f' | 'F' => 15,
        _ => 0,
    }
}

/// The numeric value of one decimal digit.
pub fn dec_digit_val(c: char) -> (r: u8)
    requires
        spec_is_dec_digit(c),
    ensures
        r == spec_dec_digit_val(c),
        r < 10,
{
    match c {
        '0' => 0, '1' => 1, '2' => 2, '3' => 3, '4' => 4,
        '5' => 5, '6' => 6, '7' => 7, '8' => 8, '9' => 9,
        _ => 0,
    }
}

/// Sixteen raised to a small power: the number of values a run of
/// hexadecimal digits can take.
pub open spec fn pow16(n: nat) -> int
    decreases n,
{
    if n == 0 {
        1
    } else {
        16 * pow16((n - 1) as nat)
    }
}

/// A run of hexadecimal digits is bounded by sixteen to its length.
pub proof fn lemma_hex_value_bound(s: Seq<char>)
    requires
        spec_all_hex(s),
    ensures
        0 <= spec_hex_value(s) < pow16(s.len()),
    decreases s.len(),
{
    if s.len() > 0 {
        lemma_hex_value_bound(s.drop_last());
        assert(0 <= spec_hex_digit_val(s.last()) < 16);
    }
}

/// The value of a string of at most four hexadecimal digits.
pub fn parse_hex_u16(s: &str) -> (r: u16)
    requires
        spec_all_hex(s@),
        s@.len() <= 4,
    ensures
        r == spec_hex_value(s@),
{
    let len = s.unicode_len();
    let mut val: u16 = 0;
    let mut i: usize = 0;
    while i < len
        invariant
            0 <= i <= len,
            len == s@.len() <= 4,
            spec_all_hex(s@),
            val == spec_hex_value(s@.subrange(0, i as int)),
        decreases len - i,
    {
        let c = s.get_char(i);
        let d = hex_digit_val(c);
        proof {
            let pre = s@.subrange(0, i as int);
            assert(spec_all_hex(pre));
            lemma_hex_value_bound(pre);
            assert(pow16(pre.len()) <= 4096) by {
                assert(pow16(0) == 1);
                assert(pow16(1) == 16);
                assert(pow16(2) == 256);
                assert(pow16(3) == 4096);
            }
            assert(s@.subrange(0, i + 1).drop_last() =~= pre);
            assert(s@.subrange(0, i + 1).last() == s@[i as int]);
        }
        val = val * 16 + (d as u16);
        i = i + 1;
    }
    assert(s@.subrange(0, len as int) =~= s@);
    val
}

/// The lower-case hexadecimal digits that `parse_hex_u16` accepts map to
/// the same value as their upper-case forms.
pub proof fn lemma_hex_value_upper(s: Seq<char>)
    requires
        spec_all_hex(s),
    ensures
        spec_all_hex(s.map_values(|c: char| spec_upper_char(c))),
        spec_hex_value(s.map_values(|c: char| spec_upper_char(c))) == spec_hex_value(s),
    decreases s.len(),
{
    let m = s.map_values(|c: char| spec_upper_char(c));
    if s.len() > 0 {
        lemma_hex_value_upper(s.drop_last());
        assert(m.drop_last() =~= s.drop_last().map_values(|c: char| spec_upper_char(c)));
    }
}

/// The canonical upper-case hexadecimal digit for a value below 16.
pub open spec fn spec_hex_char(v: int) -> char {
    if v == 0 { '0' } else if v == 1 { '1' } else if v == 2 { '2' }
    else if v == 3 { '3' } else if v == 4 { '4' } else if v == 5 { '5' }
    else if v == 6 { '6' } else if v == 7 { '7' } else if v == 8 { '8' }
    else if v == 9 { '9' } else if v == 10 { 'A' } else if v == 11 { 'B' }
    else if v == 12 { 'C' } else if v == 13 { 'D' } else if v == 14 { 'E' }
    else { 'F' }
}

/// A byte rendered as two upper-case hexadecimal digits.
pub open spec fn spec_hex2(v: u8) -> Seq<char> {
    seq![spec_hex_char(v as int / 16), spec_hex_char(v as int % 16)]
}

/// A 16-bit word rendered as four upper-case hexadecimal digits.
pub open spec fn spec_hex4(v: u16) -> Seq<char> {
    spec_hex2((v / 256) as u8) + spec_hex2((v % 256) as u8)
}

/// A natural number rendered in decimal with no leading zeroes (a lone
/// zero for zero).
pub open spec fn spec_dec_text(n: int) -> Seq<char>
    decreases n,
{
    if n <= 9 {
        seq![spec_hex_char(if n < 0 { 0 } else { n })]
    } else {
        spec_dec_text(n / 10) + seq![spec_hex_char(n % 10)]
    }
}

/// The string of one hexadecimal digit character.
fn hex_char_str(v: u8) -> (r: &'static str)
    requires
        v < 16,
    ensures
        r@ == seq![spec_hex_char(v as int)],
{
    let r = match v {
        0 => "0", 1 => "1", 2 => "2", 3 => "3", 4 => "4",
        5 => "5", 6 => "6", 7 => "7", 8 => "8", 9 => "9",
        10 => "A", 11 => "B", 12 => "C", 13 => "D", 14 => "E",
        _ => "F",
    };
    proof {
        reveal_strlit("0"); reveal_strlit("1"); reveal_strlit("2"); reveal_strlit("3");
        reveal_strlit("4"); reveal_strlit("5"); reveal_strlit("6"); reveal_strlit("7");
        reveal_strlit("8"); reveal_strlit("9"); reveal_strlit("A"); reveal_strlit("B");
        reveal_strlit("C"); reveal_strlit("D"); reveal_strlit("E"); reveal_strlit("F");
    }
    r
}

/// Appends a byte as two upper-case hexadecimal digits.
pub fn push_hex2(s: &mut String, v: u8)
    ensures
        final(s)@ == old(s)@ + spec_hex2(v),
{
    s.append(hex_char_str(v / 16));
    s.append(hex_char_str(v % 16));
    assert(s@ =~= old(s)@ + spec_hex2(v));
}

/// Appends a 16-bit word as four upper-case hexadecimal digits.
pub fn push_hex4(s: &mut String, v: u16)
    ensures
        final(s)@ == old(s)@ + spec_hex4(v),
{
    push_hex2(s, (v / 256) as u8);
    push_hex2(s, (v % 256) as u8);
    assert(s@ =~= old(s)@ + spec_hex4(v));
}

/// Appends a number in decimal, most significant digit first.
pub fn push_dec(s: &mut String, n: u32)
    ensures
        final(s)@ == old(s)@ + spec_dec_text(n as int),
    decreases n,
{
    if n <= 9 {
        s.append(hex_char_str(n as u8));
    } else {
        push_dec(s, n / 10);
        s.append(hex_char_str((n % 10) as u8));
        assert(s@ =~= old(s)@ + spec_dec_text(n as int));
    }
}

/// Copies a run of digits out of a string, upper-casing the letters among
/// them.
pub fn upper_digits(s: &str, from: usize, to: usize) -> (r: String)
    requires
        from <= to <= s@.len(),
        forall|i: int| from <= i < to ==> spec_is_hex_digit(#[trigger] s@[i]),
    ensures
        r@ == s@.subrange(from as int, to as int).map_values(|c: char| spec_upper_char(c)),
{
    let ghost target = s@.subrange(from as int, to as int).map_values(
        |c: char| spec_upper_char(c),
    );
    let mut r = String::new();
    let mut i: usize = from;
    while i < to
        invariant
            from <= i <= to <= s@.len(),
            forall|k: int| from <= k < to ==> spec_is_hex_digit(#[trigger] s@[k]),
            target == s@.subrange(from as int, to as int).map_values(
                |c: char| spec_upper_char(c),
            ),
            r@ == target.subrange(0, i - from),
        decreases to - i,
    {
        let c = s.get_char(i);
        let d = hex_digit_val(c);
        let lit = hex_char_str(d);
        assert(lit@ == seq![spec_upper_char(s@[i as int])]);
        r.append(lit);
        assert(r@ =~= target.subrange(0, i + 1 - from));
        i = i + 1;
    }
    assert(r@ =~= target);
    r
}


/// The string of one identifier character, upper-cased: letters map to
/// their upper-case forms, digits and the underscore to themselves.
fn ident_char_str(c: char) -> (r: &'static str)
    requires
        spec_is_ident_char(c),
    ensures
        r@ == seq![spec_upper_char(c)],
{
    let r = match c {
        'a' | 'A' => "A",
        'b' | 'B' => "B",
        'c' | 'C' => "C",
        'd' | 'D' => "D",
        'e' | 'E' => "E",
        'f' | 'F' => "F",
        'g' | 'G' => "G",
        'h' | 'H' => "H",
        'i' | 'I' => "I",
        'j' | 'J' => "J",
        'k' | 'K' => "K",
        'l' | 'L' => "L",
        'm' | 'M' => "M",
        'n' | 'N' => "N",
        'o' | 'O' => "O",
        'p' | 'P' => "P",
        'q' | 'Q' => "Q",
        'r' | 'R' => "R",
        's' | 'S' => "S",
        't' | 'T' => "T",
        'u' | 'U' => "U",
        'v' | 'V' => "V",
        'w' | 'W' => "W",
        'x' | 'X' => "X",
        'y' | 'Y' => "Y",
        'z' | 'Z' => "Z",
        '0' => "0",
        '1' => "1",
        '2' => "2",
        '3' => "3",
        '4' => "4",
        '5' => "5",
        '6' => "6",
        '7' => "7",
        '8' => "8",
        '9' => "9",
        _ => "_",
    };
    proof {
        reveal_strlit("A"); reveal_strlit("B"); reveal_strlit("C"); reveal_strlit("D");
        reveal_strlit("E"); reveal_strlit("F"); reveal_strlit("G"); reveal_strlit("H");
        reveal_strlit("I"); reveal_strlit("J"); reveal_strlit("K"); reveal_strlit("L");
        reveal_strlit("M"); reveal_strlit("N"); reveal_strlit("O"); reveal_strlit("P");
        reveal_strlit("Q"); reveal_strlit("R"); reveal_strlit("S"); reveal_strlit("T");
        reveal_strlit("U"); reveal_strlit("V"); reveal_strlit("W"); reveal_strlit("X");
        reveal_strlit("Y"); reveal_strlit("Z"); reveal_strlit("0"); reveal_strlit("1");
        reveal_strlit("2"); reveal_strlit("3"); reveal_strlit("4"); reveal_strlit("5");
        reveal_strlit("6"); reveal_strlit("7"); reveal_strlit("8"); reveal_strlit("9");
        reveal_strlit("_");
    }
    r
}

/// Copies a run of identifier characters out of a string, upper-casing
/// the letters among them.
pub fn upper_ident(s: &str, from: usize, to: usize) -> (r: String)
    requires
        from <= to <= s@.len(),
        forall|i: int| from <= i < to ==> spec_is_ident_char(#[trigger] s@[i]),
    ensures
        r@ == s@.subrange(from as int, to as int).map_values(|c: char| spec_upper_char(c)),
{
    let ghost target = s@.subrange(from as int, to as int).map_values(
        |c: char| spec_upper_char(c),
    );
    let mut r = String::new();
    let mut i: usize = from;
    while i < to
        invariant
            from <= i <= to <= s@.len(),
            forall|k: int| from <= k < to ==> spec_is_ident_char(#[trigger] s@[k]),
            target == s@.subrange(from as int, to as int).map_values(
                |c: char| spec_upper_char(c),
            ),
            r@ == target.subrange(0, i - from),
        decreases to - i,
{
        let c = s.get_char(i);
        let lit = ident_char_str(c);
        assert(lit@ == seq![spec_upper_char(s@[i as int])]);
        r.append(lit);
        assert(r@ =~= target.subrange(0, i + 1 - from));
        i = i + 1;
    }
    assert(r@ =~= target);
    r
}

} // verus!
