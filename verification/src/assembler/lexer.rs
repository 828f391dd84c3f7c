//! The lexer: 6502 assembly source text to a line-grouped token stream.
//!
//! Each non-blank source line yields one vector of tokens. Identifiers,
//! addresses and immediates are upper-cased as they are read; all later
//! comparisons on them are therefore case-insensitive. A `;` starts a
//! comment that runs to the end of the line.

use vstd::prelude::*;
use vstd::string::StringExecFns;
use vstd::string::StrSliceExecFns;
use crate::opcodes::spec_upper_char;
use crate::assembler::token::ImmediateBase;
use crate::assembler::token::LexerToken;
use crate::assembler::token::LexerTokenView;
use crate::text::is_dec_digit;
use crate::text::is_hex_digit;
use crate::text::is_ident_char;
use crate::text::is_space;
use crate::text::push_dec;
use crate::text::spec_dec_text;
use crate::text::spec_is_dec_digit;
use crate::text::spec_is_hex_digit;
use crate::text::spec_is_ident_char;
use crate::text::spec_is_space;
use crate::text::upper_digits;
use crate::text::upper_ident;

verus! {

/// A lexing failure, with a human-readable message naming the line and
/// column it arose at.
#[derive(Debug, PartialEq)]
pub struct LexerError {
    pub message: String,
}

impl View for LexerError {
    type V = Seq<char>;

    open spec fn view(&self) -> Seq<char> {
        self.message@
    }
}

/// The message of `LexerError::unexpected_ident`.
pub open spec fn spec_msg_unexpected_ident(
    expected: Seq<char>,
    found: Seq<char>,
    line: int,
    col: int,
) -> Seq<char> {
    "Unexpected identifier. Found '"@ + found + "', expected '"@ + expected + "'. Line "@
        + spec_dec_text(line) + ", col "@ + spec_dec_text(col)
}

/// The message of `LexerError::out_of_bounds`.
pub open spec fn spec_msg_out_of_bounds(addr: Seq<char>, line: int, col: int) -> Seq<char> {
    "Memory address '"@ + addr + "' too large. Line "@ + spec_dec_text(line) + ", col "@
        + spec_dec_text(col)
}

/// The message of `LexerError::error_consuming_number`.
pub open spec fn spec_msg_error_consuming_number(line: int, col: int) -> Seq<char> {
    "Error consuming number. Line "@ + spec_dec_text(line) + " col "@ + spec_dec_text(col)
}

/// The message of `LexerError::unexpected_eof`.
pub open spec fn spec_msg_unexpected_eof() -> Seq<char> {
    "Unexpected end of file"@
}

/// The message of `LexerError::expected_memory_address`.
pub open spec fn spec_msg_expected_memory_address(line: int, col: int) -> Seq<char> {
    "Expected memory address. Line "@ + spec_dec_text(line) + " col "@ + spec_dec_text(col)
}

/// The message of `LexerError::unexpected_token`.
pub open spec fn spec_msg_unexpected_token(line: int, col: int) -> Seq<char> {
    "Unexpected token. Line "@ + spec_dec_text(line) + " col "@ + spec_dec_text(col)
}

impl LexerError {
    /// An identifier other than the one that was required here.
    pub fn unexpected_ident(expected: &str, found: &str, line: u32, column: u32) -> (r:
        LexerError)
        ensures
            r@ == spec_msg_unexpected_ident(expected@, found@, line as int, column as int),
    {
        let mut message = String::from_str("Unexpected identifier. Found '");
        message.append(found);
        message.append("', expected '");
        message.append(expected);
        message.append("'. Line ");
        push_dec(&mut message, line);
        message.append(", col ");
        push_dec(&mut message, column);
        LexerError { message }
    }

    /// A memory address literal of more than four hexadecimal digits.
    pub fn out_of_bounds(addr: &str, line: u32, column: u32) -> (r: LexerError)
        ensures
            r@ == spec_msg_out_of_bounds(addr@, line as int, column as int),
    {
        let mut message = String::from_str("Memory address '");
        message.append(addr);
        message.append("' too large. Line ");
        push_dec(&mut message, line);
        message.append(", col ");
        push_dec(&mut message, column);
        LexerError { message }
    }

    /// A number introducer with no digits of its base after it.
    pub fn error_consuming_number(line: u32, column: u32) -> (r: LexerError)
        ensures
            r@ == spec_msg_error_consuming_number(line as int, column as int),
    {
        let mut message = String::from_str("Error consuming number. Line ");
        push_dec(&mut message, line);
        message.append(" col ");
        push_dec(&mut message, column);
        LexerError { message }
    }

    /// A line that ends where more input was required.
    pub fn unexpected_eof() -> (r: LexerError)
        ensures
            r@ == spec_msg_unexpected_eof(),
    {
        LexerError { message: String::from_str("Unexpected end of file") }
    }

    /// Something other than a memory address where one was required.
    pub fn expected_memory_address(line: u32, column: u32) -> (r: LexerError)
        ensures
            r@ == spec_msg_expected_memory_address(line as int, column as int),
    {
        let mut message = String::from_str("Expected memory address. Line ");
        push_dec(&mut message, line);
        message.append(" col ");
        push_dec(&mut message, column);
        LexerError { message }
    }

    /// A character that opens no token.
    pub fn unexpected_token(line: u32, column: u32) -> (r: LexerError)
        ensures
            r@ == spec_msg_unexpected_token(line as int, column as int),
    {
        let mut message = String::from_str("Unexpected token. Line ");
        push_dec(&mut message, line);
        message.append(" col ");
        push_dec(&mut message, column);
        LexerError { message }
    }
}

/// The end of the run of characters satisfying `p` that starts at `i`:
/// the first index at or after `i` whose character fails `p`, or the end
/// of the sequence.
pub open spec fn run_end(s: Seq<char>, i: int, p: spec_fn(char) -> bool) -> int
    decreases s.len() - i when 0 <= i <= s.len()
{
    if i < s.len() && p(s[i]) {
        run_end(s, i + 1, p)
    } else {
        i
    }
}

/// `run_end` is exactly the boundary between a prefix of characters
/// satisfying `p` and the first character that does not.
pub proof fn lemma_run_end_is(s: Seq<char>, i: int, j: int, p: spec_fn(char) -> bool)
    requires
        0 <= i <= j <= s.len(),
        forall|k: int| i <= k < j ==> p(#[trigger] s[k]),
        j < s.len() ==> !p(s[j]),
    ensures
        run_end(s, i, p) == j,
    decreases j - i,
{
    if i < j {
        lemma_run_end_is(s, i + 1, j, p);
    }
}

/// `run_end` reaches at least past any all-satisfying prefix.
pub proof fn lemma_run_end_at_least(s: Seq<char>, i: int, j: int, p: spec_fn(char) -> bool)
    requires
        0 <= i <= j <= s.len(),
        forall|k: int| i <= k < j ==> p(#[trigger] s[k]),
    ensures
        run_end(s, i, p) >= j,
    decreases j - i,
{
    if i < j {
        assert(p(s[i]));
        assert(run_end(s, i, p) == run_end(s, i + 1, p));
        lemma_run_end_at_least(s, i + 1, j, p);
    } else {
        lemma_run_end_bounds(s, i, p);
    }
}

/// A line is blank when every character of it is whitespace.
pub open spec fn spec_blank(s: Seq<char>) -> bool {
    forall|i: int| 0 <= i < s.len() ==> spec_is_space(#[trigger] s[i])
}

/// One token followed by whatever the rest of the line yields.
pub open spec fn spec_cons_tok(
    tok: LexerTokenView,
    rest: Result<Seq<LexerTokenView>, Seq<char>>,
) -> Result<Seq<LexerTokenView>, Seq<char>> {
    match rest {
        Ok(ts) => Ok(seq![tok] + ts),
        Err(e) => Err(e),
    }
}

/// The tokens of the line `lt` from position `i` on, or the first error.
/// Identifier, address and immediate text is upper-cased as it is read.
/// `lineno` is the one-based number of the line, used in error messages;
/// columns are positions within the line.
pub open spec fn spec_lex_line(lt: Seq<char>, i: int, lineno: int) -> Result<
    Seq<LexerTokenView>,
    Seq<char>,
>
    decreases lt.len() - i when 0 <= i <= lt.len() via spec_lex_line_decreases
{
    if i >= lt.len() {
        Ok(seq![])
    } else {
        let c = lt[i];
        if spec_is_space(c) {
            spec_lex_line(lt, run_end(lt, i, |ch: char| spec_is_space(ch)), lineno)
        } else if spec_is_ident_char(c) {
            let j = run_end(lt, i, |ch: char| spec_is_ident_char(ch));
            spec_cons_tok(
                LexerTokenView::Ident(
                    lt.subrange(i, j).map_values(|ch: char| spec_upper_char(ch)),
                ),
                spec_lex_line(lt, j, lineno),
            )
        } else if c == ';' {
            Ok(seq![])
        } else if c == '(' {
            spec_cons_tok(LexerTokenView::OpenParenthesis, spec_lex_line(lt, i + 1, lineno))
        } else if c == ')' {
            spec_cons_tok(LexerTokenView::CloseParenthesis, spec_lex_line(lt, i + 1, lineno))
        } else if c == '$' {
            let j = run_end(lt, i + 1, |ch: char| spec_is_hex_digit(ch));
            if j == i + 1 {
                Err(spec_msg_error_consuming_number(lineno, i + 1))
            } else if j - (i + 1) > 4 {
                Err(spec_msg_out_of_bounds(
                    lt.subrange(i + 1, j).map_values(|ch: char| spec_upper_char(ch)),
                    lineno,
                    i + 1,
                ))
            } else {
                spec_cons_tok(
                    LexerTokenView::Address(
                        lt.subrange(i + 1, j).map_values(|ch: char| spec_upper_char(ch)),
                    ),
                    spec_lex_line(lt, j, lineno),
                )
            }
        } else if c == '#' {
            if i + 1 >= lt.len() {
                Err(spec_msg_unexpected_eof())
            } else if lt[i + 1] == '$' {
                let j = run_end(lt, i + 2, |ch: char| spec_is_hex_digit(ch));
                if j == i + 2 {
                    Err(spec_msg_error_consuming_number(lineno, i + 2))
                } else {
                    spec_cons_tok(
                        LexerTokenView::Immediate(
                            lt.subrange(i + 2, j).map_values(|ch: char| spec_upper_char(ch)),
                            ImmediateBase::Base16,
                        ),
                        spec_lex_line(lt, j, lineno),
                    )
                }
            } else {
                let j = run_end(lt, i + 1, |ch: char| spec_is_dec_digit(ch));
                if j == i + 1 {
                    Err(spec_msg_error_consuming_number(lineno, i + 1))
                } else {
                    spec_cons_tok(
                        LexerTokenView::Immediate(
                            lt.subrange(i + 1, j).map_values(|ch: char| spec_upper_char(ch)),
                            ImmediateBase::Base10,
                        ),
                        spec_lex_line(lt, j, lineno),
                    )
                }
            }
        } else if c == '.' {
            spec_cons_tok(LexerTokenView::Period, spec_lex_line(lt, i + 1, lineno))
        } else if c == ':' {
            spec_cons_tok(LexerTokenView::Colon, spec_lex_line(lt, i + 1, lineno))
        } else if c == '=' {
            spec_cons_tok(LexerTokenView::Assignment, spec_lex_line(lt, i + 1, lineno))
        } else if c == ',' {
            spec_cons_tok(LexerTokenView::Comma, spec_lex_line(lt, i + 1, lineno))
        } else {
            Err(spec_msg_unexpected_token(lineno, i + 1))
        }
    }
}

#[via_fn]
proof fn spec_lex_line_decreases(lt: Seq<char>, i: int, lineno: int) {
    if 0 <= i < lt.len() {
        lemma_run_end_bounds(lt, i + 1, |ch: char| spec_is_space(ch));
        lemma_run_end_bounds(lt, i + 1, |ch: char| spec_is_ident_char(ch));
        if i + 1 <= lt.len() {
            lemma_run_end_bounds(lt, i + 1, |ch: char| spec_is_hex_digit(ch));
            lemma_run_end_bounds(lt, i + 1, |ch: char| spec_is_dec_digit(ch));
        }
        if i + 2 <= lt.len() {
            lemma_run_end_bounds(lt, i + 2, |ch: char| spec_is_hex_digit(ch));
        }
    }
}

/// The end of the current line: the index of the first newline at or
/// after `from`, or the end of the input.
pub open spec fn spec_line_end(s: Seq<char>, from: int) -> int {
    run_end(s, from, |ch: char| ch != '\n')
}

/// The end of the current line's content: a carriage return immediately
/// before the newline belongs to the line terminator, not to the line.
pub open spec fn spec_content_end(s: Seq<char>, from: int) -> int {
    let le = spec_line_end(s, from);
    if le > from && s[le - 1] == '\r' {
        le - 1
    } else {
        le
    }
}

/// Where the next line starts: one past the newline, or the end of the
/// input for the final line.
pub open spec fn spec_next_line(s: Seq<char>, from: int) -> int {
    let le = spec_line_end(s, from);
    if le >= s.len() {
        s.len() as int
    } else {
        le + 1
    }
}

/// `run_end` never passes the end of the sequence and never goes
/// backwards.
pub proof fn lemma_run_end_bounds(s: Seq<char>, i: int, p: spec_fn(char) -> bool)
    requires
        0 <= i <= s.len(),
    ensures
        i <= run_end(s, i, p) <= s.len(),
    decreases s.len() - i,
{
    if i < s.len() && p(s[i]) {
        lemma_run_end_bounds(s, i + 1, p);
    }
}

/// The start of the next line lies strictly beyond the current one and
/// within the input.
pub proof fn lemma_next_line_bounds(s: Seq<char>, from: int)
    requires
        0 <= from < s.len(),
    ensures
        from < spec_next_line(s, from) <= s.len(),
        from <= spec_content_end(s, from) <= s.len(),
{
    lemma_run_end_bounds(s, from, |ch: char| ch != '\n');
}

/// The number of lines of the input from `from` on, counted as the lexer
/// counts them: blank lines included.
pub open spec fn spec_num_lines(s: Seq<char>, from: int) -> int
    decreases s.len() - from when 0 <= from <= s.len() via spec_num_lines_decreases
{
    if from >= s.len() {
        0
    } else {
        1 + spec_num_lines(s, spec_next_line(s, from))
    }
}

#[via_fn]
proof fn spec_num_lines_decreases(s: Seq<char>, from: int) {
    if 0 <= from < s.len() {
        lemma_next_line_bounds(s, from);
    }
}

/// Lines take at least one character each.
pub proof fn lemma_num_lines_bound(s: Seq<char>, from: int)
    requires
        0 <= from <= s.len(),
    ensures
        0 <= spec_num_lines(s, from) <= s.len() - from,
    decreases s.len() - from,
{
    if from < s.len() {
        lemma_next_line_bounds(s, from);
        lemma_num_lines_bound(s, spec_next_line(s, from));
    }
}

/// The token lines of the whole input from `from` on, or the first
/// error. `line0` is the number of lines already read before this input;
/// blank lines are counted but yield no token line.
pub open spec fn spec_lex(s: Seq<char>, from: int, line0: int) -> Result<
    Seq<Seq<LexerTokenView>>,
    Seq<char>,
>
    decreases s.len() - from when 0 <= from <= s.len() via spec_lex_decreases
{
    if from >= s.len() {
        Ok(seq![])
    } else {
        let lt = s.subrange(from, spec_content_end(s, from));
        let rest = spec_lex(s, spec_next_line(s, from), line0 + 1);
        if spec_blank(lt) {
            rest
        } else {
            match spec_lex_line(lt, 0, line0 + 1) {
                Ok(ts) => match rest {
                    Ok(rs) => Ok(seq![ts] + rs),
                    Err(e) => Err(e),
                },
                Err(e) => Err(e),
            }
        }
    }
}

#[via_fn]
proof fn spec_lex_decreases(s: Seq<char>, from: int, line0: int) {
    if 0 <= from < s.len() {
        lemma_next_line_bounds(s, from);
    }
}

/// Lexer turns program source text into lists of tokens, one list per
/// non-blank line. The line counter persists across calls so that a
/// sequence of inputs reports consistent line numbers.
pub struct Lexer {
    /// One-based number of the last line read; error messages and the
    /// numbering of later inputs continue from it.
    pub line: u32,
}

impl Lexer {
    /// A lexer whose line counter starts at the top of the file.
    pub fn new() -> (r: Lexer)
        ensures
            r.line == 0,
    {
        Lexer { line: 0 }
    }

    /// Splits 6502 assembly source text into tokens, line by line.
    /// Returns one token vector per non-blank line, or the first error.
    pub fn lex_string(&mut self, input: &str) -> (r: Result<Vec<Vec<LexerToken>>, LexerError>)
        requires
            old(self).line + input@.len() + 1 < 0x1_0000_0000,
        ensures
            match r {
                Ok(v) => spec_lex(input@, 0, old(self).line as int) == Ok::<
                    Seq<Seq<LexerTokenView>>,
                    Seq<char>,
                >(v.deep_view()) && final(self).line == old(self).line + spec_num_lines(
                    input@,
                    0,
                ),
                Err(e) => spec_lex(input@, 0, old(self).line as int) == Err::<
                    Seq<Seq<LexerTokenView>>,
                    Seq<char>,
                >(e@) && final(self).line == old(self).line,
            },
    {
        let ghost s = input@;
        let len = input.unicode_len();
        let mut from: usize = 0;
        let mut line: u32 = self.line;
        let mut result: Vec<Vec<LexerToken>> = Vec::new();
        while from < len
            invariant
                0 <= from <= len,
                len == s.len(),
                s == input@,
                line == self.line + spec_count_so_far(s, 0, from as int),
                self.line + s.len() + 1 < 0x1_0000_0000,
                line + (s.len() - from) <= self.line + s.len(),
                spec_lex(s, 0, self.line as int) == spec_prepend_lines(
                    result.deep_view(),
                    spec_lex(s, from as int, line as int),
                ),
                spec_num_lines(s, 0) == spec_count_so_far(s, 0, from as int) + spec_num_lines(
                    s,
                    from as int,
                ),
            decreases len - from,
        {
            let ghost from0 = from as int;
            let ghost line_entry = line as int;
            let line_end = scan_to_newline(input, from, len);
            let content_end = if line_end > from && input.get_char(line_end - 1) == '\r' {
                line_end - 1
            } else {
                line_end
            };
            let ghost next = spec_next_line(s, from0);
            let ghost lt = s.subrange(from0, content_end as int);
            proof {
                lemma_next_line_bounds(s, from0);
                lemma_num_lines_bound(s, 0);
                lemma_num_lines_bound(s, from0);
                lemma_num_lines_bound(s, next);
                assert(spec_line_end(s, from0) == line_end);
                assert(spec_content_end(s, from0) == content_end);
                assert(next == if line_end < len { line_end + 1 } else { len as int });
                assert(spec_num_lines(s, from0) == 1 + spec_num_lines(s, next));
            }
            line = line + 1;
            let blank_end = scan_spaces(input, from, content_end);
            if blank_end < content_end {
                proof {
                    assert(lt[blank_end - from0] == s[blank_end as int]);
                    assert(!spec_blank(lt));
                }
                match lex_line_from(input, from, from, content_end, line) {
                    Ok(toks) => {
                        let ghost dv0 = result.deep_view();
                        let ghost tsv = toks.deep_view();
                        result.push(toks);
                        proof {
                            assert forall|k: int|
                                0 <= k < result.deep_view().len() implies result.deep_view()[k]
                                == dv0.push(tsv)[k] by {
                                assert(result.deep_view()[k] == result@[k].deep_view());
                            }
                            assert(result.deep_view() =~= dv0.push(tsv));
                            assert(spec_lex(s, from0, line_entry) == match spec_lex(
                                s,
                                next,
                                line_entry + 1,
                            ) {
                                Ok(rs) => Ok::<Seq<Seq<LexerTokenView>>, Seq<char>>(
                                    seq![tsv] + rs,
                                ),
                                Err(e2) => Err(e2),
                            });
                            let r2 = spec_lex(s, next, line_entry + 1);
                            if r2 is Ok {
                                assert(dv0 + (seq![tsv] + r2->Ok_0) =~= dv0.push(tsv)
                                    + r2->Ok_0);
                            }
                        }
                    },
                    Err(e) => {
                        proof {
                            assert(spec_lex(s, from0, line_entry) == Err::<
                                Seq<Seq<LexerTokenView>>,
                                Seq<char>,
                            >(e@));
                            lemma_prepend_lines_err(result.deep_view(), e@);
                        }
                        return Err(e);
                    },
                }
            } else {
                proof {
                    assert forall|k: int| 0 <= k < lt.len() implies spec_is_space(
                        #[trigger] lt[k],
                    ) by {
                        assert(lt[k] == s[from0 + k]);
                    }
                    assert(spec_blank(lt));
                    assert(spec_lex(s, from0, line_entry) == spec_lex(s, next, line_entry + 1));
                }
            }
            from = if line_end < len {
                line_end + 1
            } else {
                len
            };
        }
        self.line = line;
        assert(spec_lex(s, from as int, line as int) == Ok::<
            Seq<Seq<LexerTokenView>>,
            Seq<char>,
        >(Seq::<Seq<LexerTokenView>>::empty()));
        assert(result.deep_view() + Seq::<Seq<LexerTokenView>>::empty() =~= result.deep_view());
        Ok(result)
    }
}

/// The number of lines between two positions of the input: the
/// difference of the line counts from each position to the end.
pub open spec fn spec_count_so_far(s: Seq<char>, start: int, upto: int) -> int {
    spec_num_lines(s, start) - spec_num_lines(s, upto)
}

/// Prepends already-lexed lines to the outcome of lexing the rest.
pub open spec fn spec_prepend_lines(
    acc: Seq<Seq<LexerTokenView>>,
    r: Result<Seq<Seq<LexerTokenView>>, Seq<char>>,
) -> Result<Seq<Seq<LexerTokenView>>, Seq<char>> {
    match r {
        Ok(rest) => Ok(acc + rest),
        Err(e) => Err(e),
    }
}

/// An error on the rest stays an error with lines prepended.
pub proof fn lemma_prepend_lines_err(acc: Seq<Seq<LexerTokenView>>, e: Seq<char>)
    ensures
        spec_prepend_lines(acc, Err(e)) == Err::<Seq<Seq<LexerTokenView>>, Seq<char>>(e),
{
}

/// The index of the first newline at or after `from`, or `len`.
fn scan_to_newline(s: &str, from: usize, len: usize) -> (r: usize)
    requires
        from <= len,
        len == s@.len(),
    ensures
        from <= r <= len,
        r == run_end(s@, from as int, |ch: char| ch != '\n'),
{
    let mut j = from;
    while j < len && s.get_char(j) != '\n'
        invariant
            from <= j <= len,
            len == s@.len(),
            forall|k: int| from <= k < j ==> #[trigger] s@[k] != '\n',
        decreases len - j,
    {
        j = j + 1;
    }
    proof {
        lemma_run_end_is(s@, from as int, j as int, |ch: char| ch != '\n');
    }
    j
}

/// The index of the first non-blank character at or after `from`, up to
/// `end`.
fn scan_spaces(s: &str, from: usize, end: usize) -> (r: usize)
    requires
        from <= end <= s@.len(),
    ensures
        from <= r <= end,
        forall|k: int| from <= k < r ==> spec_is_space(#[trigger] s@[k]),
        r < end ==> !spec_is_space(s@[r as int]),
    decreases end - from,
{
    let mut j = from;
    while j < end && is_space(s.get_char(j))
        invariant
            from <= j <= end <= s@.len(),
            forall|k: int| from <= k < j ==> spec_is_space(#[trigger] s@[k]),
        decreases end - j,
    {
        j = j + 1;
    }
    j
}

/// The index of the first non-identifier character at or after `from`,
/// up to `end`.
fn scan_ident(s: &str, from: usize, end: usize) -> (r: usize)
    requires
        from <= end <= s@.len(),
    ensures
        from <= r <= end,
        forall|k: int| from <= k < r ==> spec_is_ident_char(#[trigger] s@[k]),
        r < end ==> !spec_is_ident_char(s@[r as int]),
{
    let mut j = from;
    while j < end && is_ident_char(s.get_char(j))
        invariant
            from <= j <= end <= s@.len(),
            forall|k: int| from <= k < j ==> spec_is_ident_char(#[trigger] s@[k]),
        decreases end - j,
    {
        j = j + 1;
    }
    j
}

/// The index of the first non-hexadecimal-digit at or after `from`, up
/// to `end`.
fn scan_hex(s: &str, from: usize, end: usize) -> (r: usize)
    requires
        from <= end <= s@.len(),
    ensures
        from <= r <= end,
        forall|k: int| from <= k < r ==> spec_is_hex_digit(#[trigger] s@[k]),
        r < end ==> !spec_is_hex_digit(s@[r as int]),
{
    let mut j = from;
    while j < end && is_hex_digit(s.get_char(j))
        invariant
            from <= j <= end <= s@.len(),
            forall|k: int| from <= k < j ==> spec_is_hex_digit(#[trigger] s@[k]),
        decreases end - j,
    {
        j = j + 1;
    }
    j
}

/// The index of the first non-decimal-digit at or after `from`, up to
/// `end`.
fn scan_dec(s: &str, from: usize, end: usize) -> (r: usize)
    requires
        from <= end <= s@.len(),
    ensures
        from <= r <= end,
        forall|k: int| from <= k < r ==> spec_is_dec_digit(#[trigger] s@[k]),
        r < end ==> !spec_is_dec_digit(s@[r as int]),
{
    let mut j = from;
    while j < end && is_dec_digit(s.get_char(j))
        invariant
            from <= j <= end <= s@.len(),
            forall|k: int| from <= k < j ==> spec_is_dec_digit(#[trigger] s@[k]),
        decreases end - j,
    {
        j = j + 1;
    }
    j
}

/// Lexes the line `input[ls..ce]` from absolute position `i` on,
/// mirroring `spec_lex_line` position by position.
fn lex_line_from(input: &str, ls: usize, i: usize, ce: usize, lineno: u32) -> (r: Result<
    Vec<LexerToken>,
    LexerError,
>)
    requires
        ls <= i <= ce <= input@.len(),
        ce - ls + 1 < 0x1_0000_0000,
        lineno < 0x1_0000_0000,
    ensures
        ({
            let lt = input@.subrange(ls as int, ce as int);
            match r {
                Ok(v) => spec_lex_line(lt, i - ls, lineno as int) == Ok::<
                    Seq<LexerTokenView>,
                    Seq<char>,
                >(v.deep_view()),
                Err(e) => spec_lex_line(lt, i - ls, lineno as int) == Err::<
                    Seq<LexerTokenView>,
                    Seq<char>,
                >(e@),
            }
        }),
    decreases ce - i,
{
    let ghost lt = input@.subrange(ls as int, ce as int);
    if i >= ce {
        let r: Vec<LexerToken> = Vec::new();
        assert(r.deep_view() =~= Seq::<LexerTokenView>::empty());
        return Ok(r);
    }
    let c = input.get_char(i);
    assert(c == lt[i - ls]);
    if is_space(c) {
        let j = scan_spaces(input, i, ce);
        proof {
            lemma_scan_matches_run(lt, ls as int, i as int, j as int, ce as int, input@,
                |ch: char| spec_is_space(ch));
        }
        lex_line_from(input, ls, j, ce, lineno)
    } else if is_ident_char(c) {
        let j = scan_ident(input, i, ce);
        proof {
            lemma_scan_matches_run(lt, ls as int, i as int, j as int, ce as int, input@,
                |ch: char| spec_is_ident_char(ch));
        }
        let text = upper_ident(input, i, j);
        proof {
            assert(input@.subrange(i as int, j as int) =~= lt.subrange(i - ls, j - ls));
        }
        let rest = lex_line_from(input, ls, j, ce, lineno)?;
        Ok(cons_token(LexerToken::Ident(text), rest))
    } else if c == ';' {
        let r: Vec<LexerToken> = Vec::new();
        assert(r.deep_view() =~= Seq::<LexerTokenView>::empty());
        Ok(r)
    } else if c == '(' {
        let rest = lex_line_from(input, ls, i + 1, ce, lineno)?;
        Ok(cons_token(LexerToken::OpenParenthesis, rest))
    } else if c == ')' {
        let rest = lex_line_from(input, ls, i + 1, ce, lineno)?;
        Ok(cons_token(LexerToken::CloseParenthesis, rest))
    } else if c == '$' {
        let j = scan_hex(input, i + 1, ce);
        proof {
            lemma_scan_matches_run(lt, ls as int, i + 1, j as int, ce as int, input@,
                |ch: char| spec_is_hex_digit(ch));
        }
        if j == i + 1 {
            Err(LexerError::error_consuming_number(lineno, (i + 1 - ls) as u32))
        } else if j - (i + 1) > 4 {
            let text = upper_digits(input, i + 1, j);
            proof {
                lemma_upper_subrange(input@, lt, ls as int, ce as int, i + 1, j as int);
            }
            Err(LexerError::out_of_bounds(text.as_str(), lineno, (i + 1 - ls) as u32))
        } else {
            let text = upper_digits(input, i + 1, j);
            proof {
                lemma_upper_subrange(input@, lt, ls as int, ce as int, i + 1, j as int);
            }
            let rest = lex_line_from(input, ls, j, ce, lineno)?;
            Ok(cons_token(LexerToken::Address(text), rest))
        }
    } else if c == '#' {
        if i + 1 >= ce {
            return Err(LexerError::unexpected_eof());
        }
        let c2 = input.get_char(i + 1);
        assert(c2 == lt[i + 1 - ls]);
        if c2 == '$' {
            let j = scan_hex(input, i + 2, ce);
            proof {
                lemma_scan_matches_run(lt, ls as int, i + 2, j as int, ce as int, input@,
                    |ch: char| spec_is_hex_digit(ch));
            }
            if j == i + 2 {
                Err(LexerError::error_consuming_number(lineno, (i + 2 - ls) as u32))
            } else {
                let text = upper_digits(input, i + 2, j);
                proof {
                    lemma_upper_subrange(input@, lt, ls as int, ce as int, i + 2, j as int);
                }
                let rest = lex_line_from(input, ls, j, ce, lineno)?;
                Ok(cons_token(LexerToken::Immediate(text, ImmediateBase::Base16), rest))
            }
        } else {
            let j = scan_dec(input, i + 1, ce);
            proof {
                lemma_scan_matches_run(lt, ls as int, i + 1, j as int, ce as int, input@,
                    |ch: char| spec_is_dec_digit(ch));
            }
            if j == i + 1 {
                Err(LexerError::error_consuming_number(lineno, (i + 1 - ls) as u32))
            } else {
                let text = upper_digits(input, i + 1, j);
                proof {
                    lemma_upper_subrange(input@, lt, ls as int, ce as int, i + 1, j as int);
                }
                let rest = lex_line_from(input, ls, j, ce, lineno)?;
                Ok(cons_token(LexerToken::Immediate(text, ImmediateBase::Base10), rest))
            }
        }
    } else if c == '.' {
        let rest = lex_line_from(input, ls, i + 1, ce, lineno)?;
        Ok(cons_token(LexerToken::Period, rest))
    } else if c == ':' {
        let rest = lex_line_from(input, ls, i + 1, ce, lineno)?;
        Ok(cons_token(LexerToken::Colon, rest))
    } else if c == '=' {
        let rest = lex_line_from(input, ls, i + 1, ce, lineno)?;
        Ok(cons_token(LexerToken::Assignment, rest))
    } else if c == ',' {
        let rest = lex_line_from(input, ls, i + 1, ce, lineno)?;
        Ok(cons_token(LexerToken::Comma, rest))
    } else {
        Err(LexerError::unexpected_token(lineno, (i - ls + 1) as u32))
    }
}

/// Puts one token in front of the rest of a line's tokens.
fn cons_token(tok: LexerToken, rest: Vec<LexerToken>) -> (r: Vec<LexerToken>)
    ensures
        r.deep_view() == seq![tok@] + rest.deep_view(),
{
    let ghost rv = rest.deep_view();
    let ghost tv = tok@;
    let mut r = rest;
    r.insert(0, tok);
    assert forall|k: int| 0 <= k < r.deep_view().len() implies r.deep_view()[k] == (seq![tv]
        + rv)[k] by {
        assert(r.deep_view()[k] == r@[k].deep_view());
    }
    assert(r.deep_view() =~= seq![tv] + rv);
    r
}

/// A scan over the full input, restricted to a line, lands exactly on the
/// spec-level run end within the extracted line.
proof fn lemma_scan_matches_run(
    lt: Seq<char>,
    ls: int,
    i: int,
    j: int,
    ce: int,
    s: Seq<char>,
    p: spec_fn(char) -> bool,
)
    requires
        0 <= ls <= i <= j <= ce <= s.len(),
        lt == s.subrange(ls, ce),
        forall|k: int| i <= k < j ==> p(#[trigger] s[k]),
        j < ce ==> !p(s[j]),
    ensures
        run_end(lt, i - ls, p) == j - ls,
{
    assert forall|k: int| i - ls <= k < j - ls implies p(#[trigger] lt[k]) by {
        assert(lt[k] == s[k + ls]);
    }
    if j - ls < lt.len() {
        assert(lt[j - ls] == s[j]);
    }
    lemma_run_end_is(lt, i - ls, j - ls, p);
}

/// Upper-casing a run of the full input equals upper-casing the matching
/// run of the extracted line.
proof fn lemma_upper_subrange(s: Seq<char>, lt: Seq<char>, ls: int, ce: int, a: int, b: int)
    requires
        0 <= ls <= a <= b <= ce <= s.len(),
        lt == s.subrange(ls, ce),
    ensures
        s.subrange(a, b).map_values(|ch: char| spec_upper_char(ch)) == lt.subrange(
            a - ls,
            b - ls,
        ).map_values(|ch: char| spec_upper_char(ch)),
{
    assert(s.subrange(a, b) =~= lt.subrange(a - ls, b - ls));
}

} // verus!
