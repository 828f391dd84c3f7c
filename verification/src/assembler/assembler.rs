//! The assembler driver: a two-pass walk of the parser's token stream
//! that first indexes every label's address and then emits code
//! segments, resolving absolute and relative label references.

use vstd::prelude::*;
use vstd::string::StringExecFns;
use crate::assembler::lexer::Lexer;
use crate::assembler::lexer::spec_lex;
use crate::assembler::lexer::lemma_next_line_bounds;
use crate::assembler::parser::Parser;
use crate::assembler::parser::spec_parse;
use crate::assembler::token::LexerTokenView;
use crate::assembler::token::ParserToken;
use crate::assembler::token::ParserTokenView;
use crate::opcodes::AddressingMode;
use crate::text::push_hex4;
use crate::text::spec_hex4;

verus! {

/// An assembly failure: an unknown label, a branch out of range, or an
/// error handed up from the lexer or the parser.
#[derive(Debug)]
pub struct AssemblerError {
    pub message: String,
}

impl View for AssemblerError {
    type V = Seq<char>;

    open spec fn view(&self) -> Seq<char> {
        self.message@
    }
}

/// The message of `AssemblerError::unknown_label`.
pub open spec fn spec_msg_unknown_label(label: Seq<char>) -> Seq<char> {
    "Unknown label: '"@ + label + "'"@
}

/// The message of `AssemblerError::relative_offset_too_large`.
pub open spec fn spec_msg_relative_offset_too_large(label: Seq<char>, addr: u16) -> Seq<char> {
    "Branch too far: Attempted jump to "@ + label + " at "@ + spec_hex4(addr)
}

impl AssemblerError {
    /// A label argument that no label definition covers.
    pub fn unknown_label(label: &str) -> (r: AssemblerError)
        ensures
            r@ == spec_msg_unknown_label(label@),
    {
        let mut message = String::from_str("Unknown label: '");
        message.append(label);
        message.append("'");
        AssemblerError { message }
    }

    /// A relative branch whose target lies outside the signed 8-bit
    /// range.
    pub fn relative_offset_too_large(label: &str, addr: u16) -> (r: AssemblerError)
        ensures
            r@ == spec_msg_relative_offset_too_large(label@, addr),
    {
        let mut message = String::from_str("Branch too far: Attempted jump to ");
        message.append(label);
        message.append(" at ");
        push_hex4(&mut message, addr);
        AssemblerError { message }
    }
}

/// A label's address, recorded during the first pass.
#[derive(Debug, PartialEq)]
pub struct Label(pub u16);

/// One assembled stretch of memory: a base address and the bytes that
/// belong there.
#[derive(Debug)]
pub struct CodeSegment {
    pub address: u16,
    pub code: Vec<u8>,
}

impl View for CodeSegment {
    type V = (u16, Seq<u8>);

    open spec fn view(&self) -> (u16, Seq<u8>) {
        (self.address, self.code@)
    }
}

impl DeepView for CodeSegment {
    type V = (u16, Seq<u8>);

    open spec fn deep_view(&self) -> (u16, Seq<u8>) {
        self.view()
    }
}

/// The mathematical shape of the label table: name/address pairs in
/// definition order; a later definition of a name shadows an earlier
/// one.
pub type LabelTable = Seq<(Seq<char>, u16)>;

/// The view of an executable label table.
pub open spec fn spec_label_view(t: Seq<(String, Label)>) -> LabelTable {
    Seq::new(t.len(), |i: int| (t[i].0@, t[i].1.0))
}

/// The address bound to a label: the latest definition wins. Label names
/// arrive upper-cased from the lexer, so lookups on assembled programs
/// are case-insensitive.
pub open spec fn spec_label_lookup(tbl: LabelTable, name: Seq<char>) -> Option<u16>
    decreases tbl.len(),
{
    if tbl.len() == 0 {
        None
    } else if tbl.last().0 == name {
        Some(tbl.last().1)
    } else {
        spec_label_lookup(tbl.drop_last(), name)
    }
}

/// A 16-bit address advanced with wraparound.
pub open spec fn spec_wrap16(x: int) -> u16 {
    (x % 0x10000) as u16
}

/// Pass one: the label table after walking the tokens from `i` on with
/// running address `addr`. A label records the current address; an
/// opcode advances it by its length; an origin directive moves it.
pub open spec fn spec_index_labels(
    toks: Seq<ParserTokenView>,
    i: int,
    addr: u16,
    tbl: LabelTable,
) -> LabelTable
    decreases toks.len() - i,
{
    if i >= toks.len() {
        tbl
    } else {
        match toks[i] {
            ParserTokenView::Label(name) => spec_index_labels(
                toks,
                i + 1,
                addr,
                tbl.push((name, addr)),
            ),
            ParserTokenView::OpCode(op) => spec_index_labels(
                toks,
                i + 1,
                spec_wrap16(addr + op.length),
                tbl,
            ),
            ParserTokenView::OrgDirective(a) => spec_index_labels(toks, i + 1, a, tbl),
            _ => spec_index_labels(toks, i + 1, addr, tbl),
        }
    }
}

/// The two's-complement byte of a branch distance in `[-128, 127]`.
pub open spec fn spec_rel_byte(d: int) -> u8 {
    if d < 0 {
        (d + 256) as u8
    } else {
        d as u8
    }
}

/// Pass two: the segments emitted by the tokens from `i` on.
///
/// `addr` is the running address and `last_mode` the addressing mode of
/// the opcode most recently emitted, which decides how a pending label
/// argument is laid out: two little-endian bytes after an absolute-mode
/// opcode, one relative branch byte otherwise. The branch byte is
/// measured from the address past the whole branch instruction; a
/// distance outside `[-128, 127]` is an error. `done` holds the finished
/// segments and (`cur_addr`, `cur_code`) the one being filled; an origin
/// directive closes the current segment if it holds any bytes.
pub open spec fn spec_emit(
    toks: Seq<ParserTokenView>,
    i: int,
    addr: u16,
    last_mode: AddressingMode,
    labels: LabelTable,
    done: Seq<(u16, Seq<u8>)>,
    cur_addr: u16,
    cur_code: Seq<u8>,
) -> Result<Seq<(u16, Seq<u8>)>, Seq<char>>
    decreases toks.len() - i,
{
    if i >= toks.len() {
        Ok(done.push((cur_addr, cur_code)))
    } else {
        match toks[i] {
            ParserTokenView::OpCode(op) => spec_emit(
                toks,
                i + 1,
                spec_wrap16(addr + op.length),
                op.mode,
                labels,
                done,
                cur_addr,
                cur_code.push(op.code),
            ),
            ParserTokenView::OrgDirective(a) => {
                let done2 = if cur_code.len() > 0 {
                    done.push((cur_addr, cur_code))
                } else {
                    done
                };
                spec_emit(toks, i + 1, a, last_mode, labels, done2, a, seq![])
            },
            ParserTokenView::RawByte(b) => spec_emit(
                toks,
                i + 1,
                addr,
                last_mode,
                labels,
                done,
                cur_addr,
                cur_code.push(b),
            ),
            ParserTokenView::RawBytes(bs) => spec_emit(
                toks,
                i + 1,
                addr,
                last_mode,
                labels,
                done,
                cur_addr,
                cur_code + bs,
            ),
            ParserTokenView::LabelArg(name) => match spec_label_lookup(labels, name) {
                None => Err(spec_msg_unknown_label(name)),
                Some(la) => if last_mode == AddressingMode::Absolute {
                    spec_emit(
                        toks,
                        i + 1,
                        addr,
                        last_mode,
                        labels,
                        done,
                        cur_addr,
                        cur_code + seq![(la % 256) as u8, (la / 256) as u8],
                    )
                } else {
                    let d = la - addr;
                    if d < -128 || d > 127 {
                        Err(spec_msg_relative_offset_too_large(name, addr))
                    } else {
                        spec_emit(
                            toks,
                            i + 1,
                            addr,
                            last_mode,
                            labels,
                            done,
                            cur_addr,
                            cur_code.push(spec_rel_byte(d)),
                        )
                    }
                },
            },
            ParserTokenView::Label(_) => spec_emit(
                toks,
                i + 1,
                addr,
                last_mode,
                labels,
                done,
                cur_addr,
                cur_code,
            ),
        }
    }
}

/// What a parser token stream assembles to, from a given origin and with
/// a given starting label table: the segments and the label table that
/// pass one leaves behind.
pub open spec fn spec_assemble_tokens(
    toks: Seq<ParserTokenView>,
    origin: u16,
    tbl0: LabelTable,
) -> (Result<Seq<(u16, Seq<u8>)>, Seq<char>>, LabelTable) {
    let labels = spec_index_labels(toks, 0, origin, tbl0);
    (
        spec_emit(toks, 0, origin, AddressingMode::Absolute, labels, seq![], origin, seq![]),
        labels,
    )
}

/// What a source text assembles to: lexing, parsing with a fresh
/// constant table, then the two passes from the given origin (zero when
/// none is supplied).
pub open spec fn spec_assemble_string(
    src: Seq<char>,
    offset: Option<u16>,
    tbl0: LabelTable,
) -> Result<Seq<(u16, Seq<u8>)>, Seq<char>> {
    let origin = match offset {
        Some(o) => o,
        None => 0,
    };
    match spec_lex(src, 0, 0) {
        Err(e) => Err(e),
        Ok(lines) => match spec_parse(lines, 0, Seq::<(Seq<char>, LexerTokenView)>::empty(), 0) {
            Err(e) => Err(e),
            Ok((toks, _)) => spec_assemble_tokens(toks, origin, tbl0).0,
        },
    }
}

/// A lexed token-line list never has more lines than the input has
/// characters.
pub proof fn lemma_lex_line_count(s: Seq<char>, from: int, line0: int)
    requires
        0 <= from <= s.len(),
    ensures
        spec_lex(s, from, line0) matches Ok(ls) ==> ls.len() <= s.len() - from,
    decreases s.len() - from,
{
    if from < s.len() {
        lemma_next_line_bounds(s, from);
        lemma_lex_line_count(s, crate::assembler::lexer::spec_next_line(s, from), line0 + 1);
    }
}

/// Assembler turns 6502 assembly source text into code segments, keeping
/// the label table of the most recent run.
pub struct Assembler {
    /// The labels indexed by the first pass of the most recent run, in
    /// definition order; a later definition of a name shadows an earlier
    /// one.
    pub symbol_table: Vec<(String, Label)>,
}

impl Assembler {
    /// An assembler with an empty label table.
    pub fn new() -> (r: Assembler)
        ensures
            r.symbol_table@.len() == 0,
    {
        Assembler { symbol_table: Vec::new() }
    }

    /// Assembles source text into code segments starting at `offset`
    /// (zero when `None`). Returns the segments in source order, or the
    /// first error of the pipeline. On an error the label table is
    /// cleared.
    pub fn assemble_string(&mut self, code: &str, offset: Option<u16>) -> (r: Result<
        Vec<CodeSegment>,
        AssemblerError,
    >)
        requires
            code@.len() + 2 < 0x1_0000_0000,
        ensures
            match r {
                Ok(v) => spec_assemble_string(
                    code@,
                    offset,
                    spec_label_view(old(self).symbol_table@),
                ) == Ok::<Seq<(u16, Seq<u8>)>, Seq<char>>(v.deep_view()),
                Err(e) => spec_assemble_string(
                    code@,
                    offset,
                    spec_label_view(old(self).symbol_table@),
                ) == Err::<Seq<(u16, Seq<u8>)>, Seq<char>>(e@)
                    && final(self).symbol_table@.len() == 0,
            },
    {
        let ghost tbl0 = spec_label_view(self.symbol_table@);
        let mut lexer = Lexer::new();
        let tokens = match lexer.lex_string(code) {
            Ok(t) => t,
            Err(e) => {
                proof {
                    assert(spec_lex(code@, 0, 0) == Err::<Seq<Seq<LexerTokenView>>, Seq<char>>(
                        e@,
                    ));
                }
                self.symbol_table = Vec::new();
                return Err(AssemblerError { message: e.message });
            },
        };
        proof {
            lemma_lex_line_count(code@, 0, 0);
            assert(spec_lex(code@, 0, 0) == Ok::<Seq<Seq<LexerTokenView>>, Seq<char>>(
                tokens.deep_view(),
            ));
        }
        let mut parser = Parser::new();
        proof {
            assert(crate::assembler::parser::spec_table_view(parser.symbol_table@)
                =~= Seq::<(Seq<char>, LexerTokenView)>::empty());
        }
        let ptokens = match parser.parse(tokens) {
            Ok(t) => t,
            Err(e) => {
                proof {
                    assert(spec_assemble_string(code@, offset, tbl0) == Err::<
                        Seq<(u16, Seq<u8>)>,
                        Seq<char>,
                    >(e@));
                }
                self.symbol_table = Vec::new();
                return Err(AssemblerError { message: e.message });
            },
        };
        proof {
            assert(spec_assemble_string(code@, offset, tbl0) == spec_assemble_tokens(
                ptokens.deep_view(),
                match offset {
                    Some(o) => o,
                    None => 0u16,
                },
                tbl0,
            ).0);
        }
        self.assemble(ptokens, offset)
    }

    /// The two passes over a parser token stream; see
    /// `spec_assemble_tokens`.
    fn assemble(&mut self, tokens: Vec<ParserToken>, offset: Option<u16>) -> (r: Result<
        Vec<CodeSegment>,
        AssemblerError,
    >)
        ensures
            ({
                let origin = match offset {
                    Some(o) => o,
                    None => 0u16,
                };
                let staged = spec_assemble_tokens(
                    tokens.deep_view(),
                    origin,
                    spec_label_view(old(self).symbol_table@),
                );
                match r {
                    Ok(v) => staged.0 == Ok::<Seq<(u16, Seq<u8>)>, Seq<char>>(v.deep_view())
                        && spec_label_view(final(self).symbol_table@) == staged.1,
                    Err(e) => staged.0 == Err::<Seq<(u16, Seq<u8>)>, Seq<char>>(e@)
                        && final(self).symbol_table@.len() == 0,
                }
            }),
    {
        let origin = match offset {
            Some(o) => o,
            None => 0u16,
        };
        self.index_labels(&tokens, origin);
        let ghost labels = spec_label_view(self.symbol_table@);
        let ghost td = tokens.deep_view();

        let mut result: Vec<CodeSegment> = Vec::new();
        let mut addr: u16 = origin;
        let mut last_mode: AddressingMode = AddressingMode::Absolute;
        let mut cur_addr: u16 = origin;
        let mut cur_code: Vec<u8> = Vec::new();
        let mut i: usize = 0;
        assert(result.deep_view() =~= Seq::<(u16, Seq<u8>)>::empty());
        assert(cur_code@ =~= Seq::<u8>::empty());
        while i < tokens.len()
            invariant
                0 <= i <= tokens@.len(),
                td == tokens.deep_view(),
                origin == (match offset {
                    Some(o) => o,
                    None => 0u16,
                }),
                labels == spec_label_view(self.symbol_table@),
                labels == spec_index_labels(td, 0, origin, spec_label_view(
                    old(self).symbol_table@,
                )),
                spec_emit(
                    td,
                    0,
                    origin,
                    AddressingMode::Absolute,
                    labels,
                    Seq::<(u16, Seq<u8>)>::empty(),
                    origin,
                    Seq::<u8>::empty(),
                ) == spec_emit(
                    td,
                    i as int,
                    addr,
                    last_mode,
                    labels,
                    result.deep_view(),
                    cur_addr,
                    cur_code@,
                ),
            decreases tokens@.len() - i,
        {
            assert(td[i as int] == tokens@[i as int]@);
            let ghost done0 = result.deep_view();
            match &tokens[i] {
                ParserToken::OpCode(op) => {
                    cur_code.push(op.code);
                    addr = ((addr as u32 + op.length as u32) % 0x10000) as u16;
                    last_mode = op.mode;
                },
                ParserToken::OrgDirective(a) => {
                    if cur_code.len() > 0 {
                        let seg = CodeSegment { address: cur_addr, code: cur_code };
                        let ghost segv = seg@;
                        result.push(seg);
                        proof {
                            assert forall|k: int|
                                0 <= k < result.deep_view().len() implies result.deep_view()[k]
                                == done0.push(segv)[k] by {
                                assert(result.deep_view()[k] == result@[k].deep_view());
                            }
                            assert(result.deep_view() =~= done0.push(segv));
                        }
                        cur_code = Vec::new();
                    }
                    cur_addr = *a;
                    addr = *a;
                    assert(cur_code@ =~= Seq::<u8>::empty());
                },
                ParserToken::RawByte(b) => {
                    cur_code.push(*b);
                },
                ParserToken::RawBytes(bs) => {
                    let ghost cc0 = cur_code@;
                    let mut j: usize = 0;
                    while j < bs.len()
                        invariant
                            0 <= j <= bs@.len(),
                            cur_code@ == cc0 + bs@.subrange(0, j as int),
                        decreases bs@.len() - j,
                    {
                        cur_code.push(bs[j]);
                        proof {
                            assert(cc0 + bs@.subrange(0, j + 1) =~= (cc0 + bs@.subrange(
                                0,
                                j as int,
                            )).push(bs@[j as int]));
                        }
                        j = j + 1;
                    }
                    proof {
                        assert(bs@.subrange(0, bs@.len() as int) =~= bs@);
                    }
                },
                ParserToken::LabelArg(name) => {
                    proof {
                        assert(spec_label_view(self.symbol_table@).take(
                            self.symbol_table@.len() as int,
                        ) =~= spec_label_view(self.symbol_table@));
                    }
                    match Self::label_lookup(&self.symbol_table, self.symbol_table.len(), name) {
                        None => {
                            proof {
                                assert(spec_emit(
                                    td,
                                    i as int,
                                    addr,
                                    last_mode,
                                    labels,
                                    result.deep_view(),
                                    cur_addr,
                                    cur_code@,
                                ) == Err::<Seq<(u16, Seq<u8>)>, Seq<char>>(
                                    spec_msg_unknown_label(name@),
                                ));
                            }
                            self.symbol_table = Vec::new();
                            return Err(AssemblerError::unknown_label(name.as_str()));
                        },
                        Some(la) => {
                            if last_mode == AddressingMode::Absolute {
                                let ghost cc0 = cur_code@;
                                cur_code.push((la % 256) as u8);
                                cur_code.push((la / 256) as u8);
                                proof {
                                    assert(cur_code@ =~= cc0 + seq![
                                        (la % 256) as u8,
                                        (la / 256) as u8,
                                    ]);
                                }
                            } else {
                                let d: i32 = la as i32 - addr as i32;
                                if d < -128 || d > 127 {
                                    proof {
                                        assert(spec_emit(
                                            td,
                                            i as int,
                                            addr,
                                            last_mode,
                                            labels,
                                            result.deep_view(),
                                            cur_addr,
                                            cur_code@,
                                        ) == Err::<Seq<(u16, Seq<u8>)>, Seq<char>>(
                                            spec_msg_relative_offset_too_large(name@, addr),
                                        ));
                                    }
                                    self.symbol_table = Vec::new();
                                    return Err(
                                        AssemblerError::relative_offset_too_large(
                                            name.as_str(),
                                            addr,
                                        ),
                                    );
                                }
                                let byte: u8 = if d < 0 {
                                    (d + 256) as u8
                                } else {
                                    d as u8
                                };
                                cur_code.push(byte);
                            }
                        },
                    }
                },
                ParserToken::Label(_) => {},
            }
            i = i + 1;
        }
        let seg = CodeSegment { address: cur_addr, code: cur_code };
        let ghost done0 = result.deep_view();
        let ghost segv = seg@;
        result.push(seg);
        proof {
            assert forall|k: int| 0 <= k < result.deep_view().len() implies result.deep_view()[k]
                == done0.push(segv)[k] by {
                assert(result.deep_view()[k] == result@[k].deep_view());
            }
            assert(result.deep_view() =~= done0.push(segv));
        }
        Ok(result)
    }

    /// Pass one: records every label's address in the symbol table; see
    /// `spec_index_labels`.
    fn index_labels(&mut self, tokens: &Vec<ParserToken>, origin: u16)
        ensures
            spec_label_view(final(self).symbol_table@) == spec_index_labels(
                tokens.deep_view(),
                0,
                origin,
                spec_label_view(old(self).symbol_table@),
            ),
    {
        let ghost td = tokens.deep_view();
        let ghost tbl0 = spec_label_view(old(self).symbol_table@);
        let mut addr: u16 = origin;
        let mut i: usize = 0;
        while i < tokens.len()
            invariant
                0 <= i <= tokens@.len(),
                td == tokens.deep_view(),
                spec_index_labels(td, 0, origin, tbl0) == spec_index_labels(
                    td,
                    i as int,
                    addr,
                    spec_label_view(self.symbol_table@),
                ),
            decreases tokens@.len() - i,
        {
            assert(td[i as int] == tokens@[i as int]@);
            let ghost tv0 = spec_label_view(self.symbol_table@);
            match &tokens[i] {
                ParserToken::Label(name) => {
                    self.symbol_table.push((name.clone(), Label(addr)));
                    proof {
                        assert forall|k: int|
                            0 <= k < spec_label_view(self.symbol_table@).len() implies
                            spec_label_view(self.symbol_table@)[k] == tv0.push(
                            (name@, addr),
                        )[k] by {}
                        assert(spec_label_view(self.symbol_table@) =~= tv0.push((name@, addr)));
                    }
                },
                ParserToken::OpCode(op) => {
                    addr = ((addr as u32 + op.length as u32) % 0x10000) as u16;
                },
                ParserToken::OrgDirective(a) => {
                    addr = *a;
                },
                _ => {},
            }
            i = i + 1;
        }
    }

    /// The address bound to a label among the table's first `j` entries,
    /// latest definition first.
    fn label_lookup(table: &Vec<(String, Label)>, j: usize, name: &String) -> (r: Option<u16>)
        requires
            j <= table@.len(),
        ensures
            r == spec_label_lookup(spec_label_view(table@).take(j as int), name@),
        decreases j,
    {
        let ghost tv = spec_label_view(table@).take(j as int);
        if j == 0 {
            None
        } else {
            proof {
                assert(tv.last() == (table@[j - 1].0@, table@[j - 1].1.0));
                assert(tv.drop_last() =~= spec_label_view(table@).take(j - 1));
            }
            if table[j - 1].0 == *name {
                Some(table[j - 1].1.0)
            } else {
                Self::label_lookup(table, j - 1, name)
            }
        }
    }
}


/// Every label argument resolves to a 16-bit address, and a relative
/// branch resolves to a single offset byte exactly when the distance
/// from the instruction's end lies in `[-128, 127]`; any other distance
/// fails with the branch-too-far error.
pub proof fn lemma_relative_branch_range(
    toks: Seq<ParserTokenView>,
    i: int,
    addr: u16,
    last_mode: AddressingMode,
    labels: LabelTable,
    done: Seq<(u16, Seq<u8>)>,
    cur_addr: u16,
    cur_code: Seq<u8>,
    name: Seq<char>,
    la: u16,
)
    requires
        0 <= i < toks.len(),
        toks[i] == ParserTokenView::LabelArg(name),
        spec_label_lookup(labels, name) == Some(la),
        last_mode != AddressingMode::Absolute,
    ensures
        0 <= la < 0x10000,
        la - addr < -128 || la - addr > 127 ==> spec_emit(
            toks,
            i,
            addr,
            last_mode,
            labels,
            done,
            cur_addr,
            cur_code,
        ) == Err::<Seq<(u16, Seq<u8>)>, Seq<char>>(spec_msg_relative_offset_too_large(name, addr)),
        -128 <= la - addr <= 127 ==> spec_emit(
            toks,
            i,
            addr,
            last_mode,
            labels,
            done,
            cur_addr,
            cur_code,
        ) == spec_emit(
            toks,
            i + 1,
            addr,
            last_mode,
            labels,
            done,
            cur_addr,
            cur_code.push(spec_rel_byte(la - addr)),
        ),
{
}


/// Whole-stream label resolution: when emission succeeds, every label
/// argument among the remaining tokens is bound in the label table (to a
/// 16-bit address, as all label addresses are). An unresolved label
/// argument always stops emission with an error.
pub proof fn lemma_ok_resolves_every_label(
    toks: Seq<ParserTokenView>,
    i: int,
    addr: u16,
    last_mode: AddressingMode,
    labels: LabelTable,
    done: Seq<(u16, Seq<u8>)>,
    cur_addr: u16,
    cur_code: Seq<u8>,
)
    requires
        0 <= i <= toks.len(),
        spec_emit(toks, i, addr, last_mode, labels, done, cur_addr, cur_code) is Ok,
    ensures
        forall|j: int|
            i <= j < toks.len() ==> ((#[trigger] toks[j]) matches ParserTokenView::LabelArg(name)
                ==> spec_label_lookup(labels, name) is Some),
    decreases toks.len() - i,
{
    if i < toks.len() {
        match toks[i] {
            ParserTokenView::OpCode(op) => {
                lemma_ok_resolves_every_label(
                    toks,
                    i + 1,
                    spec_wrap16(addr + op.length),
                    op.mode,
                    labels,
                    done,
                    cur_addr,
                    cur_code.push(op.code),
                );
            },
            ParserTokenView::OrgDirective(a) => {
                let done2 = if cur_code.len() > 0 {
                    done.push((cur_addr, cur_code))
                } else {
                    done
                };
                lemma_ok_resolves_every_label(toks, i + 1, a, last_mode, labels, done2, a, seq![]);
            },
            ParserTokenView::RawByte(b) => {
                lemma_ok_resolves_every_label(
                    toks,
                    i + 1,
                    addr,
                    last_mode,
                    labels,
                    done,
                    cur_addr,
                    cur_code.push(b),
                );
            },
            ParserTokenView::RawBytes(bs) => {
                lemma_ok_resolves_every_label(
                    toks,
                    i + 1,
                    addr,
                    last_mode,
                    labels,
                    done,
                    cur_addr,
                    cur_code + bs,
                );
            },
            ParserTokenView::LabelArg(name) => {
                let la = spec_label_lookup(labels, name)->Some_0;
                if last_mode == AddressingMode::Absolute {
                    lemma_ok_resolves_every_label(
                        toks,
                        i + 1,
                        addr,
                        last_mode,
                        labels,
                        done,
                        cur_addr,
                        cur_code + seq![(la % 256) as u8, (la / 256) as u8],
                    );
                } else {
                    lemma_ok_resolves_every_label(
                        toks,
                        i + 1,
                        addr,
                        last_mode,
                        labels,
                        done,
                        cur_addr,
                        cur_code.push(spec_rel_byte(la - addr)),
                    );
                }
            },
            ParserTokenView::Label(_) => {
                lemma_ok_resolves_every_label(
                    toks,
                    i + 1,
                    addr,
                    last_mode,
                    labels,
                    done,
                    cur_addr,
                    cur_code,
                );
            },
        }
    }
}

} // verus!
