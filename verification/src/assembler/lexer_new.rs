//! The lexer of the assembler as a machine of states: it reads one token at a
//! call and keeps the last two in a ring.
//!
//! The state that reads white space passes the first byte of what follows by
//! before another state takes over. So a number and a string begin after
//! their first byte, and a sign is the byte after the one that announced it.

use crate::assembler::lexer::lemma_run_end_bounds;
use crate::assembler::lexer::line_at;
use crate::assembler::lexer::run_end;
use crate::assembler::lexer::spells;
use crate::assembler::lexer::word_is;
use crate::assembler::lexer::ByteClass;
use vstd::prelude::*;
use vstd::slice::slice_to_vec;
use vstd::string::StringSliceAdditionalSpecFns;

verus! {

#[derive(PartialEq, Eq, Debug, Copy, Clone, Structural)]
pub enum TokenType {
    Identifier,
    ByteRegister,
    WordRegister,
    Number,
    String,
    KeywordNop,
    KeywordLoad,
    KeywordInc,
    KeywordDec,
    KeywordRlca,
    KeywordRrca,
    KeywordRra,
    KeywordAnd,
    KeywordXor,
    KeywordOr,
    KeywordCp,
    KeywordAdd,
    KeywordAdc,
    KeywordSub,
    KeywordSbc,
    KeywordStop,
    KeywordRla,
    KeywordJr,
    KeywordJp,
    KeywordDaa,
    KeywordCpl,
    KeywordCcf,
    KeywordHalt,
    KeywordRet,
    KeywordPush,
    KeywordPop,
    KeywordCall,
    KeywordRst,
    KeywordEi,
    KeywordDi,
    KeywordRlc,
    KeywordRrc,
    KeywordRl,
    KeywordRr,
    KeywordSla,
    KeywordSra,
    KeywordSwap,
    KeywordBit,
    KeywordRes,
    KeywordSet,
    Comma,
    Colon,
    DollarSign,
    OpenParen,
    CloseParen,
    Dot,
    Equals,
    RenamingOperator,
    Minus,
    Plus,
    Eof,
}

/// The kind of token that a word is: a register or a keyword if the word
/// spells one in either case, else an identifier.
pub open spec fn keyword_type(word: Seq<u8>) -> TokenType {
    if spells(word, "a") {
        TokenType::ByteRegister
    } else if spells(word, "b") {
        TokenType::ByteRegister
    } else if spells(word, "c") {
        TokenType::ByteRegister
    } else if spells(word, "d") {
        TokenType::ByteRegister
    } else if spells(word, "e") {
        TokenType::ByteRegister
    } else if spells(word, "h") {
        TokenType::ByteRegister
    } else if spells(word, "l") {
        TokenType::ByteRegister
    } else if spells(word, "af") {
        TokenType::WordRegister
    } else if spells(word, "bc") {
        TokenType::WordRegister
    } else if spells(word, "de") {
        TokenType::WordRegister
    } else if spells(word, "hl") {
        TokenType::WordRegister
    } else if spells(word, "nop") {
        TokenType::KeywordNop
    } else if spells(word, "ld") {
        TokenType::KeywordLoad
    } else if spells(word, "inc") {
        TokenType::KeywordInc
    } else if spells(word, "dec") {
        TokenType::KeywordDec
    } else if spells(word, "rlca") {
        TokenType::KeywordRlca
    } else if spells(word, "rrca") {
        TokenType::KeywordRrca
    } else if spells(word, "rra") {
        TokenType::KeywordRra
    } else if spells(word, "and") {
        TokenType::KeywordAnd
    } else if spells(word, "xor") {
        TokenType::KeywordXor
    } else if spells(word, "or") {
        TokenType::KeywordOr
    } else if spells(word, "cp") {
        TokenType::KeywordCp
    } else if spells(word, "add") {
        TokenType::KeywordAdd
    } else if spells(word, "adc") {
        TokenType::KeywordAdc
    } else if spells(word, "sub") {
        TokenType::KeywordSub
    } else if spells(word, "sbc") {
        TokenType::KeywordSbc
    } else if spells(word, "stop") {
        TokenType::KeywordStop
    } else if spells(word, "rla") {
        TokenType::KeywordRla
    } else if spells(word, "jr") {
        TokenType::KeywordJr
    } else if spells(word, "jp") {
        TokenType::KeywordJp
    } else if spells(word, "daa") {
        TokenType::KeywordDaa
    } else if spells(word, "cpl") {
        TokenType::KeywordCpl
    } else if spells(word, "ccf") {
        TokenType::KeywordCcf
    } else if spells(word, "halt") {
        TokenType::KeywordHalt
    } else if spells(word, "ret") {
        TokenType::KeywordRet
    } else if spells(word, "push") {
        TokenType::KeywordPush
    } else if spells(word, "pop") {
        TokenType::KeywordPop
    } else if spells(word, "call") {
        TokenType::KeywordCall
    } else if spells(word, "rst") {
        TokenType::KeywordRst
    } else if spells(word, "ei") {
        TokenType::KeywordEi
    } else if spells(word, "di") {
        TokenType::KeywordDi
    } else if spells(word, "rlc") {
        TokenType::KeywordRlc
    } else if spells(word, "rrc") {
        TokenType::KeywordRrc
    } else if spells(word, "rl") {
        TokenType::KeywordRl
    } else if spells(word, "rr") {
        TokenType::KeywordRr
    } else if spells(word, "sla") {
        TokenType::KeywordSla
    } else if spells(word, "sra") {
        TokenType::KeywordSra
    } else if spells(word, "swap") {
        TokenType::KeywordSwap
    } else if spells(word, "bit") {
        TokenType::KeywordBit
    } else if spells(word, "res") {
        TokenType::KeywordRes
    } else if spells(word, "set") {
        TokenType::KeywordSet
    } else {
        TokenType::Identifier
    }
}

/// The kind of token that the word from `start` to `end` is.
fn classify(bytes: &[u8], start: usize, end: usize) -> (token: TokenType)
    requires
        start <= end <= bytes@.len(),
    ensures
        token == keyword_type(bytes@.subrange(start as int, end as int)),
{
    if word_is(bytes, start, end, "a") {
        TokenType::ByteRegister
    } else if word_is(bytes, start, end, "b") {
        TokenType::ByteRegister
    } else if word_is(bytes, start, end, "c") {
        TokenType::ByteRegister
    } else if word_is(bytes, start, end, "d") {
        TokenType::ByteRegister
    } else if word_is(bytes, start, end, "e") {
        TokenType::ByteRegister
    } else if word_is(bytes, start, end, "h") {
        TokenType::ByteRegister
    } else if word_is(bytes, start, end, "l") {
        TokenType::ByteRegister
    } else if word_is(bytes, start, end, "af") {
        TokenType::WordRegister
    } else if word_is(bytes, start, end, "bc") {
        TokenType::WordRegister
    } else if word_is(bytes, start, end, "de") {
        TokenType::WordRegister
    } else if word_is(bytes, start, end, "hl") {
        TokenType::WordRegister
    } else if word_is(bytes, start, end, "nop") {
        TokenType::KeywordNop
    } else if word_is(bytes, start, end, "ld") {
        TokenType::KeywordLoad
    } else if word_is(bytes, start, end, "inc") {
        TokenType::KeywordInc
    } else if word_is(bytes, start, end, "dec") {
        TokenType::KeywordDec
    } else if word_is(bytes, start, end, "rlca") {
        TokenType::KeywordRlca
    } else if word_is(bytes, start, end, "rrca") {
        TokenType::KeywordRrca
    } else if word_is(bytes, start, end, "rra") {
        TokenType::KeywordRra
    } else if word_is(bytes, start, end, "and") {
        TokenType::KeywordAnd
    } else if word_is(bytes, start, end, "xor") {
        TokenType::KeywordXor
    } else if word_is(bytes, start, end, "or") {
        TokenType::KeywordOr
    } else if word_is(bytes, start, end, "cp") {
        TokenType::KeywordCp
    } else if word_is(bytes, start, end, "add") {
        TokenType::KeywordAdd
    } else if word_is(bytes, start, end, "adc") {
        TokenType::KeywordAdc
    } else if word_is(bytes, start, end, "sub") {
        TokenType::KeywordSub
    } else if word_is(bytes, start, end, "sbc") {
        TokenType::KeywordSbc
    } else if word_is(bytes, start, end, "stop") {
        TokenType::KeywordStop
    } else if word_is(bytes, start, end, "rla") {
        TokenType::KeywordRla
    } else if word_is(bytes, start, end, "jr") {
        TokenType::KeywordJr
    } else if word_is(bytes, start, end, "jp") {
        TokenType::KeywordJp
    } else if word_is(bytes, start, end, "daa") {
        TokenType::KeywordDaa
    } else if word_is(bytes, start, end, "cpl") {
        TokenType::KeywordCpl
    } else if word_is(bytes, start, end, "ccf") {
        TokenType::KeywordCcf
    } else if word_is(bytes, start, end, "halt") {
        TokenType::KeywordHalt
    } else if word_is(bytes, start, end, "ret") {
        TokenType::KeywordRet
    } else if word_is(bytes, start, end, "push") {
        TokenType::KeywordPush
    } else if word_is(bytes, start, end, "pop") {
        TokenType::KeywordPop
    } else if word_is(bytes, start, end, "call") {
        TokenType::KeywordCall
    } else if word_is(bytes, start, end, "rst") {
        TokenType::KeywordRst
    } else if word_is(bytes, start, end, "ei") {
        TokenType::KeywordEi
    } else if word_is(bytes, start, end, "di") {
        TokenType::KeywordDi
    } else if word_is(bytes, start, end, "rlc") {
        TokenType::KeywordRlc
    } else if word_is(bytes, start, end, "rrc") {
        TokenType::KeywordRrc
    } else if word_is(bytes, start, end, "rl") {
        TokenType::KeywordRl
    } else if word_is(bytes, start, end, "rr") {
        TokenType::KeywordRr
    } else if word_is(bytes, start, end, "sla") {
        TokenType::KeywordSla
    } else if word_is(bytes, start, end, "sra") {
        TokenType::KeywordSra
    } else if word_is(bytes, start, end, "swap") {
        TokenType::KeywordSwap
    } else if word_is(bytes, start, end, "bit") {
        TokenType::KeywordBit
    } else if word_is(bytes, start, end, "res") {
        TokenType::KeywordRes
    } else if word_is(bytes, start, end, "set") {
        TokenType::KeywordSet
    } else {
        TokenType::Identifier
    }
}

impl vstd::std_specs::convert::FromSpecImpl<&str> for TokenType {
    open spec fn obeys_from_spec() -> bool {
        true
    }

    open spec fn from_spec(value: &str) -> TokenType {
        keyword_type(value.spec_bytes())
    }
}

impl From<&str> for TokenType {
    /// The kind of token that a word is.
    fn from(value: &str) -> (token: TokenType) {
        let bytes = value.as_bytes();
        assert(bytes@.subrange(0, bytes@.len() as int) =~= bytes@);
        classify(bytes, 0, bytes.len())
    }
}

/// The kind of token that a sign is, if it is one.
pub open spec fn operator_type(byte: u8) -> Option<TokenType> {
    if byte == 0x2C {
        Some(TokenType::Comma)
    } else if byte == 0x28 {
        Some(TokenType::OpenParen)
    } else if byte == 0x29 {
        Some(TokenType::CloseParen)
    } else if byte == 0x2E {
        Some(TokenType::Dot)
    } else if byte == 0x24 {
        Some(TokenType::DollarSign)
    } else if byte == 0x3A {
        Some(TokenType::Colon)
    } else if byte == 0x2D {
        Some(TokenType::Minus)
    } else if byte == 0x2B {
        Some(TokenType::Plus)
    } else if byte == 0x3D {
        Some(TokenType::Equals)
    } else {
        None
    }
}

/// A token: its kind, its range in the source, the line it ends in, and how
/// far behind the last line feed it ends.
#[derive(Eq, PartialEq, Copy, Clone, Debug, Structural)]
pub struct Token {
    pub line: usize,
    pub start: usize,
    pub end: usize,
    pub line_pos: usize,
    pub tokentype: TokenType,
}

impl Token {
    /// The token of a kind from the lexer's mark to the place it has read to.
    pub fn generate(tokentype: TokenType, lexer: &Lexer) -> (token: Token)
        ensures
            token == lexer@.token(tokentype),
    {
        proof {
            use_type_invariant(lexer);
        }
        let line_pos = lexer.cursor.position - lexer.cursor.line_start;
        Token {
            line: lexer.cursor.line,
            start: lexer.start,
            end: lexer.cursor.position,
            line_pos,
            tokentype,
        }
    }

    /// The length of the token's range.
    pub fn length(&self) -> (length: usize)
        ensures
            length == if self.end >= self.start {
                self.end - self.start
            } else {
                0
            },
    {
        self.end.saturating_sub(self.start)
    }

    /// The range of the token's text in the source.
    pub fn range(&self) -> (range: std::ops::Range<usize>)
        ensures
            range.start == self.start,
            range.end == self.end,
    {
        self.start..self.end
    }
}

/// Why the lexer could not read a token.
#[derive(Debug, Eq, PartialEq, Clone, Copy, Structural)]
pub enum LexerErrors {
    StringWithoutEnd,
    /// A number is followed by this byte, which is neither a digit nor a space.
    InvalidNumberLiteral(u8),
    /// This byte stands where a sign must, and is none.
    UnknownOperator(u8),
    /// The source ends where a sign must stand.
    OperatorWithoutSymbol,
}

/// What a state has done in one turn.
#[derive(Debug, Eq, PartialEq, Clone, Copy, Structural)]
pub enum ProcessorMessage {
    TokenAdded,
    /// The state has handed over to another state.
    Nop,
}

/// The states of the lexer.
#[derive(Debug, Eq, PartialEq, Clone, Copy, Structural)]
pub enum Processor {
    Basic,
    Identifier,
    DecimalNumber,
    HexadecimalNumber,
    BinaryNumber,
    StringLiteral,
    Operator,
    EndOfFile,
}

/// The place of the last line feed before a position, and 0 if there is none.
pub open spec fn last_line_feed(bytes: Seq<u8>, position: int) -> int
    decreases position,
{
    if position <= 0 || position > bytes.len() {
        0
    } else if bytes[position - 1] == 0x0A {
        position - 1
    } else {
        last_line_feed(bytes, position - 1)
    }
}

/// The lexer as contracts see it.
pub struct LexerModel {
    pub bytes: Seq<u8>,
    /// Where the token that is being read begins.
    pub start: int,
    /// The place that the source has been read to.
    pub current: int,
    /// The state that takes the next turn, and none once the lexer has stopped.
    pub state: Option<Processor>,
    /// The ring of the last two tokens.
    pub ring: Seq<Option<Token>>,
    pub ring_write_pos: int,
    pub ring_read_pos: int,
}

impl LexerModel {
    /// The token of a kind from the mark to the place read to.
    pub open spec fn token(self, tokentype: TokenType) -> Token {
        Token {
            line: line_at(self.bytes, self.current),
            start: self.start as usize,
            end: self.current as usize,
            line_pos: (self.current - last_line_feed(self.bytes, self.current)) as usize,
            tokentype,
        }
    }

    /// The lexer after a token was put in the ring.
    pub open spec fn pushed(self, token: Token) -> LexerModel {
        LexerModel {
            ring: self.ring.update(self.ring_write_pos, Some(token)),
            ring_write_pos: (self.ring_write_pos + 1) % 2,
            ..self
        }
    }

    /// The lexer after the token at the place of reading was taken out of the ring.
    pub open spec fn popped(self) -> LexerModel {
        LexerModel {
            ring: self.ring.update(self.ring_read_pos, None),
            ring_read_pos: (self.ring_read_pos + 1) % 2,
            ..self
        }
    }

    /// The lexer after the token from the mark to `end` was read and the
    /// white-space state took over.
    pub open spec fn emit(self, tokentype: TokenType, end: int) -> LexerModel {
        let read = LexerModel { current: end, ..self };
        LexerModel { state: Some(Processor::Basic), ..read.pushed(read.token(tokentype)) }
    }

    /// The state that takes over after a byte.
    pub open spec fn state_for(byte: u8) -> Processor {
        if byte == 0x25 {
            Processor::BinaryNumber
        } else if ByteClass::Name.holds(byte) {
            Processor::Identifier
        } else if ByteClass::Digit.holds(byte) {
            Processor::DecimalNumber
        } else if byte == 0x22 {
            Processor::StringLiteral
        } else {
            Processor::Operator
        }
    }

    /// The turn of a state that reads a number of digits of a class: the
    /// number ends at a space or with the source; after decimal digits an `x`
    /// hands over to the state that reads hexadecimal digits; any other byte
    /// is an error, and the lexer stays before it.
    pub open spec fn number(self, class: ByteClass) -> (
        LexerModel,
        Result<ProcessorMessage, LexerErrors>,
    ) {
        let marked = LexerModel { start: self.current, ..self };
        let end = run_end(self.bytes, self.current, class);
        if end >= self.bytes.len() || self.bytes[end] == 0x20 {
            (marked.emit(TokenType::Number, end), Ok(ProcessorMessage::TokenAdded))
        } else if class == ByteClass::Digit && self.bytes[end] == 0x78 {
            (
                LexerModel {
                    current: end + 1,
                    state: Some(Processor::HexadecimalNumber),
                    ..marked
                },
                Ok(ProcessorMessage::Nop),
            )
        } else {
            (
                LexerModel { current: end, ..marked },
                Err(LexerErrors::InvalidNumberLiteral(self.bytes[end])),
            )
        }
    }

    /// One turn of the state whose turn it is.
    pub open spec fn turn(self, processor: Processor) -> (
        LexerModel,
        Result<ProcessorMessage, LexerErrors>,
    ) {
        match processor {
            Processor::Basic => {
                let at = run_end(self.bytes, self.current, ByteClass::Blank);
                if at >= self.bytes.len() {
                    (
                        LexerModel { current: at, state: Some(Processor::EndOfFile), ..self },
                        Ok(ProcessorMessage::Nop),
                    )
                } else {
                    (
                        LexerModel {
                            current: at + 1,
                            state: Some(Self::state_for(self.bytes[at])),
                            ..self
                        },
                        Ok(ProcessorMessage::Nop),
                    )
                }
            },
            Processor::Identifier => {
                let start = self.current - 1;
                let end = run_end(self.bytes, self.current, ByteClass::Name);
                (
                    LexerModel { start, ..self }.emit(
                        keyword_type(self.bytes.subrange(start, end)),
                        end,
                    ),
                    Ok(ProcessorMessage::TokenAdded),
                )
            },
            Processor::DecimalNumber => self.number(ByteClass::Digit),
            Processor::HexadecimalNumber => self.number(ByteClass::Hex),
            Processor::BinaryNumber => self.number(ByteClass::Binary),
            Processor::StringLiteral => {
                let marked = LexerModel { start: self.current, ..self };
                let close = run_end(self.bytes, self.current, ByteClass::Unquoted);
                if close >= self.bytes.len() {
                    (
                        LexerModel { current: close, state: Some(Processor::EndOfFile), ..marked },
                        Err(LexerErrors::StringWithoutEnd),
                    )
                } else {
                    (marked.emit(TokenType::String, close + 1), Ok(ProcessorMessage::TokenAdded))
                }
            },
            Processor::Operator => {
                let marked = LexerModel { start: self.current, ..self };
                if self.current >= self.bytes.len() {
                    (
                        LexerModel { state: Some(Processor::EndOfFile), ..marked },
                        Err(LexerErrors::OperatorWithoutSymbol),
                    )
                } else {
                    match operator_type(self.bytes[self.current]) {
                        Some(tokentype) => (
                            marked.emit(tokentype, self.current + 1),
                            Ok(ProcessorMessage::TokenAdded),
                        ),
                        None => (
                            LexerModel { current: self.current + 1, ..marked },
                            Err(LexerErrors::UnknownOperator(self.bytes[self.current])),
                        ),
                    }
                }
            },
            Processor::EndOfFile => {
                let marked = LexerModel { start: self.current, ..self };
                (
                    LexerModel { state: None, ..marked.pushed(marked.token(TokenType::Eof)) },
                    Ok(ProcessorMessage::TokenAdded),
                )
            },
        }
    }

    /// The turns that a state can hand over for before a token is read or an
    /// error met: white space hands over to every other state, decimal digits
    /// to hexadecimal ones.
    pub open spec fn turns_left(state: Option<Processor>) -> nat {
        match state {
            None => 0,
            Some(Processor::Basic) => 3,
            Some(Processor::DecimalNumber) => 2,
            Some(_) => 1,
        }
    }

    /// The lexer after it has read the next token: the states take their turns
    /// until one has added a token or met an error. A lexer that has stopped
    /// stays as it is.
    pub open spec fn scan(self) -> (LexerModel, Result<(), LexerErrors>)
        decreases Self::turns_left(self.state),
    {
        match self.state {
            None => (self, Ok(())),
            Some(processor) => {
                let turned = self.turn(processor);
                match turned.1 {
                    Ok(ProcessorMessage::TokenAdded) => (turned.0, Ok(())),
                    Err(error) => (turned.0, Err(error)),
                    Ok(ProcessorMessage::Nop) => {
                        proof {
                            self.lemma_turns_decrease(processor);
                        }
                        turned.0.scan()
                    },
                }
            },
        }
    }

    /// A state that hands over hands over to one with fewer turns left.
    pub proof fn lemma_turns_decrease(self, processor: Processor)
        ensures
            self.turn(processor).1 == Ok::<ProcessorMessage, LexerErrors>(ProcessorMessage::Nop)
                ==> Self::turns_left(self.turn(processor).0.state) < Self::turns_left(
                Some(processor),
            ),
    {
    }
}

/// Where the lexer stands in its source.
#[derive(Debug, PartialEq, Eq, Copy, Clone, Structural)]
pub struct Cursor {
    pub position: usize,
    pub line: usize,
    /// The place of the last line feed that was passed by.
    pub line_start: usize,
}

/// The lexer.
pub struct Lexer {
    source: Vec<u8>,
    cursor: Cursor,
    start: usize,
    state: Option<Processor>,
    ring_buffer: [Option<Token>; 2],
    ring_write_pos: usize,
    ring_read_pos: usize,
}

impl View for Lexer {
    type V = LexerModel;

    closed spec fn view(&self) -> LexerModel {
        LexerModel {
            bytes: self.source@,
            start: self.start as int,
            current: self.cursor.position as int,
            state: self.state,
            ring: self.ring_buffer@,
            ring_write_pos: self.ring_write_pos as int,
            ring_read_pos: self.ring_read_pos as int,
        }
    }
}

impl Lexer {
    pub const RING_SIZE: usize = 2;

    #[verifier::type_invariant]
    spec fn well_formed(self) -> bool {
        &&& self.cursor.position <= self.source.len()
        &&& self.cursor.line == line_at(self.source@, self.cursor.position as int)
        &&& self.cursor.line_start == last_line_feed(self.source@, self.cursor.position as int)
        &&& self.cursor.line_start <= self.cursor.position
        &&& self.ring_write_pos < 2
        &&& self.ring_read_pos < 2
        &&& self.state == Some(Processor::Identifier) ==> self.cursor.position >= 1
    }

    /// A lexer at the start of a source text, with nothing in its ring.
    pub fn new(source: &str) -> (lexer: Lexer)
        ensures
            lexer@ == (LexerModel {
                bytes: source.spec_bytes(),
                start: 0,
                current: 0,
                state: Some(Processor::Basic),
                ring: seq![None, None],
                ring_write_pos: 0,
                ring_read_pos: 0,
            }),
    {
        let ring_buffer: [Option<Token>; 2] = [None, None];
        assert(ring_buffer@ =~= seq![None, None]);
        Lexer {
            source: slice_to_vec(source.as_bytes()),
            cursor: Cursor { position: 0, line: 1, line_start: 0 },
            start: 0,
            state: Some(Processor::Basic),
            ring_buffer,
            ring_write_pos: 0,
            ring_read_pos: 0,
        }
    }

    /// The bytes of the source from the mark to the place read to.
    pub fn slice_from_source(&self) -> (slice: &[u8])
        requires
            self@.start <= self@.current,
        ensures
            slice@ == self@.bytes.subrange(self@.start, self@.current),
    {
        proof {
            use_type_invariant(self);
        }
        vstd::slice::slice_subrange(self.source.as_slice(), self.start, self.cursor.position)
    }

    /// Puts a token in the ring, over the older of the two that are there.
    pub fn push_token(&mut self, token: Token)
        ensures
            final(self)@ == old(self)@.pushed(token),
    {
        proof {
            use_type_invariant(&*self);
        }
        let at = self.ring_write_pos;
        self.ring_buffer[at] = Some(token);
        self.ring_write_pos = (at + 1) % Self::RING_SIZE;
    }

    /// The token at the place of reading of the ring, if one is there.
    pub fn peek_token(&self) -> (token: Option<Token>)
        ensures
            0 <= self@.ring_read_pos < 2,
            self@.ring.len() == 2,
            token == self@.ring[self@.ring_read_pos],
    {
        proof {
            use_type_invariant(self);
        }
        self.ring_buffer[self.ring_read_pos]
    }

    /// Takes the token at the place of reading out of the ring, if one is
    /// there, and moves the place of reading on.
    pub fn pop_token(&mut self) -> (token: Option<Token>)
        ensures
            0 <= old(self)@.ring_read_pos < 2,
            token == old(self)@.ring[old(self)@.ring_read_pos],
            final(self)@ == old(self)@.popped(),
    {
        proof {
            use_type_invariant(&*self);
        }
        let at = self.ring_read_pos;
        let token = self.ring_buffer[at];
        self.ring_buffer[at] = None;
        self.ring_read_pos = (at + 1) % Self::RING_SIZE;
        token
    }

    /// The byte at the place read to; none at the end of the source.
    pub fn peek(&self) -> (byte: Option<u8>)
        ensures
            0 <= self@.current <= self@.bytes.len() <= usize::MAX,
            byte == if self@.current < self@.bytes.len() {
                Some(self@.bytes[self@.current])
            } else {
                None
            },
    {
        proof {
            use_type_invariant(self);
        }
        if self.cursor.position >= self.source.len() {
            return None;
        }
        Some(self.source[self.cursor.position])
    }

    /// Passes the byte at the place read to by and gives it; none at the end
    /// of the source.
    pub fn advance(&mut self) -> (byte: Option<u8>)
        ensures
            byte == if old(self)@.current < old(self)@.bytes.len() {
                Some(old(self)@.bytes[old(self)@.current])
            } else {
                None
            },
            final(self)@ == (LexerModel {
                current: if old(self)@.current < old(self)@.bytes.len() {
                    old(self)@.current + 1
                } else {
                    old(self)@.current
                },
                ..old(self)@
            }),
    {
        proof {
            use_type_invariant(&*self);
        }
        if self.cursor.position >= self.source.len() {
            return None;
        }
        let pos = self.cursor.position;
        let byte = self.source[pos];
        self.cursor = if byte == 0x0A {
            Cursor { position: pos + 1, line: self.cursor.line.saturating_add(1), line_start: pos }
        } else {
            Cursor { position: pos + 1, ..self.cursor }
        };
        Some(byte)
    }

    /// Passes the bytes of a class by.
    fn advance_while(&mut self, class: ByteClass)
        ensures
            final(self)@ == (LexerModel {
                current: run_end(old(self)@.bytes, old(self)@.current, class),
                ..old(self)@
            }),
            old(self)@.current <= final(self)@.current <= final(self)@.bytes.len() <= usize::MAX,
    {
        proof {
            use_type_invariant(&*self);
        }
        loop
            invariant
                self@ == (LexerModel { current: self@.current, ..old(self)@ }),
                old(self)@.current <= self@.current <= self@.bytes.len() <= usize::MAX,
                run_end(self@.bytes, self@.current, class) == run_end(
                    old(self)@.bytes,
                    old(self)@.current,
                    class,
                ),
            ensures
                self@ == (LexerModel {
                    current: run_end(old(self)@.bytes, old(self)@.current, class),
                    ..old(self)@
                }),
                old(self)@.current <= self@.current <= self@.bytes.len() <= usize::MAX,
            decreases self@.bytes.len() - self@.current,
        {
            match self.peek() {
                Some(byte) => {
                    if !class.contains(byte) {
                        break ;
                    }
                    self.advance();
                },
                None => {
                    break ;
                },
            }
        }
    }

    /// Passes white space by.
    pub fn consume_whitespace(&mut self)
        ensures
            final(self)@ == (LexerModel {
                current: run_end(old(self)@.bytes, old(self)@.current, ByteClass::Blank),
                ..old(self)@
            }),
    {
        self.advance_while(ByteClass::Blank);
    }

    /// Hands over to a state.
    pub fn change_state(&mut self, processor: Processor)
        requires
            processor == Processor::Identifier ==> old(self)@.current >= 1,
        ensures
            final(self)@ == (LexerModel { state: Some(processor), ..old(self)@ }),
    {
        proof {
            use_type_invariant(&*self);
        }
        self.state = Some(processor);
    }

    /// Stops the lexer.
    pub fn stop_processing(&mut self)
        ensures
            final(self)@ == (LexerModel { state: None, ..old(self)@ }),
    {
        proof {
            use_type_invariant(&*self);
        }
        self.state = None;
    }

    /// Marks the place read to as the start of a token.
    fn mark(&mut self)
        ensures
            final(self)@ == (LexerModel { start: old(self)@.current, ..old(self)@ }),
            0 <= final(self)@.current <= final(self)@.bytes.len() <= usize::MAX,
    {
        proof {
            use_type_invariant(&*self);
        }
        self.start = self.cursor.position;
    }

    /// Adds the token of a kind from the mark to the place read to, and hands
    /// over to the state that reads white space.
    fn emit(&mut self, tokentype: TokenType)
        ensures
            final(self)@ == old(self)@.emit(tokentype, old(self)@.current),
    {
        let token = Token::generate(tokentype, &*self);
        self.push_token(token);
        self.change_state(Processor::Basic);
    }

    /// The turn of a state that reads a number.
    fn process_number(&mut self, class: ByteClass) -> (message: Result<
        ProcessorMessage,
        LexerErrors,
    >)
        ensures
            (final(self)@, message) == old(self)@.number(class),
    {
        self.mark();
        self.advance_while(class);
        match self.peek() {
            None => {},
            Some(byte) => {
                if byte == 0x78 && class.is_digits() {
                    self.advance();
                    self.change_state(Processor::HexadecimalNumber);
                    return Ok(ProcessorMessage::Nop);
                }
                if byte != 0x20 {
                    return Err(LexerErrors::InvalidNumberLiteral(byte));
                }
            },
        }
        self.emit(TokenType::Number);
        Ok(ProcessorMessage::TokenAdded)
    }

    /// One turn of a state.
    pub fn process(&mut self, processor: Processor) -> (message: Result<
        ProcessorMessage,
        LexerErrors,
    >)
        requires
            processor == Processor::Identifier ==> old(self)@.current >= 1,
        ensures
            (final(self)@, message) == old(self)@.turn(processor),
    {
        match processor {
            Processor::Basic => {
                self.consume_whitespace();
                match self.advance() {
                    None => self.change_state(Processor::EndOfFile),  //Return some type of EOF
                    Some(ch) => if ch == 0x25 {
                        self.change_state(Processor::BinaryNumber)
                    } else if ByteClass::Name.contains(ch) {
                        self.change_state(Processor::Identifier)
                    } else if ByteClass::Digit.contains(ch) {
                        self.change_state(Processor::DecimalNumber)
                    } else if ch == 0x22 {
                        self.change_state(Processor::StringLiteral)
                    } else {
                        self.change_state(Processor::Operator)
                    },
                }
                Ok(ProcessorMessage::Nop)
            },
            Processor::Identifier => {
                proof {
                    use_type_invariant(&*self);
                }
                let start = self.cursor.position - 1;
                self.advance_while(ByteClass::Name);
                proof {
                    use_type_invariant(&*self);
                }
                self.start = start;
                let tokentype = classify(self.source.as_slice(), start, self.cursor.position);
                self.emit(tokentype);
                Ok(ProcessorMessage::TokenAdded)
            },
            Processor::DecimalNumber => self.process_number(ByteClass::Digit),
            Processor::HexadecimalNumber => self.process_number(ByteClass::Hex),
            Processor::BinaryNumber => self.process_number(ByteClass::Binary),
            Processor::StringLiteral => {
                self.mark();
                self.advance_while(ByteClass::Unquoted);
                if self.advance().is_none() {
                    self.change_state(Processor::EndOfFile);
                    return Err(LexerErrors::StringWithoutEnd);
                }
                self.emit(TokenType::String);
                Ok(ProcessorMessage::TokenAdded)
            },
            Processor::Operator => {
                self.mark();
                let tokentype = match self.advance() {
                    None => {
                        self.change_state(Processor::EndOfFile);
                        return Err(LexerErrors::OperatorWithoutSymbol);
                    },
                    Some(0x2C) => TokenType::Comma,
                    Some(0x28) => TokenType::OpenParen,
                    Some(0x29) => TokenType::CloseParen,
                    Some(0x2E) => TokenType::Dot,
                    Some(0x24) => TokenType::DollarSign,
                    Some(0x3A) => TokenType::Colon,
                    Some(0x2D) => TokenType::Minus,
                    Some(0x2B) => TokenType::Plus,
                    Some(0x3D) => TokenType::Equals,
                    Some(other) => {
                        return Err(LexerErrors::UnknownOperator(other));
                    },
                };
                self.emit(tokentype);
                Ok(ProcessorMessage::TokenAdded)
            },
            Processor::EndOfFile => {
                self.mark();
                let token = Token::generate(TokenType::Eof, &*self);
                self.push_token(token);
                self.stop_processing();
                Ok(ProcessorMessage::TokenAdded)
            },
        }
    }

    /// The state that takes the next turn, and none once the lexer has stopped.
    fn current_state(&self) -> (state: Option<Processor>)
        ensures
            state == self@.state,
            state == Some(Processor::Identifier) ==> self@.current >= 1,
    {
        proof {
            use_type_invariant(self);
        }
        self.state
    }

    /// Reads the next token into the ring, or gives the error that was met.
    /// After an error the lexer is where the state that met it has left it.
    pub fn scan_next_token(&mut self) -> (done: Result<(), LexerErrors>)
        ensures
            (final(self)@, done) == old(self)@.scan(),
    {
        loop
            invariant
                self@.scan() == old(self)@.scan(),
            decreases LexerModel::turns_left(self@.state),
        {
            match self.current_state() {
                None => {
                    return Ok(());
                },
                Some(processor) => {
                    proof {
                        self@.lemma_turns_decrease(processor);
                    }
                    match self.process(processor) {
                        Ok(ProcessorMessage::TokenAdded) => {
                            return Ok(());
                        },
                        Ok(ProcessorMessage::Nop) => {},
                        Err(err) => {
                            return Err(err);
                        },
                    }
                },
            }
        }
    }
}

} // verus!
