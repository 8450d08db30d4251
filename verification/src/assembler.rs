//! The assembler: from source text to tokens, and from tokens to commands.
//!
//! This module holds the plain tokenizer, which tells values apart by their
//! base only and ends every token list with an end-of-file token. The module
//! `lexer` holds the lexer that also knows strings, flags and the size of
//! values, and `parser` the parser that works on its tokens. The module
//! `lexer_new` holds a lexer built as a machine of states, which reads one
//! token at a call.

pub mod lexer;
pub mod lexer_new;
pub mod parser;

use crate::assembler::lexer::lemma_run_end_bounds;
use crate::assembler::lexer::line_at;
use crate::assembler::lexer::run_end;
use crate::assembler::lexer::spells;
use crate::assembler::lexer::word_is;
use crate::assembler::lexer::is_digit;
use crate::assembler::lexer::is_letter;
use crate::assembler::lexer::ByteClass;
use crate::assembler::lexer::LexerErrors;
use vstd::prelude::*;
use vstd::string::StringSliceAdditionalSpecFns;

verus! {

#[derive(Debug, Eq, PartialEq, Clone, Copy, Structural)]
pub enum TokenType {
    //Symbols
    OpenParen,
    CloseParen,
    DollarSign,
    PoundSign,
    Comma,
    Dot,
    Colon,
    //Keywords
    Nop,
    Ld,
    Inc,
    Dec,
    Rlca,
    Rrca,
    Rra,
    And,
    Xor,
    Or,
    Cp,
    Add,
    Adc,
    Sub,
    Sbc,
    Stop,
    Rla,
    Jr,
    Jp,
    Daa,
    Cpl,
    Ccf,
    Halt,
    Ret,
    Push,
    Pop,
    Call,
    Rst,
    Ei,
    Di,
    //Value Definitions
    MacroDefineByte,
    MacroDefineWord,
    MacroDefineDWord,
    MacroDefineByteArray,
    //Registers
    RegisterA,
    RegisterB,
    RegisterC,
    RegisterD,
    RegisterE,
    RegisterH,
    RegisterL,
    RegisterAF,
    RegisterBC,
    RegisterDE,
    RegisterHL,
    RegisterSP,
    //Values
    HexValue,
    DecimalValue,
    BinaryValue,
    Identifier,
    //ControlSymbols
    EOF,
}

#[derive(Debug, PartialEq, Eq, Copy, Clone, Structural)]
pub struct TokenPosition {
    pub start: usize,
    pub end: usize,
    pub line: usize,
}

impl TokenPosition {
    pub fn new(start: usize, end: usize, line: usize) -> (position: TokenPosition)
        ensures
            position == (TokenPosition { start, end, line }),
    {
        TokenPosition { start, end, line }
    }
}

#[derive(Debug, PartialEq, Eq, Copy, Clone, Structural)]
pub struct Token {
    pub token: TokenType,
    pub position: TokenPosition,
}

impl Token {
    /// The token of a kind over a range of the source that ends in a line.
    pub open spec fn of(token: TokenType, start: int, end: int, line: usize) -> Token {
        Token { token, position: TokenPosition { start: start as usize, end: end as usize, line } }
    }
}

/// The kind of token that a word is: a keyword, a macro or a register if the
/// word spells one in either case, else an identifier.
pub open spec fn keyword_type(word: Seq<u8>) -> TokenType {
    if spells(word, "nop") {
        TokenType::Nop
    } else if spells(word, "ld") {
        TokenType::Ld
    } else if spells(word, "inc") {
        TokenType::Inc
    } else if spells(word, "dec") {
        TokenType::Dec
    } else if spells(word, "rlca") {
        TokenType::Rlca
    } else if spells(word, "rrca") {
        TokenType::Rrca
    } else if spells(word, "rra") {
        TokenType::Rra
    } else if spells(word, "and") {
        TokenType::And
    } else if spells(word, "xor") {
        TokenType::Xor
    } else if spells(word, "or") {
        TokenType::Or
    } else if spells(word, "cp") {
        TokenType::Cp
    } else if spells(word, "add") {
        TokenType::Add
    } else if spells(word, "adc") {
        TokenType::Adc
    } else if spells(word, "sub") {
        TokenType::Sub
    } else if spells(word, "sbc") {
        TokenType::Sbc
    } else if spells(word, "stop") {
        TokenType::Stop
    } else if spells(word, "rla") {
        TokenType::Rla
    } else if spells(word, "jr") {
        TokenType::Jr
    } else if spells(word, "jp") {
        TokenType::Jp
    } else if spells(word, "daa") {
        TokenType::Daa
    } else if spells(word, "cpl") {
        TokenType::Cpl
    } else if spells(word, "ccf") {
        TokenType::Ccf
    } else if spells(word, "halt") {
        TokenType::Halt
    } else if spells(word, "ret") {
        TokenType::Ret
    } else if spells(word, "push") {
        TokenType::Push
    } else if spells(word, "pop") {
        TokenType::Pop
    } else if spells(word, "call") {
        TokenType::Call
    } else if spells(word, "rst") {
        TokenType::Rst
    } else if spells(word, "ei") {
        TokenType::Ei
    } else if spells(word, "di") {
        TokenType::Di
    } else if spells(word, "db") {
        TokenType::MacroDefineByte
    } else if spells(word, "dw") {
        TokenType::MacroDefineWord
    } else if spells(word, "dd") {
        TokenType::MacroDefineDWord
    } else if spells(word, "dba") {
        TokenType::MacroDefineByteArray
    } else if spells(word, "a") {
        TokenType::RegisterA
    } else if spells(word, "b") {
        TokenType::RegisterB
    } else if spells(word, "c") {
        TokenType::RegisterC
    } else if spells(word, "d") {
        TokenType::RegisterD
    } else if spells(word, "e") {
        TokenType::RegisterE
    } else if spells(word, "h") {
        TokenType::RegisterH
    } else if spells(word, "l") {
        TokenType::RegisterL
    } else if spells(word, "af") {
        TokenType::RegisterAF
    } else if spells(word, "bc") {
        TokenType::RegisterBC
    } else if spells(word, "de") {
        TokenType::RegisterDE
    } else if spells(word, "hl") {
        TokenType::RegisterHL
    } else if spells(word, "sp") {
        TokenType::RegisterSP
    } else {
        TokenType::Identifier
    }
}

/// The kind of token that a single byte is, if it is one.
pub open spec fn operator_type(byte: u8) -> Option<TokenType> {
    if byte == 0x28 {
        Some(TokenType::OpenParen)
    } else if byte == 0x29 {
        Some(TokenType::CloseParen)
    } else if byte == 0x23 {
        Some(TokenType::PoundSign)
    } else if byte == 0x2C {
        Some(TokenType::Comma)
    } else if byte == 0x2E {
        Some(TokenType::Dot)
    } else if byte == 0x3A {
        Some(TokenType::Colon)
    } else {
        None
    }
}

/// The token that begins at `at`, where a byte stands that is no white space.
///
/// `$` opens a hexadecimal value of any number of digits. A letter or an
/// underscore opens a word, and a full stop a macro, which is a word as well.
/// A digit opens a decimal value. A bracket, `#`, a comma or a colon is a
/// token of its own, and no other byte begins a token.
pub open spec fn token_at(bytes: Seq<u8>, at: int) -> Result<Token, LexerErrors> {
    let first = bytes[at];
    let next = at + 1;
    if first == 0x24 {
        let end = run_end(bytes, next, ByteClass::Hex);
        Ok(Token::of(TokenType::HexValue, next, end, line_at(bytes, end)))
    } else if first == 0x5F || is_letter(first) {
        let end = run_end(bytes, at, ByteClass::Word);
        Ok(Token::of(keyword_type(bytes.subrange(at, end)), at, end, line_at(bytes, end)))
    } else if first == 0x2E {
        let end = run_end(bytes, next, ByteClass::Word);
        Ok(Token::of(keyword_type(bytes.subrange(next, end)), next, end, line_at(bytes, end)))
    } else if is_digit(first) {
        let end = run_end(bytes, at, ByteClass::Digit);
        Ok(Token::of(TokenType::DecimalValue, at, end, line_at(bytes, end)))
    } else {
        match operator_type(first) {
            Some(token) => Ok(Token::of(token, at, next, line_at(bytes, next))),
            None => Err(LexerErrors::UnknownOperator(first)),
        }
    }
}

/// A token ends after the byte it begins at, and within the bytes.
pub proof fn lemma_token_advances(bytes: Seq<u8>, at: int)
    requires
        0 <= at < bytes.len() <= usize::MAX,
    ensures
        token_at(bytes, at) matches Ok(token) ==> at < token.position.end <= bytes.len()
            && at <= token.position.start <= token.position.end,
{
    lemma_run_end_bounds(bytes, at + 1, ByteClass::Hex);
    lemma_run_end_bounds(bytes, at + 1, ByteClass::Word);
    lemma_run_end_bounds(bytes, at + 1, ByteClass::Digit);
    lemma_run_end_bounds(bytes, at, ByteClass::Word);
    lemma_run_end_bounds(bytes, at, ByteClass::Digit);
}

/// The tokens of the text from `position` on and, after the last of them, the
/// end-of-file token at the end of the text; or the first error.
pub open spec fn tokens_from(bytes: Seq<u8>, position: int) -> Result<Seq<Token>, LexerErrors>
    decreases bytes.len() - position,
        when 0 <= position <= bytes.len() <= usize::MAX
{
    let at = run_end(bytes, position, ByteClass::Space);
    if at >= bytes.len() {
        Ok(seq![Token::of(TokenType::EOF, at, at, line_at(bytes, at))])
    } else {
        proof {
            lemma_run_end_bounds(bytes, position, ByteClass::Space);
            lemma_token_advances(bytes, at);
        }
        match token_at(bytes, at) {
            Err(error) => Err(error),
            Ok(token) => match tokens_from(bytes, token.position.end as int) {
                Err(error) => Err(error),
                Ok(rest) => Ok(seq![token] + rest),
            },
        }
    }
}

/// The kind of token that the word from `start` to `end` is.
fn classify(bytes: &[u8], start: usize, end: usize) -> (token: TokenType)
    requires
        start <= end <= bytes@.len(),
    ensures
        token == keyword_type(bytes@.subrange(start as int, end as int)),
{
    if word_is(bytes, start, end, "nop") {
        TokenType::Nop
    } else if word_is(bytes, start, end, "ld") {
        TokenType::Ld
    } else if word_is(bytes, start, end, "inc") {
        TokenType::Inc
    } else if word_is(bytes, start, end, "dec") {
        TokenType::Dec
    } else if word_is(bytes, start, end, "rlca") {
        TokenType::Rlca
    } else if word_is(bytes, start, end, "rrca") {
        TokenType::Rrca
    } else if word_is(bytes, start, end, "rra") {
        TokenType::Rra
    } else if word_is(bytes, start, end, "and") {
        TokenType::And
    } else if word_is(bytes, start, end, "xor") {
        TokenType::Xor
    } else if word_is(bytes, start, end, "or") {
        TokenType::Or
    } else if word_is(bytes, start, end, "cp") {
        TokenType::Cp
    } else if word_is(bytes, start, end, "add") {
        TokenType::Add
    } else if word_is(bytes, start, end, "adc") {
        TokenType::Adc
    } else if word_is(bytes, start, end, "sub") {
        TokenType::Sub
    } else if word_is(bytes, start, end, "sbc") {
        TokenType::Sbc
    } else if word_is(bytes, start, end, "stop") {
        TokenType::Stop
    } else if word_is(bytes, start, end, "rla") {
        TokenType::Rla
    } else if word_is(bytes, start, end, "jr") {
        TokenType::Jr
    } else if word_is(bytes, start, end, "jp") {
        TokenType::Jp
    } else if word_is(bytes, start, end, "daa") {
        TokenType::Daa
    } else if word_is(bytes, start, end, "cpl") {
        TokenType::Cpl
    } else if word_is(bytes, start, end, "ccf") {
        TokenType::Ccf
    } else if word_is(bytes, start, end, "halt") {
        TokenType::Halt
    } else if word_is(bytes, start, end, "ret") {
        TokenType::Ret
    } else if word_is(bytes, start, end, "push") {
        TokenType::Push
    } else if word_is(bytes, start, end, "pop") {
        TokenType::Pop
    } else if word_is(bytes, start, end, "call") {
        TokenType::Call
    } else if word_is(bytes, start, end, "rst") {
        TokenType::Rst
    } else if word_is(bytes, start, end, "ei") {
        TokenType::Ei
    } else if word_is(bytes, start, end, "di") {
        TokenType::Di
    } else if word_is(bytes, start, end, "db") {
        TokenType::MacroDefineByte
    } else if word_is(bytes, start, end, "dw") {
        TokenType::MacroDefineWord
    } else if word_is(bytes, start, end, "dd") {
        TokenType::MacroDefineDWord
    } else if word_is(bytes, start, end, "dba") {
        TokenType::MacroDefineByteArray
    } else if word_is(bytes, start, end, "a") {
        TokenType::RegisterA
    } else if word_is(bytes, start, end, "b") {
        TokenType::RegisterB
    } else if word_is(bytes, start, end, "c") {
        TokenType::RegisterC
    } else if word_is(bytes, start, end, "d") {
        TokenType::RegisterD
    } else if word_is(bytes, start, end, "e") {
        TokenType::RegisterE
    } else if word_is(bytes, start, end, "h") {
        TokenType::RegisterH
    } else if word_is(bytes, start, end, "l") {
        TokenType::RegisterL
    } else if word_is(bytes, start, end, "af") {
        TokenType::RegisterAF
    } else if word_is(bytes, start, end, "bc") {
        TokenType::RegisterBC
    } else if word_is(bytes, start, end, "de") {
        TokenType::RegisterDE
    } else if word_is(bytes, start, end, "hl") {
        TokenType::RegisterHL
    } else if word_is(bytes, start, end, "sp") {
        TokenType::RegisterSP
    } else {
        TokenType::Identifier
    }
}

impl vstd::std_specs::convert::FromSpecImpl<&str> for TokenType {
    open spec fn obeys_from_spec() -> bool {
        true
    }

    open spec fn from_spec(value: &str) -> TokenType {
        keyword_type(value.spec_bytes())
    }
}

impl From<&str> for TokenType {
    /// The kind of token that a word is.
    fn from(value: &str) -> (token: TokenType) {
        let bytes = value.as_bytes();
        assert(bytes@.subrange(0, bytes@.len() as int) =~= bytes@);
        classify(bytes, 0, bytes.len())
    }
}

/// The plain tokenizer.
pub struct Lexer {
    reader: lexer::Lexer,
}

impl Lexer {
    /// The bytes of the source.
    pub closed spec fn bytes(&self) -> Seq<u8> {
        self.reader.bytes()
    }

    /// The position that the source has been read to.
    pub closed spec fn at(&self) -> int {
        self.reader.at()
    }

    /// A tokenizer at the start of a source text.
    pub fn new(source: &str) -> (lexer: Lexer)
        ensures
            lexer.bytes() == source.spec_bytes(),
            lexer.at() == 0,
    {
        Lexer { reader: lexer::Lexer::new(source) }
    }

    /// The token of a kind from `start` to the position read to.
    fn token_from(&self, token: TokenType, start: usize) -> (made: Token)
        ensures
            made == Token::of(token, start as int, self.at(), line_at(self.bytes(), self.at())),
    {
        let cursor = self.reader.cursor();
        Token { token, position: TokenPosition::new(start, cursor.position, cursor.line) }
    }

    fn end_of_file_token(&self) -> (token: Token)
        ensures
            token == Token::of(
                TokenType::EOF,
                self.at(),
                self.at(),
                line_at(self.bytes(), self.at()),
            ),
    {
        self.token_from(TokenType::EOF, self.reader.cursor().position)
    }

    /// Reads the token at the position read to, where a byte stands that is no
    /// white space.
    fn scan(&mut self) -> (token: Result<Token, LexerErrors>)
        requires
            0 <= old(self).at() < old(self).bytes().len(),
        ensures
            final(self).bytes() == old(self).bytes(),
            token == token_at(old(self).bytes(), old(self).at()),
            token matches Ok(made) ==> final(self).at() == made.position.end,
            old(self).at() <= final(self).at() <= final(self).bytes().len() <= usize::MAX,
    {
        let character = self.reader.peek();
        if character == lexer::DOLLAR {
            self.scan_hexnumber()
        } else if character == lexer::UNDERSCORE || (0x41 <= character && character <= 0x5A) || (
        0x61 <= character && character <= 0x7A) {
            Ok(self.scan_identifier())
        } else if character == lexer::FULL_STOP {
            Ok(self.scan_macro())
        } else if 0x30 <= character && character <= 0x39 {
            Ok(self.scan_number())
        } else {
            self.scan_operator()
        }
    }

    /// Reads all the tokens that are left, in their order, and ends them with
    /// the end-of-file token; or gives the first error.
    pub fn tokenize(&mut self) -> (tokens: Result<Vec<Token>, LexerErrors>)
        ensures
            final(self).bytes() == old(self).bytes(),
            tokens matches Ok(list) ==> tokens_from(old(self).bytes(), old(self).at()) == Ok::<
                Seq<Token>,
                LexerErrors,
            >(list@),
            tokens matches Err(error) ==> tokens_from(old(self).bytes(), old(self).at()) == Err::<
                Seq<Token>,
                LexerErrors,
            >(error),
    {
        let mut result: Vec<Token> = Vec::new();
        let ghost bytes = self.bytes();
        let start = self.reader.cursor();
        loop
            invariant
                self.bytes() == bytes,
                bytes == old(self).bytes(),
                0 <= self.at() <= bytes.len() <= usize::MAX,
                match tokens_from(bytes, self.at()) {
                    Ok(rest) => tokens_from(bytes, old(self).at()) == Ok::<
                        Seq<Token>,
                        LexerErrors,
                    >(result@ + rest),
                    Err(error) => tokens_from(bytes, old(self).at()) == Err::<
                        Seq<Token>,
                        LexerErrors,
                    >(error),
                },
            decreases bytes.len() - self.at(),
        {
            proof {
                lemma_run_end_bounds(bytes, self.at(), ByteClass::Space);
                let at = run_end(bytes, self.at(), ByteClass::Space);
                if at < bytes.len() {
                    lemma_token_advances(bytes, at);
                }
            }
            self.reader.consume_whitespace();
            if self.reader.reached_end() {
                let last = self.end_of_file_token();
                assert(result@ + seq![last] =~= result@.push(last));
                result.push(last);
                return Ok(result);
            }
            match self.scan() {
                Err(error) => {
                    return Err(error);
                },
                Ok(token) => {
                    proof {
                        let rest = tokens_from(bytes, token.position.end as int);
                        if rest is Ok {
                            assert(result@ + (seq![token] + rest->Ok_0) =~= result@.push(token)
                                + rest->Ok_0);
                        }
                    }
                    result.push(token);
                },
            }
        }
    }

    fn scan_macro(&mut self) -> (token: Token)
        requires
            0 <= old(self).at() < old(self).bytes().len(),
            old(self).bytes()[old(self).at()] == 0x2E,
        ensures
            final(self).bytes() == old(self).bytes(),
            Ok::<Token, LexerErrors>(token) == token_at(old(self).bytes(), old(self).at()),
            final(self).at() == token.position.end,
            old(self).at() <= final(self).at() <= final(self).bytes().len() <= usize::MAX,
    {
        self.reader.advance();
        self.scan_word()
    }

    /// Reads a word and says what kind of token it is.
    fn scan_word(&mut self) -> (token: Token)
        ensures
            final(self).bytes() == old(self).bytes(),
            final(self).at() == run_end(old(self).bytes(), old(self).at(), ByteClass::Word),
            old(self).at() <= final(self).at() <= final(self).bytes().len() <= usize::MAX,
            token == Token::of(
                keyword_type(
                    old(self).bytes().subrange(old(self).at(), final(self).at()),
                ),
                old(self).at(),
                final(self).at(),
                line_at(old(self).bytes(), final(self).at()),
            ),
    {
        let start = self.reader.cursor().position;
        self.reader.advance_while(ByteClass::Word);
        let end = self.reader.cursor().position;
        let kind = classify(self.reader.source_bytes(), start, end);
        self.token_from(kind, start)
    }

    fn scan_identifier(&mut self) -> (token: Token)
        requires
            0 <= old(self).at() < old(self).bytes().len(),
            old(self).bytes()[old(self).at()] == 0x5F || is_letter(old(self).bytes()[old(self).at()]),
        ensures
            final(self).bytes() == old(self).bytes(),
            Ok::<Token, LexerErrors>(token) == token_at(old(self).bytes(), old(self).at()),
            final(self).at() == token.position.end,
            old(self).at() <= final(self).at() <= final(self).bytes().len() <= usize::MAX,
    {
        self.scan_word()
    }

    fn scan_number(&mut self) -> (token: Token)
        requires
            0 <= old(self).at() < old(self).bytes().len(),
            is_digit(old(self).bytes()[old(self).at()]),
        ensures
            final(self).bytes() == old(self).bytes(),
            Ok::<Token, LexerErrors>(token) == token_at(old(self).bytes(), old(self).at()),
            final(self).at() == token.position.end,
            old(self).at() <= final(self).at() <= final(self).bytes().len() <= usize::MAX,
    {
        let start = self.reader.cursor().position;
        self.reader.advance_while(ByteClass::Digit);
        self.token_from(TokenType::DecimalValue, start)
    }

    fn scan_hexnumber(&mut self) -> (token: Result<Token, LexerErrors>)
        requires
            0 <= old(self).at() < old(self).bytes().len(),
            old(self).bytes()[old(self).at()] == 0x24,
        ensures
            final(self).bytes() == old(self).bytes(),
            token == token_at(old(self).bytes(), old(self).at()),
            token matches Ok(made) ==> final(self).at() == made.position.end,
            old(self).at() <= final(self).at() <= final(self).bytes().len() <= usize::MAX,
    {
        self.reader.advance();
        let start = self.reader.cursor().position;
        self.reader.advance_while(ByteClass::Hex);
        Ok(self.token_from(TokenType::HexValue, start))
    }

    fn scan_operator(&mut self) -> (token: Result<Token, LexerErrors>)
        requires
            0 <= old(self).at() < old(self).bytes().len(),
        ensures
            final(self).bytes() == old(self).bytes(),
            token == match operator_type(old(self).bytes()[old(self).at()]) {
                Some(kind) => Ok::<Token, LexerErrors>(
                    Token::of(
                        kind,
                        old(self).at(),
                        old(self).at() + 1,
                        line_at(old(self).bytes(), old(self).at() + 1),
                    ),
                ),
                None => Err::<Token, LexerErrors>(
                    LexerErrors::UnknownOperator(old(self).bytes()[old(self).at()]),
                ),
            },
            final(self).at() == old(self).at() + 1,
            final(self).at() <= final(self).bytes().len() <= usize::MAX,
    {
        let start = self.reader.cursor().position;
        let symbol = self.reader.peek();
        self.reader.advance();
        let tokentype = match symbol {
            0x28 => TokenType::OpenParen,
            0x29 => TokenType::CloseParen,
            0x23 => TokenType::PoundSign,
            0x2C => TokenType::Comma,
            0x2E => TokenType::Dot,
            0x3A => TokenType::Colon,
            _ => {
                return Err(LexerErrors::UnknownOperator(symbol));
            },
        };
        Ok(self.token_from(tokentype, start))
    }
}

} // verus!
