//! The lexer of the assembler: cuts a source text into tokens.
//!
//! The lexer works on the bytes of the text. Tokens are separated by ASCII
//! white space; a token's range is that of its text in the source, without
//! the sign that introduces a number or a macro and without the quote that
//! opens a string.

use vstd::prelude::*;
use vstd::slice::slice_to_vec;
use vstd::string::StringSliceAdditionalSpecFns;

verus! {

#[derive(Debug, Eq, PartialEq, Clone, Copy, Structural)]
pub enum TokenType {
    //Symbols
    OpenParen,
    CloseParen,
    DollarSign,
    PoundSign,
    Comma,
    Dot,
    Colon,
    Plus,
    Minus,
    //Keywords
    Nop,
    Ld,
    Inc,
    Dec,
    Rlca,
    Rrca,
    Rra,
    And,
    Xor,
    Or,
    Cp,
    Add,
    Adc,
    Sub,
    Sbc,
    Stop,
    Rla,
    Jr,
    Jp,
    Daa,
    Cpl,
    Ccf,
    Halt,
    Ret,
    Push,
    Pop,
    Call,
    Rst,
    Ei,
    Di,
    //Flags
    ZeroFlag,
    NegativeFlag,
    CarryFlag,
    HalfCarryFlag,
    //Value Definitions
    MacroRenameRegister,
    MacroDefineFunctionStart,
    MacroDefineFunctionEnd,
    MacroDefineByte,
    MacroDefineWord,
    MacroDefineDWord,
    MacroDefineByteArray,
    String,
    //Registers
    RegisterA,
    RegisterB,
    RegisterC,
    RegisterD,
    RegisterE,
    RegisterH,
    RegisterL,
    RegisterAF,
    RegisterBC,
    RegisterDE,
    RegisterHL,
    RegisterSP,
    //Values
    HexValueByte,
    HexValueWord,
    DecimalValueByte,
    DecimalValueWord,
    BinaryValueByte,
    BinaryValueWord,
    Identifier,
    //ControlSymbols
    EOF,
}

/// Why a text could not be cut into tokens.
#[derive(Debug, Eq, PartialEq, Clone, Copy, Structural)]
pub enum LexerErrors {
    /// A string has no closing quote.
    StringWithoutEnd,
    /// A number has a count of digits that no value type has.
    InvalidNumberLiteral,
    /// A byte that begins no token.
    UnknownOperator(u8),
}

pub const NEWLINE: u8 = 0x0A;

pub const QUOTE: u8 = 0x22;

pub const PERCENT: u8 = 0x25;

pub const DOLLAR: u8 = 0x24;

pub const UNDERSCORE: u8 = 0x5F;

pub const FULL_STOP: u8 = 0x2E;

/// The classes of bytes that the lexer reads runs of.
#[derive(Debug, Eq, PartialEq, Clone, Copy, Structural)]
pub enum ByteClass {
    /// ASCII white space: space, tab, line feed, form feed, carriage return.
    Space,
    /// Letters, digits and the underscore.
    Word,
    /// The digits `0` to `9`.
    Digit,
    /// The digits and the letters `a` to `f` in either case.
    Hex,
    /// The digits `0` and `1`.
    Binary,
    /// Every byte but the quote.
    Unquoted,
    /// Letters and the underscore.
    Name,
    /// White space with the vertical tab: space, tab, line feed, vertical
    /// tab, form feed, carriage return.
    Blank,
}

/// Whether a byte is an ASCII letter.
pub open spec fn is_letter(byte: u8) -> bool {
    (0x41 <= byte <= 0x5A) || (0x61 <= byte <= 0x7A)
}

/// Whether a byte is an ASCII digit.
pub open spec fn is_digit(byte: u8) -> bool {
    0x30 <= byte <= 0x39
}

/// The lower-case form of an ASCII letter; any other byte as it is.
pub open spec fn lowered(byte: u8) -> u8 {
    if 0x41 <= byte <= 0x5A {
        (byte + 0x20) as u8
    } else {
        byte
    }
}

impl ByteClass {
    /// Whether a byte belongs to the class.
    pub open spec fn holds(self, byte: u8) -> bool {
        match self {
            ByteClass::Space => byte == 0x20 || byte == 0x09 || byte == 0x0A || byte == 0x0C
                || byte == 0x0D,
            ByteClass::Word => is_letter(byte) || is_digit(byte) || byte == 0x5F,
            ByteClass::Digit => is_digit(byte),
            ByteClass::Hex => is_digit(byte) || (0x61 <= lowered(byte) <= 0x66),
            ByteClass::Binary => byte == 0x30 || byte == 0x31,
            ByteClass::Unquoted => byte != 0x22,
            ByteClass::Name => is_letter(byte) || byte == 0x5F,
            ByteClass::Blank => byte == 0x20 || (0x09 <= byte <= 0x0D),
        }
    }

    /// Whether the class is that of the decimal digits.
    pub fn is_digits(self) -> (digits: bool)
        ensures
            digits == (self == ByteClass::Digit),
    {
        match self {
            ByteClass::Digit => true,
            _ => false,
        }
    }

    /// Whether a byte belongs to the class.
    pub fn contains(self, byte: u8) -> (found: bool)
        ensures
            found == self.holds(byte),
    {
        match self {
            ByteClass::Space => byte == 0x20 || byte == 0x09 || byte == 0x0A || byte == 0x0C
                || byte == 0x0D,
            ByteClass::Word => (0x41 <= byte && byte <= 0x5A) || (0x61 <= byte && byte <= 0x7A)
                || (0x30 <= byte && byte <= 0x39) || byte == UNDERSCORE,
            ByteClass::Digit => 0x30 <= byte && byte <= 0x39,
            ByteClass::Hex => Lexer::is_hexsymbol(byte),
            ByteClass::Binary => Lexer::is_binarydigit(byte),
            ByteClass::Unquoted => byte != QUOTE,
            ByteClass::Name => (0x41 <= byte && byte <= 0x5A) || (0x61 <= byte && byte <= 0x7A)
                || byte == UNDERSCORE,
            ByteClass::Blank => byte == 0x20 || (0x09 <= byte && byte <= 0x0D),
        }
    }
}

/// The end of the longest run of bytes of a class that begins at `start`.
pub open spec fn run_end(bytes: Seq<u8>, start: int, class: ByteClass) -> int
    decreases bytes.len() - start,
{
    if 0 <= start < bytes.len() && class.holds(bytes[start]) {
        run_end(bytes, start + 1, class)
    } else {
        start
    }
}

/// The number of line feeds before `end`.
pub open spec fn newlines(bytes: Seq<u8>, end: int) -> nat
    decreases end,
{
    if end <= 0 || end > bytes.len() {
        0
    } else {
        newlines(bytes, end - 1) + if bytes[end - 1] == 0x0A {
            1nat
        } else {
            0nat
        }
    }
}

/// The number of the line that the byte at `position` stands in, counted from
/// 1, and no more than the largest `usize`.
pub open spec fn line_at(bytes: Seq<u8>, position: int) -> usize {
    if 1 + newlines(bytes, position) > usize::MAX {
        usize::MAX
    } else {
        (1 + newlines(bytes, position)) as usize
    }
}

/// Whether a word, letters taken in lower case, is the given ASCII text.
pub open spec fn spells(word: Seq<u8>, text: &str) -> bool {
    &&& vstd::string::is_ascii(text)
    &&& word.len() == text@.len()
    &&& forall|i: int| 0 <= i < word.len() ==> lowered(#[trigger] word[i]) == text@[i] as u8
}

/// The kind of token that a word is: a keyword, a macro, a flag or a register
/// if the word spells one in either case, else an identifier.
pub open spec fn keyword_type(word: Seq<u8>) -> TokenType {
    if spells(word, "nop") {
        TokenType::Nop
    } else if spells(word, "ld") {
        TokenType::Ld
    } else if spells(word, "inc") {
        TokenType::Inc
    } else if spells(word, "dec") {
        TokenType::Dec
    } else if spells(word, "rlca") {
        TokenType::Rlca
    } else if spells(word, "rrca") {
        TokenType::Rrca
    } else if spells(word, "rra") {
        TokenType::Rra
    } else if spells(word, "and") {
        TokenType::And
    } else if spells(word, "xor") {
        TokenType::Xor
    } else if spells(word, "or") {
        TokenType::Or
    } else if spells(word, "cp") {
        TokenType::Cp
    } else if spells(word, "add") {
        TokenType::Add
    } else if spells(word, "adc") {
        TokenType::Adc
    } else if spells(word, "sub") {
        TokenType::Sub
    } else if spells(word, "sbc") {
        TokenType::Sbc
    } else if spells(word, "stop") {
        TokenType::Stop
    } else if spells(word, "rla") {
        TokenType::Rla
    } else if spells(word, "jr") {
        TokenType::Jr
    } else if spells(word, "jp") {
        TokenType::Jp
    } else if spells(word, "daa") {
        TokenType::Daa
    } else if spells(word, "cpl") {
        TokenType::Cpl
    } else if spells(word, "ccf") {
        TokenType::Ccf
    } else if spells(word, "halt") {
        TokenType::Halt
    } else if spells(word, "ret") {
        TokenType::Ret
    } else if spells(word, "push") {
        TokenType::Push
    } else if spells(word, "pop") {
        TokenType::Pop
    } else if spells(word, "call") {
        TokenType::Call
    } else if spells(word, "rst") {
        TokenType::Rst
    } else if spells(word, "ei") {
        TokenType::Ei
    } else if spells(word, "di") {
        TokenType::Di
    } else if spells(word, "fun") {
        TokenType::MacroDefineFunctionStart
    } else if spells(word, "end") {
        TokenType::MacroDefineFunctionEnd
    } else if spells(word, "db") {
        TokenType::MacroDefineByte
    } else if spells(word, "dw") {
        TokenType::MacroDefineWord
    } else if spells(word, "dd") {
        TokenType::MacroDefineDWord
    } else if spells(word, "dba") {
        TokenType::MacroDefineByteArray
    } else if spells(word, "zf") {
        TokenType::ZeroFlag
    } else if spells(word, "nf") {
        TokenType::NegativeFlag
    } else if spells(word, "cf") {
        TokenType::CarryFlag
    } else if spells(word, "hf") {
        TokenType::HalfCarryFlag
    } else if spells(word, "a") {
        TokenType::RegisterA
    } else if spells(word, "b") {
        TokenType::RegisterB
    } else if spells(word, "c") {
        TokenType::RegisterC
    } else if spells(word, "d") {
        TokenType::RegisterD
    } else if spells(word, "e") {
        TokenType::RegisterE
    } else if spells(word, "h") {
        TokenType::RegisterH
    } else if spells(word, "l") {
        TokenType::RegisterL
    } else if spells(word, "af") {
        TokenType::RegisterAF
    } else if spells(word, "bc") {
        TokenType::RegisterBC
    } else if spells(word, "de") {
        TokenType::RegisterDE
    } else if spells(word, "hl") {
        TokenType::RegisterHL
    } else if spells(word, "sp") {
        TokenType::RegisterSP
    } else {
        TokenType::Identifier
    }
}

/// The kind of token that a single byte is, if it is one.
pub open spec fn operator_type(byte: u8) -> Option<TokenType> {
    if byte == 0x28 {
        Some(TokenType::OpenParen)
    } else if byte == 0x29 {
        Some(TokenType::CloseParen)
    } else if byte == 0x23 {
        Some(TokenType::PoundSign)
    } else if byte == 0x2C {
        Some(TokenType::Comma)
    } else if byte == 0x2E {
        Some(TokenType::Dot)
    } else if byte == 0x3A {
        Some(TokenType::Colon)
    } else if byte == 0x2B {
        Some(TokenType::Plus)
    } else if byte == 0x2D {
        Some(TokenType::Minus)
    } else {
        None
    }
}

/// The kind of number that a run of digits is by its length: a byte value or a
/// word value, if it has the length of one.
pub open spec fn number_type(
    length: int,
    byte_length: int,
    word_length: int,
    byte: TokenType,
    word: TokenType,
) -> Result<TokenType, LexerErrors> {
    if length == byte_length {
        Ok(byte)
    } else if length == word_length {
        Ok(word)
    } else {
        Err(LexerErrors::InvalidNumberLiteral)
    }
}

#[derive(Debug, PartialEq, Eq, Copy, Clone, Structural)]
pub struct TokenPosition {
    pub start: usize,
    pub end: usize,
    pub line: usize,
}

impl TokenPosition {
    pub fn new(start: usize, end: usize, line: usize) -> (position: TokenPosition)
        ensures
            position == (TokenPosition { start, end, line }),
    {
        TokenPosition { start, end, line }
    }
}

#[derive(Debug, PartialEq, Eq, Copy, Clone, Structural)]
pub struct Token {
    pub token: TokenType,
    pub position: TokenPosition,
}

impl Token {
    /// The token of a kind over a range of the source that ends in a line.
    pub fn new(token: TokenType, start: usize, end: usize, line: usize) -> (made: Token)
        ensures
            made == Token::of(token, start as int, end as int, line),
    {
        Token { token, position: TokenPosition::new(start, end, line) }
    }

    /// The token of a kind over a range of the source that ends in a line.
    pub open spec fn of(token: TokenType, start: int, end: int, line: usize) -> Token {
        Token { token, position: TokenPosition { start: start as usize, end: end as usize, line } }
    }

    pub fn tokentype(&self) -> (token: TokenType)
        ensures
            token == self.token,
    {
        self.token
    }

    /// The range of the token's text in the source.
    pub fn repr_range(&self) -> (range: std::ops::Range<usize>)
        ensures
            range.start == self.position.start,
            range.end == self.position.end,
    {
        self.position.start..self.position.end
    }
}

/// The token that begins at `at`, where a byte stands that is no white space.
///
/// A quote opens a string, which ends after the next quote. `%` and `$` open a
/// binary and a hexadecimal number, of 8 or 16 and of 2 or 4 digits. A letter
/// or an underscore opens a word, and a full stop a macro, which is a word as
/// well. A digit opens a decimal number of 3 or 5 digits. Any other byte is a
/// token of its own.
pub open spec fn token_at(bytes: Seq<u8>, at: int) -> Result<Token, LexerErrors> {
    let first = bytes[at];
    let next = at + 1;
    if first == 0x22 {
        let close = run_end(bytes, next, ByteClass::Unquoted);
        if close < bytes.len() {
            Ok(Token::of(TokenType::String, next, close + 1, line_at(bytes, close + 1)))
        } else if next < bytes.len() {
            Err(LexerErrors::StringWithoutEnd)
        } else {
            Ok(Token::of(TokenType::String, next, next, line_at(bytes, next)))
        }
    } else if first == 0x25 {
        let end = run_end(bytes, next, ByteClass::Binary);
        match number_type(
            end - next,
            8,
            16,
            TokenType::BinaryValueByte,
            TokenType::BinaryValueWord,
        ) {
            Ok(token) => Ok(Token::of(token, next, end, line_at(bytes, end))),
            Err(error) => Err(error),
        }
    } else if first == 0x24 {
        let end = run_end(bytes, next, ByteClass::Hex);
        match number_type(end - next, 2, 4, TokenType::HexValueByte, TokenType::HexValueWord) {
            Ok(token) => Ok(Token::of(token, next, end, line_at(bytes, end))),
            Err(error) => Err(error),
        }
    } else if first == 0x5F || is_letter(first) {
        let end = run_end(bytes, at, ByteClass::Word);
        Ok(Token::of(keyword_type(bytes.subrange(at, end)), at, end, line_at(bytes, end)))
    } else if first == 0x2E {
        let end = run_end(bytes, next, ByteClass::Word);
        Ok(Token::of(keyword_type(bytes.subrange(next, end)), next, end, line_at(bytes, end)))
    } else if is_digit(first) {
        let end = run_end(bytes, at, ByteClass::Digit);
        match number_type(
            end - at,
            3,
            5,
            TokenType::DecimalValueByte,
            TokenType::DecimalValueWord,
        ) {
            Ok(token) => Ok(Token::of(token, at, end, line_at(bytes, end))),
            Err(error) => Err(error),
        }
    } else {
        match operator_type(first) {
            Some(token) => Ok(Token::of(token, at, next, line_at(bytes, next))),
            None => Err(LexerErrors::UnknownOperator(first)),
        }
    }
}

/// A run ends at or after its start and within the bytes.
pub proof fn lemma_run_end_bounds(bytes: Seq<u8>, start: int, class: ByteClass)
    requires
        0 <= start <= bytes.len(),
    ensures
        start <= run_end(bytes, start, class) <= bytes.len(),
        run_end(bytes, start, class) < bytes.len() ==> !class.holds(
            bytes[run_end(bytes, start, class)],
        ),
        forall|i: int| start <= i < run_end(bytes, start, class) ==> class.holds(#[trigger] bytes[i]),
    decreases bytes.len() - start,
{
    if start < bytes.len() && class.holds(bytes[start]) {
        lemma_run_end_bounds(bytes, start + 1, class);
    }
}

/// A token ends after the byte it begins at, and within the bytes.
pub proof fn lemma_token_advances(bytes: Seq<u8>, at: int)
    requires
        0 <= at < bytes.len() <= usize::MAX,
    ensures
        token_at(bytes, at) matches Ok(token) ==> at < token.position.end <= bytes.len()
            && at <= token.position.start <= token.position.end,
{
    lemma_run_end_bounds(bytes, at + 1, ByteClass::Unquoted);
    lemma_run_end_bounds(bytes, at + 1, ByteClass::Binary);
    lemma_run_end_bounds(bytes, at + 1, ByteClass::Hex);
    lemma_run_end_bounds(bytes, at + 1, ByteClass::Word);
    lemma_run_end_bounds(bytes, at + 1, ByteClass::Digit);
    lemma_run_end_bounds(bytes, at, ByteClass::Word);
    lemma_run_end_bounds(bytes, at, ByteClass::Digit);
}

/// The tokens of the text from `position` on, or the first error.
pub open spec fn tokens_from(bytes: Seq<u8>, position: int) -> Result<Seq<Token>, LexerErrors>
    decreases bytes.len() - position,
        when 0 <= position <= bytes.len() <= usize::MAX
{
    let at = run_end(bytes, position, ByteClass::Space);
    if at >= bytes.len() {
        Ok(Seq::empty())
    } else {
        proof {
            lemma_run_end_bounds(bytes, position, ByteClass::Space);
            lemma_token_advances(bytes, at);
        }
        match token_at(bytes, at) {
            Err(error) => Err(error),
            Ok(token) => match tokens_from(bytes, token.position.end as int) {
                Err(error) => Err(error),
                Ok(rest) => Ok(seq![token] + rest),
            },
        }
    }
}

/// Whether the bytes from `start` to `end`, letters taken in lower case, are
/// the given text.
pub fn word_is(bytes: &[u8], start: usize, end: usize, text: &str) -> (same: bool)
    requires
        start <= end <= bytes@.len(),
    ensures
        same == spells(bytes@.subrange(start as int, end as int), text),
{
    broadcast use vstd::string::is_ascii_spec_bytes;

    if !text.is_ascii() {
        return false;
    }
    let letters = text.as_bytes();
    if letters.len() != end - start {
        return false;
    }
    let ghost word = bytes@.subrange(start as int, end as int);
    let mut i: usize = 0;
    while i < letters.len()
        invariant
            i <= letters.len(),
            start <= end <= bytes@.len(),
            letters.len() == end - start,
            letters@ == text.spec_bytes(),
            vstd::string::is_ascii(text),
            word == bytes@.subrange(start as int, end as int),
            forall|k: int| 0 <= k < i ==> lowered(#[trigger] word[k]) == text@[k] as u8,
        decreases letters.len() - i,
    {
        let byte = bytes[start + i];
        let lower = if 0x41 <= byte && byte <= 0x5A {
            byte + 0x20
        } else {
            byte
        };
        if lower != letters[i] {
            assert(lowered(word[i as int]) != text@[i as int] as u8);
            return false;
        }
        i = i + 1;
    }
    true
}

/// The kind of token that the word from `start` to `end` is.
fn classify(bytes: &[u8], start: usize, end: usize) -> (token: TokenType)
    requires
        start <= end <= bytes@.len(),
    ensures
        token == keyword_type(bytes@.subrange(start as int, end as int)),
{
    if word_is(bytes, start, end, "nop") {
        TokenType::Nop
    } else if word_is(bytes, start, end, "ld") {
        TokenType::Ld
    } else if word_is(bytes, start, end, "inc") {
        TokenType::Inc
    } else if word_is(bytes, start, end, "dec") {
        TokenType::Dec
    } else if word_is(bytes, start, end, "rlca") {
        TokenType::Rlca
    } else if word_is(bytes, start, end, "rrca") {
        TokenType::Rrca
    } else if word_is(bytes, start, end, "rra") {
        TokenType::Rra
    } else if word_is(bytes, start, end, "and") {
        TokenType::And
    } else if word_is(bytes, start, end, "xor") {
        TokenType::Xor
    } else if word_is(bytes, start, end, "or") {
        TokenType::Or
    } else if word_is(bytes, start, end, "cp") {
        TokenType::Cp
    } else if word_is(bytes, start, end, "add") {
        TokenType::Add
    } else if word_is(bytes, start, end, "adc") {
        TokenType::Adc
    } else if word_is(bytes, start, end, "sub") {
        TokenType::Sub
    } else if word_is(bytes, start, end, "sbc") {
        TokenType::Sbc
    } else if word_is(bytes, start, end, "stop") {
        TokenType::Stop
    } else if word_is(bytes, start, end, "rla") {
        TokenType::Rla
    } else if word_is(bytes, start, end, "jr") {
        TokenType::Jr
    } else if word_is(bytes, start, end, "jp") {
        TokenType::Jp
    } else if word_is(bytes, start, end, "daa") {
        TokenType::Daa
    } else if word_is(bytes, start, end, "cpl") {
        TokenType::Cpl
    } else if word_is(bytes, start, end, "ccf") {
        TokenType::Ccf
    } else if word_is(bytes, start, end, "halt") {
        TokenType::Halt
    } else if word_is(bytes, start, end, "ret") {
        TokenType::Ret
    } else if word_is(bytes, start, end, "push") {
        TokenType::Push
    } else if word_is(bytes, start, end, "pop") {
        TokenType::Pop
    } else if word_is(bytes, start, end, "call") {
        TokenType::Call
    } else if word_is(bytes, start, end, "rst") {
        TokenType::Rst
    } else if word_is(bytes, start, end, "ei") {
        TokenType::Ei
    } else if word_is(bytes, start, end, "di") {
        TokenType::Di
    } else if word_is(bytes, start, end, "fun") {
        TokenType::MacroDefineFunctionStart
    } else if word_is(bytes, start, end, "end") {
        TokenType::MacroDefineFunctionEnd
    } else if word_is(bytes, start, end, "db") {
        TokenType::MacroDefineByte
    } else if word_is(bytes, start, end, "dw") {
        TokenType::MacroDefineWord
    } else if word_is(bytes, start, end, "dd") {
        TokenType::MacroDefineDWord
    } else if word_is(bytes, start, end, "dba") {
        TokenType::MacroDefineByteArray
    } else if word_is(bytes, start, end, "zf") {
        TokenType::ZeroFlag
    } else if word_is(bytes, start, end, "nf") {
        TokenType::NegativeFlag
    } else if word_is(bytes, start, end, "cf") {
        TokenType::CarryFlag
    } else if word_is(bytes, start, end, "hf") {
        TokenType::HalfCarryFlag
    } else if word_is(bytes, start, end, "a") {
        TokenType::RegisterA
    } else if word_is(bytes, start, end, "b") {
        TokenType::RegisterB
    } else if word_is(bytes, start, end, "c") {
        TokenType::RegisterC
    } else if word_is(bytes, start, end, "d") {
        TokenType::RegisterD
    } else if word_is(bytes, start, end, "e") {
        TokenType::RegisterE
    } else if word_is(bytes, start, end, "h") {
        TokenType::RegisterH
    } else if word_is(bytes, start, end, "l") {
        TokenType::RegisterL
    } else if word_is(bytes, start, end, "af") {
        TokenType::RegisterAF
    } else if word_is(bytes, start, end, "bc") {
        TokenType::RegisterBC
    } else if word_is(bytes, start, end, "de") {
        TokenType::RegisterDE
    } else if word_is(bytes, start, end, "hl") {
        TokenType::RegisterHL
    } else if word_is(bytes, start, end, "sp") {
        TokenType::RegisterSP
    } else {
        TokenType::Identifier
    }
}

impl vstd::std_specs::convert::FromSpecImpl<&str> for TokenType {
    open spec fn obeys_from_spec() -> bool {
        true
    }

    open spec fn from_spec(value: &str) -> TokenType {
        keyword_type(value.spec_bytes())
    }
}

impl From<&str> for TokenType {
    /// The kind of token that a word is.
    fn from(value: &str) -> (token: TokenType) {
        let bytes = value.as_bytes();
        assert(bytes@.subrange(0, bytes@.len() as int) =~= bytes@);
        classify(bytes, 0, bytes.len())
    }
}

/// Where the lexer stands in its source.
#[derive(Debug, PartialEq, Eq, Copy, Clone, Structural)]
pub struct Cursor {
    pub position: usize,
    pub line: usize,
    /// Where the current line begins.
    pub line_start: usize,
}

/// The lexer: a source text and the position that it has been read to.
pub struct Lexer {
    source: Vec<u8>,
    length: usize,
    cursor: Cursor,
}

impl Lexer {
    #[verifier::type_invariant]
    spec fn well_formed(self) -> bool {
        &&& self.length == self.source.len()
        &&& self.cursor.position <= self.length
        &&& self.cursor.line == line_at(self.source@, self.cursor.position as int)
    }

    /// The bytes of the source.
    pub closed spec fn bytes(&self) -> Seq<u8> {
        self.source@
    }

    /// The position that the source has been read to.
    pub closed spec fn at(&self) -> int {
        self.cursor.position as int
    }

    /// A lexer at the start of a source text.
    pub fn new(source: &str) -> (lexer: Lexer)
        ensures
            lexer.bytes() == source.spec_bytes(),
            lexer.at() == 0,
    {
        let bytes = slice_to_vec(source.as_bytes());
        let length = bytes.len();
        Lexer { source: bytes, length, cursor: Cursor { position: 0, line: 1, line_start: 0 } }
    }

    /// Whether the source has been read to its end.
    pub fn reached_end(&self) -> (ended: bool)
        ensures
            ended == (self.at() >= self.bytes().len()),
            0 <= self.at() <= self.bytes().len() <= usize::MAX,
    {
        proof {
            use_type_invariant(self);
        }
        self.cursor.position >= self.length
    }

    /// Moves one byte on, unless the source has been read to its end.
    pub fn advance(&mut self)
        ensures
            final(self).bytes() == old(self).bytes(),
            final(self).at() == if old(self).at() < old(self).bytes().len() {
                old(self).at() + 1
            } else {
                old(self).at()
            },
    {
        proof {
            use_type_invariant(&*self);
        }
        if self.reached_end() {
            return ;
        }
        let position = self.cursor.position + 1;
        self.cursor = if self.peek() == NEWLINE {
            Cursor { position, line: self.cursor.line.saturating_add(1), line_start: position }
        } else {
            Cursor { position, ..self.cursor }
        };
    }

    /// The token that marks the end of the source, at the position read to.
    pub fn end_of_file_token(&self) -> (token: Token)
        ensures
            token == Token::of(
                TokenType::EOF,
                self.at(),
                self.at(),
                line_at(self.bytes(), self.at()),
            ),
    {
        proof {
            use_type_invariant(self);
        }
        Token::new(TokenType::EOF, self.cursor.position, self.cursor.position, self.cursor.line)
    }

    /// The byte at the position read to.
    pub fn peek(&self) -> (byte: u8)
        requires
            self.at() < self.bytes().len(),
        ensures
            byte == self.bytes()[self.at()],
    {
        proof {
            use_type_invariant(self);
        }
        self.source[self.cursor.position]
    }

    /// Reads on to the end of the run of bytes of a class.
    pub fn advance_while(&mut self, class: ByteClass)
        ensures
            final(self).bytes() == old(self).bytes(),
            final(self).at() == run_end(old(self).bytes(), old(self).at(), class),
            old(self).at() <= final(self).at() <= final(self).bytes().len(),
    {
        proof {
            use_type_invariant(&*self);
        }
        while !self.reached_end() && class.contains(self.peek())
            invariant
                self.bytes() == old(self).bytes(),
                old(self).at() <= self.at() <= self.bytes().len(),
                run_end(self.bytes(), self.at(), class) == run_end(
                    old(self).bytes(),
                    old(self).at(),
                    class,
                ),
            decreases self.bytes().len() - self.at(),
        {
            self.advance();
        }
    }

    /// Reads on over white space.
    pub fn consume_whitespace(&mut self)
        ensures
            final(self).bytes() == old(self).bytes(),
            final(self).at() == run_end(old(self).bytes(), old(self).at(), ByteClass::Space),
            old(self).at() <= final(self).at() <= final(self).bytes().len(),
    {
        self.advance_while(ByteClass::Space);
    }

    /// The bytes of the source.
    pub fn source_bytes(&self) -> (bytes: &[u8])
        ensures
            bytes@ == self.bytes(),
    {
        self.source.as_slice()
    }

    /// The position that the source has been read to, and the line it is in.
    pub fn cursor(&self) -> (cursor: Cursor)
        ensures
            cursor.position == self.at(),
            cursor.position <= self.bytes().len() <= usize::MAX,
            cursor.line == line_at(self.bytes(), self.at()),
    {
        proof {
            use_type_invariant(self);
        }
        self.cursor
    }

    /// The token from `start` to the position read to.
    fn token_from(&self, token: TokenType, start: usize) -> (made: Token)
        ensures
            made == Token::of(token, start as int, self.at(), line_at(self.bytes(), self.at())),
    {
        proof {
            use_type_invariant(self);
        }
        Token::new(token, start, self.cursor.position, self.cursor.line)
    }

    fn scan_macro(&mut self) -> (token: Token)
        requires
            old(self).at() < old(self).bytes().len(),
            old(self).bytes()[old(self).at()] == 0x2E,
        ensures
            final(self).bytes() == old(self).bytes(),
            Ok::<Token, LexerErrors>(token) == token_at(old(self).bytes(), old(self).at()),
            final(self).at() == token.position.end,
    {
        self.advance();  // Consume the dot symbol
        self.scan_identifier_from()
    }

    fn scan_string(&mut self) -> (token: Result<Token, LexerErrors>)
        requires
            old(self).at() < old(self).bytes().len(),
            old(self).bytes()[old(self).at()] == 0x22,
        ensures
            final(self).bytes() == old(self).bytes(),
            old(self).at() <= final(self).at() <= final(self).bytes().len(),
            token == token_at(old(self).bytes(), old(self).at()),
            token matches Ok(made) ==> final(self).at() == made.position.end,
    {
        self.advance();  //Consume the first quote symbol
        proof {
            use_type_invariant(&*self);
        }
        let start = self.cursor.position;
        self.advance_while(ByteClass::Unquoted);
        proof {
            use_type_invariant(&*self);
            lemma_run_end_bounds(self.bytes(), start as int, ByteClass::Unquoted);
        }
        if self.reached_end() {
            if start < self.length {
                return Err(LexerErrors::StringWithoutEnd);
            }
        } else {
            self.advance();
        }
        Ok(self.token_from(TokenType::String, start))
    }

    /// Reads a word and says what kind of token it is.
    fn scan_identifier_from(&mut self) -> (token: Token)
        ensures
            final(self).bytes() == old(self).bytes(),
            final(self).at() == run_end(old(self).bytes(), old(self).at(), ByteClass::Word),
            token == Token::of(
                keyword_type(old(self).bytes().subrange(old(self).at(), final(self).at())),
                old(self).at(),
                final(self).at(),
                line_at(old(self).bytes(), final(self).at()),
            ),
    {
        proof {
            use_type_invariant(&*self);
        }
        let start = self.cursor.position;
        self.advance_while(ByteClass::Word);
        proof {
            use_type_invariant(&*self);
        }
        let kind = classify(self.source.as_slice(), start, self.cursor.position);
        self.token_from(kind, start)
    }

    fn scan_identifier(&mut self) -> (token: Token)
        requires
            old(self).at() < old(self).bytes().len(),
            old(self).bytes()[old(self).at()] == 0x5F || is_letter(old(self).bytes()[old(self).at()]),
        ensures
            final(self).bytes() == old(self).bytes(),
            Ok::<Token, LexerErrors>(token) == token_at(old(self).bytes(), old(self).at()),
            final(self).at() == token.position.end,
    {
        self.scan_identifier_from()
    }

    pub fn is_binarydigit(byte: u8) -> (binary: bool)
        ensures
            binary == ByteClass::Binary.holds(byte),
    {
        byte == 0x30 || byte == 0x31
    }

    /// Reads a run of digits of a class and says what kind of number it is by
    /// its length.
    fn scan_digits(
        &mut self,
        class: ByteClass,
        byte_length: usize,
        word_length: usize,
        byte: TokenType,
        word: TokenType,
    ) -> (token: Result<Token, LexerErrors>)
        ensures
            old(self).at() <= final(self).at() <= final(self).bytes().len(),
            final(self).bytes() == old(self).bytes(),
            final(self).at() == run_end(old(self).bytes(), old(self).at(), class),
            token == match number_type(
                final(self).at() - old(self).at(),
                byte_length as int,
                word_length as int,
                byte,
                word,
            ) {
                Ok(kind) => Ok::<Token, LexerErrors>(
                    Token::of(
                        kind,
                        old(self).at(),
                        final(self).at(),
                        line_at(old(self).bytes(), final(self).at()),
                    ),
                ),
                Err(error) => Err::<Token, LexerErrors>(error),
            },
    {
        proof {
            use_type_invariant(&*self);
        }
        let start = self.cursor.position;
        self.advance_while(class);
        proof {
            use_type_invariant(&*self);
        }
        let length = self.cursor.position - start;
        let kind = if length == byte_length {
            byte
        } else if length == word_length {
            word
        } else {
            return Err(LexerErrors::InvalidNumberLiteral);
        };
        Ok(self.token_from(kind, start))
    }

    fn scan_binary_number(&mut self) -> (token: Result<Token, LexerErrors>)
        requires
            old(self).at() < old(self).bytes().len(),
            old(self).bytes()[old(self).at()] == 0x25,
        ensures
            final(self).bytes() == old(self).bytes(),
            old(self).at() <= final(self).at() <= final(self).bytes().len(),
            token == token_at(old(self).bytes(), old(self).at()),
            token matches Ok(made) ==> final(self).at() == made.position.end,
    {
        self.advance();  //Consume the % symbol
        self.scan_digits(
            ByteClass::Binary,
            8,
            16,
            TokenType::BinaryValueByte,
            TokenType::BinaryValueWord,
        )
    }

    fn scan_number(&mut self) -> (token: Result<Token, LexerErrors>)
        requires
            old(self).at() < old(self).bytes().len(),
            is_digit(old(self).bytes()[old(self).at()]),
        ensures
            final(self).bytes() == old(self).bytes(),
            old(self).at() <= final(self).at() <= final(self).bytes().len(),
            token == token_at(old(self).bytes(), old(self).at()),
            token matches Ok(made) ==> final(self).at() == made.position.end,
    {
        self.scan_digits(
            ByteClass::Digit,
            3,
            5,
            TokenType::DecimalValueByte,
            TokenType::DecimalValueWord,
        )
    }

    pub fn is_hexsymbol(byte: u8) -> (hex: bool)
        ensures
            hex == ByteClass::Hex.holds(byte),
    {
        (0x30 <= byte && byte <= 0x39) || (0x61 <= byte && byte <= 0x66) || (0x41 <= byte && byte
            <= 0x46)
    }

    fn scan_hexnumber(&mut self) -> (token: Result<Token, LexerErrors>)
        requires
            old(self).at() < old(self).bytes().len(),
            old(self).bytes()[old(self).at()] == 0x24,
        ensures
            final(self).bytes() == old(self).bytes(),
            old(self).at() <= final(self).at() <= final(self).bytes().len(),
            token == token_at(old(self).bytes(), old(self).at()),
            token matches Ok(made) ==> final(self).at() == made.position.end,
    {
        self.advance();  //Consume the $ symbol
        self.scan_digits(ByteClass::Hex, 2, 4, TokenType::HexValueByte, TokenType::HexValueWord)
    }

    fn scan_operator(&mut self) -> (token: Result<Token, LexerErrors>)
        requires
            old(self).at() < old(self).bytes().len(),
        ensures
            final(self).bytes() == old(self).bytes(),
            token == match operator_type(old(self).bytes()[old(self).at()]) {
                Some(kind) => Ok::<Token, LexerErrors>(
                    Token::of(
                        kind,
                        old(self).at(),
                        old(self).at() + 1,
                        line_at(old(self).bytes(), old(self).at() + 1),
                    ),
                ),
                None => Err::<Token, LexerErrors>(
                    LexerErrors::UnknownOperator(old(self).bytes()[old(self).at()]),
                ),
            },
            final(self).at() == old(self).at() + 1,
    {
        proof {
            use_type_invariant(&*self);
        }
        let start = self.cursor.position;
        let symbol = self.peek();
        self.advance();
        let tokentype = match symbol {
            0x28 => TokenType::OpenParen,
            0x29 => TokenType::CloseParen,
            0x23 => TokenType::PoundSign,
            0x2C => TokenType::Comma,
            0x2E => TokenType::Dot,
            0x3A => TokenType::Colon,
            0x2B => TokenType::Plus,
            0x2D => TokenType::Minus,
            _ => {
                return Err(LexerErrors::UnknownOperator(symbol));
            },
        };
        Ok(self.token_from(tokentype, start))
    }

    /// Reads the next token: `None` at the end of the source, else the token
    /// that begins after the white space, or why there is none.
    pub fn next_token(&mut self) -> (next: Option<Result<Token, LexerErrors>>)
        ensures
            final(self).bytes() == old(self).bytes(),
            old(self).at() <= final(self).at() <= final(self).bytes().len(),
            ({
                let at = run_end(old(self).bytes(), old(self).at(), ByteClass::Space);
                if at >= old(self).bytes().len() {
                    next is None && final(self).at() == at
                } else {
                    &&& next == Some(token_at(old(self).bytes(), at))
                    &&& next matches Some(Ok(token)) ==> final(self).at() == token.position.end
                }
            }),
    {
        self.consume_whitespace();
        if self.reached_end() {
            return None;
        }
        proof {
            use_type_invariant(&*self);
            lemma_token_advances(self.bytes(), self.at());
        }
        let character = self.peek();
        let token = if character == QUOTE {
            self.scan_string()
        } else if character == PERCENT {
            self.scan_binary_number()
        } else if character == DOLLAR {
            self.scan_hexnumber()
        } else if character == UNDERSCORE || (0x41 <= character && character <= 0x5A) || (0x61
            <= character && character <= 0x7A) {
            Ok(self.scan_identifier())
        } else if character == FULL_STOP {
            Ok(self.scan_macro())
        } else if 0x30 <= character && character <= 0x39 {
            self.scan_number()
        } else {
            self.scan_operator()
        };
        Some(token)
    }

    /// Reads all the tokens that are left, in their order, or gives the first
    /// error.
    pub fn tokenize(&mut self) -> (tokens: Result<Vec<Token>, LexerErrors>)
        ensures
            final(self).bytes() == old(self).bytes(),
            tokens matches Ok(list) ==> tokens_from(old(self).bytes(), old(self).at()) == Ok::<
                Seq<Token>,
                LexerErrors,
            >(list@),
            tokens matches Err(error) ==> tokens_from(old(self).bytes(), old(self).at()) == Err::<
                Seq<Token>,
                LexerErrors,
            >(error),
    {
        let mut result: Vec<Token> = Vec::new();
        let ghost bytes = self.bytes();
        proof {
            use_type_invariant(&*self);
        }
        loop
            invariant
                self.bytes() == bytes,
                bytes == old(self).bytes(),
                0 <= self.at() <= bytes.len() <= usize::MAX,
                match tokens_from(bytes, self.at()) {
                    Ok(rest) => tokens_from(bytes, old(self).at()) == Ok::<
                        Seq<Token>,
                        LexerErrors,
                    >(result@ + rest),
                    Err(error) => tokens_from(bytes, old(self).at()) == Err::<
                        Seq<Token>,
                        LexerErrors,
                    >(error),
                },
            decreases bytes.len() - self.at(),
        {
            let ghost before = self.at();
            proof {
                lemma_run_end_bounds(bytes, before, ByteClass::Space);
                let at = run_end(bytes, before, ByteClass::Space);
                if at < bytes.len() {
                    lemma_token_advances(bytes, at);
                }
            }
            match self.next_token() {
                None => {
                    assert(result@ + Seq::<Token>::empty() =~= result@);
                    return Ok(result);
                },
                Some(Err(error)) => {
                    return Err(error);
                },
                Some(Ok(token)) => {
                    proof {
                        let rest = tokens_from(bytes, token.position.end as int);
                        if rest is Ok {
                            assert(result@ + (seq![token] + rest->Ok_0) =~= result@.push(token)
                                + rest->Ok_0);
                        }
                    }
                    result.push(token);
                },
            }
        }
    }
}

} // verus!
