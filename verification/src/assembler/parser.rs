//! The parser of the assembler: from the tokens of a source text to commands,
//! and to functions with renamed registers.

use crate::assembler::lexer::Token;
use crate::assembler::lexer::TokenType;
use vstd::prelude::*;
use vstd::string::StringSliceAdditionalSpecFns;
use vstd::utf8::encode_utf8;
use vstd::utf8::is_char_boundary;

verus! {

/// Why tokens could not be parsed.
#[derive(Debug, Eq, PartialEq, Clone, Copy, Structural)]
pub enum ParserErrors {
    /// The tokens end where one more is needed.
    UnexpectedEnd,
    /// A token of this kind cannot stand where it stands.
    UnexpectedToken(TokenType),
    /// The text of a value is no number of its base, or one too large.
    InvalidValue,
    /// The range of a token is no piece of the source text.
    InvalidRange,
    /// A construct that the parser knows of and cannot parse.
    Unsupported(TokenType),
}

#[derive(Debug, Eq, PartialEq, Clone, Copy, Structural)]
pub enum ByteReg {
    A,
    B,
    C,
    D,
    E,
    H,
    L,
}

#[derive(Debug, Eq, PartialEq, Clone, Copy, Structural)]
pub enum WordReg {
    AF,
    BC,
    DE,
    HL,
}

#[derive(Debug, Eq, PartialEq, Clone, Copy, Structural)]
pub enum Condition {
    Unconditional,
    OnZeroSet,
    OnNegativeSet,
    OnCarrySet,
    OnHalfCarrySet,
}

/// The byte register that a token names, if it names one.
pub open spec fn byte_reg_of(kind: TokenType) -> Option<ByteReg> {
    match kind {
        TokenType::RegisterA => Some(ByteReg::A),
        TokenType::RegisterB => Some(ByteReg::B),
        TokenType::RegisterC => Some(ByteReg::C),
        TokenType::RegisterD => Some(ByteReg::D),
        TokenType::RegisterE => Some(ByteReg::E),
        TokenType::RegisterH => Some(ByteReg::H),
        TokenType::RegisterL => Some(ByteReg::L),
        _ => None,
    }
}

/// The word register that a token names, if it names one.
pub open spec fn word_reg_of(kind: TokenType) -> Option<WordReg> {
    match kind {
        TokenType::RegisterAF => Some(WordReg::AF),
        TokenType::RegisterBC => Some(WordReg::BC),
        TokenType::RegisterDE => Some(WordReg::DE),
        TokenType::RegisterHL => Some(WordReg::HL),
        _ => None,
    }
}

impl ByteReg {
    /// The byte register that a token names.
    pub fn from_token(kind: TokenType) -> (reg: Option<ByteReg>)
        ensures
            reg == byte_reg_of(kind),
    {
        match kind {
            TokenType::RegisterA => Some(ByteReg::A),
            TokenType::RegisterB => Some(ByteReg::B),
            TokenType::RegisterC => Some(ByteReg::C),
            TokenType::RegisterD => Some(ByteReg::D),
            TokenType::RegisterE => Some(ByteReg::E),
            TokenType::RegisterH => Some(ByteReg::H),
            TokenType::RegisterL => Some(ByteReg::L),
            _ => None,
        }
    }
}

impl WordReg {
    /// The word register that a token names.
    pub fn from_token(kind: TokenType) -> (reg: Option<WordReg>)
        ensures
            reg == word_reg_of(kind),
    {
        match kind {
            TokenType::RegisterAF => Some(WordReg::AF),
            TokenType::RegisterBC => Some(WordReg::BC),
            TokenType::RegisterDE => Some(WordReg::DE),
            TokenType::RegisterHL => Some(WordReg::HL),
            _ => None,
        }
    }
}

/// The value of a digit: 0 to 9 for `0` to `9`, 10 to 35 for the letters in
/// either case, and nothing for any other byte.
pub open spec fn digit_value(byte: u8) -> Option<int> {
    if 0x30 <= byte <= 0x39 {
        Some(byte - 0x30)
    } else if 0x61 <= byte <= 0x7A {
        Some(byte - 0x61 + 10)
    } else if 0x41 <= byte <= 0x5A {
        Some(byte - 0x41 + 10)
    } else {
        None
    }
}

/// Whether a byte is a digit of the base.
pub open spec fn is_digit_of(byte: u8, radix: int) -> bool {
    match digit_value(byte) {
        Some(value) => value < radix,
        None => false,
    }
}

/// Whether every byte is a digit of the base.
pub open spec fn all_digits(digits: Seq<u8>, radix: int) -> bool {
    forall|i: int| 0 <= i < digits.len() ==> is_digit_of(#[trigger] digits[i], radix)
}

/// The number that digits of a base stand for, most significant digit first.
pub open spec fn digits_value(digits: Seq<u8>, radix: int) -> int
    decreases digits.len(),
{
    if digits.len() == 0 {
        0
    } else {
        digits_value(digits.drop_last(), radix) * radix + match digit_value(digits.last()) {
            Some(value) => value,
            None => 0,
        }
    }
}

/// The digits of the text of a number: the text without a leading `+`, if
/// more than the sign is there.
pub open spec fn unsigned_digits(text: Seq<u8>) -> Seq<u8> {
    if text.len() > 1 && text[0] == 0x2B {
        text.subrange(1, text.len() as int)
    } else {
        text
    }
}

/// The number that a text stands for in a base, if its digits, after a `+`
/// that may lead them, are digits of the base, there is one at least, and the
/// number is no more than `max`.
pub open spec fn number_value(text: Seq<u8>, radix: int, max: int) -> Option<int> {
    let digits = unsigned_digits(text);
    if digits.len() > 0 && all_digits(digits, radix) && digits_value(digits, radix) <= max {
        Some(digits_value(digits, radix))
    } else {
        None
    }
}

/// The value of digits grows with every digit that follows.
proof fn lemma_digits_value_grows(digits: Seq<u8>, radix: int, count: int)
    requires
        2 <= radix,
        0 <= count <= digits.len(),
        all_digits(digits, radix),
    ensures
        0 <= digits_value(digits.take(count), radix) <= digits_value(digits, radix),
    decreases digits.len() - count,
{
    if count == digits.len() {
        assert(digits.take(count) =~= digits);
        lemma_digits_value_nonnegative(digits, radix);
    } else {
        lemma_digits_value_grows(digits, radix, count + 1);
        let longer = digits.take(count + 1);
        assert(longer.drop_last() =~= digits.take(count));
        assert(longer.last() == digits[count]);
        lemma_digits_value_nonnegative(digits.take(count), radix);
        let shorter = digits_value(digits.take(count), radix);
        assert(shorter * radix >= shorter) by (nonlinear_arith)
            requires
                shorter >= 0,
                radix >= 2,
        ;
    }
}

proof fn lemma_digits_value_nonnegative(digits: Seq<u8>, radix: int)
    requires
        2 <= radix,
    ensures
        0 <= digits_value(digits, radix),
    decreases digits.len(),
{
    if digits.len() > 0 {
        lemma_digits_value_nonnegative(digits.drop_last(), radix);
        let front = digits_value(digits.drop_last(), radix);
        assert(front * radix >= 0) by (nonlinear_arith)
            requires
                front >= 0,
                radix >= 2,
        ;
    }
}

/// The value of one digit, if the byte is a digit of the base.
fn digit_of(byte: u8, radix: u32) -> (value: Option<u32>)
    requires
        2 <= radix <= 36,
    ensures
        value matches Some(found) ==> digit_value(byte) == Some(found as int) && found < radix,
        value is None ==> !is_digit_of(byte, radix as int),
{
    let found: u32 = if 0x30 <= byte && byte <= 0x39 {
        (byte - 0x30) as u32
    } else if 0x61 <= byte && byte <= 0x7A {
        (byte - 0x61) as u32 + 10
    } else if 0x41 <= byte && byte <= 0x5A {
        (byte - 0x41) as u32 + 10
    } else {
        return None;
    };
    if found < radix {
        Some(found)
    } else {
        None
    }
}

/// Reads a number of a base from its text.
pub fn parse_number(text: &[u8], radix: u32, max: u32) -> (value: Option<u32>)
    requires
        2 <= radix <= 36,
        max <= 0xFFFF,
    ensures
        match value {
            Some(found) => number_value(text@, radix as int, max as int) == Some(found as int),
            None => number_value(text@, radix as int, max as int) is None,
        },
{
    let first: usize = if text.len() > 1 && text[0] == 0x2B {
        1
    } else {
        0
    };
    let ghost digits = unsigned_digits(text@);
    assert(digits =~= text@.subrange(first as int, text@.len() as int));
    if text.len() == first {
        return None;
    }
    let mut total: u32 = 0;
    let mut i: usize = first;
    while i < text.len()
        invariant
            first <= i <= text.len(),
            2 <= radix <= 36,
            max <= 0xFFFF,
            digits == unsigned_digits(text@),
            digits == text@.subrange(first as int, text@.len() as int),
            all_digits(digits.take(i - first), radix as int),
            total == digits_value(digits.take(i - first), radix as int),
            total <= max,
        decreases text.len() - i,
    {
        let ghost before = digits.take(i - first);
        let ghost after = digits.take(i - first + 1);
        assert(after.drop_last() =~= before);
        assert(after.last() == text[i as int]);
        match digit_of(text[i], radix) {
            None => {
                assert(!all_digits(digits, radix as int)) by {
                    if all_digits(digits, radix as int) {
                        assert(is_digit_of(digits[i - first], radix as int));
                    }
                }
                return None;
            },
            Some(digit) => {
                assert(all_digits(after, radix as int)) by {
                    assert forall|k: int| 0 <= k < after.len() implies is_digit_of(
                        #[trigger] after[k],
                        radix as int,
                    ) by {
                        if k < before.len() {
                            assert(after[k] == before[k]);
                        }
                    }
                }
                assert(total * radix <= 0xFFFF * 36) by (nonlinear_arith)
                    requires
                        total <= 0xFFFF,
                        radix <= 36,
                ;
                let next: u32 = total * radix + digit;
                if next > max {
                    proof {
                        if all_digits(digits, radix as int) {
                            lemma_digits_value_grows(digits, radix as int, i - first + 1);
                        }
                    }
                    return None;
                }
                total = next;
            },
        }
        i = i + 1;
    }
    assert(digits.take(i - first) =~= digits);
    Some(total)
}

/// Whether a range of bytes is a piece of a text: it lies within the text and
/// begins and ends where a character does.
pub open spec fn sliceable(bytes: Seq<u8>, start: int, end: int) -> bool {
    &&& 0 <= start <= end <= bytes.len()
    &&& is_char_boundary(bytes, end)
    &&& is_char_boundary(bytes.subrange(0, end), start)
}

/// The piece of a text over a range of its bytes.
pub fn text_of(source: &str, start: usize, end: usize) -> (piece: Result<String, ParserErrors>)
    ensures
        match piece {
            Ok(text) => sliceable(source.spec_bytes(), start as int, end as int) && encode_utf8(
                text@,
            ) == source.spec_bytes().subrange(start as int, end as int),
            Err(error) => error == ParserErrors::InvalidRange && !sliceable(
                source.spec_bytes(),
                start as int,
                end as int,
            ),
        },
{
    if start > end || end > source.as_bytes().len() || !source.is_char_boundary(end) {
        return Err(ParserErrors::InvalidRange);
    }
    let (head, _) = source.split_at(end);
    assert(head.spec_bytes() == source.spec_bytes().subrange(0, end as int));
    if !head.is_char_boundary(start) {
        return Err(ParserErrors::InvalidRange);
    }
    let (_, piece) = head.split_at(start);
    assert(piece.spec_bytes() =~= source.spec_bytes().subrange(start as int, end as int));
    Ok(piece.to_owned())
}

/// What an instruction works on.
#[derive(Debug, Eq, PartialEq, Clone)]
pub enum Target {
    Identifier(String),
    MemReg(WordReg),
    MemRegInc(WordReg),
    MemRegDec(WordReg),
    ByteReg(ByteReg),
    WordReg(WordReg),
    Address16(u16),
    Data8(u8),
    Data16(u16),
}

/// A register under a name of the programmer's.
#[derive(Debug, Eq, PartialEq, Clone)]
pub enum Macro {
    RenameByteReg(String, ByteReg),
    RenameWordReg(String, WordReg),
}

#[derive(Debug, Eq, PartialEq, Clone)]
pub enum Command {
    Lable(String),
    Load(Target, Target),
    Add(Target, Target),
    Adc(Target, Target),
    Inc(Target),
    Dec(Target),
    Push(WordReg),
    Pop(WordReg),
    JumpRel(Condition, Target),
    Jump(Condition, Target),
    Call(Condition, Target),
    And(Target),
    Or(Target),
    Xor(Target),
    Sbc(Target),
    Cp(Target),
    Ret(Condition),
}

/// A function: its name, its renamed registers if it has any, and its body.
#[derive(Debug, Eq, PartialEq, Clone)]
pub enum Function {
    Function(String, Option<Vec<Macro>>, Vec<Command>),
    FunEnd,
}

/// What a source text holds.
#[derive(Debug, Eq, PartialEq, Clone)]
pub struct AssemblyTree {
    pub macros: Option<Vec<Macro>>,
    pub functions: Option<Vec<Function>>,
    pub assembly: Option<Vec<Command>>,
}

/// A target as contracts see it: a name is the bytes of its text.
pub enum TargetModel {
    Identifier(Seq<u8>),
    MemReg(WordReg),
    MemRegInc(WordReg),
    MemRegDec(WordReg),
    ByteReg(ByteReg),
    WordReg(WordReg),
    Address16(u16),
    Data8(u8),
    Data16(u16),
}

/// A renamed register as contracts see it.
pub enum MacroModel {
    RenameByteReg(Seq<u8>, ByteReg),
    RenameWordReg(Seq<u8>, WordReg),
}

/// A command as contracts see it.
pub enum CommandModel {
    Lable(Seq<u8>),
    Load(TargetModel, TargetModel),
    Add(TargetModel, TargetModel),
    Adc(TargetModel, TargetModel),
    Inc(TargetModel),
    Dec(TargetModel),
    Push(WordReg),
    Pop(WordReg),
    JumpRel(Condition, TargetModel),
    Jump(Condition, TargetModel),
    Call(Condition, TargetModel),
    And(TargetModel),
    Or(TargetModel),
    Xor(TargetModel),
    Sbc(TargetModel),
    Cp(TargetModel),
    Ret(Condition),
}

/// A function as contracts see it.
pub enum FunctionModel {
    Function(Seq<u8>, Option<Seq<MacroModel>>, Seq<CommandModel>),
    FunEnd,
}

/// What a source text holds, as contracts see it.
pub struct AssemblyTreeModel {
    pub macros: Option<Seq<MacroModel>>,
    pub functions: Option<Seq<FunctionModel>>,
    pub assembly: Option<Seq<CommandModel>>,
}

impl View for Target {
    type V = TargetModel;

    open spec fn view(&self) -> TargetModel {
        match self {
            Target::Identifier(name) => TargetModel::Identifier(encode_utf8(name@)),
            Target::MemReg(reg) => TargetModel::MemReg(*reg),
            Target::MemRegInc(reg) => TargetModel::MemRegInc(*reg),
            Target::MemRegDec(reg) => TargetModel::MemRegDec(*reg),
            Target::ByteReg(reg) => TargetModel::ByteReg(*reg),
            Target::WordReg(reg) => TargetModel::WordReg(*reg),
            Target::Address16(value) => TargetModel::Address16(*value),
            Target::Data8(value) => TargetModel::Data8(*value),
            Target::Data16(value) => TargetModel::Data16(*value),
        }
    }
}

impl View for Macro {
    type V = MacroModel;

    open spec fn view(&self) -> MacroModel {
        match self {
            Macro::RenameByteReg(name, reg) => MacroModel::RenameByteReg(encode_utf8(name@), *reg),
            Macro::RenameWordReg(name, reg) => MacroModel::RenameWordReg(encode_utf8(name@), *reg),
        }
    }
}

impl View for Command {
    type V = CommandModel;

    open spec fn view(&self) -> CommandModel {
        match self {
            Command::Lable(name) => CommandModel::Lable(encode_utf8(name@)),
            Command::Load(dst, src) => CommandModel::Load(dst@, src@),
            Command::Add(dst, src) => CommandModel::Add(dst@, src@),
            Command::Adc(dst, src) => CommandModel::Adc(dst@, src@),
            Command::Inc(target) => CommandModel::Inc(target@),
            Command::Dec(target) => CommandModel::Dec(target@),
            Command::Push(reg) => CommandModel::Push(*reg),
            Command::Pop(reg) => CommandModel::Pop(*reg),
            Command::JumpRel(condition, target) => CommandModel::JumpRel(*condition, target@),
            Command::Jump(condition, target) => CommandModel::Jump(*condition, target@),
            Command::Call(condition, target) => CommandModel::Call(*condition, target@),
            Command::And(target) => CommandModel::And(target@),
            Command::Or(target) => CommandModel::Or(target@),
            Command::Xor(target) => CommandModel::Xor(target@),
            Command::Sbc(target) => CommandModel::Sbc(target@),
            Command::Cp(target) => CommandModel::Cp(target@),
            Command::Ret(condition) => CommandModel::Ret(*condition),
        }
    }
}

/// A list of renamed registers as contracts see it.
pub open spec fn macros_view(list: Seq<Macro>) -> Seq<MacroModel> {
    Seq::new(list.len(), |i: int| list[i]@)
}

/// A list of commands as contracts see it.
pub open spec fn commands_view(list: Seq<Command>) -> Seq<CommandModel> {
    Seq::new(list.len(), |i: int| list[i]@)
}

impl View for Function {
    type V = FunctionModel;

    open spec fn view(&self) -> FunctionModel {
        match self {
            Function::Function(name, renamings, body) => FunctionModel::Function(
                encode_utf8(name@),
                match renamings {
                    Some(list) => Some(macros_view(list@)),
                    None => None,
                },
                commands_view(body@),
            ),
            Function::FunEnd => FunctionModel::FunEnd,
        }
    }
}

/// A list of functions as contracts see it.
pub open spec fn functions_view(list: Seq<Function>) -> Seq<FunctionModel> {
    Seq::new(list.len(), |i: int| list[i]@)
}

impl View for AssemblyTree {
    type V = AssemblyTreeModel;

    open spec fn view(&self) -> AssemblyTreeModel {
        AssemblyTreeModel {
            macros: match self.macros {
                Some(list) => Some(macros_view(list@)),
                None => None,
            },
            functions: match self.functions {
                Some(list) => Some(functions_view(list@)),
                None => None,
            },
            assembly: match self.assembly {
                Some(list) => Some(commands_view(list@)),
                None => None,
            },
        }
    }
}

/// What the parser reads: a source text and its tokens.
pub struct Input {
    pub source: Seq<u8>,
    pub tokens: Seq<Token>,
}

/// The list with nothing in it as no list at all.
pub open spec fn some_if_any<T>(list: Seq<T>) -> Option<Seq<T>> {
    if list.len() == 0 {
        None
    } else {
        Some(list)
    }
}

impl Input {
    /// The kind of the token at a place, if there is a token.
    pub open spec fn kind(self, at: int) -> Option<TokenType> {
        if 0 <= at < self.tokens.len() {
            Some(self.tokens[at].token)
        } else {
            None
        }
    }

    /// The place after the token at `at`, which stays where the tokens end.
    pub open spec fn after(self, at: int) -> int {
        if at < self.tokens.len() {
            at + 1
        } else {
            at
        }
    }

    /// The place after a token that may stand at `at` or not. The tokens must
    /// not end there.
    pub open spec fn skip(self, at: int, kind: TokenType) -> Result<int, ParserErrors> {
        match self.kind(at) {
            None => Err(ParserErrors::UnexpectedEnd),
            Some(found) => Ok(
                if found == kind {
                    at + 1
                } else {
                    at
                },
            ),
        }
    }

    /// The text of the token at a place.
    pub open spec fn text(self, at: int) -> Result<Seq<u8>, ParserErrors> {
        let position = self.tokens[at].position;
        if sliceable(self.source, position.start as int, position.end as int) {
            Ok(self.source.subrange(position.start as int, position.end as int))
        } else {
            Err(ParserErrors::InvalidRange)
        }
    }

    /// The number that the text of the token at a place stands for.
    pub open spec fn value(self, at: int, radix: int, max: int) -> Result<int, ParserErrors> {
        match self.text(at) {
            Err(error) => Err(error),
            Ok(text) => match number_value(text, radix, max) {
                Some(value) => Ok(value),
                None => Err(ParserErrors::InvalidValue),
            },
        }
    }

    /// The byte that the token at a place stands for, as data.
    pub open spec fn byte(self, at: int, radix: int) -> Result<(TargetModel, int), ParserErrors> {
        match self.value(at, radix, 0xFF) {
            Err(error) => Err(error),
            Ok(value) => Ok((TargetModel::Data8(value as u8), at + 1)),
        }
    }

    /// The word that the token at a place stands for, as data.
    pub open spec fn word(self, at: int, radix: int) -> Result<(TargetModel, int), ParserErrors> {
        match self.value(at, radix, 0xFFFF) {
            Err(error) => Err(error),
            Ok(value) => Ok((TargetModel::Data16(value as u16), at + 1)),
        }
    }

    /// The name that the token at a place is.
    pub open spec fn name(self, at: int) -> Result<(TargetModel, int), ParserErrors> {
        match self.text(at) {
            Err(error) => Err(error),
            Ok(text) => Ok((TargetModel::Identifier(text), at + 1)),
        }
    }

    /// What stands between brackets from `at` on: the address in a word value,
    /// or the register pair BC, DE or HL that holds it. The token after it is
    /// passed by as the closing bracket.
    pub open spec fn parentheses(self, at: int) -> Result<(TargetModel, int), ParserErrors> {
        let passed = self.after(at + 1);
        match self.kind(at) {
            None => Err(ParserErrors::UnexpectedEnd),
            Some(TokenType::Identifier) => Err(ParserErrors::Unsupported(TokenType::Identifier)),
            Some(TokenType::BinaryValueWord) => self.address(at, 2, passed),
            Some(TokenType::DecimalValueWord) => self.address(at, 10, passed),
            Some(TokenType::HexValueWord) => self.address(at, 16, passed),
            Some(TokenType::RegisterBC) => Ok((TargetModel::MemReg(WordReg::BC), passed)),
            Some(TokenType::RegisterDE) => Ok((TargetModel::MemReg(WordReg::DE), passed)),
            Some(TokenType::RegisterHL) => Ok((TargetModel::MemReg(WordReg::HL), passed)),
            Some(kind) => Err(ParserErrors::UnexpectedToken(kind)),
        }
    }

    /// The address that the token at a place stands for.
    pub open spec fn address(self, at: int, radix: int, passed: int) -> Result<
        (TargetModel, int),
        ParserErrors,
    > {
        match self.value(at, radix, 0xFFFF) {
            Err(error) => Err(error),
            Ok(value) => Ok((TargetModel::Address16(value as u16), passed)),
        }
    }

    /// The data after `#`: a byte or a word value of base 2, 10 or 16.
    pub open spec fn immediate(self, at: int) -> Result<(TargetModel, int), ParserErrors> {
        match self.kind(at) {
            None => Err(ParserErrors::UnexpectedEnd),
            Some(TokenType::BinaryValueByte) => self.byte(at, 2),
            Some(TokenType::BinaryValueWord) => self.word(at, 2),
            Some(TokenType::DecimalValueByte) => self.byte(at, 10),
            Some(TokenType::DecimalValueWord) => self.word(at, 10),
            Some(TokenType::HexValueByte) => self.byte(at, 16),
            Some(TokenType::HexValueWord) => self.word(at, 16),
            Some(kind) => Err(ParserErrors::UnexpectedToken(kind)),
        }
    }

    /// The target that the tokens from `at` on name, after a comma that may
    /// stand before it: brackets, a register, data after `#`, a hexadecimal
    /// byte, or a name.
    pub open spec fn target(self, at: int) -> Result<(TargetModel, int), ParserErrors> {
        match self.skip(at, TokenType::Comma) {
            Err(error) => Err(error),
            Ok(place) => match self.kind(place) {
                None => Err(ParserErrors::UnexpectedEnd),
                Some(TokenType::OpenParen) => self.parentheses(place + 1),
                Some(TokenType::PoundSign) => self.immediate(place + 1),
                Some(TokenType::HexValueByte) => self.byte(place, 16),
                Some(TokenType::Identifier) => self.name(place),
                Some(kind) => match byte_reg_of(kind) {
                    Some(reg) => Ok((TargetModel::ByteReg(reg), place + 1)),
                    None => match word_reg_of(kind) {
                        Some(reg) => Ok((TargetModel::WordReg(reg), place + 1)),
                        None => Err(ParserErrors::UnexpectedToken(kind)),
                    },
                },
            },
        }
    }

    /// The target of a jump, after a comma that may stand before it: a name or
    /// a byte value.
    pub open spec fn jump_target(self, at: int) -> Result<(TargetModel, int), ParserErrors> {
        match self.skip(at, TokenType::Comma) {
            Err(error) => Err(error),
            Ok(place) => match self.kind(place) {
                None => Err(ParserErrors::UnexpectedEnd),
                Some(TokenType::Identifier) => self.name(place),
                Some(TokenType::BinaryValueByte) => self.byte(place, 2),
                Some(TokenType::DecimalValueByte) => self.byte(place, 10),
                Some(TokenType::HexValueByte) => self.byte(place, 16),
                Some(kind) => Err(ParserErrors::UnexpectedToken(kind)),
            },
        }
    }

    /// The condition that the token at `at` names, and none if it names none.
    /// The tokens must not end there.
    pub open spec fn conditional(self, at: int) -> Result<(Condition, int), ParserErrors> {
        match self.kind(at) {
            None => Err(ParserErrors::UnexpectedEnd),
            Some(TokenType::ZeroFlag) => Ok((Condition::OnZeroSet, at + 1)),
            Some(TokenType::NegativeFlag) => Ok((Condition::OnNegativeSet, at + 1)),
            Some(TokenType::CarryFlag) => Ok((Condition::OnCarrySet, at + 1)),
            Some(TokenType::HalfCarryFlag) => Ok((Condition::OnHalfCarrySet, at + 1)),
            Some(_) => Ok((Condition::Unconditional, at)),
        }
    }

    /// The register pair that the token at `at` names.
    pub open spec fn word_register(self, at: int) -> Result<(WordReg, int), ParserErrors> {
        match self.kind(at) {
            None => Err(ParserErrors::UnexpectedEnd),
            Some(kind) => match word_reg_of(kind) {
                Some(reg) => Ok((reg, at + 1)),
                None => Err(ParserErrors::UnexpectedToken(kind)),
            },
        }
    }

    /// The label that the token at `at` names. A colon may follow it, and the
    /// tokens must not end with the name.
    pub open spec fn label(self, at: int) -> Result<(CommandModel, int), ParserErrors> {
        if self.kind(at) is None {
            Err(ParserErrors::UnexpectedEnd)
        } else {
            match self.skip(at + 1, TokenType::Colon) {
                Err(error) => Err(error),
                Ok(place) => match self.text(at) {
                    Err(error) => Err(error),
                    Ok(text) => Ok((CommandModel::Lable(text), place)),
                },
            }
        }
    }

    /// The two targets of an instruction.
    pub open spec fn two_targets(self, at: int) -> Result<
        (TargetModel, TargetModel, int),
        ParserErrors,
    > {
        match self.target(at) {
            Err(error) => Err(error),
            Ok((first, place)) => match self.target(place) {
                Err(error) => Err(error),
                Ok((second, end)) => Ok((first, second, end)),
            },
        }
    }

    /// The condition and the target of a jump or call.
    pub open spec fn jump(self, at: int) -> Result<(Condition, TargetModel, int), ParserErrors> {
        match self.conditional(at) {
            Err(error) => Err(error),
            Ok((condition, place)) => match self.jump_target(place) {
                Err(error) => Err(error),
                Ok((target, end)) => Ok((condition, target, end)),
            },
        }
    }

    /// The command that begins at `at`: a label, or an instruction with what
    /// it works on.
    pub open spec fn command(self, at: int) -> Result<(CommandModel, int), ParserErrors> {
        let next = at + 1;
        match self.kind(at) {
            None => Err(ParserErrors::UnexpectedEnd),
            Some(TokenType::Identifier) => self.label(at),
            Some(TokenType::Ld) => match self.two_targets(next) {
                Err(error) => Err(error),
                Ok((dst, src, end)) => Ok((CommandModel::Load(dst, src), end)),
            },
            Some(TokenType::Add) => match self.two_targets(next) {
                Err(error) => Err(error),
                Ok((dst, src, end)) => Ok((CommandModel::Add(dst, src), end)),
            },
            Some(TokenType::Adc) => match self.two_targets(next) {
                Err(error) => Err(error),
                Ok((dst, src, end)) => Ok((CommandModel::Adc(dst, src), end)),
            },
            Some(TokenType::Inc) => match self.target(next) {
                Err(error) => Err(error),
                Ok((target, end)) => Ok((CommandModel::Inc(target), end)),
            },
            Some(TokenType::Dec) => match self.target(next) {
                Err(error) => Err(error),
                Ok((target, end)) => Ok((CommandModel::Dec(target), end)),
            },
            Some(TokenType::And) => match self.target(next) {
                Err(error) => Err(error),
                Ok((target, end)) => Ok((CommandModel::And(target), end)),
            },
            Some(TokenType::Or) => match self.target(next) {
                Err(error) => Err(error),
                Ok((target, end)) => Ok((CommandModel::Or(target), end)),
            },
            Some(TokenType::Xor) => match self.target(next) {
                Err(error) => Err(error),
                Ok((target, end)) => Ok((CommandModel::Xor(target), end)),
            },
            Some(TokenType::Sbc) => match self.target(next) {
                Err(error) => Err(error),
                Ok((target, end)) => Ok((CommandModel::Sbc(target), end)),
            },
            Some(TokenType::Cp) => match self.target(next) {
                Err(error) => Err(error),
                Ok((target, end)) => Ok((CommandModel::Cp(target), end)),
            },
            Some(TokenType::Push) => match self.word_register(next) {
                Err(error) => Err(error),
                Ok((reg, end)) => Ok((CommandModel::Push(reg), end)),
            },
            Some(TokenType::Pop) => match self.word_register(next) {
                Err(error) => Err(error),
                Ok((reg, end)) => Ok((CommandModel::Pop(reg), end)),
            },
            Some(TokenType::Ret) => match self.conditional(next) {
                Err(error) => Err(error),
                Ok((condition, end)) => Ok((CommandModel::Ret(condition), end)),
            },
            Some(TokenType::Jr) => match self.jump(next) {
                Err(error) => Err(error),
                Ok((condition, target, end)) => Ok((CommandModel::JumpRel(condition, target), end)),
            },
            Some(TokenType::Jp) => match self.jump(next) {
                Err(error) => Err(error),
                Ok((condition, target, end)) => Ok((CommandModel::Jump(condition, target), end)),
            },
            Some(TokenType::Call) => match self.jump(next) {
                Err(error) => Err(error),
                Ok((condition, target, end)) => Ok((CommandModel::Call(condition, target), end)),
            },
            Some(kind) => Err(ParserErrors::UnexpectedToken(kind)),
        }
    }

    /// The renaming that begins at `at`: a register, a colon that may follow
    /// it, and the name that the register goes by.
    pub open spec fn renaming(self, at: int) -> Result<(MacroModel, int), ParserErrors> {
        match self.kind(at) {
            None => Err(ParserErrors::UnexpectedEnd),
            Some(kind) => if byte_reg_of(kind) is None && word_reg_of(kind) is None {
                Err(ParserErrors::UnexpectedToken(kind))
            } else {
                match self.skip(at + 1, TokenType::Colon) {
                    Err(error) => Err(error),
                    Ok(place) => if self.kind(place) is None {
                        Err(ParserErrors::UnexpectedEnd)
                    } else {
                        match self.text(place) {
                            Err(error) => Err(error),
                            Ok(text) => Ok(
                                (
                                    match byte_reg_of(kind) {
                                        Some(reg) => MacroModel::RenameByteReg(text, reg),
                                        None => MacroModel::RenameWordReg(
                                            text,
                                            word_reg_of(kind)->0,
                                        ),
                                    },
                                    place + 1,
                                ),
                            ),
                        }
                    },
                }
            },
        }
    }

    /// The renamings from `at` on, with commas between them or not, up to the
    /// first token that is neither a register nor a comma.
    pub open spec fn renamings(self, at: int) -> Result<(Seq<MacroModel>, int), ParserErrors>
        decreases self.tokens.len() - at,
    {
        match self.kind(at) {
            None => Err(ParserErrors::UnexpectedEnd),
            Some(kind) => if kind == TokenType::Comma {
                self.renamings(at + 1)
            } else if byte_reg_of(kind) is Some || word_reg_of(kind) is Some {
                match self.renaming(at) {
                    Err(error) => Err(error),
                    Ok((first, place)) => {
                        proof {
                            if at >= 0 {
                                self.lemma_advances(at);
                            }
                        }
                        match self.renamings(place) {
                            Err(error) => Err(error),
                            Ok((rest, end)) => Ok((seq![first] + rest, end)),
                        }
                    },
                }
            } else {
                Ok((Seq::empty(), at))
            },
        }
    }

    /// The renamed registers of a function: the renamings between brackets,
    /// if a bracket opens at `at`. The token that ends them is passed by, and
    /// so is the token at `at` where no bracket opens.
    pub open spec fn renamed_registers(self, at: int) -> Result<
        (Option<Seq<MacroModel>>, int),
        ParserErrors,
    > {
        match self.kind(at) {
            None => Err(ParserErrors::UnexpectedEnd),
            Some(TokenType::OpenParen) => match self.renamings(at + 1) {
                Err(error) => Err(error),
                Ok((list, end)) => Ok((some_if_any(list), self.after(end))),
            },
            Some(_) => Ok((None, at + 1)),
        }
    }

    /// The body of a function from `at` on: its commands up to the end of the
    /// function, and a return after them. The token that ends the function is
    /// not passed by.
    pub open spec fn function_body(self, at: int) -> Result<(Seq<CommandModel>, int), ParserErrors>
        decreases self.tokens.len() - at,
    {
        match self.kind(at) {
            None => Err(ParserErrors::UnexpectedEnd),
            Some(TokenType::MacroDefineFunctionStart) => Err(
                ParserErrors::Unsupported(TokenType::MacroDefineFunctionStart),
            ),
            Some(TokenType::MacroDefineFunctionEnd) => Ok(
                (seq![CommandModel::Ret(Condition::Unconditional)], at),
            ),
            Some(_) => match self.command(at) {
                Err(error) => Err(error),
                Ok((first, place)) => {
                    proof {
                        if at >= 0 {
                            self.lemma_advances(at);
                        }
                    }
                    match self.function_body(place) {
                        Err(error) => Err(error),
                        Ok((rest, end)) => Ok((seq![first] + rest, end)),
                    }
                },
            },
        }
    }

    /// The function that begins at `at`: after the token that opens it, its
    /// name, its renamed registers and its body.
    pub open spec fn function(self, at: int) -> Result<(FunctionModel, int), ParserErrors> {
        let named = self.after(at);
        if self.kind(named) is None {
            Err(ParserErrors::UnexpectedEnd)
        } else {
            match self.text(named) {
                Err(error) => Err(error),
                Ok(name) => match self.renamed_registers(named + 1) {
                    Err(error) => Err(error),
                    Ok((renamings, place)) => match self.function_body(place) {
                        Err(error) => Err(error),
                        Ok((body, end)) => Ok(
                            (FunctionModel::Function(name, renamings, body), end),
                        ),
                    },
                },
            }
        }
    }

    /// What the tokens from `at` on hold: one function. Definitions of values,
    /// and commands outside a function, are known of and not parsed.
    pub open spec fn tree(self, at: int) -> Result<(AssemblyTreeModel, int), ParserErrors> {
        match self.kind(at) {
            None => Err(ParserErrors::UnexpectedEnd),
            Some(TokenType::MacroDefineFunctionStart) => match self.function(at) {
                Err(error) => Err(error),
                Ok((function, end)) => Ok(
                    (
                        AssemblyTreeModel {
                            macros: None,
                            functions: Some(seq![function]),
                            assembly: None,
                        },
                        end,
                    ),
                ),
            },
            Some(kind) => Err(ParserErrors::Unsupported(kind)),
        }
    }

    /// A command ends after the token it begins at, and a renaming does.
    pub proof fn lemma_advances(self, at: int)
        requires
            0 <= at,
        ensures
            self.command(at) matches Ok((_, end)) ==> at < end <= self.tokens.len(),
            self.renaming(at) matches Ok((_, end)) ==> at < end <= self.tokens.len(),
    {
        self.lemma_target_advances(at + 1);
        if self.target(at + 1) is Ok {
            self.lemma_target_advances(self.target(at + 1)->Ok_0.1);
        }
        if self.conditional(at + 1) is Ok {
            self.lemma_target_advances(self.conditional(at + 1)->Ok_0.1);
        }
    }

    /// A target and the target of a jump end within the tokens, at or after
    /// the place they begin at.
    pub proof fn lemma_target_advances(self, at: int)
        requires
            0 <= at,
        ensures
            self.target(at) matches Ok((_, end)) ==> at < end <= self.tokens.len(),
            self.jump_target(at) matches Ok((_, end)) ==> at < end <= self.tokens.len(),
    {
    }
}

/// Whether what was parsed is what the tokens hold, and the parser stands
/// where that ends.
pub open spec fn target_agrees(
    found: Result<Target, ParserErrors>,
    at: int,
    expected: Result<(TargetModel, int), ParserErrors>,
) -> bool {
    match found {
        Ok(target) => expected == Ok::<(TargetModel, int), ParserErrors>((target@, at)),
        Err(error) => expected == Err::<(TargetModel, int), ParserErrors>(error),
    }
}

/// Whether what was parsed is what the tokens hold, and the parser stands
/// where that ends.
pub open spec fn command_agrees(
    found: Result<Command, ParserErrors>,
    at: int,
    expected: Result<(CommandModel, int), ParserErrors>,
) -> bool {
    match found {
        Ok(command) => expected == Ok::<(CommandModel, int), ParserErrors>((command@, at)),
        Err(error) => expected == Err::<(CommandModel, int), ParserErrors>(error),
    }
}

/// The parser: a source text, its tokens, and the place it has parsed to.
pub struct Parser {
    source_ref: String,
    tokens: Vec<Token>,
    position: usize,
}

impl Parser {
    /// What the parser reads.
    pub closed spec fn input(&self) -> Input {
        Input { source: encode_utf8(self.source_ref@), tokens: self.tokens@ }
    }

    /// The place among the tokens that the parser has parsed to.
    pub closed spec fn at(&self) -> int {
        self.position as int
    }

    pub fn new(source_ref: &str, token_stream: Vec<Token>) -> (parser: Parser)
        ensures
            parser.input() == (Input { source: source_ref.spec_bytes(), tokens: token_stream@ }),
            parser.at() == 0,
    {
        Parser { source_ref: source_ref.to_owned(), tokens: token_stream, position: 0 }
    }

    /// The token at the place parsed to, which the parser then passes by; none
    /// where the tokens end.
    pub fn advance(&mut self) -> (token: Option<Token>)
        ensures
            final(self).input() == old(self).input(),
            final(self).at() == old(self).input().after(old(self).at()),
            0 <= old(self).at(),
            token == if old(self).at() < old(self).input().tokens.len() {
                Some(old(self).input().tokens[old(self).at()])
            } else {
                None
            },
    {
        if self.position >= self.tokens.len() {
            return None;
        }
        let token = self.tokens[self.position];
        self.position += 1;
        Some(token)
    }

    /// Passes by as many tokens as asked for, or as are left.
    pub fn advance_by(&mut self, amount: usize)
        ensures
            final(self).input() == old(self).input(),
            final(self).at() == if old(self).at() + amount <= old(self).input().tokens.len() {
                old(self).at() + amount
            } else if old(self).at() <= old(self).input().tokens.len() {
                old(self).input().tokens.len() as int
            } else {
                old(self).at()
            },
    {
        let mut i = amount;
        while i > 0
            invariant
                self.input() == old(self).input(),
                i <= amount,
                self.at() == if old(self).at() + (amount - i) <= old(self).input().tokens.len() {
                    old(self).at() + (amount - i)
                } else if old(self).at() <= old(self).input().tokens.len() {
                    old(self).input().tokens.len() as int
                } else {
                    old(self).at()
                },
            decreases i,
        {
            self.advance();
            i -= 1;
        }
    }

    /// The kind of the token at the place parsed to; none where the tokens end.
    pub fn peek_type_top(&self) -> (kind: Option<TokenType>)
        ensures
            kind == self.input().kind(self.at()),
            0 <= self.at(),
    {
        if self.position >= self.tokens.len() {
            return None;
        }
        Some(self.tokens[self.position].tokentype())
    }

    /// The kind of the token after the one at the place parsed to.
    pub fn peek_type_fwd(&self) -> (kind: Option<TokenType>)
        ensures
            kind == self.input().kind(self.at() + 1),
    {
        if self.tokens.len() == 0 || self.position >= self.tokens.len() - 1 {
            return None;
        }
        Some(self.tokens[self.position + 1].tokentype())
    }

    /// The kind of the token at the place parsed to, which must be there.
    fn need(&self) -> (kind: Result<TokenType, ParserErrors>)
        ensures
            0 <= self.at(),
            match kind {
                Ok(found) => self.input().kind(self.at()) == Some(found),
                Err(error) => error == ParserErrors::UnexpectedEnd && self.input().kind(self.at())
                    is None,
            },
    {
        match self.peek_type_top() {
            Some(kind) => Ok(kind),
            None => Err(ParserErrors::UnexpectedEnd),
        }
    }

    /// Whether the token at the place parsed to, which must be there, is of a
    /// kind.
    pub fn match_token(&self, to_match: TokenType) -> (same: Result<bool, ParserErrors>)
        ensures
            match same {
                Ok(found) => self.input().kind(self.at()) matches Some(kind) && found == (kind
                    == to_match),
                Err(error) => error == ParserErrors::UnexpectedEnd && self.input().kind(self.at())
                    is None,
            },
    {
        let kind = self.need()?;
        Ok(kind == to_match)
    }

    /// Passes by the token at the place parsed to if it is of a kind, and
    /// gives it; the token must be there.
    pub fn match_token_advance(&mut self, to_match: TokenType) -> (token: Result<
        Option<Token>,
        ParserErrors,
    >)
        ensures
            final(self).input() == old(self).input(),
            match token {
                Ok(Some(found)) => old(self).input().kind(old(self).at()) == Some(to_match)
                    && found == old(self).input().tokens[old(self).at()] && final(self).at()
                    == old(self).at() + 1,
                Ok(None) => old(self).input().kind(old(self).at()) matches Some(kind) && kind
                    != to_match && final(self).at() == old(self).at(),
                Err(error) => error == ParserErrors::UnexpectedEnd && old(self).input().kind(
                    old(self).at(),
                ) is None,
            },
    {
        if !self.match_token(to_match)? {
            return Ok(None);
        }
        Ok(self.advance())
    }

    /// Passes by the token at the place parsed to if it is of the first kind
    /// of a list that it is of, and gives it; the token must be there unless
    /// the list is empty.
    pub fn match_any_token(&mut self, matchable: Vec<TokenType>) -> (token: Result<
        Option<Token>,
        ParserErrors,
    >)
        ensures
            final(self).input() == old(self).input(),
            match token {
                Ok(Some(found)) => matchable@.contains(found.token) && old(self).input().kind(
                    old(self).at(),
                ) == Some(found.token) && found == old(self).input().tokens[old(self).at()]
                    && final(self).at() == old(self).at() + 1,
                Ok(None) => final(self).at() == old(self).at() && (matchable@.len() > 0
                    ==> old(self).input().kind(old(self).at()) is Some && !matchable@.contains(
                    old(self).input().kind(old(self).at())->0,
                )),
                Err(error) => error == ParserErrors::UnexpectedEnd && matchable@.len() > 0
                    && old(self).input().kind(old(self).at()) is None,
            },
    {
        let mut i: usize = 0;
        while i < matchable.len()
            invariant
                i <= matchable.len(),
                self.input() == old(self).input(),
                self.at() == old(self).at(),
                i > 0 ==> self.input().kind(self.at()) is Some,
                forall|k: int|
                    0 <= k < i ==> self.input().kind(self.at()) != Some(#[trigger] matchable@[k]),
            decreases matchable.len() - i,
        {
            if self.match_token(matchable[i])? {
                return Ok(self.advance());
            }
            i = i + 1;
        }
        Ok(None)
    }

    /// Passes by the token at the place parsed to if it is of a kind; the
    /// token must be there.
    fn skip_token(&mut self, kind: TokenType) -> (done: Result<(), ParserErrors>)
        ensures
            final(self).input() == old(self).input(),
            match done {
                Ok(_) => old(self).input().skip(old(self).at(), kind) == Ok::<int, ParserErrors>(
                    final(self).at(),
                ),
                Err(error) => old(self).input().skip(old(self).at(), kind) == Err::<
                    int,
                    ParserErrors,
                >(error),
            },
    {
        if self.match_token(kind)? {
            self.advance();
        }
        Ok(())
    }

    /// The text of the token at a place.
    fn text_at(&self, at: usize) -> (text: Result<String, ParserErrors>)
        requires
            at < self.input().tokens.len(),
        ensures
            match text {
                Ok(found) => self.input().text(at as int) == Ok::<Seq<u8>, ParserErrors>(
                    encode_utf8(found@),
                ),
                Err(error) => self.input().text(at as int) == Err::<Seq<u8>, ParserErrors>(error),
            },
    {
        let range = self.tokens[at].repr_range();
        text_of(self.source_ref.as_str(), range.start, range.end)
    }

    /// The number that the text of the token at a place stands for.
    fn value_at(&self, at: usize, radix: u32, max: u32) -> (value: Result<u32, ParserErrors>)
        requires
            at < self.input().tokens.len(),
            2 <= radix <= 36,
            max <= 0xFFFF,
        ensures
            match value {
                Ok(found) => self.input().value(at as int, radix as int, max as int) == Ok::<
                    int,
                    ParserErrors,
                >(found as int) && found <= max,
                Err(error) => self.input().value(at as int, radix as int, max as int) == Err::<
                    int,
                    ParserErrors,
                >(error),
            },
    {
        let text = self.text_at(at)?;
        match parse_number(text.as_str().as_bytes(), radix, max) {
            Some(value) => Ok(value),
            None => Err(ParserErrors::InvalidValue),
        }
    }

    /// The byte that a piece of the source text stands for in a base.
    pub fn parse_byte_value(&self, radix: u32, range: std::ops::Range<usize>) -> (value: Result<
        u8,
        ParserErrors,
    >)
        requires
            2 <= radix <= 36,
        ensures
            match value {
                Ok(found) => sliceable(self.input().source, range.start as int, range.end as int)
                    && number_value(
                    self.input().source.subrange(range.start as int, range.end as int),
                    radix as int,
                    0xFF,
                ) == Some(found as int),
                Err(error) => if sliceable(
                    self.input().source,
                    range.start as int,
                    range.end as int,
                ) {
                    error == ParserErrors::InvalidValue && number_value(
                        self.input().source.subrange(range.start as int, range.end as int),
                        radix as int,
                        0xFF,
                    ) is None
                } else {
                    error == ParserErrors::InvalidRange
                },
            },
    {
        let text = text_of(self.source_ref.as_str(), range.start, range.end)?;
        match parse_number(text.as_str().as_bytes(), radix, 0xFF) {
            Some(value) => Ok(value as u8),
            None => Err(ParserErrors::InvalidValue),
        }
    }

    /// The word that a piece of the source text stands for in a base.
    pub fn parse_word_value(&self, radix: u32, range: std::ops::Range<usize>) -> (value: Result<
        u16,
        ParserErrors,
    >)
        requires
            2 <= radix <= 36,
        ensures
            match value {
                Ok(found) => sliceable(self.input().source, range.start as int, range.end as int)
                    && number_value(
                    self.input().source.subrange(range.start as int, range.end as int),
                    radix as int,
                    0xFFFF,
                ) == Some(found as int),
                Err(error) => if sliceable(
                    self.input().source,
                    range.start as int,
                    range.end as int,
                ) {
                    error == ParserErrors::InvalidValue && number_value(
                        self.input().source.subrange(range.start as int, range.end as int),
                        radix as int,
                        0xFFFF,
                    ) is None
                } else {
                    error == ParserErrors::InvalidRange
                },
            },
    {
        let text = text_of(self.source_ref.as_str(), range.start, range.end)?;
        match parse_number(text.as_str().as_bytes(), radix, 0xFFFF) {
            Some(value) => Ok(value as u16),
            None => Err(ParserErrors::InvalidValue),
        }
    }

    /// The byte that the token which was just passed by stands for.
    fn byte_before(&self, radix: u32) -> (target: Result<Target, ParserErrors>)
        requires
            0 < self.at() <= self.input().tokens.len(),
            2 <= radix <= 36,
        ensures
            target_agrees(target, self.at(), self.input().byte(self.at() - 1, radix as int)),
    {
        Ok(Target::Data8(self.value_at(self.position - 1, radix, 0xFF)? as u8))
    }

    /// The word that the token which was just passed by stands for.
    fn word_before(&self, radix: u32) -> (target: Result<Target, ParserErrors>)
        requires
            0 < self.at() <= self.input().tokens.len(),
            2 <= radix <= 36,
        ensures
            target_agrees(target, self.at(), self.input().word(self.at() - 1, radix as int)),
    {
        Ok(Target::Data16(self.value_at(self.position - 1, radix, 0xFFFF)? as u16))
    }

    /// The name that the token which was just passed by is.
    fn name_before(&self) -> (target: Result<Target, ParserErrors>)
        requires
            0 < self.at() <= self.input().tokens.len(),
        ensures
            target_agrees(target, self.at(), self.input().name(self.at() - 1)),
    {
        Ok(Target::Identifier(self.text_at(self.position - 1)?))
    }

    pub fn parse_parentheses_expression(&mut self) -> (target: Result<Target, ParserErrors>)
        ensures
            final(self).input() == old(self).input(),
            target_agrees(target, final(self).at(), old(self).input().parentheses(old(self).at())),
    {
        let token = match self.advance() {
            Some(token) => token,
            None => {
                return Err(ParserErrors::UnexpectedEnd);
            },
        };
        let at = self.position - 1;
        let addr_mode = match token.tokentype() {
            TokenType::Identifier => {
                return Err(ParserErrors::Unsupported(TokenType::Identifier));
            },
            TokenType::BinaryValueWord => Target::Address16(self.value_at(at, 2, 0xFFFF)? as u16),
            TokenType::DecimalValueWord => Target::Address16(self.value_at(at, 10, 0xFFFF)? as u16),
            TokenType::HexValueWord => Target::Address16(self.value_at(at, 16, 0xFFFF)? as u16),
            TokenType::RegisterBC => Target::MemReg(WordReg::BC),
            TokenType::RegisterDE => Target::MemReg(WordReg::DE),
            TokenType::RegisterHL => Target::MemReg(WordReg::HL),
            kind => {
                return Err(ParserErrors::UnexpectedToken(kind));
            },
        };
        self.advance();  //Remove the closingparen token
        Ok(addr_mode)
    }

    pub fn parse_immediate_data(&mut self) -> (target: Result<Target, ParserErrors>)
        ensures
            final(self).input() == old(self).input(),
            target_agrees(target, final(self).at(), old(self).input().immediate(old(self).at())),
    {
        let token = match self.advance() {
            Some(token) => token,
            None => {
                return Err(ParserErrors::UnexpectedEnd);
            },
        };
        match token.tokentype() {
            TokenType::BinaryValueByte => self.byte_before(2),
            TokenType::BinaryValueWord => self.word_before(2),
            TokenType::DecimalValueByte => self.byte_before(10),
            TokenType::DecimalValueWord => self.word_before(10),
            TokenType::HexValueByte => self.byte_before(16),
            TokenType::HexValueWord => self.word_before(16),
            kind => Err(ParserErrors::UnexpectedToken(kind)),
        }
    }

    pub fn parse_target(&mut self) -> (target: Result<Target, ParserErrors>)
        ensures
            final(self).input() == old(self).input(),
            target_agrees(target, final(self).at(), old(self).input().target(old(self).at())),
    {
        self.skip_token(TokenType::Comma)?;
        let token = match self.advance() {
            Some(token) => token,
            None => {
                return Err(ParserErrors::UnexpectedEnd);
            },
        };
        match token.tokentype() {
            TokenType::OpenParen => self.parse_parentheses_expression(),
            TokenType::PoundSign => self.parse_immediate_data(),
            TokenType::HexValueByte => self.byte_before(16),
            TokenType::Identifier => self.name_before(),
            kind => match ByteReg::from_token(kind) {
                Some(reg) => Ok(Target::ByteReg(reg)),
                None => match WordReg::from_token(kind) {
                    Some(reg) => Ok(Target::WordReg(reg)),
                    None => Err(ParserErrors::UnexpectedToken(kind)),
                },
            },
        }
    }

    pub fn parse_jump_target(&mut self) -> (target: Result<Target, ParserErrors>)
        ensures
            final(self).input() == old(self).input(),
            target_agrees(target, final(self).at(), old(self).input().jump_target(old(self).at())),
    {
        self.skip_token(TokenType::Comma)?;
        let token = match self.advance() {
            Some(token) => token,
            None => {
                return Err(ParserErrors::UnexpectedEnd);
            },
        };
        match token.tokentype() {
            TokenType::Identifier => self.name_before(),
            TokenType::BinaryValueByte => self.byte_before(2),
            TokenType::DecimalValueByte => self.byte_before(10),
            TokenType::HexValueByte => self.byte_before(16),
            kind => Err(ParserErrors::UnexpectedToken(kind)),
        }
    }

    pub fn parse_conditional(&mut self) -> (condition: Result<Condition, ParserErrors>)
        ensures
            final(self).input() == old(self).input(),
            match condition {
                Ok(found) => old(self).input().conditional(old(self).at()) == Ok::<
                    (Condition, int),
                    ParserErrors,
                >((found, final(self).at())),
                Err(error) => old(self).input().conditional(old(self).at()) == Err::<
                    (Condition, int),
                    ParserErrors,
                >(error),
            },
    {
        let condition = match self.need()? {
            TokenType::ZeroFlag => Condition::OnZeroSet,
            TokenType::NegativeFlag => Condition::OnNegativeSet,
            TokenType::CarryFlag => Condition::OnCarrySet,
            TokenType::HalfCarryFlag => Condition::OnHalfCarrySet,
            _ => {
                return Ok(Condition::Unconditional);
            },
        };
        self.advance();
        Ok(condition)
    }

    pub fn parse_16bit_register(&mut self) -> (register: Result<WordReg, ParserErrors>)
        ensures
            final(self).input() == old(self).input(),
            match register {
                Ok(found) => old(self).input().word_register(old(self).at()) == Ok::<
                    (WordReg, int),
                    ParserErrors,
                >((found, final(self).at())),
                Err(error) => old(self).input().word_register(old(self).at()) == Err::<
                    (WordReg, int),
                    ParserErrors,
                >(error),
            },
    {
        let token = match self.advance() {
            Some(token) => token,
            None => {
                return Err(ParserErrors::UnexpectedEnd);
            },
        };
        match WordReg::from_token(token.tokentype()) {
            Some(reg) => Ok(reg),
            None => Err(ParserErrors::UnexpectedToken(token.tokentype())),
        }
    }

    /// The register A or B that the token at the place parsed to names.
    pub fn parse_register(&mut self) -> (register: Result<ByteReg, ParserErrors>)
        ensures
            final(self).input() == old(self).input(),
            match register {
                Ok(found) => old(self).input().kind(old(self).at()) == Some(
                    if found == ByteReg::A {
                        TokenType::RegisterA
                    } else {
                        TokenType::RegisterB
                    },
                ) && (found == ByteReg::A || found == ByteReg::B) && final(self).at() == old(
                    self,
                ).at() + 1,
                Err(ParserErrors::UnexpectedEnd) => old(self).input().kind(old(self).at()) is None,
                Err(error) => old(self).input().kind(old(self).at()) matches Some(kind) && error
                    == ParserErrors::UnexpectedToken(kind) && kind != TokenType::RegisterA && kind
                    != TokenType::RegisterB,
            },
    {
        let register = match self.need()? {
            TokenType::RegisterA => ByteReg::A,
            TokenType::RegisterB => ByteReg::B,
            kind => {
                return Err(ParserErrors::UnexpectedToken(kind));
            },
        };
        self.advance();
        Ok(register)
    }

    pub fn parse_lable(&mut self) -> (command: Result<Command, ParserErrors>)
        ensures
            final(self).input() == old(self).input(),
            command_agrees(command, final(self).at(), old(self).input().label(old(self).at())),
    {
        if self.advance().is_none() {
            return Err(ParserErrors::UnexpectedEnd);
        }
        let named = self.position - 1;
        self.skip_token(TokenType::Colon)?;
        Ok(Command::Lable(self.text_at(named)?))
    }

    /// Parses one command: a label, or an instruction with what it works on.
    pub fn parse(&mut self) -> (command: Result<Command, ParserErrors>)
        ensures
            final(self).input() == old(self).input(),
            command_agrees(command, final(self).at(), old(self).input().command(old(self).at())),
    {
        // The parser takes every target that it can read, also one that the
        // instruction cannot work on.
        let kind = self.need()?;
        if kind == TokenType::Identifier {
            return self.parse_lable();
        }
        self.advance();
        match kind {
            TokenType::Ld => {
                let dst = self.parse_target()?;
                let src = self.parse_target()?;
                Ok(Command::Load(dst, src))
            },
            TokenType::Add => {
                let dst = self.parse_target()?;
                let src = self.parse_target()?;
                Ok(Command::Add(dst, src))
            },
            TokenType::Adc => {
                let dst = self.parse_target()?;
                let src = self.parse_target()?;
                Ok(Command::Adc(dst, src))
            },
            TokenType::Inc => Ok(Command::Inc(self.parse_target()?)),
            TokenType::Dec => Ok(Command::Dec(self.parse_target()?)),
            TokenType::And => Ok(Command::And(self.parse_target()?)),
            TokenType::Or => Ok(Command::Or(self.parse_target()?)),
            TokenType::Xor => Ok(Command::Xor(self.parse_target()?)),
            TokenType::Push => Ok(Command::Push(self.parse_16bit_register()?)),
            TokenType::Pop => Ok(Command::Pop(self.parse_16bit_register()?)),
            TokenType::Sbc => Ok(Command::Sbc(self.parse_target()?)),
            TokenType::Cp => Ok(Command::Cp(self.parse_target()?)),
            TokenType::Ret => Ok(Command::Ret(self.parse_conditional()?)),
            TokenType::Jr => {
                let condition = self.parse_conditional()?;
                let target = self.parse_jump_target()?;
                Ok(Command::JumpRel(condition, target))
            },
            TokenType::Jp => {
                let condition = self.parse_conditional()?;
                let target = self.parse_jump_target()?;
                Ok(Command::Jump(condition, target))
            },
            TokenType::Call => {
                let condition = self.parse_conditional()?;
                let target = self.parse_jump_target()?;
                Ok(Command::Call(condition, target))
            },
            _ => Err(ParserErrors::UnexpectedToken(kind)),
        }
    }

    /// Parses the renaming of one register: the register, a colon that may
    /// follow it, and the name that the register goes by.
    pub fn parse_renaming(&mut self) -> (renaming: Result<Macro, ParserErrors>)
        ensures
            final(self).input() == old(self).input(),
            match renaming {
                Ok(found) => old(self).input().renaming(old(self).at()) == Ok::<
                    (MacroModel, int),
                    ParserErrors,
                >((found@, final(self).at())),
                Err(error) => old(self).input().renaming(old(self).at()) == Err::<
                    (MacroModel, int),
                    ParserErrors,
                >(error),
            },
    {
        let kind = self.need()?;
        let byte_register = ByteReg::from_token(kind);
        let word_register = WordReg::from_token(kind);
        if byte_register.is_none() && word_register.is_none() {
            return Err(ParserErrors::UnexpectedToken(kind));
        }
        self.advance();
        self.skip_token(TokenType::Colon)?;
        if self.advance().is_none() {
            return Err(ParserErrors::UnexpectedEnd);
        }
        let renamed = self.text_at(self.position - 1)?;
        match byte_register {
            Some(reg) => Ok(Macro::RenameByteReg(renamed, reg)),
            None => match word_register {
                Some(reg) => Ok(Macro::RenameWordReg(renamed, reg)),
                None => Err(ParserErrors::UnexpectedToken(kind)),
            },
        }
    }

    /// Parses the renamed registers of a function.
    pub fn parse_renamed_registers(&mut self) -> (renamings: Result<
        Option<Vec<Macro>>,
        ParserErrors,
    >)
        ensures
            final(self).input() == old(self).input(),
            match renamings {
                Ok(Some(list)) => old(self).input().renamed_registers(old(self).at()) == Ok::<
                    (Option<Seq<MacroModel>>, int),
                    ParserErrors,
                >((Some(macros_view(list@)), final(self).at())),
                Ok(None) => old(self).input().renamed_registers(old(self).at()) == Ok::<
                    (Option<Seq<MacroModel>>, int),
                    ParserErrors,
                >((None, final(self).at())),
                Err(error) => old(self).input().renamed_registers(old(self).at()) == Err::<
                    (Option<Seq<MacroModel>>, int),
                    ParserErrors,
                >(error),
            },
    {
        let mut renamings: Vec<Macro> = Vec::new();
        let ghost input = self.input();
        if self.match_token(TokenType::OpenParen)? {
            self.advance();
            let ghost begin = self.at();
            loop
                invariant
                    self.input() == input,
                    input == old(self).input(),
                    begin == old(self).at() + 1,
                    input.kind(old(self).at()) == Some(TokenType::OpenParen),
                    0 <= begin <= self.at(),
                    match input.renamings(self.at()) {
                        Ok((rest, end)) => input.renamings(begin) == Ok::<
                            (Seq<MacroModel>, int),
                            ParserErrors,
                        >((macros_view(renamings@) + rest, end)),
                        Err(error) => input.renamings(begin) == Err::<
                            (Seq<MacroModel>, int),
                            ParserErrors,
                        >(error),
                    },
                ensures
                    self.input() == input,
                    input.renamings(begin) == Ok::<(Seq<MacroModel>, int), ParserErrors>(
                        (macros_view(renamings@), self.at()),
                    ),
                    input.kind(self.at()) is Some,
                decreases input.tokens.len() - self.at(),
            {
                let kind = self.need()?;
                proof {
                    input.lemma_advances(self.at());
                }
                if kind == TokenType::Comma {
                    self.advance();
                } else if ByteReg::from_token(kind).is_some() || WordReg::from_token(kind).is_some() {
                    let ghost before = macros_view(renamings@);
                    let renaming = self.parse_renaming()?;
                    proof {
                        let rest = input.renamings(self.at());
                        if rest is Ok {
                            assert(before + (seq![renaming@] + rest->Ok_0.0) =~= before.push(
                                renaming@,
                            ) + rest->Ok_0.0);
                        }
                    }
                    renamings.push(renaming);
                    assert(macros_view(renamings@) =~= before.push(renaming@));
                } else {
                    assert(macros_view(renamings@) + Seq::<MacroModel>::empty() =~= macros_view(
                        renamings@,
                    ));
                    break ;
                }
            }
        }
        self.advance();
        if renamings.len() == 0 {
            assert(macros_view(renamings@) =~= Seq::<MacroModel>::empty());
            return Ok(None);
        }
        Ok(Some(renamings))
    }

    /// Parses the body of a function: its commands up to the end of the
    /// function, and a return after them.
    pub fn parse_macro_function_body(&mut self) -> (body: Result<Vec<Command>, ParserErrors>)
        ensures
            final(self).input() == old(self).input(),
            match body {
                Ok(list) => old(self).input().function_body(old(self).at()) == Ok::<
                    (Seq<CommandModel>, int),
                    ParserErrors,
                >((commands_view(list@), final(self).at())),
                Err(error) => old(self).input().function_body(old(self).at()) == Err::<
                    (Seq<CommandModel>, int),
                    ParserErrors,
                >(error),
            },
    {
        let mut commands: Vec<Command> = Vec::new();
        let ghost input = self.input();
        let ghost begin = self.at();
        loop
            invariant
                self.input() == input,
                begin == old(self).at(),
                input == old(self).input(),
                match input.function_body(self.at()) {
                    Ok((rest, end)) => input.function_body(begin) == Ok::<
                        (Seq<CommandModel>, int),
                        ParserErrors,
                    >((commands_view(commands@) + rest, end)),
                    Err(error) => input.function_body(begin) == Err::<
                        (Seq<CommandModel>, int),
                        ParserErrors,
                    >(error),
                },
            decreases input.tokens.len() - self.at(),
        {
            let kind = self.need()?;
            proof {
                input.lemma_advances(self.at());
            }
            let ghost before = commands_view(commands@);
            match kind {
                TokenType::MacroDefineFunctionStart => {
                    return Err(ParserErrors::Unsupported(kind));
                },
                TokenType::MacroDefineFunctionEnd => {
                    let last = Command::Ret(Condition::Unconditional);
                    commands.push(last);
                    assert(commands_view(commands@) =~= before + seq![
                        CommandModel::Ret(Condition::Unconditional),
                    ]);
                    return Ok(commands);
                },
                _ => {
                    let command = self.parse()?;
                    proof {
                        let rest = input.function_body(self.at());
                        if rest is Ok {
                            assert(before + (seq![command@] + rest->Ok_0.0) =~= before.push(
                                command@,
                            ) + rest->Ok_0.0);
                        }
                    }
                    commands.push(command);
                    assert(commands_view(commands@) =~= before.push(command@));
                },
            }
        }
    }

    /// Parses a function: after the token that opens it, its name, its
    /// renamed registers and its body.
    pub fn parse_function(&mut self) -> (function: Result<Function, ParserErrors>)
        ensures
            final(self).input() == old(self).input(),
            match function {
                Ok(found) => old(self).input().function(old(self).at()) == Ok::<
                    (FunctionModel, int),
                    ParserErrors,
                >((found@, final(self).at())),
                Err(error) => old(self).input().function(old(self).at()) == Err::<
                    (FunctionModel, int),
                    ParserErrors,
                >(error),
            },
    {
        self.advance();
        if self.advance().is_none() {
            return Err(ParserErrors::UnexpectedEnd);
        }
        let function_name = self.text_at(self.position - 1)?;
        let reg_renamings = self.parse_renamed_registers()?;
        let function_body = self.parse_macro_function_body()?;
        Ok(Function::Function(function_name, reg_renamings, function_body))
    }

    /// The definition of a value, which the parser cannot parse.
    pub fn parse_macro(&mut self) -> (parsed: Result<Macro, ParserErrors>)
        ensures
            *final(self) == *old(self),
            match parsed {
                Ok(_) => false,
                Err(error) => match old(self).input().kind(old(self).at()) {
                    Some(kind) => error == ParserErrors::Unsupported(kind),
                    None => error == ParserErrors::UnexpectedEnd,
                },
            },
    {
        Err(ParserErrors::Unsupported(self.need()?))
    }

    /// A command outside a function, which the parser cannot parse.
    pub fn parse_assembly(&mut self) -> (parsed: Result<Command, ParserErrors>)
        ensures
            *final(self) == *old(self),
            match parsed {
                Ok(_) => false,
                Err(error) => match old(self).input().kind(old(self).at()) {
                    Some(kind) => error == ParserErrors::Unsupported(kind),
                    None => error == ParserErrors::UnexpectedEnd,
                },
            },
    {
        Err(ParserErrors::Unsupported(self.need()?))
    }

    /// Parses what the tokens hold: one function.
    pub fn parse_source(&mut self) -> (tree: Result<AssemblyTree, ParserErrors>)
        ensures
            final(self).input() == old(self).input(),
            match tree {
                Ok(found) => old(self).input().tree(old(self).at()) == Ok::<
                    (AssemblyTreeModel, int),
                    ParserErrors,
                >((found@, final(self).at())),
                Err(error) => old(self).input().tree(old(self).at()) == Err::<
                    (AssemblyTreeModel, int),
                    ParserErrors,
                >(error),
            },
    {
        let mut macros: Vec<Macro> = Vec::new();
        let mut functions: Vec<Function> = Vec::new();
        let mut commands: Vec<Command> = Vec::new();
        match self.need()? {
            TokenType::MacroDefineByte | TokenType::MacroDefineWord => {
                macros.push(self.parse_macro()?);
            },
            TokenType::MacroDefineFunctionStart => {
                let function = self.parse_function()?;
                functions.push(function);
                assert(functions_view(functions@) =~= seq![function@]);
            },
            _ => {
                commands.push(self.parse_assembly()?);
            },
        }
        Ok(
            AssemblyTree {
                macros: if macros.len() == 0 {
                    None
                } else {
                    Some(macros)
                },
                functions: if functions.len() == 0 {
                    None
                } else {
                    Some(functions)
                },
                assembly: if commands.len() == 0 {
                    None
                } else {
                    Some(commands)
                },
            },
        )
    }
}

} // verus!
