use gboyrust::assembler::lexer::LexerErrors;
use gboyrust::assembler::Lexer;
use gboyrust::assembler::Token;
use gboyrust::assembler::TokenPosition;
use gboyrust::assembler::TokenType;

#[test]
fn assembler_test_lexer_symbol() {
    let source = "symbol";

    let expected = vec![
        Token {
            token: TokenType::Identifier,
            position: TokenPosition {
                start: 0,
                end: 6,
                line: 1,
            },
        },
        Token {
            token: TokenType::EOF,
            position: TokenPosition {
                start: 6,
                end: 6,
                line: 1,
            },
        },
    ];

    let result = Lexer::new(source).tokenize().unwrap();

    assert_eq!(result[..], expected[..]);
}

#[test]
fn assembler_test_lexer_decimal_value() {
    let source = "255";

    let expected = vec![
        Token {
            token: TokenType::DecimalValue,
            position: TokenPosition {
                start: 0,
                end: 3,
                line: 1,
            },
        },
        Token {
            token: TokenType::EOF,
            position: TokenPosition {
                start: 3,
                end: 3,
                line: 1,
            },
        },
    ];

    let result = Lexer::new(source).tokenize().unwrap();

    assert_eq!(result[..], expected[..]);
}

#[test]
fn assembler_test_lexer_8bit_registers() {
    let source = "A B C D E H L";

    let expected = vec![
        Token {
            token: TokenType::RegisterA,
            position: TokenPosition {
                start: 0,
                end: 1,
                line: 1,
            },
        },
        Token {
            token: TokenType::RegisterB,
            position: TokenPosition {
                start: 2,
                end: 3,
                line: 1,
            },
        },
        Token {
            token: TokenType::RegisterC,
            position: TokenPosition {
                start: 4,
                end: 5,
                line: 1,
            },
        },
        Token {
            token: TokenType::RegisterD,
            position: TokenPosition {
                start: 6,
                end: 7,
                line: 1,
            },
        },
        Token {
            token: TokenType::RegisterE,
            position: TokenPosition {
                start: 8,
                end: 9,
                line: 1,
            },
        },
        Token {
            token: TokenType::RegisterH,
            position: TokenPosition {
                start: 10,
                end: 11,
                line: 1,
            },
        },
        Token {
            token: TokenType::RegisterL,
            position: TokenPosition {
                start: 12,
                end: 13,
                line: 1,
            },
        },
        Token {
            token: TokenType::EOF,
            position: TokenPosition {
                start: 13,
                end: 13,
                line: 1,
            },
        },
    ];

    let result = Lexer::new(source).tokenize().unwrap();

    assert_eq!(result[..], expected[..]);
}

#[test]
fn assembler_test_lexer_16bit_registers() {
    let source = "AF BC DE HL SP";
    let expected = vec![
        Token {
            token: TokenType::RegisterAF,
            position: TokenPosition {
                start: 0,
                end: 2,
                line: 1,
            },
        },
        Token {
            token: TokenType::RegisterBC,
            position: TokenPosition {
                start: 3,
                end: 5,
                line: 1,
            },
        },
        Token {
            token: TokenType::RegisterDE,
            position: TokenPosition {
                start: 6,
                end: 8,
                line: 1,
            },
        },
        Token {
            token: TokenType::RegisterHL,
            position: TokenPosition {
                start: 9,
                end: 11,
                line: 1,
            },
        },
        Token {
            token: TokenType::RegisterSP,
            position: TokenPosition {
                start: 12,
                end: 14,
                line: 1,
            },
        },
        Token {
            token: TokenType::EOF,
            position: TokenPosition {
                start: 14,
                end: 14,
                line: 1,
            },
        },
    ];

    let result = Lexer::new(source).tokenize().unwrap();

    assert_eq!(&result[..], &expected[..]);
}
#[test]
fn assembler_test_lexer_simple_line_lower_case() {
    let source = "ld B, #$FF";
    let expected = vec![
        Token {
            token: TokenType::Ld,
            position: TokenPosition {
                start: 0,
                end: 2,
                line: 1,
            },
        },
        Token {
            token: TokenType::RegisterB,
            position: TokenPosition {
                start: 3,
                end: 4,
                line: 1,
            },
        },
        Token {
            token: TokenType::Comma,
            position: TokenPosition {
                start: 4,
                end: 5,
                line: 1,
            },
        },
        Token {
            token: TokenType::PoundSign,
            position: TokenPosition {
                start: 6,
                end: 7,
                line: 1,
            },
        },
        Token {
            token: TokenType::HexValue,
            position: TokenPosition {
                start: 8,
                end: 10,
                line: 1,
            },
        },
        Token {
            token: TokenType::EOF,
            position: TokenPosition {
                start: 10,
                end: 10,
                line: 1,
            },
        },
    ];

    let result = Lexer::new(&source).tokenize().unwrap();

    assert_eq!(result[..], expected[..]);
}

#[test]
fn assembler_test_macro_definition() {
    let source = "byte_array .dba $FF,$00";

    let expected = vec![
        Token {
            token: TokenType::Identifier,
            position: TokenPosition {
                start: 0,
                end: "byte_array".len(),
                line: 1,
            },
        },
        Token {
            token: TokenType::MacroDefineByteArray,
            position: TokenPosition {
                start: "byte_array .".len(),
                end: "byte_array .".len() + ("dba".len()),
                line: 1,
            },
        },
        Token {
            token: TokenType::HexValue,
            position: TokenPosition {
                start: "byte_array .dba $".len(),
                end: "byte_array .dba $FF".len(),
                line: 1,
            },
        },
        Token {
            token: TokenType::Comma,
            position: TokenPosition {
                start: "byte_array .dba $FF".len(),
                end: "byte_array.dba $FF,$".len(),
                line: 1,
            },
        },
        Token {
            token: TokenType::HexValue,
            position: TokenPosition {
                start: "byte_array .dba $FF,$".len(),
                end: "byte_array .dba $FF,$FF".len(),
                line: 1,
            },
        },
        Token {
            token: TokenType::EOF,
            position: TokenPosition {
                start: "byte_array .dba $FF,$FF".len(),
                end: "byte_array .dba $FF,$FF".len(),
                line: 1,
            },
        },
    ];

    let result = Lexer::new(&source).tokenize().unwrap();
    assert_eq!(result[..], expected[..]);
}

#[test]
fn assembler_test_label_definition() {
    let _source = "some_label:";
    let _expected = vec![
        Token {
            token: TokenType::Identifier,
            position: TokenPosition {
                start: "".len(),
                end: "some_label".len(),
                line: 1,
            },
        },
        Token {
            token: TokenType::Comma,
            position: TokenPosition {
                start: "some_label".len(),
                end: "some_label:".len(),
                line: 1,
            },
        },
    ];
}


#[test]
fn the_plain_tokenizer_takes_values_of_any_length() {
    let result = Lexer::new("$1 $ABCDE 7 1234567 $").tokenize().unwrap();
    let expected = vec![
        Token { token: TokenType::HexValue, position: TokenPosition { start: 1, end: 2, line: 1 } },
        Token { token: TokenType::HexValue, position: TokenPosition { start: 4, end: 9, line: 1 } },
        Token {
            token: TokenType::DecimalValue,
            position: TokenPosition { start: 10, end: 11, line: 1 },
        },
        Token {
            token: TokenType::DecimalValue,
            position: TokenPosition { start: 12, end: 19, line: 1 },
        },
        Token { token: TokenType::HexValue, position: TokenPosition { start: 21, end: 21, line: 1 } },
        Token { token: TokenType::EOF, position: TokenPosition { start: 21, end: 21, line: 1 } },
    ];
    assert_eq!(result, expected);
}

#[test]
fn the_plain_tokenizer_counts_lines_and_ends_after_white_space() {
    let result = Lexer::new("halt\n( ) # .dw\n ").tokenize().unwrap();
    let expected = vec![
        Token { token: TokenType::Halt, position: TokenPosition { start: 0, end: 4, line: 1 } },
        Token { token: TokenType::OpenParen, position: TokenPosition { start: 5, end: 6, line: 2 } },
        Token { token: TokenType::CloseParen, position: TokenPosition { start: 7, end: 8, line: 2 } },
        Token { token: TokenType::PoundSign, position: TokenPosition { start: 9, end: 10, line: 2 } },
        Token {
            token: TokenType::MacroDefineWord,
            position: TokenPosition { start: 12, end: 14, line: 2 },
        },
        Token { token: TokenType::EOF, position: TokenPosition { start: 16, end: 16, line: 3 } },
    ];
    assert_eq!(result, expected);
    assert_eq!(
        Lexer::new("").tokenize(),
        Ok(vec![Token {
            token: TokenType::EOF,
            position: TokenPosition { start: 0, end: 0, line: 1 }
        }])
    );
}

#[test]
fn the_plain_tokenizer_knows_no_strings_and_no_signs() {
    assert_eq!(Lexer::new("a + b").tokenize(), Err(LexerErrors::UnknownOperator(b'+')));
    assert_eq!(Lexer::new("\"x\"").tokenize(), Err(LexerErrors::UnknownOperator(b'"')));
    assert_eq!(Lexer::new("%01").tokenize(), Err(LexerErrors::UnknownOperator(b'%')));
    assert_eq!(TokenType::from("zf"), TokenType::Identifier);
    assert_eq!(TokenType::from("DBA"), TokenType::MacroDefineByteArray);
    assert_eq!(TokenType::from("hL"), TokenType::RegisterHL);
}
