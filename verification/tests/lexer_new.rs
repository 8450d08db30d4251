use gboyrust::assembler::lexer_new::Lexer;
use gboyrust::assembler::lexer_new::LexerErrors;
use gboyrust::assembler::lexer_new::Token;
use gboyrust::assembler::lexer_new::TokenType;

#[test]
fn scan_empty() {
    let source = "";
    let expected_eof = Token {
        start: 0,
        end: 0,
        line: 1,
        line_pos: 0,
        tokentype: TokenType::Eof,
    };

    let mut lexer = Lexer::new(source);
    lexer.scan_next_token().unwrap();
    assert_eq!(lexer.pop_token().unwrap(), expected_eof);
}

#[test]
fn scan_identifier() {
    let source = "hello world\n\"Test String\"\n";
    let expected_hello = Token {
        start: "".len(),
        end: "hello".len(),
        line: 1,
        line_pos: "hello".len(),
        tokentype: TokenType::Identifier,
    };

    let expected_world = Token {
        start: "hello ".len(),
        end: "hello world".len(),
        line: 1,
        line_pos: "hello world".len(),
        tokentype: TokenType::Identifier,
    };

    let expected_string = Token {
        start: "hello world \"".len(),
        end: "hello world \"Test String\"".len(),
        line: 2,
        line_pos: "\"Test String\" ".len(),
        tokentype: TokenType::String,
    };

    let expected_eof = Token {
        start: "hello world \"Test String\"\n".len(),
        end: "hello world \"Test String\"\n".len(),
        line: 3,
        line_pos: "\n".len(),
        tokentype: TokenType::Eof,
    };

    let mut lexer = Lexer::new(source);

    lexer.scan_next_token().unwrap();
    assert_eq!(lexer.peek_token().unwrap(), expected_hello);

    lexer.scan_next_token().unwrap();
    assert_eq!(lexer.pop_token().unwrap(), expected_hello);
    assert_eq!(lexer.peek_token().unwrap(), expected_world);
    assert_eq!(lexer.pop_token().unwrap(), expected_world);

    lexer.scan_next_token().unwrap();
    assert_eq!(lexer.pop_token().unwrap(), expected_string);

    lexer.scan_next_token().unwrap();
    assert_eq!(lexer.pop_token().unwrap(), expected_eof);
}

#[test]
fn scan_number() {
    let source = "1 10 100 1000 10000";
    let expected_one = Token {
        start: "1".len(),
        end: "1".len(),
        line: 1,
        line_pos: "1".len(),
        tokentype: TokenType::Number,
    };

    let expected_ten = Token {
        start: "1 1".len(),
        end: "1 10".len(),
        line: 1,
        line_pos: "1 10".len(),
        tokentype: TokenType::Number,
    };

    let expected_one_hundred = Token {
        start: "1 10 1".len(),
        end: "1 10 100".len(),
        line: 1,
        line_pos: "1 10 100".len(),
        tokentype: TokenType::Number,
    };

    let expected_one_thousand = Token {
        start: "1 10 100 1".len(),
        end: "1 10 100 1000".len(),
        line: 1,
        line_pos: "1 10 100 1000".len(),
        tokentype: TokenType::Number,
    };

    let expected_ten_thousand = Token {
        start: "1 10 100 1000 1".len(),
        end: "1 10 100 1000 10000".len(),
        line: 1,
        line_pos: "1 10 100 1000 10000".len(),
        tokentype: TokenType::Number,
    };

    let expected_eof = Token {
        start: "1 10 100 1000 10000".len(),
        end: "1 10 100 1000 10000".len(),
        line: 1,
        line_pos: "1 10 100 1000 10000".len(),
        tokentype: TokenType::Eof,
    };

    let mut lexer = Lexer::new(source);

    lexer.scan_next_token().unwrap();
    assert_eq!(lexer.pop_token().unwrap(), expected_one);

    lexer.scan_next_token().unwrap();
    assert_eq!(lexer.pop_token().unwrap(), expected_ten);

    lexer.scan_next_token().unwrap();
    assert_eq!(lexer.pop_token().unwrap(), expected_one_hundred);

    lexer.scan_next_token().unwrap();
    assert_eq!(lexer.pop_token().unwrap(), expected_one_thousand);

    lexer.scan_next_token().unwrap();
    assert_eq!(lexer.pop_token().unwrap(), expected_ten_thousand);

    lexer.scan_next_token().unwrap();
    assert_eq!(lexer.pop_token().unwrap(), expected_eof);
}

#[test]
fn scan_hex_number() {
    let source = "0x0 0xFF 0xFFAA";
    let expected_zero = Token {
        start: "0x".len(),
        end: "0x0".len(),
        line: 1,
        line_pos: "0x0".len(),
        tokentype: TokenType::Number,
    };

    let expected_ff = Token {
        start: "0x0 0x".len(),
        end: "0x0 0xFF".len(),
        line: 1,
        line_pos: "0x0 0xFF".len(),
        tokentype: TokenType::Number,
    };

    let expected_ffaa = Token {
        start: "0x0 0xFF 0x".len(),
        end: "0x0 0xFF 0xFFAA".len(),
        line: 1,
        line_pos: "0x0 0xFF 0xFFAA".len(),
        tokentype: TokenType::Number,
    };

    let expected_eof = Token {
        start: "0x0 0xFF 0xFFAA".len(),
        end: "0x0 0xFF 0xFFAA".len(),
        line: 1,
        line_pos: "0x0 0xFF 0xFFAA".len(),
        tokentype: TokenType::Eof,
    };

    let mut lexer = Lexer::new(source);

    lexer.scan_next_token().unwrap();
    assert_eq!(lexer.pop_token().unwrap(), expected_zero);

    lexer.scan_next_token().unwrap();
    assert_eq!(lexer.pop_token().unwrap(), expected_ff);

    lexer.scan_next_token().unwrap();
    assert_eq!(lexer.pop_token().unwrap(), expected_ffaa);

    lexer.scan_next_token().unwrap();
    assert_eq!(lexer.pop_token().unwrap(), expected_eof);
}

#[test]
fn scan_binary_number() {
    let source = "%01 %10 %11";
    let expected_one = Token {
        start: "%".len(),
        end: "%01".len(),
        line: 1,
        line_pos: "%01".len(),
        tokentype: TokenType::Number,
    };

    let expected_two = Token {
        start: "%01 %".len(),
        end: "%01 %10".len(),
        line: 1,
        line_pos: "%01 %10".len(),
        tokentype: TokenType::Number,
    };

    let expected_three = Token {
        start: "%01 %10 %".len(),
        end: "%01 %10 %11".len(),
        line: 1,
        line_pos: "%01 %10 %11".len(),
        tokentype: TokenType::Number,
    };

    let expected_eof = Token {
        start: "%01 %10 %11".len(),
        end: "%01 %10 %11".len(),
        line: 1,
        line_pos: "%01 %10 %11".len(),
        tokentype: TokenType::Eof,
    };

    let mut lexer = Lexer::new(source);
    lexer.scan_next_token().unwrap();
    assert_eq!(lexer.pop_token().unwrap(), expected_one);

    lexer.scan_next_token().unwrap();
    assert_eq!(lexer.pop_token().unwrap(), expected_two);

    lexer.scan_next_token().unwrap();
    assert_eq!(lexer.pop_token().unwrap(), expected_three);

    lexer.scan_next_token().unwrap();
    assert_eq!(lexer.pop_token().unwrap(), expected_eof);
}


fn token(tokentype: TokenType, start: usize, end: usize, line: usize, line_pos: usize) -> Token {
    Token { line, start, end, line_pos, tokentype }
}

#[test]
fn keywords_and_registers_are_told_from_names() {
    let mut lexer = Lexer::new("LD hl swap_it a");
    lexer.scan_next_token().unwrap();
    assert_eq!(lexer.pop_token(), Some(token(TokenType::KeywordLoad, 0, 2, 1, 2)));
    lexer.scan_next_token().unwrap();
    assert_eq!(lexer.pop_token(), Some(token(TokenType::WordRegister, 3, 5, 1, 5)));
    lexer.scan_next_token().unwrap();
    assert_eq!(lexer.pop_token(), Some(token(TokenType::Identifier, 6, 13, 1, 13)));
    lexer.scan_next_token().unwrap();
    assert_eq!(lexer.pop_token(), Some(token(TokenType::ByteRegister, 14, 15, 1, 15)));
    lexer.scan_next_token().unwrap();
    assert_eq!(lexer.pop_token(), Some(token(TokenType::Eof, 15, 15, 1, 15)));
    // A lexer that has stopped adds nothing more.
    lexer.scan_next_token().unwrap();
    assert_eq!(lexer.pop_token(), None);
    assert_eq!(TokenType::from("SET"), TokenType::KeywordSet);
    assert_eq!(TokenType::from("sp"), TokenType::Identifier);
}

#[test]
fn the_ring_holds_the_last_two_tokens() {
    let mut lexer = Lexer::new("a b c");
    lexer.scan_next_token().unwrap();
    lexer.scan_next_token().unwrap();
    lexer.scan_next_token().unwrap();
    // The third token has taken the place of the first.
    assert_eq!(lexer.peek_token(), Some(token(TokenType::ByteRegister, 4, 5, 1, 5)));
    assert_eq!(lexer.pop_token(), Some(token(TokenType::ByteRegister, 4, 5, 1, 5)));
    assert_eq!(lexer.pop_token(), Some(token(TokenType::ByteRegister, 2, 3, 1, 3)));
    assert_eq!(lexer.pop_token(), None);
    assert_eq!(token(TokenType::Number, 3, 8, 1, 8).length(), 5);
    assert_eq!(token(TokenType::Number, 8, 3, 1, 8).length(), 0);
    assert_eq!(token(TokenType::Number, 3, 8, 1, 8).range(), 3..8);
}

#[test]
fn a_sign_is_the_byte_after_the_one_that_announced_it() {
    let mut lexer = Lexer::new("?,?( =");
    lexer.scan_next_token().unwrap();
    assert_eq!(lexer.pop_token(), Some(token(TokenType::Comma, 1, 2, 1, 2)));
    lexer.scan_next_token().unwrap();
    assert_eq!(lexer.pop_token(), Some(token(TokenType::OpenParen, 3, 4, 1, 4)));
    assert_eq!(lexer.scan_next_token(), Err(LexerErrors::OperatorWithoutSymbol));
    lexer.scan_next_token().unwrap();
    assert_eq!(lexer.pop_token(), Some(token(TokenType::Eof, 6, 6, 1, 6)));
    let mut lexer = Lexer::new(",ab");
    assert_eq!(lexer.scan_next_token(), Err(LexerErrors::UnknownOperator(b'a')));
    assert_eq!(lexer.scan_next_token(), Err(LexerErrors::UnknownOperator(b'b')));
    assert_eq!(lexer.scan_next_token(), Err(LexerErrors::OperatorWithoutSymbol));
}

#[test]
fn a_number_must_end_at_a_space_or_with_the_source() {
    let mut lexer = Lexer::new("12a");
    assert_eq!(lexer.scan_next_token(), Err(LexerErrors::InvalidNumberLiteral(b'a')));
    assert_eq!(lexer.scan_next_token(), Err(LexerErrors::InvalidNumberLiteral(b'a')));
    assert_eq!(lexer.pop_token(), None);
    let mut lexer = Lexer::new("1\n");
    assert_eq!(lexer.scan_next_token(), Err(LexerErrors::InvalidNumberLiteral(b'\n')));
    let mut lexer = Lexer::new("0xG");
    assert_eq!(lexer.scan_next_token(), Err(LexerErrors::InvalidNumberLiteral(b'G')));
    let mut lexer = Lexer::new("%012");
    assert_eq!(lexer.scan_next_token(), Err(LexerErrors::InvalidNumberLiteral(b'2')));
    let mut lexer = Lexer::new("12x9f");
    lexer.scan_next_token().unwrap();
    assert_eq!(lexer.pop_token(), Some(token(TokenType::Number, 3, 5, 1, 5)));
}

#[test]
fn a_string_without_end_is_reported_before_the_end_of_file() {
    let mut lexer = Lexer::new("\"abc");
    assert_eq!(lexer.scan_next_token(), Err(LexerErrors::StringWithoutEnd));
    lexer.scan_next_token().unwrap();
    assert_eq!(lexer.pop_token(), Some(token(TokenType::Eof, 4, 4, 1, 4)));
}
