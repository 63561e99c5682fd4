use markup_grammar::{
    group, ident, ident_match, literal, punct, unit, Delimiter, Group, Ident, Literal,
    ParseError, Punct, Span, Token,
};

fn sp(start: usize, end: usize) -> Span {
    Span { start, end }
}

fn id(name: &str, at: usize) -> Token {
    Token::Ident(Ident { name: name.to_string(), span: sp(at, at + 1) })
}

fn pt(ch: char, at: usize) -> Token {
    Token::Punct(Punct { ch, span: sp(at, at + 1) })
}

fn lit(text: &str, at: usize) -> Token {
    Token::Literal(Literal { text: text.to_string(), span: sp(at, at + 1) })
}

fn braces(stream: Vec<Token>, at: usize) -> Token {
    Token::Group(Group { delimiter: Delimiter::Brace, stream, span: sp(at, at + 1) })
}

fn mismatch(message: &str, position: usize) -> ParseError {
    ParseError::Mismatch { message: message.to_string(), position }
}

/// One token of each kind: `a`, `-`, `"s"`, `{ b }`.
fn one_of_each() -> Vec<Token> {
    vec![id("a", 0), pt('-', 1), lit("\"s\"", 2), braces(vec![id("b", 9)], 3)]
}

#[test]
fn unit_succeeds_without_moving() {
    let tokens = one_of_each();
    assert_eq!(unit(7u32, &tokens, 0), Ok((7u32, 0)));
    assert_eq!(unit("x".to_string(), &tokens, 2), Ok(("x".to_string(), 2)));
}

#[test]
fn unit_succeeds_on_empty_input_and_past_the_end() {
    let none: Vec<Token> = Vec::new();
    assert_eq!(unit('c', &none, 0), Ok(('c', 0)));
    assert_eq!(unit('c', &none, 5), Ok(('c', 5)));
    let bytes: Vec<u8> = vec![1, 2];
    assert_eq!(unit(true, &bytes, 1), Ok((true, 1)));
}

#[test]
fn punct_returns_the_matched_token() {
    let tokens = one_of_each();
    assert_eq!(punct('-', &tokens, 1), Ok((Punct { ch: '-', span: sp(1, 2) }, 2)));
}

#[test]
fn punct_rejects_another_character() {
    let tokens = one_of_each();
    assert_eq!(punct('.', &tokens, 1), Err(mismatch("expected .", 1)));
}

#[test]
fn punct_rejects_other_kinds_of_token() {
    let tokens = one_of_each();
    assert_eq!(punct('-', &tokens, 0), Err(mismatch("expected -", 0)));
    assert_eq!(punct('-', &tokens, 2), Err(mismatch("expected -", 2)));
    assert_eq!(punct('-', &tokens, 3), Err(mismatch("expected -", 3)));
}

#[test]
fn punct_fails_past_the_end() {
    let tokens = one_of_each();
    assert_eq!(punct('-', &tokens, 4), Err(mismatch("expected -", 4)));
    assert_eq!(punct('-', &tokens, 40), Err(mismatch("expected -", 40)));
    let none: Vec<Token> = Vec::new();
    assert_eq!(punct('\'', &none, 0), Err(mismatch("expected '", 0)));
}

#[test]
fn ident_returns_the_matched_token() {
    let tokens = one_of_each();
    assert_eq!(ident(&tokens, 0), Ok((Ident { name: "a".to_string(), span: sp(0, 1) }, 1)));
}

#[test]
fn ident_rejects_other_kinds_of_token() {
    let tokens = one_of_each();
    assert_eq!(ident(&tokens, 1), Err(mismatch("expected identifier", 1)));
    assert_eq!(ident(&tokens, 2), Err(mismatch("expected identifier", 2)));
    assert_eq!(ident(&tokens, 3), Err(mismatch("expected identifier", 3)));
    assert_eq!(ident(&tokens, 4), Err(mismatch("expected identifier", 4)));
}

#[test]
fn ident_match_accepts_the_exact_name_only() {
    let tokens = vec![id("div", 0), id("Div", 1), id("di", 2), id("divs", 3)];
    assert_eq!(ident_match("div".to_string(), &tokens, 0), Ok(((), 1)));
    assert_eq!(
        ident_match("div".to_string(), &tokens, 1),
        Err(mismatch("expected '</div>', found '</Div>'", 1))
    );
    assert_eq!(
        ident_match("div".to_string(), &tokens, 2),
        Err(mismatch("expected '</div>', found '</di>'", 2))
    );
    assert_eq!(
        ident_match("div".to_string(), &tokens, 3),
        Err(mismatch("expected '</div>', found '</divs>'", 3))
    );
}

#[test]
fn ident_match_message_names_expected_and_found() {
    let tokens = vec![id("span", 0)];
    match ident_match("table".to_string(), &tokens, 0) {
        Err(ParseError::Mismatch { message, position }) => {
            assert_eq!(position, 0);
            assert!(message.contains("table"));
            assert!(message.contains("span"));
        }
        other => panic!("unexpected result: {:?}", other),
    }
}

#[test]
fn ident_match_on_no_identifier_gives_the_generic_message() {
    let tokens = one_of_each();
    assert_eq!(ident_match("a".to_string(), &tokens, 1), Err(mismatch("expected identifier", 1)));
    assert_eq!(ident_match("a".to_string(), &tokens, 2), Err(mismatch("expected identifier", 2)));
    assert_eq!(ident_match("a".to_string(), &tokens, 3), Err(mismatch("expected identifier", 3)));
    assert_eq!(ident_match("a".to_string(), &tokens, 4), Err(mismatch("expected identifier", 4)));
}

#[test]
fn ident_match_with_an_empty_name() {
    let tokens = vec![id("a", 0)];
    assert_eq!(
        ident_match(String::new(), &tokens, 0),
        Err(mismatch("expected '</>', found '</a>'", 0))
    );
}

#[test]
fn literal_returns_the_matched_token() {
    let tokens = one_of_each();
    assert_eq!(
        literal(&tokens, 2),
        Ok((Literal { text: "\"s\"".to_string(), span: sp(2, 3) }, 3))
    );
}

#[test]
fn literal_rejects_other_kinds_of_token() {
    let tokens = one_of_each();
    assert_eq!(literal(&tokens, 0), Err(mismatch("expected literal", 0)));
    assert_eq!(literal(&tokens, 1), Err(mismatch("expected literal", 1)));
    assert_eq!(literal(&tokens, 3), Err(mismatch("expected literal", 3)));
    assert_eq!(literal(&tokens, 4), Err(mismatch("expected literal", 4)));
}

#[test]
fn group_returns_delimiter_and_inner_tokens() {
    let tokens = one_of_each();
    assert_eq!(
        group(&tokens, 3),
        Ok((Group { delimiter: Delimiter::Brace, stream: vec![id("b", 9)], span: sp(3, 4) }, 4))
    );
}

#[test]
fn group_keeps_nested_groups() {
    let inner = Token::Group(Group {
        delimiter: Delimiter::Parenthesis,
        stream: vec![lit("1", 5), pt(',', 6), braces(Vec::new(), 7)],
        span: sp(4, 9),
    });
    let tokens = vec![Token::Group(Group {
        delimiter: Delimiter::Bracket,
        stream: vec![id("x", 2), inner],
        span: sp(1, 10),
    })];
    match group(&tokens, 0) {
        Ok((found, next)) => {
            assert_eq!(next, 1);
            assert_eq!(Token::Group(found), tokens[0]);
        }
        other => panic!("unexpected result: {:?}", other),
    }
}

#[test]
fn group_rejects_other_kinds_of_token() {
    let tokens = one_of_each();
    assert_eq!(group(&tokens, 0), Err(mismatch("expected group", 0)));
    assert_eq!(group(&tokens, 1), Err(mismatch("expected group", 1)));
    assert_eq!(group(&tokens, 2), Err(mismatch("expected group", 2)));
    assert_eq!(group(&tokens, 4), Err(mismatch("expected group", 4)));
}

#[test]
fn every_matcher_reports_a_mismatch_at_the_start_index() {
    let tokens = one_of_each();
    for start in 0..6 {
        if let Err(e) = punct('+', &tokens, start) {
            assert!(matches!(e, ParseError::Mismatch { position, .. } if position == start));
        }
        if let Err(e) = ident(&tokens, start) {
            assert!(matches!(e, ParseError::Mismatch { position, .. } if position == start));
        }
        if let Err(e) = ident_match("zz".to_string(), &tokens, start) {
            assert!(matches!(e, ParseError::Mismatch { position, .. } if position == start));
        }
        if let Err(e) = literal(&tokens, start) {
            assert!(matches!(e, ParseError::Mismatch { position, .. } if position == start));
        }
        if let Err(e) = group(&tokens, start) {
            assert!(matches!(e, ParseError::Mismatch { position, .. } if position == start));
        }
    }
    assert!(punct('+', &tokens, 1).is_err());
    assert!(ident(&tokens, 1).is_err());
    assert!(ident_match("zz".to_string(), &tokens, 0).is_err());
    assert!(literal(&tokens, 0).is_err());
    assert!(group(&tokens, 0).is_err());
}

#[test]
fn matchers_give_the_same_result_when_run_again() {
    let tokens = one_of_each();
    for start in 0..6 {
        assert_eq!(punct('-', &tokens, start), punct('-', &tokens, start));
        assert_eq!(ident(&tokens, start), ident(&tokens, start));
        assert_eq!(
            ident_match("a".to_string(), &tokens, start),
            ident_match("a".to_string(), &tokens, start)
        );
        assert_eq!(literal(&tokens, start), literal(&tokens, start));
        assert_eq!(group(&tokens, start), group(&tokens, start));
    }
}

#[test]
fn a_cloned_token_equals_its_source() {
    for token in one_of_each() {
        assert_eq!(token.clone(), token);
    }
}

#[test]
fn a_token_reports_its_span() {
    let tokens = one_of_each();
    assert_eq!(tokens[0].span(), sp(0, 1));
    assert_eq!(tokens[1].span(), sp(1, 2));
    assert_eq!(tokens[2].span(), sp(2, 3));
    assert_eq!(tokens[3].span(), sp(3, 4));
}
