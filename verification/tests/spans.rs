use markup_grammar::{fold_spans, Ident, Punct, Span, Token};

fn sp(start: usize, end: usize) -> Span {
    Span { start, end }
}

fn id(name: &str, span: Span) -> Token {
    Token::Ident(Ident { name: name.to_string(), span })
}

#[test]
fn join_of_an_earlier_and_a_later_span() {
    assert_eq!(sp(2, 5).join(sp(7, 9)), sp(2, 9));
    assert_eq!(sp(2, 5).join(sp(5, 6)), sp(2, 6));
    assert_eq!(sp(2, 5).join(sp(3, 8)), sp(2, 8));
}

#[test]
fn join_covers_both_spans_whatever_their_order() {
    assert_eq!(sp(7, 9).join(sp(2, 5)), sp(2, 9));
    assert_eq!(sp(1, 10).join(sp(3, 4)), sp(1, 10));
    assert_eq!(sp(3, 4).join(sp(1, 10)), sp(1, 10));
    assert_eq!(sp(4, 4).join(sp(4, 4)), sp(4, 4));
}

#[test]
fn join_is_associative_on_examples() {
    let spans = [sp(0, 1), sp(5, 9), sp(2, 3), sp(8, 20), sp(4, 4)];
    for a in spans {
        for b in spans {
            for c in spans {
                assert_eq!(a.join(b).join(c), a.join(b.join(c)));
            }
        }
    }
}

#[test]
fn fold_of_no_span_is_none() {
    let none: Vec<Token> = Vec::new();
    assert_eq!(fold_spans(&none), None);
}

#[test]
fn fold_of_one_span_is_that_span() {
    let tokens = vec![id("a", sp(3, 6))];
    assert_eq!(fold_spans(&tokens), Some(sp(3, 6)));
}

#[test]
fn fold_reaches_from_the_first_to_the_last_span() {
    let tokens = vec![
        id("a", sp(3, 6)),
        Token::Punct(Punct { ch: '-', span: sp(6, 7) }),
        id("b", sp(7, 12)),
    ];
    assert_eq!(fold_spans(&tokens), Some(sp(3, 12)));
}

#[test]
fn fold_covers_spans_that_come_out_of_order() {
    let tokens = vec![id("a", sp(30, 31)), id("b", sp(2, 4)), id("c", sp(10, 40))];
    assert_eq!(fold_spans(&tokens), Some(sp(2, 40)));
}
