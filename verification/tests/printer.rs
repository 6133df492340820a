use brine::ast::{Combinator, SyntaxNode};

#[test]
fn combinator_symbols() {
    assert_eq!(Combinator::I.text(), "i");
    assert_eq!(Combinator::K.text(), "k");
    assert_eq!(Combinator::S.text(), "s");
    assert_eq!(Combinator::Read.text(), "@");
    assert_eq!(Combinator::Reprint.text(), "|");
    assert_eq!(Combinator::Compare('a').text(), "?a");
    assert_eq!(Combinator::Dot('z').text(), ".z");
}

#[test]
fn one_line_application() {
    let node = SyntaxNode::application(
        SyntaxNode::Combinator(Combinator::I),
        SyntaxNode::Combinator(Combinator::K),
    );
    assert_eq!(node.output(80), "`ik");
}

#[test]
fn narrow_width_breaks_the_line() {
    let node = SyntaxNode::application(
        SyntaxNode::Combinator(Combinator::I),
        SyntaxNode::Combinator(Combinator::K),
    );
    assert_eq!(node.output(1), "`i\n k");
}

#[test]
fn references_and_abstractions() {
    let node = SyntaxNode::abstraction(
        "x".to_string(),
        SyntaxNode::Reference("y".to_string()),
    );
    assert_eq!(node.output(80), "\u{3bb}x $y");
}

#[test]
fn nested_breaks_indent_under_the_argument() {
    // `s applied to (`ik), too wide for four columns: the argument
    // moves to a new line one column deep, and the inner application
    // stays on one line within the remaining width.
    let inner = SyntaxNode::application(
        SyntaxNode::Combinator(Combinator::I),
        SyntaxNode::Combinator(Combinator::K),
    );
    let node = SyntaxNode::application(SyntaxNode::Combinator(Combinator::S), inner);
    assert_eq!(node.output(4), "`s\n `ik");
}
