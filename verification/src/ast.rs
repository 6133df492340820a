//! The combinator-calculus syntax tree a later lowering step targets,
//! with its human-readable layout: applications print with a backtick
//! prefix and break onto indented lines when a row would run past the
//! width limit.

use vstd::prelude::*;

use crate::compiler::push_char;

verus! {

/// A combinator symbol.
#[derive(Debug, Clone, Copy, PartialEq, Eq, Structural)]
pub enum Combinator {
    I,
    K,
    S,
    V,
    D,
    C,
    E,
    Read,
    Reprint,
    Compare(char),
    Dot(char),
}

/// The printed symbol of a combinator.
pub open spec fn combinator_view(c: Combinator) -> Seq<char> {
    match c {
        Combinator::I => "i"@,
        Combinator::K => "k"@,
        Combinator::S => "s"@,
        Combinator::V => "v"@,
        Combinator::D => "d"@,
        Combinator::C => "c"@,
        Combinator::E => "e"@,
        Combinator::Read => "@"@,
        Combinator::Reprint => "|"@,
        Combinator::Compare(ch) => "?"@.push(ch),
        Combinator::Dot(ch) => "."@.push(ch),
    }
}

impl Combinator {
    /// The symbol as text.
    pub fn text(&self) -> (r: String)
        ensures
            r@ == combinator_view(*self),
    {
        match self {
            Combinator::I => "i".to_owned(),
            Combinator::K => "k".to_owned(),
            Combinator::S => "s".to_owned(),
            Combinator::V => "v".to_owned(),
            Combinator::D => "d".to_owned(),
            Combinator::C => "c".to_owned(),
            Combinator::E => "e".to_owned(),
            Combinator::Read => "@".to_owned(),
            Combinator::Reprint => "|".to_owned(),
            Combinator::Compare(ch) => {
                let mut s = "?".to_owned();
                push_char(&mut s, *ch);
                s
            },
            Combinator::Dot(ch) => {
                let mut s = ".".to_owned();
                push_char(&mut s, *ch);
                s
            },
        }
    }
}

/// An application node.
#[derive(Debug)]
pub struct Application {
    pub func: SyntaxNode,
    pub arg: SyntaxNode,
}

/// An abstraction node.
#[derive(Debug)]
pub struct Abstraction {
    pub variable: String,
    pub body: SyntaxNode,
}

/// A combinator-calculus syntax tree.
#[derive(Debug)]
pub enum SyntaxNode {
    Combinator(Combinator),
    Application(Box<Application>),
    Abstraction(Box<Abstraction>),
    Reference(String),
}

/// The mathematical shape of a syntax tree.
pub enum SyntaxNodeV {
    Combinator(Combinator),
    Application { func: Box<SyntaxNodeV>, arg: Box<SyntaxNodeV> },
    Abstraction { variable: Seq<char>, body: Box<SyntaxNodeV> },
    Reference(Seq<char>),
}

pub open spec fn node_view(n: SyntaxNode) -> SyntaxNodeV
    decreases n,
{
    match n {
        SyntaxNode::Combinator(c) => SyntaxNodeV::Combinator(c),
        SyntaxNode::Application(a) => SyntaxNodeV::Application {
            func: Box::new(node_view(a.func)),
            arg: Box::new(node_view(a.arg)),
        },
        SyntaxNode::Abstraction(a) => SyntaxNodeV::Abstraction {
            variable: a.variable@,
            body: Box::new(node_view(a.body)),
        },
        SyntaxNode::Reference(r) => SyntaxNodeV::Reference(r@),
    }
}

impl View for SyntaxNode {
    type V = SyntaxNodeV;

    open spec fn view(&self) -> SyntaxNodeV {
        node_view(*self)
    }
}

/// A run of `n` spaces.
pub open spec fn spaces(n: int) -> Seq<char>
    decreases n,
{
    if n <= 0 {
        Seq::empty()
    } else {
        spaces(n - 1).push(' ')
    }
}

/// How far the indentation can grow below a node: one column per
/// application level, and the variable plus two columns per
/// abstraction.
pub open spec fn indent_weight(n: SyntaxNodeV) -> int
    decreases n,
{
    match n {
        SyntaxNodeV::Combinator(_) => 0,
        SyntaxNodeV::Application { func, arg } => 1 + vstd::math::max(
            indent_weight(*func),
            indent_weight(*arg),
        ),
        SyntaxNodeV::Abstraction { variable, body } => variable.len() + 2 + indent_weight(*body),
        SyntaxNodeV::Reference(_) => 0,
    }
}

/// The layout of a node at a given indentation and width limit: the
/// text, and whether it holds a line break. An application breaks when
/// either part breaks or the one-line form would run past the limit;
/// the argument then starts on a new line, one column deeper.
pub open spec fn render_view(n: SyntaxNodeV, indent: int, max_width: int) -> (Seq<char>, bool)
    decreases n,
{
    match n {
        SyntaxNodeV::Combinator(c) => (combinator_view(c), false),
        SyntaxNodeV::Application { func, arg } => {
            let (f, fb) = render_view(*func, indent + 1, max_width);
            let (a, ab) = render_view(*arg, indent + 1, max_width);
            if fb || ab || indent + 1 + f.len() + a.len() > max_width {
                ("`"@ + f + "\n"@ + spaces(indent + 1) + a, true)
            } else {
                ("`"@ + f + a, false)
            }
        },
        SyntaxNodeV::Reference(r) => ("$"@ + r, false),
        SyntaxNodeV::Abstraction { variable, body } => {
            let (b, bb) = render_view(*body, indent + variable.len() + 2, max_width);
            ("\u{3bb}"@ + variable + " "@ + b, bb)
        },
    }
}

proof fn lemma_weight_nonneg(n: SyntaxNodeV)
    ensures
        indent_weight(n) >= 0,
    decreases n,
{
    match n {
        SyntaxNodeV::Application { func, arg } => {
            lemma_weight_nonneg(*func);
            lemma_weight_nonneg(*arg);
        }
        SyntaxNodeV::Abstraction { variable, body } => {
            lemma_weight_nonneg(*body);
        }
        _ => {}
    }
}

fn append_spaces(out: &mut String, n: usize)
    ensures
        final(out)@ == old(out)@ + spaces(n as int),
{
    let mut j: usize = 0;
    while j < n
        invariant
            j <= n,
            out@ == old(out)@ + spaces(j as int),
        decreases n - j,
    {
        push_char(out, ' ');
        j = j + 1;
        proof {
            assert(out@ =~= old(out)@ + spaces(j as int));
        }
    }
}

impl SyntaxNode {
    pub fn application(func: SyntaxNode, arg: SyntaxNode) -> (r: SyntaxNode)
        ensures
            r@ == (SyntaxNodeV::Application { func: Box::new(func@), arg: Box::new(arg@) }),
    {
        SyntaxNode::Application(Box::new(Application { func, arg }))
    }

    pub fn abstraction(variable: String, body: SyntaxNode) -> (r: SyntaxNode)
        ensures
            r@ == (SyntaxNodeV::Abstraction { variable: variable@, body: Box::new(body@) }),
    {
        SyntaxNode::Abstraction(Box::new(Abstraction { variable, body }))
    }

    /// Lay the tree out within `max_width` columns where possible.
    pub fn output(&self, max_width: usize) -> (r: String)
        requires
            indent_weight(self@) <= usize::MAX,
        ensures
            r@ == render_view(self@, 0, max_width as int).0,
    {
        self.do_output(0, max_width).0
    }

    /// The layout of this node, and whether it holds a line break.
    fn do_output(&self, indent: usize, max_width: usize) -> (r: (String, bool))
        requires
            indent + indent_weight(self@) <= usize::MAX,
        ensures
            r.0@ == render_view(self@, indent as int, max_width as int).0,
            r.1 == render_view(self@, indent as int, max_width as int).1,
        decreases *self,
    {
        match self {
            SyntaxNode::Combinator(c) => (c.text(), false),
            SyntaxNode::Application(a) => {
                proof {
                    lemma_weight_nonneg(a.func@);
                    lemma_weight_nonneg(a.arg@);
                    assert(indent_weight(self@) == 1 + vstd::math::max(
                        indent_weight(a.func@),
                        indent_weight(a.arg@),
                    ));
                }
                let (func_repr, func_br) = a.func.do_output(indent + 1, max_width);
                let (arg_repr, arg_br) = a.arg.do_output(indent + 1, max_width);
                let flen = func_repr.as_str().unicode_len();
                let alen = arg_repr.as_str().unicode_len();
                let over: bool = match flen.checked_add(alen) {
                    None => true,
                    Some(t) => match t.checked_add(indent) {
                        None => true,
                        Some(t2) => match t2.checked_add(1) {
                            None => true,
                            Some(t3) => t3 > max_width,
                        },
                    },
                };
                if func_br || arg_br || over {
                    let mut s = "`".to_owned();
                    s.append(func_repr.as_str());
                    s.append("\n");
                    append_spaces(&mut s, indent + 1);
                    s.append(arg_repr.as_str());
                    proof {
                        assert(s@ =~= render_view(self@, indent as int, max_width as int).0);
                    }
                    (s, true)
                } else {
                    let mut s = "`".to_owned();
                    s.append(func_repr.as_str());
                    s.append(arg_repr.as_str());
                    proof {
                        assert(s@ =~= render_view(self@, indent as int, max_width as int).0);
                    }
                    (s, false)
                }
            },
            SyntaxNode::Reference(r) => {
                let mut s = "$".to_owned();
                s.append(r.as_str());
                proof {
                    assert(s@ =~= render_view(self@, indent as int, max_width as int).0);
                }
                (s, false)
            },
            SyntaxNode::Abstraction(a) => {
                proof {
                    lemma_weight_nonneg(a.body@);
                    assert(indent_weight(self@) == a.variable@.len() + 2 + indent_weight(
                        a.body@,
                    ));
                }
                let vlen = a.variable.as_str().unicode_len();
                let (body_repr, body_br) = a.body.do_output(indent + vlen + 2, max_width);
                let mut s = "\u{3bb}".to_owned();
                s.append(a.variable.as_str());
                s.append(" ");
                s.append(body_repr.as_str());
                proof {
                    assert(s@ =~= render_view(self@, indent as int, max_width as int).0);
                }
                (s, body_br)
            },
        }
    }
}

} // verus!
