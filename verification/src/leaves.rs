//! Collecting the leaves of a syntax tree: a visitor that keeps a record
//! of every literal and identifier it is shown.

use crate::ast::Boolean;
use crate::ast::Code;
use crate::ast::Expr;
use crate::ast::Ident;
use crate::ast::Integer;
use crate::ast::Literal;
use crate::ast::Nil;
use crate::ast::StringT;
use crate::ast_clone::clone_ident;
use crate::visitor::leaves_of;
use crate::visitor::leaves_of_code;
use crate::visitor::visit_code;
use crate::visitor::visit_expr;
use crate::visitor::Leaf;
use crate::visitor::Visit;
use vstd::prelude::*;

verus! {

/// A leaf of a syntax tree.
#[derive(Debug)]
pub enum Node {
    Literal(Literal),
    Ident(Ident),
}

impl Node {
    pub open spec fn view(&self) -> Leaf {
        match self {
            Node::Literal(l) => Leaf::Literal(l.view()),
            Node::Ident(i) => Leaf::Ident(i.view()),
        }
    }
}

/// The models of a sequence of leaves.
pub open spec fn nodes_view(s: Seq<Node>) -> Seq<Leaf> {
    Seq::new(s.len(), |i: int| s[i].view())
}

/// A visitor that keeps every leaf it is shown, in the order of the walk.
pub struct Collector {
    pub found: Vec<Node>,
}

impl Collector {
    /// A collector that has seen nothing yet.
    pub fn new() -> (r: Collector)
        ensures
            r.found@.len() == 0,
    {
        Collector { found: Vec::new() }
    }

    fn keep(&mut self, node: Node)
        ensures
            final(self).seen() == old(self).seen().push(node.view()),
    {
        self.found.push(node);
        assert(nodes_view(self.found@) =~= nodes_view(old(self).found@).push(node.view()));
    }
}

impl Visit for Collector {
    open spec fn keeps_record(&self) -> bool {
        true
    }

    open spec fn seen(&self) -> Seq<Leaf> {
        nodes_view(self.found@)
    }

    fn visit_nil(&mut self, i: &Nil) {
        self.keep(Node::Literal(Literal::Nil(Nil { span: i.span })));
    }

    fn visit_boolean(&mut self, i: &Boolean) {
        self.keep(Node::Literal(Literal::Boolean(Boolean { span: i.span, value: i.value })));
    }

    fn visit_integer(&mut self, i: &Integer) {
        self.keep(Node::Literal(Literal::Integer(Integer { span: i.span, value: i.value })));
    }

    fn visit_string(&mut self, i: &StringT) {
        self.keep(Node::Literal(Literal::String(StringT { span: i.span, value: i.value.clone() })));
    }

    fn visit_ident(&mut self, i: &Ident) {
        self.keep(Node::Ident(clone_ident(i)));
    }
}

/// The leaves of an expression, in the order of the walk.
pub fn leaves(e: &Expr) -> (r: Vec<Node>)
    ensures
        nodes_view(r@) == leaves_of(e.view()),
{
    let mut c = Collector::new();
    visit_expr(&mut c, e);
    assert(nodes_view(c.found@) =~= leaves_of(e.view()));
    c.found
}

/// The leaves of a block, in the order of the walk.
pub fn code_leaves(code: &Code) -> (r: Vec<Node>)
    ensures
        nodes_view(r@) == leaves_of_code(code.view()),
{
    let mut c = Collector::new();
    visit_code(&mut c, code);
    assert(nodes_view(c.found@) =~= leaves_of_code(code.view()));
    c.found
}

} // verus!
