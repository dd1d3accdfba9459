//! Deep copies of syntax trees.

use crate::ast::Arguments;
use crate::ast::Array;
use crate::ast::BinExpr;
use crate::ast::Boolean;
use crate::ast::Code;
use crate::ast::Expr;
use crate::ast::ExprKind;
use crate::ast::Function;
use crate::ast::Ident;
use crate::ast::Integer;
use crate::ast::Literal;
use crate::ast::Nil;
use crate::ast::Parameters;
use crate::ast::Record;
use crate::ast::StringT;
use crate::ast::UnaryExpr;
use vstd::prelude::*;

verus! {

/// A copy of an identifier.
pub fn clone_ident(i: &Ident) -> (r: Ident)
    ensures
        r == *i,
{
    Ident { span: i.span, symbol: i.symbol.clone() }
}

/// A copy of a literal.
pub fn clone_literal(l: &Literal) -> (r: Literal)
    ensures
        r == *l,
{
    match l {
        Literal::Nil(n) => Literal::Nil(Nil { span: n.span }),
        Literal::Boolean(b) => Literal::Boolean(Boolean { span: b.span, value: b.value }),
        Literal::Integer(i) => Literal::Integer(Integer { span: i.span, value: i.value }),
        Literal::String(s) => Literal::String(StringT { span: s.span, value: s.value.clone() }),
    }
}

/// A copy of a list of identifiers.
pub fn clone_idents(v: &Vec<Ident>) -> (r: Vec<Ident>)
    ensures
        r@ == v@,
{
    let mut out: Vec<Ident> = Vec::new();
    let mut i: usize = 0;
    while i < v.len()
        invariant
            i <= v.len(),
            out@ == v@.subrange(0, i as int),
        decreases v.len() - i,
    {
        out.push(clone_ident(&v[i]));
        i = i + 1;
    }
    out
}

/// A copy of a list of expressions, element by element.
pub fn clone_exprs(v: &Vec<Expr>) -> (r: Vec<Expr>)
    ensures
        r@.len() == v@.len(),
        forall|j: int| 0 <= j < v@.len() ==> (#[trigger] r@[j]).view() == v@[j].view(),
    decreases v,
{
    let mut out: Vec<Expr> = Vec::new();
    let mut i: usize = 0;
    while i < v.len()
        invariant
            i <= v.len(),
            out@.len() == i,
            forall|j: int| 0 <= j < i ==> (#[trigger] out@[j]).view() == v@[j].view(),
        decreases v.len() - i,
    {
        proof {
            vstd::std_specs::vec::axiom_vec_index_decreases(*v, i as int);
        }
        let e = clone_expr(&v[i]);
        out.push(e);
        i = i + 1;
    }
    out
}

/// A copy of the fields of a record literal.
pub fn clone_fields(v: &Vec<(Ident, Expr)>) -> (r: Vec<(Ident, Expr)>)
    ensures
        r@.len() == v@.len(),
        forall|j: int|
            0 <= j < v@.len() ==> (#[trigger] r@[j]).0 == v@[j].0 && r@[j].1.view() == v@[j].1.view(),
    decreases v,
{
    let mut out: Vec<(Ident, Expr)> = Vec::new();
    let mut i: usize = 0;
    while i < v.len()
        invariant
            i <= v.len(),
            out@.len() == i,
            forall|j: int|
                0 <= j < i ==> (#[trigger] out@[j]).0 == v@[j].0 && out@[j].1.view() == v@[j].1.view(),
        decreases v.len() - i,
    {
        proof {
            vstd::std_specs::vec::axiom_vec_index_decreases(*v, i as int);
        }
        let k = clone_ident(&v[i].0);
        let e = clone_expr(&v[i].1);
        out.push((k, e));
        i = i + 1;
    }
    out
}

/// A copy of a block.
pub fn clone_code(c: &Code) -> (r: Code)
    ensures
        r.view() == c.view(),
    decreases c,
{
    let stmts = clone_exprs(&c.stmts);
    let r = Code { span: c.span, stmts };
    assert(r.view().stmts =~= c.view().stmts);
    r
}

/// A copy of a function literal.
pub fn clone_function(f: &Function) -> (r: Function)
    ensures
        r.view() == f.view(),
    decreases f,
{
    let params = clone_idents(&f.parameters.0);
    let body = clone_code(&f.body);
    Function { parameters: Parameters(params), body }
}

/// A copy of an expression.
pub fn clone_expr(e: &Expr) -> (r: Expr)
    ensures
        r.view() == e.view(),
    decreases e,
{
    Expr { span: e.span, kind: clone_kind(&e.kind) }
}

/// A copy of the form of an expression.
pub fn clone_kind(k: &ExprKind) -> (r: ExprKind)
    ensures
        r.view() == k.view(),
    decreases k,
{
    match k {
        ExprKind::Literal(l) => ExprKind::Literal(clone_literal(l)),
        ExprKind::Ident(i) => ExprKind::Ident(clone_ident(i)),
        ExprKind::Array(a) => {
            let elements = clone_exprs(&a.elements);
            let r = Array { span: a.span, elements };
            assert(r.view()->Array_elements =~= a.view()->Array_elements);
            ExprKind::Array(r)
        },
        ExprKind::Record(rec) => {
            let fields = clone_fields(&rec.fields);
            let r = Record { span: rec.span, fields };
            assert(r.view()->Record_fields =~= rec.view()->Record_fields);
            ExprKind::Record(r)
        },
        ExprKind::Function(f) => ExprKind::Function(clone_function(f)),
        ExprKind::Call(f, args) => {
            let callee = clone_expr(f);
            let items = clone_exprs(&args.0);
            let a = Arguments(items);
            assert(a.view() =~= args.view());
            ExprKind::Call(Box::new(callee), a)
        },
        ExprKind::Prop(e, i) => ExprKind::Prop(Box::new(clone_expr(e)), clone_ident(i)),
        ExprKind::Index(e, i) => ExprKind::Index(Box::new(clone_expr(e)), Box::new(clone_expr(i))),
        ExprKind::UnaryExpr(u) => ExprKind::UnaryExpr(
            UnaryExpr { span: u.span, op: u.op, expr: Box::new(clone_expr(&u.expr)) },
        ),
        ExprKind::BinExpr(b) => ExprKind::BinExpr(
            BinExpr {
                span: b.span,
                op: b.op,
                lhs: Box::new(clone_expr(&b.lhs)),
                rhs: Box::new(clone_expr(&b.rhs)),
            },
        ),
        ExprKind::Assign(i, e) => ExprKind::Assign(clone_ident(i), Box::new(clone_expr(e))),
        ExprKind::AddAssign(i, e) => ExprKind::AddAssign(clone_ident(i), Box::new(clone_expr(e))),
        ExprKind::SubAssign(i, e) => ExprKind::SubAssign(clone_ident(i), Box::new(clone_expr(e))),
        ExprKind::MulAssign(i, e) => ExprKind::MulAssign(clone_ident(i), Box::new(clone_expr(e))),
        ExprKind::DivAssign(i, e) => ExprKind::DivAssign(clone_ident(i), Box::new(clone_expr(e))),
        ExprKind::ModAssign(i, e) => ExprKind::ModAssign(clone_ident(i), Box::new(clone_expr(e))),
        ExprKind::Declare(i, e) => ExprKind::Declare(clone_ident(i), Box::new(clone_expr(e))),
        ExprKind::DeclareMut(i, e) => ExprKind::DeclareMut(clone_ident(i), Box::new(clone_expr(e))),
        ExprKind::If { condition, yes } => ExprKind::If {
            condition: Box::new(clone_expr(condition)),
            yes: clone_code(yes),
        },
        ExprKind::IfElse { condition, yes, no } => ExprKind::IfElse {
            condition: Box::new(clone_expr(condition)),
            yes: clone_code(yes),
            no: clone_code(no),
        },
        ExprKind::For { collection, item, body } => ExprKind::For {
            collection: Box::new(clone_expr(collection)),
            item: clone_ident(item),
            body: clone_code(body),
        },
        ExprKind::Panic(e) => ExprKind::Panic(Box::new(clone_expr(e))),
        ExprKind::Assert(e) => ExprKind::Assert(Box::new(clone_expr(e))),
        ExprKind::Return(e) => ExprKind::Return(Box::new(clone_expr(e))),
        ExprKind::Break(e) => ExprKind::Break(Box::new(clone_expr(e))),
        ExprKind::Continue(e) => ExprKind::Continue(Box::new(clone_expr(e))),
    }
}

impl Clone for Expr {
    fn clone(&self) -> (r: Expr)
        ensures
            r.view() == self.view(),
    {
        clone_expr(self)
    }
}

impl Clone for Code {
    fn clone(&self) -> (r: Code)
        ensures
            r.view() == self.view(),
    {
        clone_code(self)
    }
}

impl Clone for Function {
    fn clone(&self) -> (r: Function)
        ensures
            r.view() == self.view(),
    {
        clone_function(self)
    }
}

impl Clone for ExprKind {
    fn clone(&self) -> (r: ExprKind)
        ensures
            r.view() == self.view(),
    {
        clone_kind(self)
    }
}

impl Clone for Array {
    fn clone(&self) -> (r: Array)
        ensures
            r.view() == self.view(),
    {
        let r = Array { span: self.span, elements: clone_exprs(&self.elements) };
        assert(r.view()->Array_elements =~= self.view()->Array_elements);
        r
    }
}

impl Clone for Record {
    fn clone(&self) -> (r: Record)
        ensures
            r.view() == self.view(),
    {
        let r = Record { span: self.span, fields: clone_fields(&self.fields) };
        assert(r.view()->Record_fields =~= self.view()->Record_fields);
        r
    }
}

impl Clone for UnaryExpr {
    fn clone(&self) -> (r: UnaryExpr)
        ensures
            r.view() == self.view(),
    {
        UnaryExpr { span: self.span, op: self.op, expr: Box::new(clone_expr(&self.expr)) }
    }
}

impl Clone for BinExpr {
    fn clone(&self) -> (r: BinExpr)
        ensures
            r.view() == self.view(),
    {
        BinExpr {
            span: self.span,
            op: self.op,
            lhs: Box::new(clone_expr(&self.lhs)),
            rhs: Box::new(clone_expr(&self.rhs)),
        }
    }
}

impl Clone for Parameters {
    fn clone(&self) -> (r: Parameters)
        ensures
            r.view() == self.view(),
    {
        Parameters(clone_idents(&self.0))
    }
}

impl Clone for Arguments {
    fn clone(&self) -> (r: Arguments)
        ensures
            r.view() == self.view(),
    {
        let r = Arguments(clone_exprs(&self.0));
        r
    }
}

} // verus!
