//! The runtime symbol table: call frames, each a stack of scopes, each scope
//! a map from names to bindings.

use crate::assoc::assoc_map;
use crate::assoc::find_last;
use crate::assoc::is_last_index;
use crate::assoc::lemma_assoc_absent;
use crate::assoc::lemma_assoc_dom;
use crate::assoc::lemma_assoc_found;
use crate::assoc::lemma_assoc_push;
use crate::assoc::lemma_assoc_update;
use crate::ast::Ident;
use crate::ast::Parameters;
use crate::ast_clone::clone_ident;
use crate::ast_model::IdentView;
use crate::error::ReferenceError;
use crate::error::RuntimeError;
use crate::error::RuntimeErrorView;
use crate::span::Span;
use crate::value::clone_value;
use crate::value::ArgumentValues;
use crate::value::Value;
use crate::value::ValueView;
use vstd::prelude::*;

verus! {

/// One binding: whether it may be assigned to, and its current value.
#[derive(Debug)]
pub struct SymbolInfo {
    pub mutable: bool,
    pub value: Value,
}

/// One block-level table of bindings.
#[derive(Debug)]
pub struct Scope {
    pub bindings: Vec<(String, SymbolInfo)>,
}

/// One call frame: its scopes, innermost last, and the frame it was
/// captured in.
#[derive(Debug)]
pub struct Frame {
    pub scope_stack: Vec<Scope>,
    pub parent: Option<usize>,
}

/// All frames ever made, and the numbers of those that are being called,
/// innermost last.
#[derive(Debug)]
pub struct Environment {
    pub frames: Vec<Frame>,
    pub call_stack: Vec<usize>,
}

/// The model of a binding.
pub struct BindingView {
    pub mutable: bool,
    pub value: ValueView,
}

/// The model of a frame.
pub struct FrameView {
    pub scopes: Seq<Map<Seq<char>, BindingView>>,
    pub parent: Option<usize>,
}

/// The model of an environment.
pub struct EnvView {
    pub frames: Seq<FrameView>,
    pub call_stack: Seq<usize>,
}

/// The bindings of a scope as named models.
pub open spec fn bindings_view(s: Seq<(String, SymbolInfo)>) -> Seq<(Seq<char>, BindingView)> {
    Seq::new(s.len(), |i: int| (s[i].0@, BindingView { mutable: s[i].1.mutable, value: s[i].1.value.view() }))
}

impl Scope {
    pub open spec fn view(&self) -> Map<Seq<char>, BindingView> {
        assoc_map(bindings_view(self.bindings@))
    }
}

impl Frame {
    pub open spec fn view(&self) -> FrameView {
        FrameView {
            scopes: Seq::new(self.scope_stack@.len(), |i: int| self.scope_stack@[i].view()),
            parent: self.parent,
        }
    }
}

/// The scope that a call binds: each parameter to the argument at its place,
/// immutable. Parameters without an argument stay unbound, arguments without
/// a parameter are dropped, and of two parameters of one name the later
/// counts.
pub open spec fn call_scope(params: Seq<IdentView>, args: Seq<ValueView>) -> Map<Seq<char>, BindingView> {
    assoc_map(call_bindings(params, args))
}

/// The pairs that `call_scope` is made of.
pub open spec fn call_bindings(params: Seq<IdentView>, args: Seq<ValueView>) -> Seq<(Seq<char>, BindingView)> {
    Seq::new(
        if params.len() <= args.len() {
            params.len()
        } else {
            args.len()
        },
        |i: int| (params[i].symbol, BindingView { mutable: false, value: args[i] }),
    )
}

impl EnvView {
    /// Frames being called exist, every frame has a scope, and a frame's
    /// parent was made before it.
    pub open spec fn wf(self) -> bool {
        &&& self.call_stack.len() > 0
        &&& forall|i: int| 0 <= i < self.call_stack.len() ==> (#[trigger] self.call_stack[i]) < self.frames.len()
        &&& forall|f: int| 0 <= f < self.frames.len() ==> (#[trigger] self.frames[f]).scopes.len() > 0
        &&& forall|f: int|
            0 <= f < self.frames.len() && (#[trigger] self.frames[f]).parent is Some ==> self.frames[f].parent->0
                < f
    }

    /// The environment at the start: one frame with one empty scope.
    pub open spec fn initial() -> EnvView {
        EnvView {
            frames: seq![FrameView { scopes: seq![Map::<Seq<char>, BindingView>::empty()], parent: None }],
            call_stack: seq![0usize],
        }
    }

    /// The number of the frame in which evaluation is going on.
    pub open spec fn top(self) -> int {
        self.call_stack.last() as int
    }

    /// The innermost scope below `k` of frame `f` that binds `name`.
    pub open spec fn find_scope(self, f: int, name: Seq<char>, k: int) -> Option<int>
        decreases k,
    {
        if k <= 0 {
            None
        } else if self.frames[f].scopes[k - 1].dom().contains(name) {
            Some(k - 1)
        } else {
            self.find_scope(f, name, k - 1)
        }
    }

    /// Where `name` is bound as seen from frame `f`: the innermost scope of
    /// `f` that binds it, else where the parent of `f` finds it.
    pub open spec fn resolve(self, f: int, name: Seq<char>) -> Option<(int, int)>
        decreases f,
    {
        if f < 0 || f >= self.frames.len() {
            None
        } else {
            match self.find_scope(f, name, self.frames[f].scopes.len() as int) {
                Some(s) => Some((f, s)),
                None => match self.frames[f].parent {
                    Some(p) => if p < f {
                        self.resolve(p as int, name)
                    } else {
                        None
                    },
                    None => None,
                },
            }
        }
    }

    /// The environment with scope `s` of frame `f` replaced.
    pub open spec fn with_scope(self, f: int, s: int, scope: Map<Seq<char>, BindingView>) -> EnvView {
        EnvView {
            frames: self.frames.update(
                f,
                FrameView { scopes: self.frames[f].scopes.update(s, scope), parent: self.frames[f].parent },
            ),
            call_stack: self.call_stack,
        }
    }

    /// Declaring `name` in the innermost scope of the current frame: refused
    /// when that scope binds the name already, whatever outer scopes hold.
    pub open spec fn declare(self, name: Seq<char>, value: ValueView, mutable: bool) -> (
        Result<(), RuntimeErrorView>,
        EnvView,
    ) {
        let f = self.top();
        let s = self.frames[f].scopes.len() - 1;
        let scope = self.frames[f].scopes[s];
        if scope.dom().contains(name) {
            (Err(RuntimeErrorView::AlreadyDeclared), self)
        } else {
            (Ok(()), self.with_scope(f, s, scope.insert(name, BindingView { mutable, value })))
        }
    }

    /// Assigning to `ident`: to the binding that `resolve` finds from the
    /// current frame, if it is mutable.
    pub open spec fn assign(self, ident: IdentView, value: ValueView) -> (Result<(), RuntimeErrorView>, EnvView) {
        match self.resolve(self.top(), ident.symbol) {
            None => (Err(RuntimeErrorView::UndefinedIdentifier(ident)), self),
            Some((f, s)) => {
                let scope = self.frames[f].scopes[s];
                if !scope[ident.symbol].mutable {
                    (Err(RuntimeErrorView::AssignmentToImmutableVariable), self)
                } else {
                    (Ok(()), self.with_scope(f, s, scope.insert(ident.symbol, BindingView { mutable: true, value })))
                }
            },
        }
    }

    /// Reading `ident`: the value of the binding that `resolve` finds from
    /// the current frame.
    pub open spec fn load(self, ident: IdentView) -> Result<ValueView, RuntimeErrorView> {
        match self.resolve(self.top(), ident.symbol) {
            None => Err(RuntimeErrorView::UndefinedIdentifier(ident)),
            Some((f, s)) => Ok(self.frames[f].scopes[s][ident.symbol].value),
        }
    }

    /// Entering a call: a new frame whose parent is `capture` and whose one
    /// scope is `call_scope(params, args)` becomes the current frame.
    pub open spec fn call(self, capture: usize, params: Seq<IdentView>, args: Seq<ValueView>, span: Span) -> (
        Result<(), RuntimeErrorView>,
        EnvView,
    ) {
        if capture >= self.frames.len() || self.frames.len() >= usize::MAX {
            (Err(RuntimeErrorView::UnknownFrame(span)), self)
        } else {
            (
                Ok(()),
                EnvView {
                    frames: self.frames.push(
                        FrameView { scopes: seq![call_scope(params, args)], parent: Some(capture) },
                    ),
                    call_stack: self.call_stack.push(self.frames.len() as usize),
                },
            )
        }
    }

    /// Leaving a call: the current frame stops being called. The outermost
    /// frame stays.
    pub open spec fn ret(self) -> EnvView {
        if self.call_stack.len() > 1 {
            EnvView { frames: self.frames, call_stack: self.call_stack.drop_last() }
        } else {
            self
        }
    }

    /// Entering a block: an empty scope on top of the current frame.
    pub open spec fn push_scope(self) -> EnvView {
        let f = self.top();
        EnvView {
            frames: self.frames.update(
                f,
                FrameView {
                    scopes: self.frames[f].scopes.push(Map::<Seq<char>, BindingView>::empty()),
                    parent: self.frames[f].parent,
                },
            ),
            call_stack: self.call_stack,
        }
    }

    /// Leaving a block: the innermost scope of the current frame goes. The
    /// last scope of a frame stays.
    pub open spec fn pop_scope(self) -> EnvView {
        let f = self.top();
        if self.frames[f].scopes.len() > 1 {
            EnvView {
                frames: self.frames.update(
                    f,
                    FrameView { scopes: self.frames[f].scopes.drop_last(), parent: self.frames[f].parent },
                ),
                call_stack: self.call_stack,
            }
        } else {
            self
        }
    }
}

impl Environment {
    pub open spec fn view(&self) -> EnvView {
        EnvView {
            frames: Seq::new(self.frames@.len(), |i: int| self.frames@[i].view()),
            call_stack: self.call_stack@,
        }
    }

    /// The environment is well formed when its model is.
    pub open spec fn wf(&self) -> bool {
        self.view().wf()
    }

    /// One frame with one empty scope.
    pub fn new() -> (r: Environment)
        ensures
            r.view() == EnvView::initial(),
            r.wf(),
    {
        let scope = Scope { bindings: Vec::new() };
        let mut scopes: Vec<Scope> = Vec::new();
        scopes.push(scope);
        let frame = Frame { scope_stack: scopes, parent: None };
        assert(frame.view().scopes =~= seq![Map::<Seq<char>, BindingView>::empty()]);
        let mut frames: Vec<Frame> = Vec::new();
        frames.push(frame);
        let mut call_stack: Vec<usize> = Vec::new();
        call_stack.push(0);
        let r = Environment { frames, call_stack };
        assert(r.view().frames =~= EnvView::initial().frames);
        r
    }

    /// The number of the frame in which evaluation is going on.
    pub fn top_frame(&self) -> (r: usize)
        requires
            self.wf(),
        ensures
            r == self.view().top(),
            r < self.frames@.len(),
    {
        self.call_stack[self.call_stack.len() - 1]
    }

    /// Binds `ident` in the innermost scope of the current frame.
    pub fn declare(&mut self, ident: &Ident, value: Value, mutable: bool) -> (r: Result<(), RuntimeError>)
        requires
            old(self).wf(),
        ensures
            final(self).wf(),
            match r {
                Ok(()) => old(self).view().declare(ident.symbol@, value.view(), mutable) == (
                    Ok::<(), RuntimeErrorView>(()),
                    final(self).view(),
                ),
                Err(e) => old(self).view().declare(ident.symbol@, value.view(), mutable) == (
                    Err::<(), RuntimeErrorView>(e.view()),
                    final(self).view(),
                ),
            },
    {
        let f = self.top_frame();
        let ghost before = self.view();
        let s = self.frames[f].scope_stack.len() - 1;
        let ghost pairs = bindings_view(self.frames@[f as int].scope_stack@[s as int].bindings@);
        match find_last(&self.frames[f].scope_stack[s].bindings, &ident.symbol) {
            Some(i) => {
                proof {
                    assert(pairs[i as int].0 == ident.symbol@);
                    lemma_assoc_dom(pairs, ident.symbol@);
                }
                Err(RuntimeError::AlreadyDeclared)
            },
            None => {
                proof {
                    lemma_assoc_absent(pairs, ident.symbol@);
                    lemma_assoc_push(pairs, ident.symbol@, BindingView { mutable, value: value.view() });
                }
                let key = ident.symbol.clone();
                let ghost vv = value.view();
                self.frames[f].scope_stack[s].bindings.push((key, SymbolInfo { mutable, value }));
                proof {
                    let after = self.view();
                    let new_pairs = bindings_view(self.frames@[f as int].scope_stack@[s as int].bindings@);
                    assert(new_pairs =~= pairs.push((ident.symbol@, BindingView { mutable, value: vv })));
                    let target = before.with_scope(
                        f as int,
                        s as int,
                        before.frames[f as int].scopes[s as int].insert(
                            ident.symbol@,
                            BindingView { mutable, value: vv },
                        ),
                    );
                    assert(after.frames[f as int].scopes =~= target.frames[f as int].scopes);
                    assert(after.frames =~= target.frames);
                }
                Ok(())
            },
        }
    }

    /// Where `name` is bound as seen from the current frame: the frame, the
    /// scope and the place of the binding in that scope.
    pub fn resolve(&self, name: &String) -> (r: Option<(usize, usize, usize)>)
        requires
            self.wf(),
        ensures
            match r {
                Some((f, s, b)) => {
                    &&& self.view().resolve(self.view().top(), name@) == Some((f as int, s as int))
                    &&& f < self.frames@.len()
                    &&& s < self.frames@[f as int].scope_stack@.len()
                    &&& is_last_index(
                        bindings_view(self.frames@[f as int].scope_stack@[s as int].bindings@),
                        name@,
                        b as int,
                    )
                    &&& self.view().frames[f as int].scopes[s as int].dom().contains(name@)
                    &&& self.view().frames[f as int].scopes[s as int][name@] == bindings_view(
                        self.frames@[f as int].scope_stack@[s as int].bindings@,
                    )[b as int].1
                },
                None => self.view().resolve(self.view().top(), name@) is None,
            },
    {
        let top = self.top_frame();
        let ghost env = self.view();
        let mut f = top;
        loop
            invariant
                self.wf(),
                env == self.view(),
                f < self.frames@.len(),
                top as int == env.top(),
                env.resolve(top as int, name@) == env.resolve(f as int, name@),
            decreases f,
        {
            let frame = &self.frames[f];
            let mut k = frame.scope_stack.len();
            while k > 0
                invariant
                    self.wf(),
                    env == self.view(),
                    f < self.frames@.len(),
                    *frame == self.frames@[f as int],
                    k <= frame.scope_stack@.len(),
                    top as int == env.top(),
                    env.resolve(top as int, name@) == env.resolve(f as int, name@),
                    env.find_scope(f as int, name@, frame.scope_stack@.len() as int) == env.find_scope(
                        f as int,
                        name@,
                        k as int,
                    ),
                decreases k,
            {
                k = k - 1;
                let ghost pairs = bindings_view(frame.scope_stack@[k as int].bindings@);
                match find_last(&frame.scope_stack[k].bindings, name) {
                    Some(b) => {
                        proof {
                            lemma_assoc_found(pairs, name@, b as int);
                        }
                        return Some((f, k, b));
                    },
                    None => {
                        proof {
                            lemma_assoc_absent(pairs, name@);
                            assert(env.find_scope(f as int, name@, k as int + 1) == env.find_scope(
                                f as int,
                                name@,
                                k as int,
                            ));
                        }
                    },
                }
            }
            match frame.parent {
                Some(p) => {
                    f = p;
                },
                None => {
                    return None;
                },
            }
        }
    }

    /// Gives the binding of `ident` a new value.
    pub fn assign(&mut self, ident: &Ident, value: Value) -> (r: Result<(), RuntimeError>)
        requires
            old(self).wf(),
        ensures
            final(self).wf(),
            match r {
                Ok(()) => old(self).view().assign(ident.view(), value.view()) == (
                    Ok::<(), RuntimeErrorView>(()),
                    final(self).view(),
                ),
                Err(e) => old(self).view().assign(ident.view(), value.view()) == (
                    Err::<(), RuntimeErrorView>(e.view()),
                    final(self).view(),
                ),
            },
    {
        let ghost before = self.view();
        match self.resolve(&ident.symbol) {
            None => Err(
                RuntimeError::ReferenceError(ReferenceError::UndefinedIdentifier { ident: clone_ident(ident) }),
            ),
            Some((f, s, b)) => {
                let ghost pairs = bindings_view(self.frames@[f as int].scope_stack@[s as int].bindings@);
                if !self.frames[f].scope_stack[s].bindings[b].1.mutable {
                    Err(RuntimeError::AssignmentToImmutableVariable)
                } else {
                    let key = ident.symbol.clone();
                    let ghost vv = value.view();
                    proof {
                        lemma_assoc_update(pairs, ident.symbol@, b as int, BindingView { mutable: true, value: vv });
                    }
                    self.frames[f].scope_stack[s].bindings.set(b, (key, SymbolInfo { mutable: true, value }));
                    proof {
                        let after = self.view();
                        let new_pairs = bindings_view(self.frames@[f as int].scope_stack@[s as int].bindings@);
                        assert(new_pairs =~= pairs.update(
                            b as int,
                            (ident.symbol@, BindingView { mutable: true, value: vv }),
                        ));
                        let target = before.with_scope(
                            f as int,
                            s as int,
                            before.frames[f as int].scopes[s as int].insert(
                                ident.symbol@,
                                BindingView { mutable: true, value: vv },
                            ),
                        );
                        assert(after.frames[f as int].scopes =~= target.frames[f as int].scopes);
                        assert(after.frames =~= target.frames);
                    }
                    Ok(())
                }
            },
        }
    }

    /// A copy of the value bound to `ident`.
    pub fn load(&self, ident: &Ident) -> (r: Result<Value, RuntimeError>)
        requires
            self.wf(),
        ensures
            match r {
                Ok(v) => self.view().load(ident.view()) == Ok::<ValueView, RuntimeErrorView>(v.view()),
                Err(e) => self.view().load(ident.view()) == Err::<ValueView, RuntimeErrorView>(e.view()),
            },
    {
        match self.resolve(&ident.symbol) {
            None => Err(
                RuntimeError::ReferenceError(ReferenceError::UndefinedIdentifier { ident: clone_ident(ident) }),
            ),
            Some((f, s, b)) => Ok(clone_value(&self.frames[f].scope_stack[s].bindings[b].1.value)),
        }
    }

    /// Enters a call: pushes a frame whose parent is `capture` and whose
    /// scope binds the parameters to the arguments.
    pub fn call(&mut self, capture: usize, parameters: &Parameters, arguments: ArgumentValues, span: Span) -> (r:
        Result<(), RuntimeError>)
        requires
            old(self).wf(),
        ensures
            final(self).wf(),
            match r {
                Ok(()) => old(self).view().call(capture, parameters.view(), arguments.view(), span) == (
                    Ok::<(), RuntimeErrorView>(()),
                    final(self).view(),
                ),
                Err(e) => old(self).view().call(capture, parameters.view(), arguments.view(), span) == (
                    Err::<(), RuntimeErrorView>(e.view()),
                    final(self).view(),
                ),
            },
    {
        let ghost before = self.view();
        if capture >= self.frames.len() || self.frames.len() >= usize::MAX {
            return Err(RuntimeError::UnknownFrame { span });
        }
        let n = if parameters.0.len() <= arguments.0.len() {
            parameters.0.len()
        } else {
            arguments.0.len()
        };
        let ghost target = call_bindings(parameters.view(), arguments.view());
        let mut bindings: Vec<(String, SymbolInfo)> = Vec::new();
        let mut i: usize = 0;
        while i < n
            invariant
                i <= n,
                n <= parameters.0@.len(),
                n <= arguments.0@.len(),
                target.len() == n,
                target == call_bindings(parameters.view(), arguments.view()),
                bindings@.len() == i,
                forall|j: int|
                    0 <= j < i ==> {
                        &&& (#[trigger] bindings@[j]).0@ == target[j].0
                        &&& bindings@[j].1.mutable == target[j].1.mutable
                        &&& bindings@[j].1.value.view() == target[j].1.value
                    },
            decreases n - i,
        {
            let key = parameters.0[i].symbol.clone();
            let value = clone_value(&arguments.0[i]);
            bindings.push((key, SymbolInfo { mutable: false, value }));
            i = i + 1;
        }
        assert(bindings_view(bindings@) =~= target);
        let mut scopes: Vec<Scope> = Vec::new();
        scopes.push(Scope { bindings });
        let frame = Frame { scope_stack: scopes, parent: Some(capture) };
        assert(frame.view().scopes =~= seq![call_scope(parameters.view(), arguments.view())]);
        let index = self.frames.len();
        self.frames.push(frame);
        self.call_stack.push(index);
        proof {
            let after = self.view();
            let want = before.call(capture, parameters.view(), arguments.view(), span).1;
            assert(after.frames =~= want.frames);
        }
        Ok(())
    }

    /// Leaves a call: pops the current frame off the call stack. The
    /// outermost frame is never popped.
    pub fn ret(&mut self)
        requires
            old(self).wf(),
        ensures
            final(self).wf(),
            final(self).view() == old(self).view().ret(),
    {
        if self.call_stack.len() > 1 {
            self.call_stack.pop();
        }
    }

    /// Enters a block: pushes an empty scope on the current frame.
    pub fn push_scope(&mut self)
        requires
            old(self).wf(),
        ensures
            final(self).wf(),
            final(self).view() == old(self).view().push_scope(),
    {
        let ghost before = self.view();
        let f = self.top_frame();
        let scope = Scope { bindings: Vec::new() };
        self.frames[f].scope_stack.push(scope);
        proof {
            let after = self.view();
            let want = before.push_scope();
            assert(after.frames[f as int].scopes =~= want.frames[f as int].scopes);
            assert(after.frames =~= want.frames);
        }
    }

    /// Leaves a block: pops the innermost scope of the current frame. The
    /// last scope of a frame is never popped.
    pub fn pop_scope(&mut self)
        requires
            old(self).wf(),
        ensures
            final(self).wf(),
            final(self).view() == old(self).view().pop_scope(),
    {
        let ghost before = self.view();
        let f = self.top_frame();
        if self.frames[f].scope_stack.len() > 1 {
            self.frames[f].scope_stack.pop();
            proof {
                let after = self.view();
                let want = before.pop_scope();
                assert(after.frames[f as int].scopes =~= want.frames[f as int].scopes);
                assert(after.frames =~= want.frames);
            }
        }
    }
}

/// A name that the innermost scope of the current frame binds is found
/// there, whatever outer scopes and parent frames hold.
pub proof fn lemma_resolve_innermost(env: EnvView, name: Seq<char>)
    requires
        env.wf(),
        env.frames[env.top()].scopes.last().dom().contains(name),
    ensures
        env.resolve(env.top(), name) == Some((env.top(), env.frames[env.top()].scopes.len() - 1)),
{
}

/// Declaring keeps an environment well formed, and leaves the name bound in
/// the innermost scope of the current frame with the value and the
/// mutability it was declared with.
pub proof fn lemma_declare_binds(env: EnvView, name: Seq<char>, value: ValueView, mutable: bool)
    requires
        env.wf(),
        env.declare(name, value, mutable).0 is Ok,
    ensures
        env.declare(name, value, mutable).1.wf(),
        env.declare(name, value, mutable).1.top() == env.top(),
        env.declare(name, value, mutable).1.frames[env.top()].scopes.last().dom().contains(name),
        env.declare(name, value, mutable).1.frames[env.top()].scopes.last()[name] == (BindingView { mutable, value }),
{
}

/// Declaring a name twice in the same scope fails the second time.
pub proof fn lemma_declare_twice_fails(
    env: EnvView,
    name: Seq<char>,
    first: ValueView,
    first_mutable: bool,
    second: ValueView,
    second_mutable: bool,
)
    requires
        env.wf(),
        env.declare(name, first, first_mutable).0 is Ok,
    ensures
        env.declare(name, first, first_mutable).1.declare(name, second, second_mutable) == (
            Err::<(), RuntimeErrorView>(RuntimeErrorView::AlreadyDeclared),
            env.declare(name, first, first_mutable).1,
        ),
{
    lemma_declare_binds(env, name, first, first_mutable);
}

/// Entering a block keeps an environment well formed.
pub proof fn lemma_push_scope_wf(env: EnvView)
    requires
        env.wf(),
    ensures
        env.push_scope().wf(),
        env.push_scope().top() == env.top(),
        env.push_scope().frames[env.top()].scopes.last() == Map::<Seq<char>, BindingView>::empty(),
{
}

/// A name that an outer scope binds can be declared again in a nested
/// scope: the declaration succeeds and shadows the outer binding.
pub proof fn lemma_shadowing_succeeds(
    env: EnvView,
    name: Seq<char>,
    outer: ValueView,
    outer_mutable: bool,
    inner: ValueView,
    inner_mutable: bool,
    span: Span,
)
    requires
        env.wf(),
        env.declare(name, outer, outer_mutable).0 is Ok,
    ensures
        ({
            let nested = env.declare(name, outer, outer_mutable).1.push_scope();
            let ident = IdentView { span, symbol: name };
            &&& nested.declare(name, inner, inner_mutable).0 is Ok
            &&& nested.declare(name, inner, inner_mutable).1.load(ident) == Ok::<ValueView, RuntimeErrorView>(inner)
            &&& nested.declare(name, inner, inner_mutable).1.pop_scope().load(ident) == Ok::<
                ValueView,
                RuntimeErrorView,
            >(outer)
        }),
{
    let declared = env.declare(name, outer, outer_mutable).1;
    lemma_declare_binds(env, name, outer, outer_mutable);
    lemma_push_scope_wf(declared);
    let nested = declared.push_scope();
    let shadowed = nested.declare(name, inner, inner_mutable).1;
    lemma_declare_binds(nested, name, inner, inner_mutable);
    lemma_resolve_innermost(shadowed, name);
    lemma_resolve_innermost(declared, name);
}

/// Assigning to a name that was declared immutable in the current scope
/// fails, and changes nothing.
pub proof fn lemma_assign_immutable_fails(env: EnvView, ident: IdentView, value: ValueView, next: ValueView)
    requires
        env.wf(),
        env.declare(ident.symbol, value, false).0 is Ok,
    ensures
        env.declare(ident.symbol, value, false).1.assign(ident, next) == (
            Err::<(), RuntimeErrorView>(RuntimeErrorView::AssignmentToImmutableVariable),
            env.declare(ident.symbol, value, false).1,
        ),
{
    lemma_declare_binds(env, ident.symbol, value, false);
    lemma_resolve_innermost(env.declare(ident.symbol, value, false).1, ident.symbol);
}

/// Assigning to a name that was declared mutable in the current scope
/// succeeds, and reading the name afterwards gives the value assigned.
pub proof fn lemma_assign_mutable_visible(env: EnvView, ident: IdentView, value: ValueView, next: ValueView)
    requires
        env.wf(),
        env.declare(ident.symbol, value, true).0 is Ok,
    ensures
        env.declare(ident.symbol, value, true).1.assign(ident, next).0 is Ok,
        env.declare(ident.symbol, value, true).1.assign(ident, next).1.load(ident) == Ok::<
            ValueView,
            RuntimeErrorView,
        >(next),
{
    let declared = env.declare(ident.symbol, value, true).1;
    lemma_declare_binds(env, ident.symbol, value, true);
    lemma_resolve_innermost(declared, ident.symbol);
    let assigned = declared.assign(ident, next).1;
    lemma_resolve_innermost(assigned, ident.symbol);
}

} // verus!
