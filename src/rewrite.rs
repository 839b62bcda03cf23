use vstd::prelude::*;

verus! {

/// A handler body's expressions, as far as rewriting its exit points goes.
pub enum Expr {
    /// A direct call expression, by its source text.
    Call(String),
    /// Any other expression, by its source text.
    Other(String),
    /// `return`, with or without a value.
    Return(Option<Box<Expr>>),
    /// A block of statements; the last one is its trailing expression.
    Block(Vec<Expr>),
    /// A value turned into a successful response: `Ok(HtmxResponse::from(e))`.
    Wrapped(Box<Expr>),
}

/// An exit value that yields a handler outcome: a call (assumed to yield
/// one already) or a wrapped value.
pub open spec fn is_outcome(e: Expr) -> bool {
    e is Call || e is Wrapped
}

/// Every `return` with a value, anywhere in `e`, returns an outcome.
pub open spec fn returns_wrapped(e: Expr) -> bool
    decreases e,
{
    match e {
        Expr::Call(_) => true,
        Expr::Other(_) => true,
        Expr::Return(None) => true,
        Expr::Return(Some(x)) => is_outcome(*x) && returns_wrapped(*x),
        Expr::Block(v) => forall|i: int| 0 <= i < v@.len() ==> returns_wrapped(#[trigger] v@[i]),
        Expr::Wrapped(x) => returns_wrapped(*x),
    }
}

/// `b` is `a` with the values of some of its `return`s wrapped as
/// successful responses, and nothing else changed: a call is never wrapped.
pub open spec fn wraps(a: Expr, b: Expr) -> bool
    decreases a,
{
    match a {
        Expr::Call(s) => b matches Expr::Call(t) && s@ == t@,
        Expr::Other(s) => b matches Expr::Other(t) && s@ == t@,
        Expr::Return(None) => b matches Expr::Return(None),
        Expr::Return(Some(x)) => match b {
            Expr::Return(Some(y)) => wraps(*x, *y) || (!(*x is Call) && (*y matches Expr::Wrapped(z)
                && wraps(*x, *z))),
            _ => false,
        },
        Expr::Block(v) => match b {
            Expr::Block(w) => v@.len() == w@.len() && forall|i: int|
                0 <= i < v@.len() ==> wraps(#[trigger] v@[i], w@[i]),
            _ => false,
        },
        Expr::Wrapped(x) => match b {
            Expr::Wrapped(y) => wraps(*x, *y),
            _ => false,
        },
    }
}

/// `b` is the trailing expression `a`, possibly turned into a `return` of
/// its wrapped value where `a` is neither a call nor a `return`.
pub open spec fn wraps_tail(a: Expr, b: Expr) -> bool {
    wraps(a, b) || (!(a is Call) && !(a is Return) && (b matches Expr::Return(Some(y))
        && *y matches Expr::Wrapped(z) && wraps(a, *z)))
}

/// A trailing expression through which the body ends with an outcome.
pub open spec fn exits_with_outcome(e: Expr) -> bool {
    match e {
        Expr::Call(_) => true,
        Expr::Return(Some(x)) => is_outcome(*x),
        _ => false,
    }
}

/// Rewrites the exit points of a handler body.
pub struct MaybeWrapReturns {
    /// Whether the next block visited is the body itself, whose trailing
    /// expression is wrapped too.
    pub first_block_visit: bool,
}

impl MaybeWrapReturns {
    pub fn default() -> (r: MaybeWrapReturns)
        ensures
            r.first_block_visit,
    {
        MaybeWrapReturns { first_block_visit: true }
    }

    /// Wraps the value of every `return` in `e` that is not a call.
    pub fn visit_expr(&self, e: &Expr) -> (r: Expr)
        ensures
            returns_wrapped(r),
            (r matches Expr::Return(None)) ==> (*e matches Expr::Return(None)),
            wraps(*e, r),
        decreases e,
    {
        proof {
            reveal_with_fuel(returns_wrapped, 3);
        }
        match e {
            Expr::Call(s) => Expr::Call(s.clone()),
            Expr::Other(s) => Expr::Other(s.clone()),
            Expr::Return(None) => Expr::Return(None),
            Expr::Return(Some(x)) => {
                let inner = self.visit_expr(x);
                match inner {
                    Expr::Call(s) => Expr::Return(Some(Box::new(Expr::Call(s)))),
                    Expr::Wrapped(w) => Expr::Return(Some(Box::new(Expr::Wrapped(w)))),
                    other => Expr::Return(Some(Box::new(Expr::Wrapped(Box::new(other))))),
                }
            },
            Expr::Block(v) => Expr::Block(self.visit_all(v)),
            Expr::Wrapped(x) => Expr::Wrapped(Box::new(self.visit_expr(x))),
        }
    }

    fn visit_all(&self, v: &Vec<Expr>) -> (r: Vec<Expr>)
        ensures
            r@.len() == v@.len(),
            forall|i: int| 0 <= i < r@.len() ==> returns_wrapped(#[trigger] r@[i]),
            forall|i: int|
                0 <= i < r@.len() ==> ((#[trigger] r@[i] matches Expr::Return(None)) ==> (
                v@[i] matches Expr::Return(None))),
            forall|i: int| 0 <= i < r@.len() ==> wraps(#[trigger] v@[i], r@[i]),
        decreases v,
    {
        let mut out: Vec<Expr> = Vec::new();
        let mut i: usize = 0;
        while i < v.len()
            invariant
                i <= v@.len(),
                out@.len() == i,
                forall|j: int| 0 <= j < out@.len() ==> returns_wrapped(#[trigger] out@[j]),
                forall|j: int|
                    0 <= j < out@.len() ==> ((#[trigger] out@[j] matches Expr::Return(None)) ==> (
                    v@[j] matches Expr::Return(None))),
                forall|j: int| 0 <= j < out@.len() ==> wraps(#[trigger] v@[j], out@[j]),
            decreases v@.len() - i,
        {
            proof {
                vstd::std_specs::vec::axiom_vec_index_decreases(*v, i as int);
            }
            let x = self.visit_expr(&v[i]);
            out.push(x);
            i += 1;
        }
        out
    }

    /// Rewrites a block: every `return` in it, and, when it is the body
    /// itself, its trailing expression unless that is a call or a `return`.
    pub fn visit_block(&mut self, stmts: &Vec<Expr>) -> (r: Vec<Expr>)
        ensures
            r@.len() == stmts@.len(),
            forall|i: int| 0 <= i < r@.len() ==> returns_wrapped(#[trigger] r@[i]),
            old(self).first_block_visit && stmts@.len() > 0 && !(stmts@.last() matches Expr::Return(
                None,
            )) ==> exits_with_outcome(r@.last()),
            forall|i: int| 0 <= i < r@.len() - 1 ==> wraps(#[trigger] stmts@[i], r@[i]),
            r@.len() > 0 ==> wraps_tail(stmts@.last(), r@.last()),
            !old(self).first_block_visit ==> forall|i: int|
                0 <= i < r@.len() ==> wraps(#[trigger] stmts@[i], r@[i]),
            !final(self).first_block_visit,
    {
        let mut out = self.visit_all(stmts);
        if self.first_block_visit && out.len() > 0 {
            let ghost before = out@;
            let last = out.pop().unwrap();
            assert(returns_wrapped(before[before.len() - 1]));
            assert(last == before[before.len() - 1]);
            proof {
                reveal_with_fuel(returns_wrapped, 3);
            }
            let wrapped = match last {
                Expr::Call(s) => Expr::Call(s),
                Expr::Return(x) => Expr::Return(x),
                other => Expr::Return(Some(Box::new(Expr::Wrapped(Box::new(other))))),
            };
            out.push(wrapped);
            assert(forall|j: int| 0 <= j < out@.len() - 1 ==> out@[j] == before[j]);
        }
        self.first_block_visit = false;
        out
    }
}

/// Rewrites a handler body so that each of its exits yields an outcome.
pub fn wrap_returns(body: &Vec<Expr>) -> (r: Vec<Expr>)
    ensures
        r@.len() == body@.len(),
        forall|i: int| 0 <= i < r@.len() ==> returns_wrapped(#[trigger] r@[i]),
        body@.len() > 0 && !(body@.last() matches Expr::Return(None)) ==> exits_with_outcome(
            r@.last(),
        ),
        forall|i: int| 0 <= i < r@.len() - 1 ==> wraps(#[trigger] body@[i], r@[i]),
        r@.len() > 0 ==> wraps_tail(body@.last(), r@.last()),
{
    let mut visitor = MaybeWrapReturns::default();
    visitor.visit_block(body)
}

} // verus!
