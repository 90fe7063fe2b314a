//! The two trees that the compiler produces, and their mathematical models.

use vstd::prelude::*;

verus! {

/// The shape that extracted values are destructured into.
#[derive(Debug, PartialEq, Eq)]
pub enum Pattern {
    /// A binding site: one variable, by name.
    Bind(String),
    /// An ordered tuple of patterns.
    Tuple(Vec<Pattern>),
}

/// The computation that produces the values a pattern takes apart.
#[derive(Debug, PartialEq, Eq)]
pub enum Expr {
    /// An expression of the surrounding program, carried through as its text.
    Host(String),
    /// A use of the intermediate variable with this number. Intermediate
    /// variables live in a name space of their own, apart from every name a
    /// user can write.
    Temp(u64),
    /// The extraction primitive, by value, applied to a message expression
    /// and a field key.
    Extract(Box<Expr>, String),
    /// An ordered tuple of expressions.
    Tuple(Vec<Expr>),
    /// A scoped sequence: bind the intermediate variable with this number to
    /// the second component, then evaluate to the third.
    Block(u64, Box<Expr>, Box<Expr>),
}

/// What a `Pattern` stands for.
pub enum PatternModel {
    Bind(Seq<char>),
    Tuple(Seq<PatternModel>),
}

/// What an `Expr` stands for.
pub enum ExprModel {
    Host(Seq<char>),
    Temp(nat),
    Extract(Box<ExprModel>, Seq<char>),
    Tuple(Seq<ExprModel>),
    Block(nat, Box<ExprModel>, Box<ExprModel>),
}

/// The model of a pattern tree.
pub open spec fn pattern_model(p: Pattern) -> PatternModel
    decreases p,
{
    match p {
        Pattern::Bind(name) => PatternModel::Bind(name@),
        Pattern::Tuple(items) => PatternModel::Tuple(
            Seq::new(
                items.len() as nat,
                |i: int|
                    if 0 <= i < items.len() {
                        pattern_model(items[i])
                    } else {
                        PatternModel::Tuple(Seq::empty())
                    },
            ),
        ),
    }
}

/// The model of an expression tree.
pub open spec fn expr_model(e: Expr) -> ExprModel
    decreases e,
{
    match e {
        Expr::Host(text) => ExprModel::Host(text@),
        Expr::Temp(n) => ExprModel::Temp(n as nat),
        Expr::Extract(from, key) => ExprModel::Extract(Box::new(expr_model(*from)), key@),
        Expr::Tuple(items) => ExprModel::Tuple(
            Seq::new(
                items.len() as nat,
                |i: int|
                    if 0 <= i < items.len() {
                        expr_model(items[i])
                    } else {
                        ExprModel::Tuple(Seq::empty())
                    },
            ),
        ),
        Expr::Block(temp, init, body) => ExprModel::Block(
            temp as nat,
            Box::new(expr_model(*init)),
            Box::new(expr_model(*body)),
        ),
    }
}

impl View for Pattern {
    type V = PatternModel;

    open spec fn view(&self) -> PatternModel {
        pattern_model(*self)
    }
}

impl View for Expr {
    type V = ExprModel;

    open spec fn view(&self) -> ExprModel {
        expr_model(*self)
    }
}

impl Pattern {
    /// A tuple pattern of the given patterns, in their order.
    pub fn tuple(items: Vec<Pattern>) -> (r: Pattern)
        ensures
            r@ == PatternModel::Tuple(Seq::new(items.len() as nat, |i: int| items[i]@)),
    {
        let r = Pattern::Tuple(items);
        assert(r@->Tuple_0 =~= Seq::new(items.len() as nat, |i: int| items[i]@));
        r
    }
}

impl Expr {
    /// A tuple expression of the given expressions, in their order.
    pub fn tuple(items: Vec<Expr>) -> (r: Expr)
        ensures
            r@ == ExprModel::Tuple(Seq::new(items.len() as nat, |i: int| items[i]@)),
    {
        let r = Expr::Tuple(items);
        assert(r@->Tuple_0 =~= Seq::new(items.len() as nat, |i: int| items[i]@));
        r
    }

    /// A copy of the whole tree.
    pub fn duplicate(&self) -> (r: Expr)
        ensures
            r@ == self@,
        decreases self,
    {
        match self {
            Expr::Host(text) => Expr::Host(text.clone()),
            Expr::Temp(n) => Expr::Temp(*n),
            Expr::Extract(from, key) => Expr::Extract(Box::new(from.duplicate()), key.clone()),
            Expr::Tuple(items) => {
                let mut copies: Vec<Expr> = Vec::new();
                let mut i: usize = 0;
                while i < items.len()
                    invariant
                        i <= items.len(),
                        copies.len() == i,
                        forall|j: int| 0 <= j < i ==> (#[trigger] copies[j])@ == items[j]@,
                        self == Expr::Tuple(*items),
                    decreases items.len() - i,
                {
                    proof {
                        assert(decreases_to!(*self => self->Tuple_0));
                        assert(decreases_to!(*items => items[i as int]));
                    }
                    let copy = items[i].duplicate();
                    copies.push(copy);
                    i += 1;
                }
                let r = Expr::Tuple(copies);
                assert(r@->Tuple_0 =~= self@->Tuple_0);
                r
            },
            Expr::Block(temp, init, body) => Expr::Block(
                *temp,
                Box::new(init.duplicate()),
                Box::new(body.duplicate()),
            ),
        }
    }
}

} // verus!
