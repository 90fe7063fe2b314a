//! The binding-tree compiler: from a field description and the expression
//! of the message it describes to a pattern tree and an expression tree.

use vstd::prelude::*;
use crate::names::NameSupply;
use crate::message::{
    field_supported, field_temps, lemma_prefix_temps_monotone, message_supported, message_temps,
    prefix_temps, Field, Message, Value,
};
use crate::tree::{Expr, ExprModel, Pattern, PatternModel};

verus! {

/// The pattern that a supported field compiles to: a binding site for a
/// single value, the nested message's own tuple pattern for a nested message.
pub open spec fn field_pattern(f: Field) -> PatternModel
    decreases f, 0nat,
{
    match f.1 {
        Value::SingleValue(name) => PatternModel::Bind(name@),
        Value::MessageValue(m) => message_pattern(m),
        Value::RepeatedValue(_) => PatternModel::Tuple(Seq::empty()),
    }
}

/// The pattern that a supported message compiles to: the tuple of its
/// fields' patterns, in the order of the fields.
pub open spec fn message_pattern(m: Message) -> PatternModel
    decreases m, 1nat,
{
    PatternModel::Tuple(
        Seq::new(
            m.0.len() as nat,
            |i: int|
                if 0 <= i < m.0.len() {
                    field_pattern(m.0[i])
                } else {
                    PatternModel::Tuple(Seq::empty())
                },
        ),
    )
}

/// The expression that a supported field compiles to when `source` is the
/// expression of its message and `next` the first unused intermediate
/// variable. A single value is extracted from `source` by the field's key. A
/// nested message binds the variable `next` to that extraction and then
/// evaluates to the nested message's expression, which reads from the
/// variable and takes its own variables from `next + 1` on.
pub open spec fn field_expr(f: Field, source: ExprModel, next: nat) -> ExprModel
    decreases f, 0nat,
{
    match f.1 {
        Value::SingleValue(_) => ExprModel::Extract(Box::new(source), f.0@),
        Value::MessageValue(m) => ExprModel::Block(
            next,
            Box::new(ExprModel::Extract(Box::new(source), f.0@)),
            Box::new(message_expr(m, ExprModel::Temp(next), next + 1)),
        ),
        Value::RepeatedValue(_) => ExprModel::Tuple(Seq::empty()),
    }
}

/// The expression that a supported message compiles to: the tuple of its
/// fields' expressions, in the order of the fields, all over the same
/// `source`. Field `i` takes its intermediate variables from where the
/// fields before it stopped.
pub open spec fn message_expr(m: Message, source: ExprModel, next: nat) -> ExprModel
    decreases m, 1nat,
{
    ExprModel::Tuple(
        Seq::new(
            m.0.len() as nat,
            |i: int|
                if 0 <= i < m.0.len() {
                    field_expr(m.0[i], source, next + prefix_temps(m, i))
                } else {
                    ExprModel::Tuple(Seq::empty())
                },
        ),
    )
}

/// Compiles one field of the message that `parent` denotes.
///
/// A single value gives a binding site and the extraction of the field from
/// `parent`. A nested message takes one intermediate variable from `names`,
/// binds it to that extraction, and compiles the nested message over the
/// variable; its pattern is the nested message's tuple pattern, with no level
/// added.
///
/// The field must hold no repeated field, and `names` must have the
/// intermediate variables that the field takes: `Field::is_supported`,
/// `Field::intermediates` and `NameSupply::can_supply` decide both.
pub fn emit_field(field: &Field, parent: &Expr, names: &mut NameSupply) -> (r: (Pattern, Expr))
    requires
        field_supported(*field),
        old(names).next() + field_temps(*field) <= u64::MAX,
    ensures
        r.0@ == field_pattern(*field),
        r.1@ == field_expr(*field, parent@, old(names).next()),
        final(names).next() == old(names).next() + field_temps(*field),
    decreases *field, 0nat,
{
    match &field.1 {
        Value::SingleValue(name) => {
            let pat = Pattern::Bind(name.clone());
            let e = Expr::Extract(Box::new(parent.duplicate()), field.0.clone());
            (pat, e)
        },
        Value::MessageValue(msg) => {
            let temp: u64 = names.fresh();
            let source = Expr::Temp(temp);
            let e = Expr::Extract(Box::new(parent.duplicate()), field.0.clone());
            assert(e@ == ExprModel::Extract(Box::new(parent@), field.0@));
            let (pat, value) = emit_message(msg, &source, names);
            (pat, Expr::Block(temp, Box::new(e), Box::new(value)))
        },
        Value::RepeatedValue(_) => {
            vstd::pervasive::unreached()
        },
    }
}

/// Compiles a message whose own value `expr` denotes: each field in turn
/// over the same `expr`, the patterns gathered into one tuple pattern and the
/// expressions into one tuple expression, both in the order of the fields.
///
/// The message must hold no repeated field, and `names` must have the
/// intermediate variables that the message takes: `Message::is_supported`,
/// `Message::intermediates` and `NameSupply::can_supply` decide both.
pub fn emit_message(msg: &Message, expr: &Expr, names: &mut NameSupply) -> (r: (Pattern, Expr))
    requires
        message_supported(*msg),
        old(names).next() + message_temps(*msg) <= u64::MAX,
    ensures
        r.0@ == message_pattern(*msg),
        r.1@ == message_expr(*msg, expr@, old(names).next()),
        final(names).next() == old(names).next() + message_temps(*msg),
    decreases *msg, 1nat,
{
    let ghost start = names.next();
    let mut pats: Vec<Pattern> = Vec::new();
    let mut values: Vec<Expr> = Vec::new();
    let mut i: usize = 0;
    while i < msg.0.len()
        invariant
            i <= msg.0.len(),
            pats.len() == i,
            values.len() == i,
            message_supported(*msg),
            start + message_temps(*msg) <= u64::MAX,
            names.next() == start + prefix_temps(*msg, i as int),
            forall|j: int| 0 <= j < i ==> (#[trigger] pats[j])@ == field_pattern(msg.0[j]),
            forall|j: int|
                0 <= j < i ==> (#[trigger] values[j])@ == field_expr(
                    msg.0[j],
                    expr@,
                    start + prefix_temps(*msg, j),
                ),
        decreases msg.0.len() - i,
    {
        proof {
            lemma_prefix_temps_monotone(*msg, i + 1, msg.0.len() as int);
            assert(decreases_to!(*msg => msg.0));
            assert(decreases_to!(msg.0 => msg.0[i as int]));
        }
        let (pat, value) = emit_field(&msg.0[i], expr, names);
        pats.push(pat);
        values.push(value);
        i += 1;
    }
    let pat = Pattern::tuple(pats);
    let value = Expr::tuple(values);
    proof {
        assert(pat@->Tuple_0 =~= message_pattern(*msg)->Tuple_0);
        assert(value@->Tuple_0 =~= message_expr(*msg, expr@, start)->Tuple_0);
    }
    (pat, value)
}

} // verus!
