//! What holds of every compilation, stated over the models and proved.

use vstd::prelude::*;
use crate::emit::{field_expr, field_pattern, message_expr, message_pattern};
use crate::message::{
    field_supported, field_temps, lemma_prefix_temps_monotone, message_supported, message_temps,
    prefix_temps, Field, Message, Value,
};
use crate::tree::{ExprModel, PatternModel};

verus! {

/// The expression tree has the shape of the pattern tree: a tuple stands
/// against a tuple of the same arity, slot by slot; an extraction stands
/// against a binding site; a scoped sequence stands for what it evaluates to.
pub open spec fn mirrors(p: PatternModel, e: ExprModel) -> bool
    decreases e,
{
    match e {
        ExprModel::Extract(_, _) => p is Bind,
        ExprModel::Block(_, _, body) => mirrors(p, *body),
        ExprModel::Tuple(slots) => {
            &&& p is Tuple
            &&& p->Tuple_0.len() == slots.len()
            &&& forall|i: int|
                0 <= i < slots.len() ==> mirrors(p->Tuple_0[i], #[trigger] slots[i])
        },
        _ => false,
    }
}

/// The pattern tree has the shape of the description: a tuple with one slot
/// for each field, in which a single value has a binding site and a nested
/// message a tuple that has the shape of the nested description.
pub open spec fn fits(p: PatternModel, m: Message) -> bool
    decreases m,
{
    &&& p is Tuple
    &&& p->Tuple_0.len() == m.0.len()
    &&& forall|i: int|
        0 <= i < m.0.len() ==> match (#[trigger] m.0[i]).1 {
            Value::SingleValue(_) => p->Tuple_0[i] is Bind,
            Value::MessageValue(inner) => fits(p->Tuple_0[i], inner),
            Value::RepeatedValue(_) => false,
        }
}

/// A supported field's pattern and expression have the same shape.
pub proof fn lemma_field_mirrors(f: Field, source: ExprModel, next: nat)
    requires
        field_supported(f),
    ensures
        mirrors(field_pattern(f), field_expr(f, source, next)),
    decreases f, 0nat,
{
    match f.1 {
        Value::MessageValue(m) => {
            lemma_shape_correspondence(m, ExprModel::Temp(next), next + 1);
        },
        _ => {},
    }
}

/// Shape correspondence: for every supported message, the pattern and the
/// expression are tuples with one slot for each field, and have the same
/// arity at every level below.
pub proof fn lemma_shape_correspondence(m: Message, source: ExprModel, next: nat)
    requires
        message_supported(m),
    ensures
        message_pattern(m) is Tuple,
        message_expr(m, source, next) is Tuple,
        message_pattern(m)->Tuple_0.len() == m.0.len(),
        message_expr(m, source, next)->Tuple_0.len() == m.0.len(),
        mirrors(message_pattern(m), message_expr(m, source, next)),
        fits(message_pattern(m), m),
    decreases m, 1nat,
{
    let p = message_pattern(m);
    let e = message_expr(m, source, next);
    assert forall|i: int| 0 <= i < e->Tuple_0.len() implies mirrors(
        p->Tuple_0[i],
        #[trigger] e->Tuple_0[i],
    ) by {
        lemma_field_mirrors(m.0[i], source, next + prefix_temps(m, i));
    }
    assert forall|i: int| 0 <= i < m.0.len() implies match (#[trigger] m.0[i]).1 {
        Value::SingleValue(_) => p->Tuple_0[i] is Bind,
        Value::MessageValue(inner) => fits(p->Tuple_0[i], inner),
        Value::RepeatedValue(_) => false,
    } by {
        match m.0[i].1 {
            Value::MessageValue(inner) => {
                lemma_shape_correspondence(inner, source, next);
            },
            _ => {},
        }
    }
}

/// Order preservation: slot `i` of the pattern and of the expression is what
/// field `i` compiles to, over the message's own source.
pub proof fn lemma_slot_is_field(m: Message, source: ExprModel, next: nat, i: int)
    requires
        0 <= i < m.0.len(),
    ensures
        message_pattern(m)->Tuple_0[i] == field_pattern(m.0[i]),
        message_expr(m, source, next)->Tuple_0[i] == field_expr(
            m.0[i],
            source,
            next + prefix_temps(m, i),
        ),
{
}

/// Order preservation under reordering: where the fields of `b` are those of
/// `a` in the order that `order` gives, each slot of `b`'s pattern is the
/// slot of `a`'s pattern that `order` names, and each slot of `b`'s
/// expression is what that field of `a` compiles to.
pub proof fn lemma_reordering(a: Message, b: Message, order: Seq<int>, source: ExprModel, next: nat)
    requires
        order.len() == b.0.len(),
        forall|i: int| 0 <= i < order.len() ==> 0 <= #[trigger] order[i] < a.0.len(),
        forall|i: int| 0 <= i < order.len() ==> b.0[i] == a.0[#[trigger] order[i]],
    ensures
        message_pattern(b)->Tuple_0.len() == order.len(),
        message_expr(b, source, next)->Tuple_0.len() == order.len(),
        forall|i: int|
            0 <= i < order.len() ==> message_pattern(b)->Tuple_0[i] == message_pattern(
                a,
            )->Tuple_0[#[trigger] order[i]],
        forall|i: int|
            0 <= i < order.len() ==> message_expr(b, source, next)->Tuple_0[i] == field_expr(
                a.0[#[trigger] order[i]],
                source,
                next + prefix_temps(b, i),
            ),
{
}

/// Leaf correctness: a message of one field with a single value compiles to
/// the one-slot pattern that binds the field's name and the one-slot
/// expression that extracts the field's key from the source.
pub proof fn lemma_leaf(m: Message, source: ExprModel, next: nat)
    requires
        m.0.len() == 1,
        m.0[0].1 is SingleValue,
    ensures
        message_pattern(m) == PatternModel::Tuple(
            seq![PatternModel::Bind(m.0[0].1->SingleValue_0@)],
        ),
        message_expr(m, source, next) == ExprModel::Tuple(
            seq![ExprModel::Extract(Box::new(source), m.0[0].0@)],
        ),
        message_temps(m) == 0,
{
    assert(message_pattern(m)->Tuple_0 =~= seq![PatternModel::Bind(m.0[0].1->SingleValue_0@)]);
    assert(message_expr(m, source, next)->Tuple_0 =~= seq![
        ExprModel::Extract(Box::new(source), m.0[0].0@),
    ]);
    assert(prefix_temps(m, 0) == 0);
}

/// Nesting correctness: a field that holds a nested message compiles to the
/// nested message's own tuple pattern, with one slot for each of its fields,
/// and to a scoped sequence that binds one intermediate variable, the first
/// unused one, to the field's extraction and then evaluates to the nested
/// message's expression over that variable.
pub proof fn lemma_nesting(f: Field, source: ExprModel, next: nat)
    requires
        f.1 is MessageValue,
    ensures
        field_pattern(f) is Tuple,
        field_pattern(f)->Tuple_0.len() == f.1->MessageValue_0.0.len(),
        field_pattern(f) == message_pattern(f.1->MessageValue_0),
        field_expr(f, source, next) == ExprModel::Block(
            next,
            Box::new(ExprModel::Extract(Box::new(source), f.0@)),
            Box::new(message_expr(f.1->MessageValue_0, ExprModel::Temp(next), next + 1)),
        ),
        field_temps(f) == 1 + message_temps(f.1->MessageValue_0),
{
}

/// Fresh-name uniqueness among siblings: two different fields of one message
/// that both hold a nested message bind different intermediate variables.
pub proof fn lemma_siblings_distinct(m: Message, source: ExprModel, next: nat, i: int, j: int)
    requires
        0 <= i < j < m.0.len(),
        m.0[i].1 is MessageValue,
        m.0[j].1 is MessageValue,
    ensures
        message_expr(m, source, next)->Tuple_0[i] is Block,
        message_expr(m, source, next)->Tuple_0[j] is Block,
        message_expr(m, source, next)->Tuple_0[i]->Block_0 < message_expr(
            m,
            source,
            next,
        )->Tuple_0[j]->Block_0,
{
    lemma_prefix_temps_monotone(m, i + 1, j);
    assert(prefix_temps(m, i + 1) == prefix_temps(m, i) + field_temps(m.0[i]));
    assert(field_temps(m.0[i]) >= 1);
}

/// The intermediate variables that an expression binds, in the order in
/// which its scoped sequences open.
pub open spec fn binders(e: ExprModel) -> Seq<nat>
    decreases e, 0int,
{
    match e {
        ExprModel::Host(_) => Seq::empty(),
        ExprModel::Temp(_) => Seq::empty(),
        ExprModel::Extract(from, _) => binders(*from),
        ExprModel::Tuple(slots) => slot_binders(slots, slots.len() as int),
        ExprModel::Block(temp, init, body) => seq![temp] + binders(*init) + binders(*body),
    }
}

/// The intermediate variables that the first `k` of the slots bind.
pub open spec fn slot_binders(slots: Seq<ExprModel>, k: int) -> Seq<nat>
    decreases slots, k,
{
    if k <= 0 || k > slots.len() {
        Seq::empty()
    } else {
        slot_binders(slots, k - 1) + binders(slots[k - 1])
    }
}

/// The numbers from `first` on, `count` of them.
pub open spec fn run(first: nat, count: nat) -> Seq<nat> {
    Seq::new(count, |k: int| (first + k) as nat)
}

/// Over a source that binds nothing, a supported field's expression binds
/// the unused variables from `next` on, each once, as many as the field
/// takes.
pub proof fn lemma_field_binders(f: Field, source: ExprModel, next: nat)
    requires
        field_supported(f),
        binders(source).len() == 0,
    ensures
        binders(field_expr(f, source, next)) == run(next, field_temps(f)),
    decreases f, 0nat, 0int,
{
    match f.1 {
        Value::MessageValue(m) => {
            lemma_fresh_names_unique(m, ExprModel::Temp(next), next + 1);
            let init = ExprModel::Extract(Box::new(source), f.0@);
            let body = message_expr(m, ExprModel::Temp(next), next + 1);
            assert(binders(init) =~= Seq::empty());
            assert(seq![next] + binders(init) + binders(body) =~= run(next, field_temps(f)));
        },
        _ => {
            assert(binders(field_expr(f, source, next)) =~= run(next, 0));
        },
    }
}

/// Over a source that binds nothing, the first `k` slots of a supported
/// message's expression bind the unused variables from `next` on, each once,
/// as many as the first `k` fields take.
pub proof fn lemma_prefix_binders(m: Message, source: ExprModel, next: nat, k: int)
    requires
        message_supported(m),
        binders(source).len() == 0,
        0 <= k <= m.0.len(),
    ensures
        slot_binders(message_expr(m, source, next)->Tuple_0, k) == run(next, prefix_temps(m, k)),
    decreases m, 1nat, k,
{
    let slots = message_expr(m, source, next)->Tuple_0;
    if k > 0 {
        lemma_prefix_binders(m, source, next, k - 1);
        lemma_field_binders(m.0[k - 1], source, next + prefix_temps(m, k - 1));
        assert(slot_binders(slots, k - 1) + binders(slots[k - 1]) =~= run(
            next,
            prefix_temps(m, k),
        ));
    } else {
        assert(slot_binders(slots, k) =~= run(next, 0));
    }
}

/// Fresh-name uniqueness: over a source that binds nothing, a supported
/// message's expression binds exactly the unused variables from `next` on,
/// each once; so no two of its scoped sequences, siblings or not, bind the
/// same variable, and none binds one that was handed out before.
pub proof fn lemma_fresh_names_unique(m: Message, source: ExprModel, next: nat)
    requires
        message_supported(m),
        binders(source).len() == 0,
    ensures
        binders(message_expr(m, source, next)) == run(next, message_temps(m)),
        forall|a: int, b: int|
            0 <= a < b < message_temps(m) ==> binders(message_expr(m, source, next))[a] != binders(
                message_expr(m, source, next),
            )[b],
    decreases m, 2nat, 0int,
{
    lemma_prefix_binders(m, source, next, m.0.len() as int);
}

/// Uniqueness across compilations: two supported messages compiled from one
/// supply, the second at any state of the supply that the first has left
/// behind, bind no variable in common.
pub proof fn lemma_successive_disjoint(
    first: Message,
    second: Message,
    first_source: ExprModel,
    second_source: ExprModel,
    next: nat,
    later: nat,
)
    requires
        message_supported(first),
        message_supported(second),
        binders(first_source).len() == 0,
        binders(second_source).len() == 0,
        next + message_temps(first) <= later,
    ensures
        forall|a: int, b: int|
            0 <= a < message_temps(first) && 0 <= b < message_temps(second) ==> binders(
                message_expr(first, first_source, next),
            )[a] != binders(message_expr(second, second_source, later))[b],
{
    lemma_fresh_names_unique(first, first_source, next);
    lemma_fresh_names_unique(second, second_source, later);
}

/// The expression with every intermediate variable numbered `from` or
/// higher, bound or used, renumbered `by` higher.
pub open spec fn lifted(e: ExprModel, from: nat, by: nat) -> ExprModel
    decreases e,
{
    match e {
        ExprModel::Host(_) => e,
        ExprModel::Temp(n) => ExprModel::Temp(lifted_number(n, from, by)),
        ExprModel::Extract(source, key) => ExprModel::Extract(
            Box::new(lifted(*source, from, by)),
            key,
        ),
        ExprModel::Tuple(slots) => ExprModel::Tuple(
            Seq::new(
                slots.len(),
                |i: int|
                    if 0 <= i < slots.len() {
                        lifted(slots[i], from, by)
                    } else {
                        ExprModel::Tuple(Seq::empty())
                    },
            ),
        ),
        ExprModel::Block(temp, init, body) => ExprModel::Block(
            lifted_number(temp, from, by),
            Box::new(lifted(*init, from, by)),
            Box::new(lifted(*body, from, by)),
        ),
    }
}

/// The number of an intermediate variable after renumbering.
pub open spec fn lifted_number(n: nat, from: nat, by: nat) -> nat {
    if n >= from {
        n + by
    } else {
        n
    }
}

/// A field compiled from a later state of the supply gives the same
/// expression but for the numbers of its intermediate variables.
pub proof fn lemma_field_lifted(f: Field, source: ExprModel, next: nat, from: nat, by: nat)
    requires
        from <= next,
    ensures
        field_expr(f, lifted(source, from, by), next + by) == lifted(
            field_expr(f, source, next),
            from,
            by,
        ),
    decreases f, 0nat,
{
    match f.1 {
        Value::MessageValue(m) => {
            lemma_message_lifted(m, ExprModel::Temp(next), next + 1, from, by);
            assert(lifted(ExprModel::Temp(next), from, by) == ExprModel::Temp(next + by));
            assert(lifted(ExprModel::Extract(Box::new(source), f.0@), from, by)
                == ExprModel::Extract(Box::new(lifted(source, from, by)), f.0@));
        },
        Value::SingleValue(_) => {},
        Value::RepeatedValue(_) => {
            assert(lifted(field_expr(f, source, next), from, by)->Tuple_0 =~= Seq::empty());
        },
    }
}

/// Determinism: the pattern of a message depends on the message alone, and
/// its expression on the message, the source and the state of the supply. A
/// message compiled from a later state of the supply gives the same
/// expression but for the numbers of its intermediate variables, which are
/// higher by the distance between the two states.
pub proof fn lemma_message_lifted(m: Message, source: ExprModel, next: nat, from: nat, by: nat)
    requires
        from <= next,
    ensures
        message_expr(m, lifted(source, from, by), next + by) == lifted(
            message_expr(m, source, next),
            from,
            by,
        ),
    decreases m, 1nat,
{
    let early = message_expr(m, source, next)->Tuple_0;
    let late = message_expr(m, lifted(source, from, by), next + by)->Tuple_0;
    assert forall|i: int| 0 <= i < m.0.len() implies #[trigger] late[i] == lifted(
        early[i],
        from,
        by,
    ) by {
        lemma_field_lifted(m.0[i], source, next + prefix_temps(m, i), from, by);
    }
    assert(late =~= lifted(message_expr(m, source, next), from, by)->Tuple_0);
}

/// Degenerate input: a message without fields is supported, takes no
/// intermediate variable, and compiles to the empty tuple pattern and the
/// empty tuple expression.
pub proof fn lemma_empty(m: Message, source: ExprModel, next: nat)
    requires
        m.0.len() == 0,
    ensures
        message_supported(m),
        message_temps(m) == 0,
        message_pattern(m) == PatternModel::Tuple(Seq::empty()),
        message_expr(m, source, next) == ExprModel::Tuple(Seq::empty()),
{
    assert(message_pattern(m)->Tuple_0 =~= Seq::empty());
    assert(message_expr(m, source, next)->Tuple_0 =~= Seq::empty());
}

/// Rejection of repeated fields: a message with a repeated field among its
/// own fields, or in a nested message among them, is not supported.
pub proof fn lemma_repeated_unsupported(m: Message, i: int)
    requires
        0 <= i < m.0.len(),
        m.0[i].1 is RepeatedValue || (m.0[i].1 is MessageValue && !message_supported(
            m.0[i].1->MessageValue_0,
        )),
    ensures
        !message_supported(m),
{
    assert(!field_supported(m.0[i]));
}

} // verus!
