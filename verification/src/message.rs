//! The field description that the compiler consumes.

use vstd::prelude::*;

verus! {

/// An ordered list of fields to pull out of one message value.
#[derive(Debug, PartialEq, Eq)]
pub struct Message(pub Vec<Field>);

/// One entry of a `Message`: the key of the member to extract, and how to
/// bind what was extracted.
#[derive(Debug, PartialEq, Eq)]
pub struct Field(pub String, pub Value);

/// How an extracted field is bound.
#[derive(Debug, PartialEq, Eq)]
pub enum Value {
    /// Bind the field to the variable of this name.
    SingleValue(String),
    /// The field is a message of its own, taken apart by the nested
    /// description.
    MessageValue(Message),
    /// A repeated field. The compiler does not support it.
    RepeatedValue(Vec<Message>),
}

/// No repeated field occurs in the value or below it.
pub open spec fn value_supported(v: Value) -> bool
    decreases v,
{
    match v {
        Value::SingleValue(_) => true,
        Value::MessageValue(m) => message_supported(m),
        Value::RepeatedValue(_) => false,
    }
}

/// No repeated field occurs in the field or below it.
pub open spec fn field_supported(f: Field) -> bool
    decreases f,
{
    value_supported(f.1)
}

/// No repeated field occurs anywhere in the message's tree.
pub open spec fn message_supported(m: Message) -> bool
    decreases m,
{
    forall|i: int| 0 <= i < m.0.len() ==> field_supported(#[trigger] m.0[i])
}

/// The number of intermediate variables that compiling the field takes: one
/// for each nested message in it, at any depth.
pub open spec fn field_temps(f: Field) -> nat
    decreases f, 0nat, 0nat,
{
    match f.1 {
        Value::MessageValue(m) => 1 + message_temps(m),
        _ => 0,
    }
}

/// The number of intermediate variables that the first `k` fields of the
/// message take together.
pub open spec fn prefix_temps(m: Message, k: int) -> nat
    decreases m, 1nat, k,
{
    if k <= 0 || k > m.0.len() {
        0
    } else {
        prefix_temps(m, k - 1) + field_temps(m.0[k - 1])
    }
}

/// The number of intermediate variables that compiling the message takes.
pub open spec fn message_temps(m: Message) -> nat
    decreases m, 2nat, 0nat,
{
    prefix_temps(m, m.0.len() as int)
}

/// A longer prefix of a message takes at least as many intermediate
/// variables as a shorter one.
pub proof fn lemma_prefix_temps_monotone(m: Message, a: int, b: int)
    requires
        0 <= a <= b <= m.0.len(),
    ensures
        prefix_temps(m, a) <= prefix_temps(m, b),
    decreases b - a,
{
    if a < b {
        lemma_prefix_temps_monotone(m, a, b - 1);
    }
}

impl Field {
    /// Whether the compiler can take the field: no repeated field in it.
    pub fn is_supported(&self) -> (r: bool)
        ensures
            r == field_supported(*self),
        decreases *self, 0nat,
    {
        match &self.1 {
            Value::SingleValue(_) => true,
            Value::MessageValue(m) => m.is_supported(),
            Value::RepeatedValue(_) => false,
        }
    }

    /// The number of intermediate variables that the field takes, where a
    /// `u64` holds it.
    pub fn intermediates(&self) -> (r: Option<u64>)
        ensures
            field_temps(*self) <= u64::MAX ==> r == Some(field_temps(*self) as u64),
            field_temps(*self) > u64::MAX ==> r.is_none(),
        decreases *self, 0nat,
    {
        match &self.1 {
            Value::MessageValue(m) => match m.intermediates() {
                Some(n) => n.checked_add(1),
                None => None,
            },
            _ => Some(0),
        }
    }
}

impl Message {
    /// Whether the compiler can take the message: no repeated field anywhere
    /// in its tree.
    pub fn is_supported(&self) -> (r: bool)
        ensures
            r == message_supported(*self),
        decreases *self, 1nat,
    {
        let mut i: usize = 0;
        while i < self.0.len()
            invariant
                i <= self.0.len(),
                forall|j: int| 0 <= j < i ==> field_supported(#[trigger] self.0[j]),
            decreases self.0.len() - i,
        {
            proof {
                assert(decreases_to!(*self => self.0));
                assert(decreases_to!(self.0 => self.0[i as int]));
            }
            if !self.0[i].is_supported() {
                return false;
            }
            i += 1;
        }
        true
    }

    /// The number of intermediate variables that the message takes, where a
    /// `u64` holds it.
    pub fn intermediates(&self) -> (r: Option<u64>)
        ensures
            message_temps(*self) <= u64::MAX ==> r == Some(message_temps(*self) as u64),
            message_temps(*self) > u64::MAX ==> r.is_none(),
        decreases *self, 1nat,
    {
        let mut total: u64 = 0;
        let mut i: usize = 0;
        while i < self.0.len()
            invariant
                i <= self.0.len(),
                total == prefix_temps(*self, i as int),
            decreases self.0.len() - i,
        {
            proof {
                lemma_prefix_temps_monotone(*self, i + 1, self.0.len() as int);
                assert(decreases_to!(*self => self.0));
                assert(decreases_to!(self.0 => self.0[i as int]));
            }
            let sum = match self.0[i].intermediates() {
                Some(n) => total.checked_add(n),
                None => None,
            };
            match sum {
                Some(t) => {
                    total = t;
                },
                None => {
                    return None;
                },
            }
            i += 1;
        }
        Some(total)
    }
}

} // verus!
