//! The driver: from what the front end parsed to one binding statement.

use vstd::prelude::*;
use crate::emit::{emit_message, message_expr, message_pattern};
use crate::names::NameSupply;
use crate::message::{message_supported, message_temps, Message};
use crate::tree::{Expr, Pattern};

verus! {

/// The statement `let pattern = value;`.
#[derive(Debug, PartialEq, Eq)]
pub struct Binding {
    pub pattern: Pattern,
    pub value: Expr,
}

/// Why no binding statement was produced.
#[derive(Clone, Copy, Debug, PartialEq, Eq)]
pub enum Failure {
    /// The front end could not parse the field description.
    Parse,
    /// The description holds a repeated field, which is a misuse of the
    /// compiler and not a condition to recover from.
    RepeatedField,
    /// The supply cannot number all the intermediate variables that the
    /// description takes.
    NamesExhausted,
}

/// The failure that stops the driver on a parsed message, if any. A repeated
/// field is reported before a short supply.
pub open spec fn refusal(msg: Message, next: nat) -> Option<Failure> {
    if !message_supported(msg) {
        Some(Failure::RepeatedField)
    } else if next + message_temps(msg) > u64::MAX {
        Some(Failure::NamesExhausted)
    } else {
        None
    }
}

/// Produces the binding statement for what the front end handed over: the
/// expression of the message and the field description, or nothing where it
/// failed to parse. On a failure no statement is produced and the supply is
/// left as it was.
pub fn macro_protobuf_bind(parsed: Option<(Expr, Message)>, names: &mut NameSupply) -> (r: Result<
    Binding,
    Failure,
>)
    ensures
        parsed.is_none() ==> r == Err::<Binding, Failure>(Failure::Parse),
        parsed.is_some() && refusal(parsed.unwrap().1, old(names).next()).is_some() ==> r
            == Err::<Binding, Failure>(refusal(parsed.unwrap().1, old(names).next()).unwrap()),
        parsed.is_some() && refusal(parsed.unwrap().1, old(names).next()).is_none() ==> {
            &&& r.is_ok()
            &&& r.unwrap().pattern@ == message_pattern(parsed.unwrap().1)
            &&& r.unwrap().value@ == message_expr(
                parsed.unwrap().1,
                parsed.unwrap().0@,
                old(names).next(),
            )
        },
        r.is_ok() ==> final(names).next() == old(names).next() + message_temps(parsed.unwrap().1),
        r.is_err() ==> final(names).next() == old(names).next(),
{
    match parsed {
        None => Err(Failure::Parse),
        Some((expr, msg)) => {
            if !msg.is_supported() {
                return Err(Failure::RepeatedField);
            }
            let fits = match msg.intermediates() {
                Some(n) => names.can_supply(n),
                None => false,
            };
            if !fits {
                return Err(Failure::NamesExhausted);
            }
            let (pattern, value) = emit_message(&msg, &expr, names);
            Ok(Binding { pattern, value })
        },
    }
}

} // verus!
