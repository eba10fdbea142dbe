//! Type-erased property boxes: a value of a kind fixed at creation, held
//! behind a uniform handle and retrievable exactly once, by exact kind only.

use vstd::prelude::*;

verus! {

/// The type identity a property box carries: which shape of value it holds.
#[derive(Clone, Copy, Debug, PartialEq, Eq, Structural)]
pub enum PropKind {
    IntKind,
    TextKind,
    FlagKind,
    ListKind,
}

/// A property value of one of the supported shapes.
#[derive(Debug, PartialEq)]
pub enum PropValue {
    IntProp(i64),
    TextProp(String),
    FlagProp(bool),
    /// Several properties in order, as a child with more than one
    /// construction-time property receives them.
    ListProp(Vec<PropValue>),
}

impl PropValue {
    /// The kind of this value.
    pub open spec fn kind(self) -> PropKind {
        match self {
            PropValue::IntProp(_) => PropKind::IntKind,
            PropValue::TextProp(_) => PropKind::TextKind,
            PropValue::FlagProp(_) => PropKind::FlagKind,
            PropValue::ListProp(_) => PropKind::ListKind,
        }
    }

    /// Computes the kind tag of this value.
    pub fn kind_of(&self) -> (k: PropKind)
        ensures
            k == self.kind(),
    {
        match self {
            PropValue::IntProp(_) => PropKind::IntKind,
            PropValue::TextProp(_) => PropKind::TextKind,
            PropValue::FlagProp(_) => PropKind::FlagKind,
            PropValue::ListProp(_) => PropKind::ListKind,
        }
    }
}

/// The faults an unwrap reports. Both mark contract violations by the
/// surrounding system, not ordinary runtime conditions: a box may be
/// unwrapped once only, and only under its own kind.
#[derive(Clone, Copy, Debug, PartialEq, Eq, Structural)]
pub enum PropsFault {
    /// The box was unwrapped more than once; `stored` is its kind tag.
    DoubleConsume { stored: PropKind },
    /// The box was unwrapped under the wrong kind.
    TypeMismatch { stored: PropKind, requested: PropKind },
}

/// A type-erased property container: holds one value whose kind is recorded
/// at creation, gives the value up at most once, and only to a caller that
/// asserts the exact original kind.
pub struct AnyProps {
    consumed: bool,
    type_id: PropKind,
    value: Option<PropValue>,
}

/// The box that `AnyProps::new` returns for a given value.
pub closed spec fn boxed_props(v: PropValue) -> AnyProps {
    AnyProps { consumed: false, type_id: v.kind(), value: Some(v) }
}

/// What `AnyProps::unwrap` returns when asked for `expected` on a box in
/// state `b`: the value on a first unwrap under the stored kind, and a
/// fault otherwise.
pub closed spec fn unwrap_outcome(b: AnyProps, expected: PropKind) -> Result<PropValue, PropsFault> {
    if b.consumed {
        Err(PropsFault::DoubleConsume { stored: b.type_id })
    } else if expected != b.type_id {
        Err(PropsFault::TypeMismatch { stored: b.type_id, requested: expected })
    } else {
        Ok(b.value.unwrap())
    }
}

impl AnyProps {
    /// A box that has not been consumed still holds a value of its tagged kind.
    #[verifier::type_invariant]
    spec fn inv(self) -> bool {
        !self.consumed ==> (self.value matches Some(v) && v.kind() == self.type_id)
    }

    /// Whether an unwrap has already been attempted on this box.
    pub closed spec fn is_consumed(self) -> bool {
        self.consumed
    }

    /// The kind tag recorded at creation.
    pub closed spec fn stored_kind(self) -> PropKind {
        self.type_id
    }

    /// The value still held, if any.
    pub closed spec fn stored_value(self) -> Option<PropValue> {
        self.value
    }

    /// Boxes a value, recording its kind as the box's type identity.
    /// Always succeeds; the box takes exclusive ownership of the value.
    pub fn new(props: PropValue) -> (b: AnyProps)
        ensures
            b == boxed_props(props),
            !b.is_consumed(),
            b.stored_kind() == props.kind(),
            b.stored_value() == Some(props),
    {
        let type_id = props.kind_of();
        AnyProps { consumed: false, type_id, value: Some(props) }
    }

    /// Takes the boxed value out, checking that the box is still unconsumed
    /// and that `expected` is the stored kind. Any attempt, successful or
    /// not, consumes the box; the faults say exactly which check failed.
    pub fn unwrap(&mut self, expected: PropKind) -> (r: Result<PropValue, PropsFault>)
        ensures
            r == unwrap_outcome(*old(self), expected),
            final(self).is_consumed(),
            final(self).stored_kind() == old(self).stored_kind(),
            old(self).is_consumed() ==> r == Err::<PropValue, PropsFault>(
                PropsFault::DoubleConsume { stored: old(self).stored_kind() },
            ),
            !old(self).is_consumed() && expected == old(self).stored_kind() ==> r == Ok::<
                PropValue,
                PropsFault,
            >(old(self).stored_value().unwrap()),
            !old(self).is_consumed() && expected != old(self).stored_kind() ==> r == Err::<
                PropValue,
                PropsFault,
            >(PropsFault::TypeMismatch { stored: old(self).stored_kind(), requested: expected }),
    {
        proof {
            use_type_invariant(&*self);
        }
        if self.consumed {
            return Err(PropsFault::DoubleConsume { stored: self.type_id });
        }
        let tag = self.type_id;
        let mut taken = AnyProps { consumed: true, type_id: tag, value: None };
        core::mem::swap(self, &mut taken);
        match taken.value {
            Some(v) => {
                if expected == tag {
                    Ok(v)
                } else {
                    Err(PropsFault::TypeMismatch { stored: tag, requested: expected })
                }
            },
            None => {
                // unreachable: a live box always holds its value
                proof {
                    assert(false);
                }
                Err(PropsFault::DoubleConsume { stored: tag })
            },
        }
    }
}

/// Law: boxing a value and unwrapping it under its own kind gives the very
/// value back.
pub proof fn lemma_unwrap_roundtrip(v: PropValue)
    ensures
        unwrap_outcome(boxed_props(v), v.kind()) == Ok::<PropValue, PropsFault>(v),
{
}

/// Law: unwrapping a box that is already consumed faults, whatever kind is
/// requested; together with `AnyProps::unwrap` leaving every box consumed,
/// a second unwrap attempt always faults.
pub proof fn lemma_consumed_unwrap_faults(b: AnyProps, expected: PropKind)
    requires
        b.is_consumed(),
    ensures
        unwrap_outcome(b, expected) == Err::<PropValue, PropsFault>(
            PropsFault::DoubleConsume { stored: b.stored_kind() },
        ),
{
}

/// Law: a first unwrap under a kind other than the stored one faults,
/// reporting both the stored and the requested kind.
pub proof fn lemma_mismatched_unwrap_faults(v: PropValue, expected: PropKind)
    requires
        expected != v.kind(),
    ensures
        unwrap_outcome(boxed_props(v), expected) == Err::<PropValue, PropsFault>(
            PropsFault::TypeMismatch { stored: v.kind(), requested: expected },
        ),
{
}

} // verus!
