use core::marker::PhantomData;
use vstd::prelude::*;

pub mod in_range;
pub mod is_finite;
pub mod variadic;

verus! {

/// A check on values of type `T`.
///
/// `spec_check` says which values pass and, for the others, the message
/// the check fails with; `validate` computes it.
pub trait ValueValidator<T> {
    /// The outcome of checking `value`: `Ok` when it passes, or the error message.
    spec fn spec_check(value: T) -> Result<(), Seq<char>>;

    /// The name of the check, as shown when debugging.
    spec fn spec_debug() -> Seq<char>;

    /// The name of the check, as used in the schema of a validated type.
    spec fn spec_schema_name() -> Seq<char>;

    /// Validates the value and returns an error message if it's invalid
    fn validate(value: &T) -> (r: Result<(), String>)
        ensures
            match r {
                Ok(_) => Self::spec_check(*value) is Ok,
                Err(e) => Self::spec_check(*value) == Err::<(), Seq<char>>(e@),
            },
    ;

    /// Returns a debug string for the validator, used in the `Debug`
    /// implementation of `Validated`
    fn debug() -> (r: String)
        ensures
            r@ == Self::spec_debug(),
    ;

    /// Returns a name for the schema of the validated type, used in the
    /// `JsonSchema` implementation of `Validated`
    fn schema_name() -> (r: String)
        ensures
            r@ == Self::spec_schema_name(),
    ;
}

/// A value that passed the check `V`.
pub struct Validated<T, V: ValueValidator<T>> {
    value: T,
    validator: PhantomData<V>,
}

impl<T, V: ValueValidator<T>> Validated<T, V> {
    #[verifier::type_invariant]
    spec fn inv(self) -> bool {
        V::spec_check(self.value) is Ok
    }

    /// The value held.
    pub closed spec fn spec_value(self) -> T {
        self.value
    }

    /// Wraps `value` when it passes the check, and returns the check's
    /// message otherwise.
    pub fn new(value: T) -> (r: Result<Self, String>)
        ensures
            match r {
                Ok(v) => V::spec_check(value) is Ok && v.spec_value() == value,
                Err(e) => V::spec_check(value) == Err::<(), Seq<char>>(e@),
            },
    {
        match V::validate(&value) {
            Ok(()) => Ok(Validated { value, validator: PhantomData }),
            Err(e) => Err(e),
        }
    }

    /// The value held, which passes the check.
    pub fn value(&self) -> (r: &T)
        ensures
            *r == self.spec_value(),
            V::spec_check(*r) is Ok,
    {
        proof {
            use_type_invariant(self);
        }
        &self.value
    }
}

impl<T: Copy, V: ValueValidator<T>> Clone for Validated<T, V> {
    fn clone(&self) -> (r: Self)
        ensures
            r.spec_value() == self.spec_value(),
    {
        proof {
            use_type_invariant(self);
        }
        Validated { value: self.value, validator: PhantomData }
    }
}

impl<T: Copy, V: ValueValidator<T>> Copy for Validated<T, V> {}

impl<T, V: ValueValidator<T>> core::ops::Deref for Validated<T, V> {
    type Target = T;

    fn deref(&self) -> (r: &T)
        ensures
            *r == self.spec_value(),
    {
        &self.value
    }
}

} // verus!
