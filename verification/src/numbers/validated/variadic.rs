use crate::numbers::validated::ValueValidator;
use vstd::prelude::*;
use vstd::string::StringExecFns;

verus! {

/// The check that accepts every value.
impl<T> ValueValidator<T> for () {
    open spec fn spec_check(value: T) -> Result<(), Seq<char>> {
        Ok(())
    }

    open spec fn spec_debug() -> Seq<char> {
        "()"@
    }

    open spec fn spec_schema_name() -> Seq<char> {
        "()"@
    }

    fn validate(_value: &T) -> (r: Result<(), String>) {
        Ok(())
    }

    fn debug() -> (r: String) {
        String::from_str("()")
    }

    fn schema_name() -> (r: String) {
        String::from_str("()")
    }
}

/// The check made of the checks of the tuple, applied in order; the first
/// failure is reported.
impl<T, A: ValueValidator<T>> ValueValidator<T> for (A,) {
    open spec fn spec_check(value: T) -> Result<(), Seq<char>> {
        match A::spec_check(value) { Ok(_) => Ok(()), Err(e) => Err(e) }
    }

    open spec fn spec_debug() -> Seq<char> {
        "("@ + A::spec_debug() + ")"@
    }

    open spec fn spec_schema_name() -> Seq<char> {
        "("@ + A::spec_schema_name() + ")"@
    }

    fn validate(value: &T) -> (r: Result<(), String>) {
        A::validate(value)?;
        Ok(())
    }

    fn debug() -> (r: String) {
        let mut s = String::from_str("(");
        let part = A::debug();
        s.append(part.as_str());
        s.append(")");
        s
    }

    fn schema_name() -> (r: String) {
        let mut s = String::from_str("(");
        let part = A::schema_name();
        s.append(part.as_str());
        s.append(")");
        s
    }
}

/// The check made of the checks of the tuple, applied in order; the first
/// failure is reported.
impl<T, A: ValueValidator<T>, B: ValueValidator<T>> ValueValidator<T> for (A, B,) {
    open spec fn spec_check(value: T) -> Result<(), Seq<char>> {
        match A::spec_check(value) { Ok(_) => match B::spec_check(value) { Ok(_) => Ok(()), Err(e) => Err(e) }, Err(e) => Err(e) }
    }

    open spec fn spec_debug() -> Seq<char> {
        "("@ + A::spec_debug() + ", "@ + B::spec_debug() + ")"@
    }

    open spec fn spec_schema_name() -> Seq<char> {
        "("@ + A::spec_schema_name() + ", "@ + B::spec_schema_name() + ")"@
    }

    fn validate(value: &T) -> (r: Result<(), String>) {
        A::validate(value)?;
        B::validate(value)?;
        Ok(())
    }

    fn debug() -> (r: String) {
        let mut s = String::from_str("(");
        let part = A::debug();
        s.append(part.as_str());
        s.append(", ");
        let part = B::debug();
        s.append(part.as_str());
        s.append(")");
        s
    }

    fn schema_name() -> (r: String) {
        let mut s = String::from_str("(");
        let part = A::schema_name();
        s.append(part.as_str());
        s.append(", ");
        let part = B::schema_name();
        s.append(part.as_str());
        s.append(")");
        s
    }
}

/// The check made of the checks of the tuple, applied in order; the first
/// failure is reported.
impl<T, A: ValueValidator<T>, B: ValueValidator<T>, C: ValueValidator<T>> ValueValidator<T> for (A, B, C,) {
    open spec fn spec_check(value: T) -> Result<(), Seq<char>> {
        match A::spec_check(value) { Ok(_) => match B::spec_check(value) { Ok(_) => match C::spec_check(value) { Ok(_) => Ok(()), Err(e) => Err(e) }, Err(e) => Err(e) }, Err(e) => Err(e) }
    }

    open spec fn spec_debug() -> Seq<char> {
        "("@ + A::spec_debug() + ", "@ + B::spec_debug() + ", "@ + C::spec_debug() + ")"@
    }

    open spec fn spec_schema_name() -> Seq<char> {
        "("@ + A::spec_schema_name() + ", "@ + B::spec_schema_name() + ", "@ + C::spec_schema_name() + ")"@
    }

    fn validate(value: &T) -> (r: Result<(), String>) {
        A::validate(value)?;
        B::validate(value)?;
        C::validate(value)?;
        Ok(())
    }

    fn debug() -> (r: String) {
        let mut s = String::from_str("(");
        let part = A::debug();
        s.append(part.as_str());
        s.append(", ");
        let part = B::debug();
        s.append(part.as_str());
        s.append(", ");
        let part = C::debug();
        s.append(part.as_str());
        s.append(")");
        s
    }

    fn schema_name() -> (r: String) {
        let mut s = String::from_str("(");
        let part = A::schema_name();
        s.append(part.as_str());
        s.append(", ");
        let part = B::schema_name();
        s.append(part.as_str());
        s.append(", ");
        let part = C::schema_name();
        s.append(part.as_str());
        s.append(")");
        s
    }
}

/// The check made of the checks of the tuple, applied in order; the first
/// failure is reported.
impl<T, A: ValueValidator<T>, B: ValueValidator<T>, C: ValueValidator<T>, D: ValueValidator<T>> ValueValidator<T> for (A, B, C, D,) {
    open spec fn spec_check(value: T) -> Result<(), Seq<char>> {
        match A::spec_check(value) { Ok(_) => match B::spec_check(value) { Ok(_) => match C::spec_check(value) { Ok(_) => match D::spec_check(value) { Ok(_) => Ok(()), Err(e) => Err(e) }, Err(e) => Err(e) }, Err(e) => Err(e) }, Err(e) => Err(e) }
    }

    open spec fn spec_debug() -> Seq<char> {
        "("@ + A::spec_debug() + ", "@ + B::spec_debug() + ", "@ + C::spec_debug() + ", "@ + D::spec_debug() + ")"@
    }

    open spec fn spec_schema_name() -> Seq<char> {
        "("@ + A::spec_schema_name() + ", "@ + B::spec_schema_name() + ", "@ + C::spec_schema_name() + ", "@ + D::spec_schema_name() + ")"@
    }

    fn validate(value: &T) -> (r: Result<(), String>) {
        A::validate(value)?;
        B::validate(value)?;
        C::validate(value)?;
        D::validate(value)?;
        Ok(())
    }

    fn debug() -> (r: String) {
        let mut s = String::from_str("(");
        let part = A::debug();
        s.append(part.as_str());
        s.append(", ");
        let part = B::debug();
        s.append(part.as_str());
        s.append(", ");
        let part = C::debug();
        s.append(part.as_str());
        s.append(", ");
        let part = D::debug();
        s.append(part.as_str());
        s.append(")");
        s
    }

    fn schema_name() -> (r: String) {
        let mut s = String::from_str("(");
        let part = A::schema_name();
        s.append(part.as_str());
        s.append(", ");
        let part = B::schema_name();
        s.append(part.as_str());
        s.append(", ");
        let part = C::schema_name();
        s.append(part.as_str());
        s.append(", ");
        let part = D::schema_name();
        s.append(part.as_str());
        s.append(")");
        s
    }
}

/// The check made of the checks of the tuple, applied in order; the first
/// failure is reported.
impl<T, A: ValueValidator<T>, B: ValueValidator<T>, C: ValueValidator<T>, D: ValueValidator<T>, E: ValueValidator<T>> ValueValidator<T> for (A, B, C, D, E,) {
    open spec fn spec_check(value: T) -> Result<(), Seq<char>> {
        match A::spec_check(value) { Ok(_) => match B::spec_check(value) { Ok(_) => match C::spec_check(value) { Ok(_) => match D::spec_check(value) { Ok(_) => match E::spec_check(value) { Ok(_) => Ok(()), Err(e) => Err(e) }, Err(e) => Err(e) }, Err(e) => Err(e) }, Err(e) => Err(e) }, Err(e) => Err(e) }
    }

    open spec fn spec_debug() -> Seq<char> {
        "("@ + A::spec_debug() + ", "@ + B::spec_debug() + ", "@ + C::spec_debug() + ", "@ + D::spec_debug() + ", "@ + E::spec_debug() + ")"@
    }

    open spec fn spec_schema_name() -> Seq<char> {
        "("@ + A::spec_schema_name() + ", "@ + B::spec_schema_name() + ", "@ + C::spec_schema_name() + ", "@ + D::spec_schema_name() + ", "@ + E::spec_schema_name() + ")"@
    }

    fn validate(value: &T) -> (r: Result<(), String>) {
        A::validate(value)?;
        B::validate(value)?;
        C::validate(value)?;
        D::validate(value)?;
        E::validate(value)?;
        Ok(())
    }

    fn debug() -> (r: String) {
        let mut s = String::from_str("(");
        let part = A::debug();
        s.append(part.as_str());
        s.append(", ");
        let part = B::debug();
        s.append(part.as_str());
        s.append(", ");
        let part = C::debug();
        s.append(part.as_str());
        s.append(", ");
        let part = D::debug();
        s.append(part.as_str());
        s.append(", ");
        let part = E::debug();
        s.append(part.as_str());
        s.append(")");
        s
    }

    fn schema_name() -> (r: String) {
        let mut s = String::from_str("(");
        let part = A::schema_name();
        s.append(part.as_str());
        s.append(", ");
        let part = B::schema_name();
        s.append(part.as_str());
        s.append(", ");
        let part = C::schema_name();
        s.append(part.as_str());
        s.append(", ");
        let part = D::schema_name();
        s.append(part.as_str());
        s.append(", ");
        let part = E::schema_name();
        s.append(part.as_str());
        s.append(")");
        s
    }
}

/// The check made of the checks of the tuple, applied in order; the first
/// failure is reported.
impl<T, A: ValueValidator<T>, B: ValueValidator<T>, C: ValueValidator<T>, D: ValueValidator<T>, E: ValueValidator<T>, F: ValueValidator<T>> ValueValidator<T> for (A, B, C, D, E, F,) {
    open spec fn spec_check(value: T) -> Result<(), Seq<char>> {
        match A::spec_check(value) { Ok(_) => match B::spec_check(value) { Ok(_) => match C::spec_check(value) { Ok(_) => match D::spec_check(value) { Ok(_) => match E::spec_check(value) { Ok(_) => match F::spec_check(value) { Ok(_) => Ok(()), Err(e) => Err(e) }, Err(e) => Err(e) }, Err(e) => Err(e) }, Err(e) => Err(e) }, Err(e) => Err(e) }, Err(e) => Err(e) }
    }

    open spec fn spec_debug() -> Seq<char> {
        "("@ + A::spec_debug() + ", "@ + B::spec_debug() + ", "@ + C::spec_debug() + ", "@ + D::spec_debug() + ", "@ + E::spec_debug() + ", "@ + F::spec_debug() + ")"@
    }

    open spec fn spec_schema_name() -> Seq<char> {
        "("@ + A::spec_schema_name() + ", "@ + B::spec_schema_name() + ", "@ + C::spec_schema_name() + ", "@ + D::spec_schema_name() + ", "@ + E::spec_schema_name() + ", "@ + F::spec_schema_name() + ")"@
    }

    fn validate(value: &T) -> (r: Result<(), String>) {
        A::validate(value)?;
        B::validate(value)?;
        C::validate(value)?;
        D::validate(value)?;
        E::validate(value)?;
        F::validate(value)?;
        Ok(())
    }

    fn debug() -> (r: String) {
        let mut s = String::from_str("(");
        let part = A::debug();
        s.append(part.as_str());
        s.append(", ");
        let part = B::debug();
        s.append(part.as_str());
        s.append(", ");
        let part = C::debug();
        s.append(part.as_str());
        s.append(", ");
        let part = D::debug();
        s.append(part.as_str());
        s.append(", ");
        let part = E::debug();
        s.append(part.as_str());
        s.append(", ");
        let part = F::debug();
        s.append(part.as_str());
        s.append(")");
        s
    }

    fn schema_name() -> (r: String) {
        let mut s = String::from_str("(");
        let part = A::schema_name();
        s.append(part.as_str());
        s.append(", ");
        let part = B::schema_name();
        s.append(part.as_str());
        s.append(", ");
        let part = C::schema_name();
        s.append(part.as_str());
        s.append(", ");
        let part = D::schema_name();
        s.append(part.as_str());
        s.append(", ");
        let part = E::schema_name();
        s.append(part.as_str());
        s.append(", ");
        let part = F::schema_name();
        s.append(part.as_str());
        s.append(")");
        s
    }
}

/// The check made of the checks of the tuple, applied in order; the first
/// failure is reported.
impl<T, A: ValueValidator<T>, B: ValueValidator<T>, C: ValueValidator<T>, D: ValueValidator<T>, E: ValueValidator<T>, F: ValueValidator<T>, G: ValueValidator<T>> ValueValidator<T> for (A, B, C, D, E, F, G,) {
    open spec fn spec_check(value: T) -> Result<(), Seq<char>> {
        match A::spec_check(value) { Ok(_) => match B::spec_check(value) { Ok(_) => match C::spec_check(value) { Ok(_) => match D::spec_check(value) { Ok(_) => match E::spec_check(value) { Ok(_) => match F::spec_check(value) { Ok(_) => match G::spec_check(value) { Ok(_) => Ok(()), Err(e) => Err(e) }, Err(e) => Err(e) }, Err(e) => Err(e) }, Err(e) => Err(e) }, Err(e) => Err(e) }, Err(e) => Err(e) }, Err(e) => Err(e) }
    }

    open spec fn spec_debug() -> Seq<char> {
        "("@ + A::spec_debug() + ", "@ + B::spec_debug() + ", "@ + C::spec_debug() + ", "@ + D::spec_debug() + ", "@ + E::spec_debug() + ", "@ + F::spec_debug() + ", "@ + G::spec_debug() + ")"@
    }

    open spec fn spec_schema_name() -> Seq<char> {
        "("@ + A::spec_schema_name() + ", "@ + B::spec_schema_name() + ", "@ + C::spec_schema_name() + ", "@ + D::spec_schema_name() + ", "@ + E::spec_schema_name() + ", "@ + F::spec_schema_name() + ", "@ + G::spec_schema_name() + ")"@
    }

    fn validate(value: &T) -> (r: Result<(), String>) {
        A::validate(value)?;
        B::validate(value)?;
        C::validate(value)?;
        D::validate(value)?;
        E::validate(value)?;
        F::validate(value)?;
        G::validate(value)?;
        Ok(())
    }

    fn debug() -> (r: String) {
        let mut s = String::from_str("(");
        let part = A::debug();
        s.append(part.as_str());
        s.append(", ");
        let part = B::debug();
        s.append(part.as_str());
        s.append(", ");
        let part = C::debug();
        s.append(part.as_str());
        s.append(", ");
        let part = D::debug();
        s.append(part.as_str());
        s.append(", ");
        let part = E::debug();
        s.append(part.as_str());
        s.append(", ");
        let part = F::debug();
        s.append(part.as_str());
        s.append(", ");
        let part = G::debug();
        s.append(part.as_str());
        s.append(")");
        s
    }

    fn schema_name() -> (r: String) {
        let mut s = String::from_str("(");
        let part = A::schema_name();
        s.append(part.as_str());
        s.append(", ");
        let part = B::schema_name();
        s.append(part.as_str());
        s.append(", ");
        let part = C::schema_name();
        s.append(part.as_str());
        s.append(", ");
        let part = D::schema_name();
        s.append(part.as_str());
        s.append(", ");
        let part = E::schema_name();
        s.append(part.as_str());
        s.append(", ");
        let part = F::schema_name();
        s.append(part.as_str());
        s.append(", ");
        let part = G::schema_name();
        s.append(part.as_str());
        s.append(")");
        s
    }
}

/// The check made of the checks of the tuple, applied in order; the first
/// failure is reported.
impl<T, A: ValueValidator<T>, B: ValueValidator<T>, C: ValueValidator<T>, D: ValueValidator<T>, E: ValueValidator<T>, F: ValueValidator<T>, G: ValueValidator<T>, H: ValueValidator<T>> ValueValidator<T> for (A, B, C, D, E, F, G, H,) {
    open spec fn spec_check(value: T) -> Result<(), Seq<char>> {
        match A::spec_check(value) { Ok(_) => match B::spec_check(value) { Ok(_) => match C::spec_check(value) { Ok(_) => match D::spec_check(value) { Ok(_) => match E::spec_check(value) { Ok(_) => match F::spec_check(value) { Ok(_) => match G::spec_check(value) { Ok(_) => match H::spec_check(value) { Ok(_) => Ok(()), Err(e) => Err(e) }, Err(e) => Err(e) }, Err(e) => Err(e) }, Err(e) => Err(e) }, Err(e) => Err(e) }, Err(e) => Err(e) }, Err(e) => Err(e) }, Err(e) => Err(e) }
    }

    open spec fn spec_debug() -> Seq<char> {
        "("@ + A::spec_debug() + ", "@ + B::spec_debug() + ", "@ + C::spec_debug() + ", "@ + D::spec_debug() + ", "@ + E::spec_debug() + ", "@ + F::spec_debug() + ", "@ + G::spec_debug() + ", "@ + H::spec_debug() + ")"@
    }

    open spec fn spec_schema_name() -> Seq<char> {
        "("@ + A::spec_schema_name() + ", "@ + B::spec_schema_name() + ", "@ + C::spec_schema_name() + ", "@ + D::spec_schema_name() + ", "@ + E::spec_schema_name() + ", "@ + F::spec_schema_name() + ", "@ + G::spec_schema_name() + ", "@ + H::spec_schema_name() + ")"@
    }

    fn validate(value: &T) -> (r: Result<(), String>) {
        A::validate(value)?;
        B::validate(value)?;
        C::validate(value)?;
        D::validate(value)?;
        E::validate(value)?;
        F::validate(value)?;
        G::validate(value)?;
        H::validate(value)?;
        Ok(())
    }

    fn debug() -> (r: String) {
        let mut s = String::from_str("(");
        let part = A::debug();
        s.append(part.as_str());
        s.append(", ");
        let part = B::debug();
        s.append(part.as_str());
        s.append(", ");
        let part = C::debug();
        s.append(part.as_str());
        s.append(", ");
        let part = D::debug();
        s.append(part.as_str());
        s.append(", ");
        let part = E::debug();
        s.append(part.as_str());
        s.append(", ");
        let part = F::debug();
        s.append(part.as_str());
        s.append(", ");
        let part = G::debug();
        s.append(part.as_str());
        s.append(", ");
        let part = H::debug();
        s.append(part.as_str());
        s.append(")");
        s
    }

    fn schema_name() -> (r: String) {
        let mut s = String::from_str("(");
        let part = A::schema_name();
        s.append(part.as_str());
        s.append(", ");
        let part = B::schema_name();
        s.append(part.as_str());
        s.append(", ");
        let part = C::schema_name();
        s.append(part.as_str());
        s.append(", ");
        let part = D::schema_name();
        s.append(part.as_str());
        s.append(", ");
        let part = E::schema_name();
        s.append(part.as_str());
        s.append(", ");
        let part = F::schema_name();
        s.append(part.as_str());
        s.append(", ");
        let part = G::schema_name();
        s.append(part.as_str());
        s.append(", ");
        let part = H::schema_name();
        s.append(part.as_str());
        s.append(")");
        s
    }
}

/// The check made of the checks of the tuple, applied in order; the first
/// failure is reported.
impl<T, A: ValueValidator<T>, B: ValueValidator<T>, C: ValueValidator<T>, D: ValueValidator<T>, E: ValueValidator<T>, F: ValueValidator<T>, G: ValueValidator<T>, H: ValueValidator<T>, I: ValueValidator<T>> ValueValidator<T> for (A, B, C, D, E, F, G, H, I,) {
    open spec fn spec_check(value: T) -> Result<(), Seq<char>> {
        match A::spec_check(value) { Ok(_) => match B::spec_check(value) { Ok(_) => match C::spec_check(value) { Ok(_) => match D::spec_check(value) { Ok(_) => match E::spec_check(value) { Ok(_) => match F::spec_check(value) { Ok(_) => match G::spec_check(value) { Ok(_) => match H::spec_check(value) { Ok(_) => match I::spec_check(value) { Ok(_) => Ok(()), Err(e) => Err(e) }, Err(e) => Err(e) }, Err(e) => Err(e) }, Err(e) => Err(e) }, Err(e) => Err(e) }, Err(e) => Err(e) }, Err(e) => Err(e) }, Err(e) => Err(e) }, Err(e) => Err(e) }
    }

    open spec fn spec_debug() -> Seq<char> {
        "("@ + A::spec_debug() + ", "@ + B::spec_debug() + ", "@ + C::spec_debug() + ", "@ + D::spec_debug() + ", "@ + E::spec_debug() + ", "@ + F::spec_debug() + ", "@ + G::spec_debug() + ", "@ + H::spec_debug() + ", "@ + I::spec_debug() + ")"@
    }

    open spec fn spec_schema_name() -> Seq<char> {
        "("@ + A::spec_schema_name() + ", "@ + B::spec_schema_name() + ", "@ + C::spec_schema_name() + ", "@ + D::spec_schema_name() + ", "@ + E::spec_schema_name() + ", "@ + F::spec_schema_name() + ", "@ + G::spec_schema_name() + ", "@ + H::spec_schema_name() + ", "@ + I::spec_schema_name() + ")"@
    }

    fn validate(value: &T) -> (r: Result<(), String>) {
        A::validate(value)?;
        B::validate(value)?;
        C::validate(value)?;
        D::validate(value)?;
        E::validate(value)?;
        F::validate(value)?;
        G::validate(value)?;
        H::validate(value)?;
        I::validate(value)?;
        Ok(())
    }

    fn debug() -> (r: String) {
        let mut s = String::from_str("(");
        let part = A::debug();
        s.append(part.as_str());
        s.append(", ");
        let part = B::debug();
        s.append(part.as_str());
        s.append(", ");
        let part = C::debug();
        s.append(part.as_str());
        s.append(", ");
        let part = D::debug();
        s.append(part.as_str());
        s.append(", ");
        let part = E::debug();
        s.append(part.as_str());
        s.append(", ");
        let part = F::debug();
        s.append(part.as_str());
        s.append(", ");
        let part = G::debug();
        s.append(part.as_str());
        s.append(", ");
        let part = H::debug();
        s.append(part.as_str());
        s.append(", ");
        let part = I::debug();
        s.append(part.as_str());
        s.append(")");
        s
    }

    fn schema_name() -> (r: String) {
        let mut s = String::from_str("(");
        let part = A::schema_name();
        s.append(part.as_str());
        s.append(", ");
        let part = B::schema_name();
        s.append(part.as_str());
        s.append(", ");
        let part = C::schema_name();
        s.append(part.as_str());
        s.append(", ");
        let part = D::schema_name();
        s.append(part.as_str());
        s.append(", ");
        let part = E::schema_name();
        s.append(part.as_str());
        s.append(", ");
        let part = F::schema_name();
        s.append(part.as_str());
        s.append(", ");
        let part = G::schema_name();
        s.append(part.as_str());
        s.append(", ");
        let part = H::schema_name();
        s.append(part.as_str());
        s.append(", ");
        let part = I::schema_name();
        s.append(part.as_str());
        s.append(")");
        s
    }
}

/// The check made of the checks of the tuple, applied in order; the first
/// failure is reported.
impl<T, A: ValueValidator<T>, B: ValueValidator<T>, C: ValueValidator<T>, D: ValueValidator<T>, E: ValueValidator<T>, F: ValueValidator<T>, G: ValueValidator<T>, H: ValueValidator<T>, I: ValueValidator<T>, J: ValueValidator<T>> ValueValidator<T> for (A, B, C, D, E, F, G, H, I, J,) {
    open spec fn spec_check(value: T) -> Result<(), Seq<char>> {
        match A::spec_check(value) { Ok(_) => match B::spec_check(value) { Ok(_) => match C::spec_check(value) { Ok(_) => match D::spec_check(value) { Ok(_) => match E::spec_check(value) { Ok(_) => match F::spec_check(value) { Ok(_) => match G::spec_check(value) { Ok(_) => match H::spec_check(value) { Ok(_) => match I::spec_check(value) { Ok(_) => match J::spec_check(value) { Ok(_) => Ok(()), Err(e) => Err(e) }, Err(e) => Err(e) }, Err(e) => Err(e) }, Err(e) => Err(e) }, Err(e) => Err(e) }, Err(e) => Err(e) }, Err(e) => Err(e) }, Err(e) => Err(e) }, Err(e) => Err(e) }, Err(e) => Err(e) }
    }

    open spec fn spec_debug() -> Seq<char> {
        "("@ + A::spec_debug() + ", "@ + B::spec_debug() + ", "@ + C::spec_debug() + ", "@ + D::spec_debug() + ", "@ + E::spec_debug() + ", "@ + F::spec_debug() + ", "@ + G::spec_debug() + ", "@ + H::spec_debug() + ", "@ + I::spec_debug() + ", "@ + J::spec_debug() + ")"@
    }

    open spec fn spec_schema_name() -> Seq<char> {
        "("@ + A::spec_schema_name() + ", "@ + B::spec_schema_name() + ", "@ + C::spec_schema_name() + ", "@ + D::spec_schema_name() + ", "@ + E::spec_schema_name() + ", "@ + F::spec_schema_name() + ", "@ + G::spec_schema_name() + ", "@ + H::spec_schema_name() + ", "@ + I::spec_schema_name() + ", "@ + J::spec_schema_name() + ")"@
    }

    fn validate(value: &T) -> (r: Result<(), String>) {
        A::validate(value)?;
        B::validate(value)?;
        C::validate(value)?;
        D::validate(value)?;
        E::validate(value)?;
        F::validate(value)?;
        G::validate(value)?;
        H::validate(value)?;
        I::validate(value)?;
        J::validate(value)?;
        Ok(())
    }

    fn debug() -> (r: String) {
        let mut s = String::from_str("(");
        let part = A::debug();
        s.append(part.as_str());
        s.append(", ");
        let part = B::debug();
        s.append(part.as_str());
        s.append(", ");
        let part = C::debug();
        s.append(part.as_str());
        s.append(", ");
        let part = D::debug();
        s.append(part.as_str());
        s.append(", ");
        let part = E::debug();
        s.append(part.as_str());
        s.append(", ");
        let part = F::debug();
        s.append(part.as_str());
        s.append(", ");
        let part = G::debug();
        s.append(part.as_str());
        s.append(", ");
        let part = H::debug();
        s.append(part.as_str());
        s.append(", ");
        let part = I::debug();
        s.append(part.as_str());
        s.append(", ");
        let part = J::debug();
        s.append(part.as_str());
        s.append(")");
        s
    }

    fn schema_name() -> (r: String) {
        let mut s = String::from_str("(");
        let part = A::schema_name();
        s.append(part.as_str());
        s.append(", ");
        let part = B::schema_name();
        s.append(part.as_str());
        s.append(", ");
        let part = C::schema_name();
        s.append(part.as_str());
        s.append(", ");
        let part = D::schema_name();
        s.append(part.as_str());
        s.append(", ");
        let part = E::schema_name();
        s.append(part.as_str());
        s.append(", ");
        let part = F::schema_name();
        s.append(part.as_str());
        s.append(", ");
        let part = G::schema_name();
        s.append(part.as_str());
        s.append(", ");
        let part = H::schema_name();
        s.append(part.as_str());
        s.append(", ");
        let part = I::schema_name();
        s.append(part.as_str());
        s.append(", ");
        let part = J::schema_name();
        s.append(part.as_str());
        s.append(")");
        s
    }
}

/// The check made of the checks of the tuple, applied in order; the first
/// failure is reported.
impl<T, A: ValueValidator<T>, B: ValueValidator<T>, C: ValueValidator<T>, D: ValueValidator<T>, E: ValueValidator<T>, F: ValueValidator<T>, G: ValueValidator<T>, H: ValueValidator<T>, I: ValueValidator<T>, J: ValueValidator<T>, K: ValueValidator<T>> ValueValidator<T> for (A, B, C, D, E, F, G, H, I, J, K,) {
    open spec fn spec_check(value: T) -> Result<(), Seq<char>> {
        match A::spec_check(value) { Ok(_) => match B::spec_check(value) { Ok(_) => match C::spec_check(value) { Ok(_) => match D::spec_check(value) { Ok(_) => match E::spec_check(value) { Ok(_) => match F::spec_check(value) { Ok(_) => match G::spec_check(value) { Ok(_) => match H::spec_check(value) { Ok(_) => match I::spec_check(value) { Ok(_) => match J::spec_check(value) { Ok(_) => match K::spec_check(value) { Ok(_) => Ok(()), Err(e) => Err(e) }, Err(e) => Err(e) }, Err(e) => Err(e) }, Err(e) => Err(e) }, Err(e) => Err(e) }, Err(e) => Err(e) }, Err(e) => Err(e) }, Err(e) => Err(e) }, Err(e) => Err(e) }, Err(e) => Err(e) }, Err(e) => Err(e) }
    }

    open spec fn spec_debug() -> Seq<char> {
        "("@ + A::spec_debug() + ", "@ + B::spec_debug() + ", "@ + C::spec_debug() + ", "@ + D::spec_debug() + ", "@ + E::spec_debug() + ", "@ + F::spec_debug() + ", "@ + G::spec_debug() + ", "@ + H::spec_debug() + ", "@ + I::spec_debug() + ", "@ + J::spec_debug() + ", "@ + K::spec_debug() + ")"@
    }

    open spec fn spec_schema_name() -> Seq<char> {
        "("@ + A::spec_schema_name() + ", "@ + B::spec_schema_name() + ", "@ + C::spec_schema_name() + ", "@ + D::spec_schema_name() + ", "@ + E::spec_schema_name() + ", "@ + F::spec_schema_name() + ", "@ + G::spec_schema_name() + ", "@ + H::spec_schema_name() + ", "@ + I::spec_schema_name() + ", "@ + J::spec_schema_name() + ", "@ + K::spec_schema_name() + ")"@
    }

    fn validate(value: &T) -> (r: Result<(), String>) {
        A::validate(value)?;
        B::validate(value)?;
        C::validate(value)?;
        D::validate(value)?;
        E::validate(value)?;
        F::validate(value)?;
        G::validate(value)?;
        H::validate(value)?;
        I::validate(value)?;
        J::validate(value)?;
        K::validate(value)?;
        Ok(())
    }

    fn debug() -> (r: String) {
        let mut s = String::from_str("(");
        let part = A::debug();
        s.append(part.as_str());
        s.append(", ");
        let part = B::debug();
        s.append(part.as_str());
        s.append(", ");
        let part = C::debug();
        s.append(part.as_str());
        s.append(", ");
        let part = D::debug();
        s.append(part.as_str());
        s.append(", ");
        let part = E::debug();
        s.append(part.as_str());
        s.append(", ");
        let part = F::debug();
        s.append(part.as_str());
        s.append(", ");
        let part = G::debug();
        s.append(part.as_str());
        s.append(", ");
        let part = H::debug();
        s.append(part.as_str());
        s.append(", ");
        let part = I::debug();
        s.append(part.as_str());
        s.append(", ");
        let part = J::debug();
        s.append(part.as_str());
        s.append(", ");
        let part = K::debug();
        s.append(part.as_str());
        s.append(")");
        s
    }

    fn schema_name() -> (r: String) {
        let mut s = String::from_str("(");
        let part = A::schema_name();
        s.append(part.as_str());
        s.append(", ");
        let part = B::schema_name();
        s.append(part.as_str());
        s.append(", ");
        let part = C::schema_name();
        s.append(part.as_str());
        s.append(", ");
        let part = D::schema_name();
        s.append(part.as_str());
        s.append(", ");
        let part = E::schema_name();
        s.append(part.as_str());
        s.append(", ");
        let part = F::schema_name();
        s.append(part.as_str());
        s.append(", ");
        let part = G::schema_name();
        s.append(part.as_str());
        s.append(", ");
        let part = H::schema_name();
        s.append(part.as_str());
        s.append(", ");
        let part = I::schema_name();
        s.append(part.as_str());
        s.append(", ");
        let part = J::schema_name();
        s.append(part.as_str());
        s.append(", ");
        let part = K::schema_name();
        s.append(part.as_str());
        s.append(")");
        s
    }
}

/// The check made of the checks of the tuple, applied in order; the first
/// failure is reported.
impl<T, A: ValueValidator<T>, B: ValueValidator<T>, C: ValueValidator<T>, D: ValueValidator<T>, E: ValueValidator<T>, F: ValueValidator<T>, G: ValueValidator<T>, H: ValueValidator<T>, I: ValueValidator<T>, J: ValueValidator<T>, K: ValueValidator<T>, L: ValueValidator<T>> ValueValidator<T> for (A, B, C, D, E, F, G, H, I, J, K, L,) {
    open spec fn spec_check(value: T) -> Result<(), Seq<char>> {
        match A::spec_check(value) { Ok(_) => match B::spec_check(value) { Ok(_) => match C::spec_check(value) { Ok(_) => match D::spec_check(value) { Ok(_) => match E::spec_check(value) { Ok(_) => match F::spec_check(value) { Ok(_) => match G::spec_check(value) { Ok(_) => match H::spec_check(value) { Ok(_) => match I::spec_check(value) { Ok(_) => match J::spec_check(value) { Ok(_) => match K::spec_check(value) { Ok(_) => match L::spec_check(value) { Ok(_) => Ok(()), Err(e) => Err(e) }, Err(e) => Err(e) }, Err(e) => Err(e) }, Err(e) => Err(e) }, Err(e) => Err(e) }, Err(e) => Err(e) }, Err(e) => Err(e) }, Err(e) => Err(e) }, Err(e) => Err(e) }, Err(e) => Err(e) }, Err(e) => Err(e) }, Err(e) => Err(e) }
    }

    open spec fn spec_debug() -> Seq<char> {
        "("@ + A::spec_debug() + ", "@ + B::spec_debug() + ", "@ + C::spec_debug() + ", "@ + D::spec_debug() + ", "@ + E::spec_debug() + ", "@ + F::spec_debug() + ", "@ + G::spec_debug() + ", "@ + H::spec_debug() + ", "@ + I::spec_debug() + ", "@ + J::spec_debug() + ", "@ + K::spec_debug() + ", "@ + L::spec_debug() + ")"@
    }

    open spec fn spec_schema_name() -> Seq<char> {
        "("@ + A::spec_schema_name() + ", "@ + B::spec_schema_name() + ", "@ + C::spec_schema_name() + ", "@ + D::spec_schema_name() + ", "@ + E::spec_schema_name() + ", "@ + F::spec_schema_name() + ", "@ + G::spec_schema_name() + ", "@ + H::spec_schema_name() + ", "@ + I::spec_schema_name() + ", "@ + J::spec_schema_name() + ", "@ + K::spec_schema_name() + ", "@ + L::spec_schema_name() + ")"@
    }

    fn validate(value: &T) -> (r: Result<(), String>) {
        A::validate(value)?;
        B::validate(value)?;
        C::validate(value)?;
        D::validate(value)?;
        E::validate(value)?;
        F::validate(value)?;
        G::validate(value)?;
        H::validate(value)?;
        I::validate(value)?;
        J::validate(value)?;
        K::validate(value)?;
        L::validate(value)?;
        Ok(())
    }

    fn debug() -> (r: String) {
        let mut s = String::from_str("(");
        let part = A::debug();
        s.append(part.as_str());
        s.append(", ");
        let part = B::debug();
        s.append(part.as_str());
        s.append(", ");
        let part = C::debug();
        s.append(part.as_str());
        s.append(", ");
        let part = D::debug();
        s.append(part.as_str());
        s.append(", ");
        let part = E::debug();
        s.append(part.as_str());
        s.append(", ");
        let part = F::debug();
        s.append(part.as_str());
        s.append(", ");
        let part = G::debug();
        s.append(part.as_str());
        s.append(", ");
        let part = H::debug();
        s.append(part.as_str());
        s.append(", ");
        let part = I::debug();
        s.append(part.as_str());
        s.append(", ");
        let part = J::debug();
        s.append(part.as_str());
        s.append(", ");
        let part = K::debug();
        s.append(part.as_str());
        s.append(", ");
        let part = L::debug();
        s.append(part.as_str());
        s.append(")");
        s
    }

    fn schema_name() -> (r: String) {
        let mut s = String::from_str("(");
        let part = A::schema_name();
        s.append(part.as_str());
        s.append(", ");
        let part = B::schema_name();
        s.append(part.as_str());
        s.append(", ");
        let part = C::schema_name();
        s.append(part.as_str());
        s.append(", ");
        let part = D::schema_name();
        s.append(part.as_str());
        s.append(", ");
        let part = E::schema_name();
        s.append(part.as_str());
        s.append(", ");
        let part = F::schema_name();
        s.append(part.as_str());
        s.append(", ");
        let part = G::schema_name();
        s.append(part.as_str());
        s.append(", ");
        let part = H::schema_name();
        s.append(part.as_str());
        s.append(", ");
        let part = I::schema_name();
        s.append(part.as_str());
        s.append(", ");
        let part = J::schema_name();
        s.append(part.as_str());
        s.append(", ");
        let part = K::schema_name();
        s.append(part.as_str());
        s.append(", ");
        let part = L::schema_name();
        s.append(part.as_str());
        s.append(")");
        s
    }
}

/// The empty tuple of checks accepts every value.
pub proof fn law_unit_check<T>(value: T)
    ensures
        <() as ValueValidator<T>>::spec_check(value) is Ok,
{
}

/// A tuple of checks accepts a value exactly when each of its checks
/// accepts it; otherwise it refuses it with the error of the first check,
/// in tuple order, that refuses it.
pub proof fn law_tuple1_check<T, A: ValueValidator<T>>(value: T)
    ensures
        <(A,) as ValueValidator<T>>::spec_check(value) is Ok <==> (A::spec_check(value) is Ok),
        A::spec_check(value) is Err ==> <(A,) as ValueValidator<T>>::spec_check(value) == A::spec_check(value),
{
}

/// A tuple of checks accepts a value exactly when each of its checks
/// accepts it; otherwise it refuses it with the error of the first check,
/// in tuple order, that refuses it.
pub proof fn law_tuple2_check<T, A: ValueValidator<T>, B: ValueValidator<T>>(value: T)
    ensures
        <(A, B,) as ValueValidator<T>>::spec_check(value) is Ok <==> (A::spec_check(value) is Ok && B::spec_check(value) is Ok),
        A::spec_check(value) is Err ==> <(A, B,) as ValueValidator<T>>::spec_check(value) == A::spec_check(value),
        A::spec_check(value) is Ok && B::spec_check(value) is Err ==> <(A, B,) as ValueValidator<T>>::spec_check(value) == B::spec_check(value),
{
}

/// A tuple of checks accepts a value exactly when each of its checks
/// accepts it; otherwise it refuses it with the error of the first check,
/// in tuple order, that refuses it.
pub proof fn law_tuple3_check<T, A: ValueValidator<T>, B: ValueValidator<T>, C: ValueValidator<T>>(value: T)
    ensures
        <(A, B, C,) as ValueValidator<T>>::spec_check(value) is Ok <==> (A::spec_check(value) is Ok && B::spec_check(value) is Ok && C::spec_check(value) is Ok),
        A::spec_check(value) is Err ==> <(A, B, C,) as ValueValidator<T>>::spec_check(value) == A::spec_check(value),
        A::spec_check(value) is Ok && B::spec_check(value) is Err ==> <(A, B, C,) as ValueValidator<T>>::spec_check(value) == B::spec_check(value),
        A::spec_check(value) is Ok && B::spec_check(value) is Ok && C::spec_check(value) is Err ==> <(A, B, C,) as ValueValidator<T>>::spec_check(value) == C::spec_check(value),
{
}

/// A tuple of checks accepts a value exactly when each of its checks
/// accepts it; otherwise it refuses it with the error of the first check,
/// in tuple order, that refuses it.
pub proof fn law_tuple4_check<T, A: ValueValidator<T>, B: ValueValidator<T>, C: ValueValidator<T>, D: ValueValidator<T>>(value: T)
    ensures
        <(A, B, C, D,) as ValueValidator<T>>::spec_check(value) is Ok <==> (A::spec_check(value) is Ok && B::spec_check(value) is Ok && C::spec_check(value) is Ok && D::spec_check(value) is Ok),
        A::spec_check(value) is Err ==> <(A, B, C, D,) as ValueValidator<T>>::spec_check(value) == A::spec_check(value),
        A::spec_check(value) is Ok && B::spec_check(value) is Err ==> <(A, B, C, D,) as ValueValidator<T>>::spec_check(value) == B::spec_check(value),
        A::spec_check(value) is Ok && B::spec_check(value) is Ok && C::spec_check(value) is Err ==> <(A, B, C, D,) as ValueValidator<T>>::spec_check(value) == C::spec_check(value),
        A::spec_check(value) is Ok && B::spec_check(value) is Ok && C::spec_check(value) is Ok && D::spec_check(value) is Err ==> <(A, B, C, D,) as ValueValidator<T>>::spec_check(value) == D::spec_check(value),
{
}

/// A tuple of checks accepts a value exactly when each of its checks
/// accepts it; otherwise it refuses it with the error of the first check,
/// in tuple order, that refuses it.
pub proof fn law_tuple5_check<T, A: ValueValidator<T>, B: ValueValidator<T>, C: ValueValidator<T>, D: ValueValidator<T>, E: ValueValidator<T>>(value: T)
    ensures
        <(A, B, C, D, E,) as ValueValidator<T>>::spec_check(value) is Ok <==> (A::spec_check(value) is Ok && B::spec_check(value) is Ok && C::spec_check(value) is Ok && D::spec_check(value) is Ok && E::spec_check(value) is Ok),
        A::spec_check(value) is Err ==> <(A, B, C, D, E,) as ValueValidator<T>>::spec_check(value) == A::spec_check(value),
        A::spec_check(value) is Ok && B::spec_check(value) is Err ==> <(A, B, C, D, E,) as ValueValidator<T>>::spec_check(value) == B::spec_check(value),
        A::spec_check(value) is Ok && B::spec_check(value) is Ok && C::spec_check(value) is Err ==> <(A, B, C, D, E,) as ValueValidator<T>>::spec_check(value) == C::spec_check(value),
        A::spec_check(value) is Ok && B::spec_check(value) is Ok && C::spec_check(value) is Ok && D::spec_check(value) is Err ==> <(A, B, C, D, E,) as ValueValidator<T>>::spec_check(value) == D::spec_check(value),
        A::spec_check(value) is Ok && B::spec_check(value) is Ok && C::spec_check(value) is Ok && D::spec_check(value) is Ok && E::spec_check(value) is Err ==> <(A, B, C, D, E,) as ValueValidator<T>>::spec_check(value) == E::spec_check(value),
{
}

/// A tuple of checks accepts a value exactly when each of its checks
/// accepts it; otherwise it refuses it with the error of the first check,
/// in tuple order, that refuses it.
pub proof fn law_tuple6_check<T, A: ValueValidator<T>, B: ValueValidator<T>, C: ValueValidator<T>, D: ValueValidator<T>, E: ValueValidator<T>, F: ValueValidator<T>>(value: T)
    ensures
        <(A, B, C, D, E, F,) as ValueValidator<T>>::spec_check(value) is Ok <==> (A::spec_check(value) is Ok && B::spec_check(value) is Ok && C::spec_check(value) is Ok && D::spec_check(value) is Ok && E::spec_check(value) is Ok && F::spec_check(value) is Ok),
        A::spec_check(value) is Err ==> <(A, B, C, D, E, F,) as ValueValidator<T>>::spec_check(value) == A::spec_check(value),
        A::spec_check(value) is Ok && B::spec_check(value) is Err ==> <(A, B, C, D, E, F,) as ValueValidator<T>>::spec_check(value) == B::spec_check(value),
        A::spec_check(value) is Ok && B::spec_check(value) is Ok && C::spec_check(value) is Err ==> <(A, B, C, D, E, F,) as ValueValidator<T>>::spec_check(value) == C::spec_check(value),
        A::spec_check(value) is Ok && B::spec_check(value) is Ok && C::spec_check(value) is Ok && D::spec_check(value) is Err ==> <(A, B, C, D, E, F,) as ValueValidator<T>>::spec_check(value) == D::spec_check(value),
        A::spec_check(value) is Ok && B::spec_check(value) is Ok && C::spec_check(value) is Ok && D::spec_check(value) is Ok && E::spec_check(value) is Err ==> <(A, B, C, D, E, F,) as ValueValidator<T>>::spec_check(value) == E::spec_check(value),
        A::spec_check(value) is Ok && B::spec_check(value) is Ok && C::spec_check(value) is Ok && D::spec_check(value) is Ok && E::spec_check(value) is Ok && F::spec_check(value) is Err ==> <(A, B, C, D, E, F,) as ValueValidator<T>>::spec_check(value) == F::spec_check(value),
{
}

/// A tuple of checks accepts a value exactly when each of its checks
/// accepts it; otherwise it refuses it with the error of the first check,
/// in tuple order, that refuses it.
pub proof fn law_tuple7_check<T, A: ValueValidator<T>, B: ValueValidator<T>, C: ValueValidator<T>, D: ValueValidator<T>, E: ValueValidator<T>, F: ValueValidator<T>, G: ValueValidator<T>>(value: T)
    ensures
        <(A, B, C, D, E, F, G,) as ValueValidator<T>>::spec_check(value) is Ok <==> (A::spec_check(value) is Ok && B::spec_check(value) is Ok && C::spec_check(value) is Ok && D::spec_check(value) is Ok && E::spec_check(value) is Ok && F::spec_check(value) is Ok && G::spec_check(value) is Ok),
        A::spec_check(value) is Err ==> <(A, B, C, D, E, F, G,) as ValueValidator<T>>::spec_check(value) == A::spec_check(value),
        A::spec_check(value) is Ok && B::spec_check(value) is Err ==> <(A, B, C, D, E, F, G,) as ValueValidator<T>>::spec_check(value) == B::spec_check(value),
        A::spec_check(value) is Ok && B::spec_check(value) is Ok && C::spec_check(value) is Err ==> <(A, B, C, D, E, F, G,) as ValueValidator<T>>::spec_check(value) == C::spec_check(value),
        A::spec_check(value) is Ok && B::spec_check(value) is Ok && C::spec_check(value) is Ok && D::spec_check(value) is Err ==> <(A, B, C, D, E, F, G,) as ValueValidator<T>>::spec_check(value) == D::spec_check(value),
        A::spec_check(value) is Ok && B::spec_check(value) is Ok && C::spec_check(value) is Ok && D::spec_check(value) is Ok && E::spec_check(value) is Err ==> <(A, B, C, D, E, F, G,) as ValueValidator<T>>::spec_check(value) == E::spec_check(value),
        A::spec_check(value) is Ok && B::spec_check(value) is Ok && C::spec_check(value) is Ok && D::spec_check(value) is Ok && E::spec_check(value) is Ok && F::spec_check(value) is Err ==> <(A, B, C, D, E, F, G,) as ValueValidator<T>>::spec_check(value) == F::spec_check(value),
        A::spec_check(value) is Ok && B::spec_check(value) is Ok && C::spec_check(value) is Ok && D::spec_check(value) is Ok && E::spec_check(value) is Ok && F::spec_check(value) is Ok && G::spec_check(value) is Err ==> <(A, B, C, D, E, F, G,) as ValueValidator<T>>::spec_check(value) == G::spec_check(value),
{
}

/// A tuple of checks accepts a value exactly when each of its checks
/// accepts it; otherwise it refuses it with the error of the first check,
/// in tuple order, that refuses it.
pub proof fn law_tuple8_check<T, A: ValueValidator<T>, B: ValueValidator<T>, C: ValueValidator<T>, D: ValueValidator<T>, E: ValueValidator<T>, F: ValueValidator<T>, G: ValueValidator<T>, H: ValueValidator<T>>(value: T)
    ensures
        <(A, B, C, D, E, F, G, H,) as ValueValidator<T>>::spec_check(value) is Ok <==> (A::spec_check(value) is Ok && B::spec_check(value) is Ok && C::spec_check(value) is Ok && D::spec_check(value) is Ok && E::spec_check(value) is Ok && F::spec_check(value) is Ok && G::spec_check(value) is Ok && H::spec_check(value) is Ok),
        A::spec_check(value) is Err ==> <(A, B, C, D, E, F, G, H,) as ValueValidator<T>>::spec_check(value) == A::spec_check(value),
        A::spec_check(value) is Ok && B::spec_check(value) is Err ==> <(A, B, C, D, E, F, G, H,) as ValueValidator<T>>::spec_check(value) == B::spec_check(value),
        A::spec_check(value) is Ok && B::spec_check(value) is Ok && C::spec_check(value) is Err ==> <(A, B, C, D, E, F, G, H,) as ValueValidator<T>>::spec_check(value) == C::spec_check(value),
        A::spec_check(value) is Ok && B::spec_check(value) is Ok && C::spec_check(value) is Ok && D::spec_check(value) is Err ==> <(A, B, C, D, E, F, G, H,) as ValueValidator<T>>::spec_check(value) == D::spec_check(value),
        A::spec_check(value) is Ok && B::spec_check(value) is Ok && C::spec_check(value) is Ok && D::spec_check(value) is Ok && E::spec_check(value) is Err ==> <(A, B, C, D, E, F, G, H,) as ValueValidator<T>>::spec_check(value) == E::spec_check(value),
        A::spec_check(value) is Ok && B::spec_check(value) is Ok && C::spec_check(value) is Ok && D::spec_check(value) is Ok && E::spec_check(value) is Ok && F::spec_check(value) is Err ==> <(A, B, C, D, E, F, G, H,) as ValueValidator<T>>::spec_check(value) == F::spec_check(value),
        A::spec_check(value) is Ok && B::spec_check(value) is Ok && C::spec_check(value) is Ok && D::spec_check(value) is Ok && E::spec_check(value) is Ok && F::spec_check(value) is Ok && G::spec_check(value) is Err ==> <(A, B, C, D, E, F, G, H,) as ValueValidator<T>>::spec_check(value) == G::spec_check(value),
        A::spec_check(value) is Ok && B::spec_check(value) is Ok && C::spec_check(value) is Ok && D::spec_check(value) is Ok && E::spec_check(value) is Ok && F::spec_check(value) is Ok && G::spec_check(value) is Ok && H::spec_check(value) is Err ==> <(A, B, C, D, E, F, G, H,) as ValueValidator<T>>::spec_check(value) == H::spec_check(value),
{
}

/// A tuple of checks accepts a value exactly when each of its checks
/// accepts it; otherwise it refuses it with the error of the first check,
/// in tuple order, that refuses it.
pub proof fn law_tuple9_check<T, A: ValueValidator<T>, B: ValueValidator<T>, C: ValueValidator<T>, D: ValueValidator<T>, E: ValueValidator<T>, F: ValueValidator<T>, G: ValueValidator<T>, H: ValueValidator<T>, I: ValueValidator<T>>(value: T)
    ensures
        <(A, B, C, D, E, F, G, H, I,) as ValueValidator<T>>::spec_check(value) is Ok <==> (A::spec_check(value) is Ok && B::spec_check(value) is Ok && C::spec_check(value) is Ok && D::spec_check(value) is Ok && E::spec_check(value) is Ok && F::spec_check(value) is Ok && G::spec_check(value) is Ok && H::spec_check(value) is Ok && I::spec_check(value) is Ok),
        A::spec_check(value) is Err ==> <(A, B, C, D, E, F, G, H, I,) as ValueValidator<T>>::spec_check(value) == A::spec_check(value),
        A::spec_check(value) is Ok && B::spec_check(value) is Err ==> <(A, B, C, D, E, F, G, H, I,) as ValueValidator<T>>::spec_check(value) == B::spec_check(value),
        A::spec_check(value) is Ok && B::spec_check(value) is Ok && C::spec_check(value) is Err ==> <(A, B, C, D, E, F, G, H, I,) as ValueValidator<T>>::spec_check(value) == C::spec_check(value),
        A::spec_check(value) is Ok && B::spec_check(value) is Ok && C::spec_check(value) is Ok && D::spec_check(value) is Err ==> <(A, B, C, D, E, F, G, H, I,) as ValueValidator<T>>::spec_check(value) == D::spec_check(value),
        A::spec_check(value) is Ok && B::spec_check(value) is Ok && C::spec_check(value) is Ok && D::spec_check(value) is Ok && E::spec_check(value) is Err ==> <(A, B, C, D, E, F, G, H, I,) as ValueValidator<T>>::spec_check(value) == E::spec_check(value),
        A::spec_check(value) is Ok && B::spec_check(value) is Ok && C::spec_check(value) is Ok && D::spec_check(value) is Ok && E::spec_check(value) is Ok && F::spec_check(value) is Err ==> <(A, B, C, D, E, F, G, H, I,) as ValueValidator<T>>::spec_check(value) == F::spec_check(value),
        A::spec_check(value) is Ok && B::spec_check(value) is Ok && C::spec_check(value) is Ok && D::spec_check(value) is Ok && E::spec_check(value) is Ok && F::spec_check(value) is Ok && G::spec_check(value) is Err ==> <(A, B, C, D, E, F, G, H, I,) as ValueValidator<T>>::spec_check(value) == G::spec_check(value),
        A::spec_check(value) is Ok && B::spec_check(value) is Ok && C::spec_check(value) is Ok && D::spec_check(value) is Ok && E::spec_check(value) is Ok && F::spec_check(value) is Ok && G::spec_check(value) is Ok && H::spec_check(value) is Err ==> <(A, B, C, D, E, F, G, H, I,) as ValueValidator<T>>::spec_check(value) == H::spec_check(value),
        A::spec_check(value) is Ok && B::spec_check(value) is Ok && C::spec_check(value) is Ok && D::spec_check(value) is Ok && E::spec_check(value) is Ok && F::spec_check(value) is Ok && G::spec_check(value) is Ok && H::spec_check(value) is Ok && I::spec_check(value) is Err ==> <(A, B, C, D, E, F, G, H, I,) as ValueValidator<T>>::spec_check(value) == I::spec_check(value),
{
}

/// A tuple of checks accepts a value exactly when each of its checks
/// accepts it; otherwise it refuses it with the error of the first check,
/// in tuple order, that refuses it.
pub proof fn law_tuple10_check<T, A: ValueValidator<T>, B: ValueValidator<T>, C: ValueValidator<T>, D: ValueValidator<T>, E: ValueValidator<T>, F: ValueValidator<T>, G: ValueValidator<T>, H: ValueValidator<T>, I: ValueValidator<T>, J: ValueValidator<T>>(value: T)
    ensures
        <(A, B, C, D, E, F, G, H, I, J,) as ValueValidator<T>>::spec_check(value) is Ok <==> (A::spec_check(value) is Ok && B::spec_check(value) is Ok && C::spec_check(value) is Ok && D::spec_check(value) is Ok && E::spec_check(value) is Ok && F::spec_check(value) is Ok && G::spec_check(value) is Ok && H::spec_check(value) is Ok && I::spec_check(value) is Ok && J::spec_check(value) is Ok),
        A::spec_check(value) is Err ==> <(A, B, C, D, E, F, G, H, I, J,) as ValueValidator<T>>::spec_check(value) == A::spec_check(value),
        A::spec_check(value) is Ok && B::spec_check(value) is Err ==> <(A, B, C, D, E, F, G, H, I, J,) as ValueValidator<T>>::spec_check(value) == B::spec_check(value),
        A::spec_check(value) is Ok && B::spec_check(value) is Ok && C::spec_check(value) is Err ==> <(A, B, C, D, E, F, G, H, I, J,) as ValueValidator<T>>::spec_check(value) == C::spec_check(value),
        A::spec_check(value) is Ok && B::spec_check(value) is Ok && C::spec_check(value) is Ok && D::spec_check(value) is Err ==> <(A, B, C, D, E, F, G, H, I, J,) as ValueValidator<T>>::spec_check(value) == D::spec_check(value),
        A::spec_check(value) is Ok && B::spec_check(value) is Ok && C::spec_check(value) is Ok && D::spec_check(value) is Ok && E::spec_check(value) is Err ==> <(A, B, C, D, E, F, G, H, I, J,) as ValueValidator<T>>::spec_check(value) == E::spec_check(value),
        A::spec_check(value) is Ok && B::spec_check(value) is Ok && C::spec_check(value) is Ok && D::spec_check(value) is Ok && E::spec_check(value) is Ok && F::spec_check(value) is Err ==> <(A, B, C, D, E, F, G, H, I, J,) as ValueValidator<T>>::spec_check(value) == F::spec_check(value),
        A::spec_check(value) is Ok && B::spec_check(value) is Ok && C::spec_check(value) is Ok && D::spec_check(value) is Ok && E::spec_check(value) is Ok && F::spec_check(value) is Ok && G::spec_check(value) is Err ==> <(A, B, C, D, E, F, G, H, I, J,) as ValueValidator<T>>::spec_check(value) == G::spec_check(value),
        A::spec_check(value) is Ok && B::spec_check(value) is Ok && C::spec_check(value) is Ok && D::spec_check(value) is Ok && E::spec_check(value) is Ok && F::spec_check(value) is Ok && G::spec_check(value) is Ok && H::spec_check(value) is Err ==> <(A, B, C, D, E, F, G, H, I, J,) as ValueValidator<T>>::spec_check(value) == H::spec_check(value),
        A::spec_check(value) is Ok && B::spec_check(value) is Ok && C::spec_check(value) is Ok && D::spec_check(value) is Ok && E::spec_check(value) is Ok && F::spec_check(value) is Ok && G::spec_check(value) is Ok && H::spec_check(value) is Ok && I::spec_check(value) is Err ==> <(A, B, C, D, E, F, G, H, I, J,) as ValueValidator<T>>::spec_check(value) == I::spec_check(value),
        A::spec_check(value) is Ok && B::spec_check(value) is Ok && C::spec_check(value) is Ok && D::spec_check(value) is Ok && E::spec_check(value) is Ok && F::spec_check(value) is Ok && G::spec_check(value) is Ok && H::spec_check(value) is Ok && I::spec_check(value) is Ok && J::spec_check(value) is Err ==> <(A, B, C, D, E, F, G, H, I, J,) as ValueValidator<T>>::spec_check(value) == J::spec_check(value),
{
}

/// A tuple of checks accepts a value exactly when each of its checks
/// accepts it; otherwise it refuses it with the error of the first check,
/// in tuple order, that refuses it.
pub proof fn law_tuple11_check<T, A: ValueValidator<T>, B: ValueValidator<T>, C: ValueValidator<T>, D: ValueValidator<T>, E: ValueValidator<T>, F: ValueValidator<T>, G: ValueValidator<T>, H: ValueValidator<T>, I: ValueValidator<T>, J: ValueValidator<T>, K: ValueValidator<T>>(value: T)
    ensures
        <(A, B, C, D, E, F, G, H, I, J, K,) as ValueValidator<T>>::spec_check(value) is Ok <==> (A::spec_check(value) is Ok && B::spec_check(value) is Ok && C::spec_check(value) is Ok && D::spec_check(value) is Ok && E::spec_check(value) is Ok && F::spec_check(value) is Ok && G::spec_check(value) is Ok && H::spec_check(value) is Ok && I::spec_check(value) is Ok && J::spec_check(value) is Ok && K::spec_check(value) is Ok),
        A::spec_check(value) is Err ==> <(A, B, C, D, E, F, G, H, I, J, K,) as ValueValidator<T>>::spec_check(value) == A::spec_check(value),
        A::spec_check(value) is Ok && B::spec_check(value) is Err ==> <(A, B, C, D, E, F, G, H, I, J, K,) as ValueValidator<T>>::spec_check(value) == B::spec_check(value),
        A::spec_check(value) is Ok && B::spec_check(value) is Ok && C::spec_check(value) is Err ==> <(A, B, C, D, E, F, G, H, I, J, K,) as ValueValidator<T>>::spec_check(value) == C::spec_check(value),
        A::spec_check(value) is Ok && B::spec_check(value) is Ok && C::spec_check(value) is Ok && D::spec_check(value) is Err ==> <(A, B, C, D, E, F, G, H, I, J, K,) as ValueValidator<T>>::spec_check(value) == D::spec_check(value),
        A::spec_check(value) is Ok && B::spec_check(value) is Ok && C::spec_check(value) is Ok && D::spec_check(value) is Ok && E::spec_check(value) is Err ==> <(A, B, C, D, E, F, G, H, I, J, K,) as ValueValidator<T>>::spec_check(value) == E::spec_check(value),
        A::spec_check(value) is Ok && B::spec_check(value) is Ok && C::spec_check(value) is Ok && D::spec_check(value) is Ok && E::spec_check(value) is Ok && F::spec_check(value) is Err ==> <(A, B, C, D, E, F, G, H, I, J, K,) as ValueValidator<T>>::spec_check(value) == F::spec_check(value),
        A::spec_check(value) is Ok && B::spec_check(value) is Ok && C::spec_check(value) is Ok && D::spec_check(value) is Ok && E::spec_check(value) is Ok && F::spec_check(value) is Ok && G::spec_check(value) is Err ==> <(A, B, C, D, E, F, G, H, I, J, K,) as ValueValidator<T>>::spec_check(value) == G::spec_check(value),
        A::spec_check(value) is Ok && B::spec_check(value) is Ok && C::spec_check(value) is Ok && D::spec_check(value) is Ok && E::spec_check(value) is Ok && F::spec_check(value) is Ok && G::spec_check(value) is Ok && H::spec_check(value) is Err ==> <(A, B, C, D, E, F, G, H, I, J, K,) as ValueValidator<T>>::spec_check(value) == H::spec_check(value),
        A::spec_check(value) is Ok && B::spec_check(value) is Ok && C::spec_check(value) is Ok && D::spec_check(value) is Ok && E::spec_check(value) is Ok && F::spec_check(value) is Ok && G::spec_check(value) is Ok && H::spec_check(value) is Ok && I::spec_check(value) is Err ==> <(A, B, C, D, E, F, G, H, I, J, K,) as ValueValidator<T>>::spec_check(value) == I::spec_check(value),
        A::spec_check(value) is Ok && B::spec_check(value) is Ok && C::spec_check(value) is Ok && D::spec_check(value) is Ok && E::spec_check(value) is Ok && F::spec_check(value) is Ok && G::spec_check(value) is Ok && H::spec_check(value) is Ok && I::spec_check(value) is Ok && J::spec_check(value) is Err ==> <(A, B, C, D, E, F, G, H, I, J, K,) as ValueValidator<T>>::spec_check(value) == J::spec_check(value),
        A::spec_check(value) is Ok && B::spec_check(value) is Ok && C::spec_check(value) is Ok && D::spec_check(value) is Ok && E::spec_check(value) is Ok && F::spec_check(value) is Ok && G::spec_check(value) is Ok && H::spec_check(value) is Ok && I::spec_check(value) is Ok && J::spec_check(value) is Ok && K::spec_check(value) is Err ==> <(A, B, C, D, E, F, G, H, I, J, K,) as ValueValidator<T>>::spec_check(value) == K::spec_check(value),
{
}

/// A tuple of checks accepts a value exactly when each of its checks
/// accepts it; otherwise it refuses it with the error of the first check,
/// in tuple order, that refuses it.
pub proof fn law_tuple12_check<T, A: ValueValidator<T>, B: ValueValidator<T>, C: ValueValidator<T>, D: ValueValidator<T>, E: ValueValidator<T>, F: ValueValidator<T>, G: ValueValidator<T>, H: ValueValidator<T>, I: ValueValidator<T>, J: ValueValidator<T>, K: ValueValidator<T>, L: ValueValidator<T>>(value: T)
    ensures
        <(A, B, C, D, E, F, G, H, I, J, K, L,) as ValueValidator<T>>::spec_check(value) is Ok <==> (A::spec_check(value) is Ok && B::spec_check(value) is Ok && C::spec_check(value) is Ok && D::spec_check(value) is Ok && E::spec_check(value) is Ok && F::spec_check(value) is Ok && G::spec_check(value) is Ok && H::spec_check(value) is Ok && I::spec_check(value) is Ok && J::spec_check(value) is Ok && K::spec_check(value) is Ok && L::spec_check(value) is Ok),
        A::spec_check(value) is Err ==> <(A, B, C, D, E, F, G, H, I, J, K, L,) as ValueValidator<T>>::spec_check(value) == A::spec_check(value),
        A::spec_check(value) is Ok && B::spec_check(value) is Err ==> <(A, B, C, D, E, F, G, H, I, J, K, L,) as ValueValidator<T>>::spec_check(value) == B::spec_check(value),
        A::spec_check(value) is Ok && B::spec_check(value) is Ok && C::spec_check(value) is Err ==> <(A, B, C, D, E, F, G, H, I, J, K, L,) as ValueValidator<T>>::spec_check(value) == C::spec_check(value),
        A::spec_check(value) is Ok && B::spec_check(value) is Ok && C::spec_check(value) is Ok && D::spec_check(value) is Err ==> <(A, B, C, D, E, F, G, H, I, J, K, L,) as ValueValidator<T>>::spec_check(value) == D::spec_check(value),
        A::spec_check(value) is Ok && B::spec_check(value) is Ok && C::spec_check(value) is Ok && D::spec_check(value) is Ok && E::spec_check(value) is Err ==> <(A, B, C, D, E, F, G, H, I, J, K, L,) as ValueValidator<T>>::spec_check(value) == E::spec_check(value),
        A::spec_check(value) is Ok && B::spec_check(value) is Ok && C::spec_check(value) is Ok && D::spec_check(value) is Ok && E::spec_check(value) is Ok && F::spec_check(value) is Err ==> <(A, B, C, D, E, F, G, H, I, J, K, L,) as ValueValidator<T>>::spec_check(value) == F::spec_check(value),
        A::spec_check(value) is Ok && B::spec_check(value) is Ok && C::spec_check(value) is Ok && D::spec_check(value) is Ok && E::spec_check(value) is Ok && F::spec_check(value) is Ok && G::spec_check(value) is Err ==> <(A, B, C, D, E, F, G, H, I, J, K, L,) as ValueValidator<T>>::spec_check(value) == G::spec_check(value),
        A::spec_check(value) is Ok && B::spec_check(value) is Ok && C::spec_check(value) is Ok && D::spec_check(value) is Ok && E::spec_check(value) is Ok && F::spec_check(value) is Ok && G::spec_check(value) is Ok && H::spec_check(value) is Err ==> <(A, B, C, D, E, F, G, H, I, J, K, L,) as ValueValidator<T>>::spec_check(value) == H::spec_check(value),
        A::spec_check(value) is Ok && B::spec_check(value) is Ok && C::spec_check(value) is Ok && D::spec_check(value) is Ok && E::spec_check(value) is Ok && F::spec_check(value) is Ok && G::spec_check(value) is Ok && H::spec_check(value) is Ok && I::spec_check(value) is Err ==> <(A, B, C, D, E, F, G, H, I, J, K, L,) as ValueValidator<T>>::spec_check(value) == I::spec_check(value),
        A::spec_check(value) is Ok && B::spec_check(value) is Ok && C::spec_check(value) is Ok && D::spec_check(value) is Ok && E::spec_check(value) is Ok && F::spec_check(value) is Ok && G::spec_check(value) is Ok && H::spec_check(value) is Ok && I::spec_check(value) is Ok && J::spec_check(value) is Err ==> <(A, B, C, D, E, F, G, H, I, J, K, L,) as ValueValidator<T>>::spec_check(value) == J::spec_check(value),
        A::spec_check(value) is Ok && B::spec_check(value) is Ok && C::spec_check(value) is Ok && D::spec_check(value) is Ok && E::spec_check(value) is Ok && F::spec_check(value) is Ok && G::spec_check(value) is Ok && H::spec_check(value) is Ok && I::spec_check(value) is Ok && J::spec_check(value) is Ok && K::spec_check(value) is Err ==> <(A, B, C, D, E, F, G, H, I, J, K, L,) as ValueValidator<T>>::spec_check(value) == K::spec_check(value),
        A::spec_check(value) is Ok && B::spec_check(value) is Ok && C::spec_check(value) is Ok && D::spec_check(value) is Ok && E::spec_check(value) is Ok && F::spec_check(value) is Ok && G::spec_check(value) is Ok && H::spec_check(value) is Ok && I::spec_check(value) is Ok && J::spec_check(value) is Ok && K::spec_check(value) is Ok && L::spec_check(value) is Err ==> <(A, B, C, D, E, F, G, H, I, J, K, L,) as ValueValidator<T>>::spec_check(value) == L::spec_check(value),
{
}

} // verus!
