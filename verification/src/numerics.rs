//! Arithmetic that the caller supplies.
//!
//! The tracker never adds, multiplies or inverts anything itself. Each
//! operation that needs arithmetic takes it as a closure: a norm, a
//! distance, a sum, a product, the product of two matrices, the two steps
//! of a Kalman filter. What such an operation guarantees is stated over
//! the function that the closure computes, which is why every closure has
//! to be one: it accepts every argument, and equal arguments give equal
//! results.
//!
//! The update step of a Kalman filter is the one exception. It has to
//! invert a matrix and cannot go on where that matrix has no inverse, so it
//! need not accept every argument: whoever has it called sees to it that it
//! accepts the arguments that it is called with ([`accepts4`]).
//!
//! [`value`] names what a closure returns. Every operation also says for
//! which arguments it has called a closure ([`answers`]), so that what the
//! closure promises of its result is known to hold of those values.

use vstd::prelude::*;

verus! {

/// The closure accepts every argument and its result depends on the
/// argument alone.
pub open spec fn is_function<A, R, F: Fn(A) -> R>(f: F) -> bool {
    &&& forall|a: A| #[trigger] call_requires(f, (a,))
    &&& forall|a: A, r1: R, r2: R|
        #[trigger] call_ensures(f, (a,), r1) && #[trigger] call_ensures(f, (a,), r2) ==> r1 == r2
}

/// What the closure returns for `a`.
pub open spec fn value<A, R, F: Fn(A) -> R>(f: F, a: A) -> R {
    choose|r: R| call_ensures(f, (a,), r)
}

/// The closure has been seen to return `value(f, a)` for `a`.
pub open spec fn answers<A, R, F: Fn(A) -> R>(f: F, a: A) -> bool {
    call_ensures(f, (a,), value(f, a))
}

/// The same as [`is_function`], for a closure of two arguments.
pub open spec fn is_function2<A, B, R, F: Fn(A, B) -> R>(f: F) -> bool {
    &&& forall|a: A, b: B| #[trigger] call_requires(f, (a, b))
    &&& forall|a: A, b: B, r1: R, r2: R|
        #[trigger] call_ensures(f, (a, b), r1) && #[trigger] call_ensures(f, (a, b), r2) ==> r1
            == r2
}

/// What the closure returns for `a` and `b`.
pub open spec fn value2<A, B, R, F: Fn(A, B) -> R>(f: F, a: A, b: B) -> R {
    choose|r: R| call_ensures(f, (a, b), r)
}

/// The closure has been seen to return `value2(f, a, b)` for `a` and `b`.
pub open spec fn answers2<A, B, R, F: Fn(A, B) -> R>(f: F, a: A, b: B) -> bool {
    call_ensures(f, (a, b), value2(f, a, b))
}

/// Calls the closure.
pub fn eval<A, R, F: Fn(A) -> R>(f: &F, a: A) -> (r: R)
    requires
        is_function(*f),
    ensures
        r == value(*f, a),
        answers(*f, a),
{
    f(a)
}

/// Calls the closure of two arguments.
pub fn eval2<A, B, R, F: Fn(A, B) -> R>(f: &F, a: A, b: B) -> (r: R)
    requires
        is_function2(*f),
    ensures
        r == value2(*f, a, b),
        answers2(*f, a, b),
{
    f(a, b)
}

/// The result of the closure of four arguments depends on the arguments
/// alone. It need not accept all of them.
pub open spec fn is_deterministic4<A, B, C, D, R, F: Fn(A, B, C, D) -> R>(f: F) -> bool {
    forall|a: A, b: B, c: C, d: D, r1: R, r2: R|
        #[trigger] call_ensures(f, (a, b, c, d), r1) && #[trigger] call_ensures(
            f,
            (a, b, c, d),
            r2,
        ) ==> r1 == r2
}

/// The closure can be called with the four arguments.
pub open spec fn accepts4<A, B, C, D, R, F: Fn(A, B, C, D) -> R>(
    f: F,
    a: A,
    b: B,
    c: C,
    d: D,
) -> bool {
    call_requires(f, (a, b, c, d))
}

/// What the closure returns for the four arguments.
pub open spec fn value4<A, B, C, D, R, F: Fn(A, B, C, D) -> R>(f: F, a: A, b: B, c: C, d: D) -> R {
    choose|r: R| call_ensures(f, (a, b, c, d), r)
}

/// The closure has been seen to return `value4(f, a, b, c, d)`.
pub open spec fn answers4<A, B, C, D, R, F: Fn(A, B, C, D) -> R>(
    f: F,
    a: A,
    b: B,
    c: C,
    d: D,
) -> bool {
    call_ensures(f, (a, b, c, d), value4(f, a, b, c, d))
}

/// The same as [`is_function`], for a closure of five arguments.
pub open spec fn is_function5<A, B, C, D, E, R, F: Fn(A, B, C, D, E) -> R>(f: F) -> bool {
    &&& forall|a: A, b: B, c: C, d: D, e: E| #[trigger] call_requires(f, (a, b, c, d, e))
    &&& forall|a: A, b: B, c: C, d: D, e: E, r1: R, r2: R|
        #[trigger] call_ensures(f, (a, b, c, d, e), r1) && #[trigger] call_ensures(
            f,
            (a, b, c, d, e),
            r2,
        ) ==> r1 == r2
}

/// What the closure returns for the five arguments.
pub open spec fn value5<A, B, C, D, E, R, F: Fn(A, B, C, D, E) -> R>(
    f: F,
    a: A,
    b: B,
    c: C,
    d: D,
    e: E,
) -> R {
    choose|r: R| call_ensures(f, (a, b, c, d, e), r)
}

/// The closure has been seen to return `value5(f, a, b, c, d, e)`.
pub open spec fn answers5<A, B, C, D, E, R, F: Fn(A, B, C, D, E) -> R>(
    f: F,
    a: A,
    b: B,
    c: C,
    d: D,
    e: E,
) -> bool {
    call_ensures(f, (a, b, c, d, e), value5(f, a, b, c, d, e))
}

/// Calls the closure of four arguments.
pub fn eval4<A, B, C, D, R, F: Fn(A, B, C, D) -> R>(f: &F, a: A, b: B, c: C, d: D) -> (r: R)
    requires
        is_deterministic4(*f),
        accepts4(*f, a, b, c, d),
    ensures
        r == value4(*f, a, b, c, d),
        answers4(*f, a, b, c, d),
{
    f(a, b, c, d)
}

/// Calls the closure of five arguments.
pub fn eval5<A, B, C, D, E, R, F: Fn(A, B, C, D, E) -> R>(
    f: &F,
    a: A,
    b: B,
    c: C,
    d: D,
    e: E,
) -> (r: R)
    requires
        is_function5(*f),
    ensures
        r == value5(*f, a, b, c, d, e),
        answers5(*f, a, b, c, d, e),
{
    f(a, b, c, d, e)
}

} // verus!
