//! An early-return helper generalised over result-like types.
//!
//! `Triable` splits a value in two: either the expression value the caller
//! keeps working with, or a value the surrounding function should return at
//! once. Implementations connect `Result`, `Option` and `bool` in every
//! combination a fallible function body may need.
use vstd::prelude::*;
use vstd::std_specs::convert::FromSpec;

verus! {

/// What testing a value for early return yields: the unwrapped expression
/// value, or the value to return from the surrounding function.
pub enum TriableResult<Expr, Return> {
    Expression(Expr),
    EarlyReturn(Return),
}

/// A value that can be tested for early return.
///
/// `branch` either hands back the value to continue with, or the value the
/// surrounding function should return at once. `spec_branch` names that
/// result; `obeys_branch_spec` is `true` wherever the result is fully
/// determined (it is conditional only where an error is converted through
/// `From`, whose own specification may be incomplete).
pub trait Triable<Expr, Return>: Sized {
    /// Whether `spec_branch` fully describes `branch`.
    spec fn obeys_branch_spec() -> bool;

    /// The result of `branch`.
    spec fn spec_branch(self) -> TriableResult<Expr, Return>;

    /// Split the value: continue with the expression value, or return early.
    fn branch(self) -> (r: TriableResult<Expr, Return>)
        ensures
            Self::obeys_branch_spec() ==> r == self.spec_branch(),
    ;
}

/// An `Ok` continues with its value; an `Err` returns early as an `Err` of
/// the converted error.
impl<T1, T2, Err1, Err2> Triable<T1, Result<T2, Err2>> for Result<T1, Err1> where
    Err2: From<Err1>,
 {
    open spec fn obeys_branch_spec() -> bool {
        <Err2 as FromSpec<Err1>>::obeys_from_spec()
    }

    open spec fn spec_branch(self) -> TriableResult<T1, Result<T2, Err2>> {
        match self {
            Ok(value) => TriableResult::Expression(value),
            Err(error) => TriableResult::EarlyReturn(
                Err(<Err2 as FromSpec<Err1>>::from_spec(error)),
            ),
        }
    }

    fn branch(self) -> (r: TriableResult<T1, Result<T2, Err2>>) {
        match self {
            Ok(value) => TriableResult::Expression(value),
            Err(error) => TriableResult::EarlyReturn(Err(From::from(error))),
        }
    }
}

/// A `Some` continues with its value; a `None` returns early as `None`.
impl<T1, T2> Triable<T1, Option<T2>> for Option<T1> {
    open spec fn obeys_branch_spec() -> bool {
        true
    }

    open spec fn spec_branch(self) -> TriableResult<T1, Option<T2>> {
        match self {
            Some(value) => TriableResult::Expression(value),
            None => TriableResult::EarlyReturn(None),
        }
    }

    fn branch(self) -> (r: TriableResult<T1, Option<T2>>) {
        match self {
            Some(value) => TriableResult::Expression(value),
            None => TriableResult::EarlyReturn(None),
        }
    }
}

/// A `Some` continues with its value; a `None` returns early as `Err(())`.
impl<T1, T2> Triable<T1, Result<T2, ()>> for Option<T1> {
    open spec fn obeys_branch_spec() -> bool {
        true
    }

    open spec fn spec_branch(self) -> TriableResult<T1, Result<T2, ()>> {
        match self {
            Some(value) => TriableResult::Expression(value),
            None => TriableResult::EarlyReturn(Err(())),
        }
    }

    fn branch(self) -> (r: TriableResult<T1, Result<T2, ()>>) {
        match self {
            Some(value) => TriableResult::Expression(value),
            None => TriableResult::EarlyReturn(Err(())),
        }
    }
}

/// An `Ok` continues with its value; an `Err(())` returns early as `None`.
impl<T1, T2> Triable<T1, Option<T2>> for Result<T1, ()> {
    open spec fn obeys_branch_spec() -> bool {
        true
    }

    open spec fn spec_branch(self) -> TriableResult<T1, Option<T2>> {
        match self {
            Ok(value) => TriableResult::Expression(value),
            Err(_) => TriableResult::EarlyReturn(None),
        }
    }

    fn branch(self) -> (r: TriableResult<T1, Option<T2>>) {
        match self {
            Ok(value) => TriableResult::Expression(value),
            Err(()) => TriableResult::EarlyReturn(None),
        }
    }
}

/// `true` continues; `false` returns early as `false`.
impl Triable<(), bool> for bool {
    open spec fn obeys_branch_spec() -> bool {
        true
    }

    open spec fn spec_branch(self) -> TriableResult<(), bool> {
        if self {
            TriableResult::Expression(())
        } else {
            TriableResult::EarlyReturn(false)
        }
    }

    fn branch(self) -> (r: TriableResult<(), bool>) {
        if self {
            TriableResult::Expression(())
        } else {
            TriableResult::EarlyReturn(false)
        }
    }
}

/// An `Ok` continues with its value; an `Err(())` returns early as `false`.
impl<T> Triable<T, bool> for Result<T, ()> {
    open spec fn obeys_branch_spec() -> bool {
        true
    }

    open spec fn spec_branch(self) -> TriableResult<T, bool> {
        match self {
            Ok(value) => TriableResult::Expression(value),
            Err(_) => TriableResult::EarlyReturn(false),
        }
    }

    fn branch(self) -> (r: TriableResult<T, bool>) {
        match self {
            Ok(value) => TriableResult::Expression(value),
            Err(()) => TriableResult::EarlyReturn(false),
        }
    }
}

/// A `Some` continues with its value; a `None` returns early as `false`.
impl<T> Triable<T, bool> for Option<T> {
    open spec fn obeys_branch_spec() -> bool {
        true
    }

    open spec fn spec_branch(self) -> TriableResult<T, bool> {
        match self {
            Some(value) => TriableResult::Expression(value),
            None => TriableResult::EarlyReturn(false),
        }
    }

    fn branch(self) -> (r: TriableResult<T, bool>) {
        match self {
            Some(value) => TriableResult::Expression(value),
            None => TriableResult::EarlyReturn(false),
        }
    }
}

/// `true` continues; `false` returns early as `Err(())`.
impl<T> Triable<(), Result<T, ()>> for bool {
    open spec fn obeys_branch_spec() -> bool {
        true
    }

    open spec fn spec_branch(self) -> TriableResult<(), Result<T, ()>> {
        if self {
            TriableResult::Expression(())
        } else {
            TriableResult::EarlyReturn(Err(()))
        }
    }

    fn branch(self) -> (r: TriableResult<(), Result<T, ()>>) {
        if self {
            TriableResult::Expression(())
        } else {
            TriableResult::EarlyReturn(Err(()))
        }
    }
}

/// `true` continues; `false` returns early as `None`.
impl<T> Triable<(), Option<T>> for bool {
    open spec fn obeys_branch_spec() -> bool {
        true
    }

    open spec fn spec_branch(self) -> TriableResult<(), Option<T>> {
        if self {
            TriableResult::Expression(())
        } else {
            TriableResult::EarlyReturn(None)
        }
    }

    fn branch(self) -> (r: TriableResult<(), Option<T>>) {
        if self {
            TriableResult::Expression(())
        } else {
            TriableResult::EarlyReturn(None)
        }
    }
}

} // verus!
