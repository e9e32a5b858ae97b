//! A layout-stable, two-variant tagged result: a discriminant tag plus a
//! payload that holds either a success value or a failure value, meant as a
//! drop-in counterpart to the language's native result type for use across
//! module boundaries. Every operation keeps the single invariant of the type:
//! the tag always names the variant that the payload currently holds.

use vstd::prelude::*;

pub mod laws;

verus! {

use vstd::std_specs::cmp::PartialEqSpec;

/// The discriminant: which of the two variants is live.
#[derive(Debug, Clone, Copy, PartialEq, Eq, Hash, Structural)]
pub enum ResultKind {
    Success,
    Failure,
}

/// The payload: exactly one of the two variants is present.
#[derive(Debug)]
pub enum ResultData<T, E> {
    Success(T),
    Failure(E),
}

/// Tagged result with a stable shape: a discriminant followed by the payload.
/// Convertible to and from `core::result::Result` without loss.
#[derive(Debug)]
pub struct Result<T, E> {
    kind: ResultKind,
    data: ResultData<T, E>,
}

/// The native result that a payload stands for.
pub open spec fn native_of_data<T, E>(d: ResultData<T, E>) -> core::result::Result<T, E> {
    match d {
        ResultData::Success(t) => core::result::Result::Ok(t),
        ResultData::Failure(e) => core::result::Result::Err(e),
    }
}

/// The payload that holds a native result's value.
pub open spec fn data_of_native<T, E>(r: core::result::Result<T, E>) -> ResultData<T, E> {
    match r {
        core::result::Result::Ok(t) => ResultData::Success(t),
        core::result::Result::Err(e) => ResultData::Failure(e),
    }
}

impl<T, E> View for Result<T, E> {
    type V = core::result::Result<T, E>;

    closed spec fn view(&self) -> core::result::Result<T, E> {
        native_of_data(self.data)
    }
}

impl<T, E> Result<T, E> {
    /// The one invariant of the whole type: the discriminant names the
    /// variant that the payload holds.
    #[verifier::type_invariant]
    spec fn wf(self) -> bool {
        (self.kind == ResultKind::Success) == (self.data is Success)
    }

    /// Builds the success variant holding `t`.
    pub fn new_ok(t: T) -> (r: Self)
        ensures
            r@ == core::result::Result::<T, E>::Ok(t),
    {
        Result { kind: ResultKind::Success, data: ResultData::Success(t) }
    }

    /// Builds the failure variant holding `e`.
    pub fn new_err(e: E) -> (r: Self)
        ensures
            r@ == core::result::Result::<T, E>::Err(e),
    {
        Result { kind: ResultKind::Failure, data: ResultData::Failure(e) }
    }

    /// True exactly when the success variant is live.
    pub fn is_ok(&self) -> (b: bool)
        ensures
            b == (self@ is Ok),
    {
        proof {
            use_type_invariant(&*self);
        }
        self.kind == ResultKind::Success
    }

    /// True exactly when the failure variant is live.
    pub fn is_err(&self) -> (b: bool)
        ensures
            b == (self@ is Err),
    {
        proof {
            use_type_invariant(&*self);
        }
        self.kind == ResultKind::Failure
    }

    /// Read-only access to the discriminant.
    pub fn kind(&self) -> (k: &ResultKind)
        ensures
            *k == (if self@ is Ok { ResultKind::Success } else { ResultKind::Failure }),
    {
        proof {
            use_type_invariant(&*self);
        }
        &self.kind
    }

    /// Read-only access to the payload.
    pub fn data(&self) -> (d: &ResultData<T, E>)
        ensures
            *d == data_of_native(self@),
    {
        &self.data
    }

    /// A tagged result of the same shape whose payload borrows this one's
    /// live value; the original keeps ownership.
    pub fn as_ref(&self) -> (r: Result<&T, &E>)
        ensures
            match self@ {
                core::result::Result::Ok(t) => r@ matches core::result::Result::Ok(rt)
                    && *rt == t,
                core::result::Result::Err(e) => r@ matches core::result::Result::Err(re)
                    && *re == e,
            },
    {
        match &self.data {
            ResultData::Success(t) => Result {
                kind: ResultKind::Success,
                data: ResultData::Success(t),
            },
            ResultData::Failure(e) => Result {
                kind: ResultKind::Failure,
                data: ResultData::Failure(e),
            },
        }
    }

    /// Consumes the tagged result: hands the success value out, or destroys
    /// the failure value and reports absence.
    pub fn ok(self) -> (o: Option<T>)
        ensures
            match self@ {
                core::result::Result::Ok(t) => o == Option::Some(t),
                core::result::Result::Err(_) => o is None,
            },
    {
        match self.data {
            ResultData::Success(t) => Option::Some(t),
            ResultData::Failure(_) => Option::None,
        }
    }

    /// Consumes the tagged result: hands the failure value out, or destroys
    /// the success value and reports absence.
    pub fn err(self) -> (o: Option<E>)
        ensures
            match self@ {
                core::result::Result::Ok(_) => o is None,
                core::result::Result::Err(e) => o == Option::Some(e),
            },
    {
        match self.data {
            ResultData::Success(_) => Option::None,
            ResultData::Failure(e) => Option::Some(e),
        }
    }

    /// Moves the live payload into the native result type, consuming self.
    pub fn into_result(self) -> (r: core::result::Result<T, E>)
        ensures
            r == self@,
    {
        match self.data {
            ResultData::Success(t) => core::result::Result::Ok(t),
            ResultData::Failure(e) => core::result::Result::Err(e),
        }
    }

    /// Builds the tagged result that holds a native result's value.
    pub fn from_result(result: core::result::Result<T, E>) -> (r: Self)
        ensures
            r@ == result,
    {
        match result {
            core::result::Result::Ok(t) => Self::new_ok(t),
            core::result::Result::Err(e) => Self::new_err(e),
        }
    }

    /// Applies `op` to the success value and leaves a failure untouched,
    /// round-tripping through the native form.
    pub fn map<T2, F: FnOnce(T) -> T2>(self, op: F) -> (r: Result<T2, E>)
        requires
            self@ matches core::result::Result::Ok(t) ==> call_requires(op, (t,)),
        ensures
            self@ matches core::result::Result::Ok(t) ==> (r@ matches core::result::Result::Ok(t2)
                && call_ensures(op, (t,), t2)),
            self@ matches core::result::Result::Err(e) ==> r@ == core::result::Result::<
                T2,
                E,
            >::Err(e),
    {
        match self.into_result() {
            core::result::Result::Ok(t) => Result::new_ok(op(t)),
            core::result::Result::Err(e) => Result::new_err(e),
        }
    }

    /// Applies `op` to the failure value and leaves a success untouched,
    /// round-tripping through the native form.
    pub fn map_err<E2, F: FnOnce(E) -> E2>(self, op: F) -> (r: Result<T, E2>)
        requires
            self@ matches core::result::Result::Err(e) ==> call_requires(op, (e,)),
        ensures
            self@ matches core::result::Result::Err(e) ==> (r@ matches core::result::Result::Err(
                e2,
            ) && call_ensures(op, (e,), e2)),
            self@ matches core::result::Result::Ok(t) ==> r@ == core::result::Result::<
                T,
                E2,
            >::Ok(t),
    {
        match self.into_result() {
            core::result::Result::Ok(t) => Result::new_ok(t),
            core::result::Result::Err(e) => Result::new_err(op(e)),
        }
    }
}

impl<T: core::fmt::Debug, E> Result<T, E> {
    /// Hands the failure value out; calling this on the success variant is a
    /// contract violation, fatal at runtime and ruled out here.
    pub fn unwrap_err(self) -> (e: E)
        requires
            self@ is Err,
        ensures
            self@ == core::result::Result::<T, E>::Err(e),
    {
        match self.into_result() {
            core::result::Result::Ok(_) => unreached(),
            core::result::Result::Err(e) => e,
        }
    }

    /// As `unwrap_err`, with a caller-supplied diagnostic for the fatal case.
    pub fn expect_err(self, msg: &str) -> (e: E)
        requires
            self@ is Err,
        ensures
            self@ == core::result::Result::<T, E>::Err(e),
    {
        let _ = msg;
        match self.into_result() {
            core::result::Result::Ok(_) => unreached(),
            core::result::Result::Err(e) => e,
        }
    }
}

impl<T, E: core::fmt::Debug> Result<T, E> {
    /// Hands the success value out; calling this on the failure variant is a
    /// contract violation, fatal at runtime and ruled out here.
    pub fn unwrap(self) -> (t: T)
        requires
            self@ is Ok,
        ensures
            self@ == core::result::Result::<T, E>::Ok(t),
    {
        match self.into_result() {
            core::result::Result::Ok(t) => t,
            core::result::Result::Err(_) => unreached(),
        }
    }

    /// As `unwrap`, with a caller-supplied diagnostic for the fatal case.
    pub fn expect(self, msg: &str) -> (t: T)
        requires
            self@ is Ok,
        ensures
            self@ == core::result::Result::<T, E>::Ok(t),
    {
        let _ = msg;
        match self.into_result() {
            core::result::Result::Ok(t) => t,
            core::result::Result::Err(_) => unreached(),
        }
    }
}

impl<T: Clone, E: Clone> Clone for Result<T, E> {
    /// Copies the discriminant and clones only the live payload value.
    fn clone(&self) -> (r: Self)
        ensures
            (r@ is Ok) == (self@ is Ok),
            r@ matches core::result::Result::Ok(t) ==> cloned::<T>(self@->Ok_0, t),
            r@ matches core::result::Result::Err(e) ==> cloned::<E>(self@->Err_0, e),
    {
        match &self.data {
            ResultData::Success(t) => Result {
                kind: ResultKind::Success,
                data: ResultData::Success(t.clone()),
            },
            ResultData::Failure(e) => Result {
                kind: ResultKind::Failure,
                data: ResultData::Failure(e.clone()),
            },
        }
    }
}

impl<T: PartialEq, E: PartialEq> PartialEq for Result<T, E> {
    /// Equal exactly when the discriminants match and the live payload
    /// values compare equal; cross-variant comparison is false, never fatal.
    fn eq(&self, other: &Self) -> (r: bool) {
        match (&self.data, &other.data) {
            (ResultData::Success(a), ResultData::Success(b)) => a == b,
            (ResultData::Failure(a), ResultData::Failure(b)) => a == b,
            _ => false,
        }
    }
}

impl<T: PartialEq, E: PartialEq> vstd::std_specs::cmp::PartialEqSpecImpl for Result<T, E> {
    open spec fn obeys_eq_spec() -> bool {
        T::obeys_eq_spec() && E::obeys_eq_spec()
    }

    open spec fn eq_spec(&self, other: &Self) -> bool {
        match (self@, other@) {
            (core::result::Result::Ok(a), core::result::Result::Ok(b)) => a.eq_spec(&b),
            (core::result::Result::Err(a), core::result::Result::Err(b)) => a.eq_spec(&b),
            _ => false,
        }
    }
}

} // verus!
