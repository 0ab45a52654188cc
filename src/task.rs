use vstd::prelude::*;

verus! {

/// A caller-level error that was reported and is handed on, with the
/// original error kept as its payload.
pub struct ApplicationError<E> {
    pub original: E,
}

impl<E> ApplicationError<E> {
    /// Wraps a reported error.
    pub fn new(original: E) -> (r: ApplicationError<E>)
        ensures
            r.original == original,
    {
        ApplicationError { original }
    }
}

/// Passes a value through and wraps a failure as an application error.
pub fn into_application_result<T, E>(r: Result<T, E>) -> (o: Result<T, ApplicationError<E>>)
    ensures
        match r {
            Ok(v) => o == Ok::<T, ApplicationError<E>>(v),
            Err(e) => o matches Err(a) && a.original == e,
        },
{
    match r {
        Ok(v) => Ok(v),
        Err(e) => Err(ApplicationError::new(e)),
    }
}

/// What to do once a unit of work run on its own task has ended.
pub enum Settlement<T, E, J> {
    /// It succeeded: hand its value back unchanged.
    Deliver(T),
    /// It failed: report the error once, then hand it back.
    ReportAndFail(E),
    /// It crashed: report the crash once, then crash the caller too.
    ReportAndPanic(J),
}

/// The settlement owed for how a task ended: `Ok` holds the work's own
/// result, `Err` the crash that ended it.
pub open spec fn settled<T, E, J>(joined: Result<Result<T, E>, J>) -> Settlement<T, E, J> {
    match joined {
        Ok(Ok(v)) => Settlement::Deliver(v),
        Ok(Err(e)) => Settlement::ReportAndFail(e),
        Err(j) => Settlement::ReportAndPanic(j),
    }
}

/// How many events a settlement reports.
pub open spec fn reports_of<T, E, J>(s: Settlement<T, E, J>) -> nat {
    match s {
        Settlement::Deliver(_) => 0,
        Settlement::ReportAndFail(_) => 1,
        Settlement::ReportAndPanic(_) => 1,
    }
}

/// Decides what follows the end of a task.
pub fn settle<T, E, J>(joined: Result<Result<T, E>, J>) -> (s: Settlement<T, E, J>)
    ensures
        s == settled(joined),
{
    match joined {
        Ok(Ok(v)) => Settlement::Deliver(v),
        Ok(Err(e)) => Settlement::ReportAndFail(e),
        Err(j) => Settlement::ReportAndPanic(j),
    }
}

/// A success comes back unchanged and reports nothing; a failure comes back
/// as the same error, reported once; a crash is reported once and crashes
/// the caller.
pub proof fn lemma_settle_reports_once<T, E, J>(joined: Result<Result<T, E>, J>)
    ensures
        joined matches Ok(Ok(v)) ==> settled(joined) == Settlement::<T, E, J>::Deliver(v)
            && reports_of(settled(joined)) == 0,
        joined matches Ok(Err(e)) ==> settled(joined) == Settlement::<T, E, J>::ReportAndFail(e)
            && reports_of(settled(joined)) == 1,
        joined matches Err(j) ==> settled(joined) == Settlement::<T, E, J>::ReportAndPanic(j)
            && reports_of(settled(joined)) == 1,
{
}

} // verus!
