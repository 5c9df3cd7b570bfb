use vstd::prelude::*;

verus! {

#[verifier::external_type_specification]
#[verifier::external_body]
pub struct ExIoError(std::io::Error);

#[verifier::external_type_specification]
pub struct ExIoErrorKind(std::io::ErrorKind);

pub uninterp spec fn kind_of(e: std::io::Error) -> std::io::ErrorKind;

pub assume_specification[ std::io::Error::kind ](e: &std::io::Error) -> (r: std::io::ErrorKind)
    ensures
        r == kind_of(*e),
;

pub open spec fn is_broken_pipe(e: std::io::Error) -> bool {
    kind_of(e) == std::io::ErrorKind::BrokenPipe
}

/// The outcome of a rewritten function, given the outcome of its original
/// body: success without payload, unless the body failed with anything other
/// than a broken pipe, in which case that same failure.
pub open spec fn filtered<T>(res: std::io::Result<T>) -> std::io::Result<()> {
    match res {
        Ok(_) => Ok(()),
        Err(e) => if is_broken_pipe(e) {
            Ok(())
        } else {
            Err(e)
        },
    }
}

/// Turns the outcome of a function body into the outcome of the rewritten
/// function: a broken pipe means the reader went away, which is no failure.
pub fn suppress_broken_pipe<T>(res: std::io::Result<T>) -> (r: std::io::Result<()>)
    ensures
        r == filtered(res),
{
    match res {
        Ok(_) => Ok(()),
        Err(e) => match e.kind() {
            std::io::ErrorKind::BrokenPipe => Ok(()),
            _ => Err(e),
        },
    }
}

/// A body that fails with a broken pipe makes the rewritten function succeed.
pub proof fn lemma_broken_pipe_is_success<T>(res: std::io::Result<T>)
    requires
        res matches Err(e) && is_broken_pipe(e),
    ensures
        filtered(res) == Ok::<(), std::io::Error>(()),
{
}

/// A body that fails with any other kind of failure makes the rewritten
/// function fail with that same failure, unchanged.
pub proof fn lemma_other_failure_is_kept<T>(res: std::io::Result<T>)
    requires
        res matches Err(e) && !is_broken_pipe(e),
    ensures
        filtered(res) == Err::<(), std::io::Error>(res->Err_0),
{
}

/// A body that succeeds makes the rewritten function succeed, whatever the
/// payload was.
pub proof fn lemma_success_drops_payload<T>(res: std::io::Result<T>)
    requires
        res is Ok,
    ensures
        filtered(res) == Ok::<(), std::io::Error>(()),
{
}

/// Filtering an outcome that was already filtered changes nothing.
pub proof fn lemma_filter_idempotent<T>(res: std::io::Result<T>)
    ensures
        filtered(filtered(res)) == filtered(res),
{
}

} // verus!
