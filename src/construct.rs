//! Building failures from messages, guarding on conditions, and layering
//! annotations onto the cause chain of a failure.

use vstd::prelude::*;

use crate::report::{
    chain_of, display_of, error_context, error_msg, is_context_of, is_message_error,
};

verus! {

/// An error built from a message: its chain is that one message.
pub fn anyerr(msg: &str) -> (r: anyhow::Error)
    ensures
        is_message_error(r, msg@),
{
    error_msg(msg)
}

/// A failed result built from a message, ready to be returned.
pub fn err<T>(msg: &str) -> (r: anyhow::Result<T>)
    ensures
        r is Err,
        is_message_error(r->Err_0, msg@),
{
    Err(error_msg(msg))
}

/// A guard: success when `cond` holds, otherwise a failure with `msg` alone.
/// Written `ensure(cond, msg)?;`, a false condition leaves the enclosing
/// function at once with that failure.
pub fn ensure(cond: bool, msg: &str) -> (r: anyhow::Result<()>)
    ensures
        cond <==> r is Ok,
        !cond ==> is_message_error(r->Err_0, msg@),
{
    if cond {
        Ok(())
    } else {
        Err(error_msg(msg))
    }
}

/// Annotates a failure with `msg`, keeping its whole chain below the new
/// head; a success is passed through untouched.
pub fn context<T>(result: anyhow::Result<T>, msg: &str) -> (r: anyhow::Result<T>)
    ensures
        result is Ok <==> r is Ok,
        result is Ok ==> r == result,
        result is Err ==> is_context_of(r->Err_0, result->Err_0, msg@),
        result is Err ==> chain_of(r->Err_0).len() == chain_of(result->Err_0).len() + 1,
        result is Err ==> display_of(r->Err_0) == msg@,
{
    match result {
        Ok(v) => Ok(v),
        Err(e) => {
            let c = error_context(e, msg.to_string());
            proof {
                lemma_context_adds_one_link(c, e, msg@);
            }
            Err(c)
        },
    }
}

/// As `context`, with the annotation computed by `f` only when there is a
/// failure to annotate.
pub fn with_context<T, F: FnOnce() -> String>(result: anyhow::Result<T>, f: F) -> (r:
    anyhow::Result<T>)
    requires
        result is Err ==> f.requires(()),
    ensures
        result is Ok <==> r is Ok,
        result is Ok ==> r == result,
        result is Err ==> exists|m: String|
            f.ensures((), m) && is_context_of(r->Err_0, result->Err_0, m@),
{
    match result {
        Ok(v) => Ok(v),
        Err(e) => {
            let m = f();
            Err(error_context(e, m))
        },
    }
}

/// Layering an annotation onto a failure lengthens its chain by exactly one,
/// and the failure then displays the annotation.
pub proof fn lemma_context_adds_one_link(c: anyhow::Error, e: anyhow::Error, m: Seq<char>)
    requires
        is_context_of(c, e, m),
    ensures
        chain_of(c).len() == chain_of(e).len() + 1,
        display_of(c) == m,
        chain_of(c).drop_first() == chain_of(e),
{
    assert(chain_of(c).drop_first() =~= chain_of(e));
}

/// A failure built with `err` and an error built with `anyerr` from the same
/// message display the same text, and have the same chain.
pub proof fn lemma_err_agrees_with_anyerr<T>(r: anyhow::Result<T>, a: anyhow::Error, m: Seq<char>)
    requires
        r is Err,
        is_message_error(r->Err_0, m),
        is_message_error(a, m),
    ensures
        display_of(r->Err_0) == display_of(a),
        display_of(a) == m,
        chain_of(r->Err_0) == chain_of(a),
{
}

} // verus!
