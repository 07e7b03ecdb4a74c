//! Bringing errors of other types into the unified form: a result whose error
//! is of some concrete type, or a boxed error from another error-handling crate.

use vstd::prelude::*;
use vstd::string::to_string_from_display_ensures;

use crate::report::{chain_of, display_of};

verus! {

/// The head of the chain `c` is what `e` displays: `c` has a head, every text
/// that `e.to_string()` gives is that head, and there is such a text.
pub open spec fn heads_with<E: core::fmt::Display>(c: Seq<Seq<char>>, e: E) -> bool {
    &&& c.len() >= 1
    &&& forall|s: String| #[trigger]
        to_string_from_display_ensures::<E>(&e, s) ==> c[0] == s@
    &&& exists|s: String| to_string_from_display_ensures::<E>(&e, s)
}

/// `w` wraps the error value `e` as the head of its chain, so `w` displays
/// exactly what `e` displays.
pub open spec fn wraps<E: core::fmt::Display>(w: anyhow::Error, e: E) -> bool {
    heads_with(chain_of(w), e)
}

/// Relies on `anyhow::Error::new`: the error value itself becomes the head of
/// the chain, and the error displays the head alone.
#[verifier::external_body]
fn error_new<E: std::error::Error + core::fmt::Display + Send + Sync + 'static>(e: E) -> (r:
    anyhow::Error)
    ensures
        wraps(r, e),
{
    anyhow::Error::new(e)
}

/// Turns the error of `result`, if any, into the unified error type; a success
/// is passed through untouched.
pub fn wrap_err<T, E: std::error::Error + core::fmt::Display + Send + Sync + 'static>(
    result: Result<T, E>,
) -> (r: anyhow::Result<T>)
    ensures
        result is Ok <==> r is Ok,
        result is Ok ==> r == Ok::<T, anyhow::Error>(result->Ok_0),
        result is Err ==> wraps(r->Err_0, result->Err_0),
{
    match result {
        Ok(v) => Ok(v),
        Err(e) => Err(error_new(e)),
    }
}

/// A boxed, thread-safe error of any type, as other error-handling crates
/// hand their errors out.
#[verifier::external_body]
pub struct BoxedError {
    pub inner: Box<dyn std::error::Error + Send + Sync + 'static>,
}

/// The messages of a boxed error's chain: the text of the boxed error, then
/// that of each `source()` in turn.
pub uninterp spec fn boxed_chain_of(b: BoxedError) -> Seq<Seq<char>>;

/// Relies on `Box::new` and the coercion to a trait object: the box holds `e`
/// itself, so its chain starts with what `e` displays.
#[verifier::external_body]
fn box_error<E: std::error::Error + core::fmt::Display + Send + Sync + 'static>(e: E) -> (r:
    BoxedError)
    ensures
        heads_with(boxed_chain_of(r), e),
{
    BoxedError { inner: Box::new(e) }
}

/// Relies on `anyhow::Error::from_boxed`: the box is kept as it is, and its
/// display and sources are passed through unchanged.
#[verifier::external_body]
fn error_from_boxed(b: BoxedError) -> (r: anyhow::Error)
    ensures
        chain_of(r) == boxed_chain_of(b),
{
    anyhow::Error::from_boxed(b.inner)
}

impl BoxedError {
    /// Boxes an error value.
    pub fn new<E: std::error::Error + core::fmt::Display + Send + Sync + 'static>(e: E) -> (r:
        BoxedError)
        ensures
            heads_with(boxed_chain_of(r), e),
    {
        box_error(e)
    }
}

/// Turns a boxed error into the unified error type, keeping its message and
/// every link of its chain.
pub fn from_boxed_error(boxed_err: BoxedError) -> (r: anyhow::Error)
    ensures
        chain_of(r) == boxed_chain_of(boxed_err),
        chain_of(r).len() == boxed_chain_of(boxed_err).len(),
{
    error_from_boxed(boxed_err)
}

/// A failure passed through `wrap_err` displays exactly what the error value
/// displays: any text that `e.to_string()` gives.
pub proof fn lemma_wrap_err_keeps_message<T, E: core::fmt::Display>(
    result: Result<T, E>,
    r: anyhow::Result<T>,
    s: String,
)
    requires
        result is Err,
        result is Err ==> wraps(r->Err_0, result->Err_0),
        result is Ok <==> r is Ok,
        to_string_from_display_ensures::<E>(&result->Err_0, s),
    ensures
        r is Err,
        display_of(r->Err_0) == s@,
{
}

/// Converting an error value directly, or boxing it and converting the box,
/// gives errors that display the same text.
pub proof fn lemma_boxing_keeps_message<E: core::fmt::Display>(
    e: E,
    w: anyhow::Error,
    b: BoxedError,
    x: anyhow::Error,
)
    requires
        wraps(w, e),
        heads_with(boxed_chain_of(b), e),
        chain_of(x) == boxed_chain_of(b),
    ensures
        display_of(w) == display_of(x),
{
    let s = choose|s: String| to_string_from_display_ensures::<E>(&e, s);
    assert(chain_of(w)[0] == s@);
    assert(boxed_chain_of(b)[0] == s@);
}

/// Two errors that wrap the same error value display the same text, whether
/// the value was turned into an error or into a failed result.
pub proof fn lemma_wrapped_values_agree<E: core::fmt::Display>(e: E, a: anyhow::Error, b: anyhow::Error)
    requires
        wraps(a, e),
        wraps(b, e),
    ensures
        display_of(a) == display_of(b),
{
    let s = choose|s: String| to_string_from_display_ensures::<E>(&e, s);
    assert(chain_of(a)[0] == s@);
    assert(chain_of(b)[0] == s@);
}

/// Converting a boxed error keeps the depth of its chain: a box whose error
/// has `n` links in its chain gives an error with `n` links.
pub proof fn lemma_boxing_keeps_depth(b: BoxedError, x: anyhow::Error, n: nat)
    requires
        boxed_chain_of(b).len() == n,
        chain_of(x) == boxed_chain_of(b),
    ensures
        chain_of(x).len() == n,
{
}

} // verus!
