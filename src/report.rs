//! The unified error type and its model: the messages of its cause chain.

use vstd::prelude::*;

verus! {

#[verifier::external_type_specification]
#[verifier::external_body]
pub struct ExError(anyhow::Error);

/// The messages of an error's cause chain, outermost first: the text of the
/// error itself, then that of its source, of the source's source, and so on.
pub uninterp spec fn chain_of(e: anyhow::Error) -> Seq<Seq<char>>;

/// What an error displays: the message at the head of its chain.
pub open spec fn display_of(e: anyhow::Error) -> Seq<char> {
    chain_of(e)[0]
}

/// `e` was built from the message `m` alone: its chain is that one message.
pub open spec fn is_message_error(e: anyhow::Error, m: Seq<char>) -> bool {
    chain_of(e) == seq![m]
}

/// `c` is `e` with the annotation `m` layered on top: `m` heads the chain and
/// every link of `e` follows in order.
pub open spec fn is_context_of(c: anyhow::Error, e: anyhow::Error, m: Seq<char>) -> bool {
    chain_of(c) == seq![m] + chain_of(e)
}

/// The views of a sequence of strings.
pub open spec fn views(v: Seq<String>) -> Seq<Seq<char>> {
    v.map_values(|s: String| s@)
}

/// Relies on `anyhow::Error::msg`: the error holds the message as the one
/// link of its chain (a `MessageError` with no source).
#[verifier::external_body]
pub(crate) fn error_msg(m: &str) -> (r: anyhow::Error)
    ensures
        is_message_error(r, m@),
{
    anyhow::Error::msg(m.to_string())
}

/// Relies on `anyhow::Error::context`: the new head displays the annotation,
/// and its source is the head of the old chain.
#[verifier::external_body]
pub(crate) fn error_context(e: anyhow::Error, m: String) -> (r: anyhow::Error)
    ensures
        is_context_of(r, e, m@),
{
    e.context(m)
}

/// Relies on `anyhow::Error::chain`: it visits the error itself, then each
/// source in turn; each link is turned into its displayed text.
#[verifier::external_body]
pub(crate) fn error_chain(e: &anyhow::Error) -> (r: Vec<String>)
    ensures
        views(r@) == chain_of(*e),
        r@.len() >= 1,
{
    e.chain().map(|c| c.to_string()).collect()
}

/// Relies on the `Display` impl of `anyhow::Error`: without the alternate
/// flag it writes the head of the chain alone.
#[verifier::external_body]
pub(crate) fn error_display(e: &anyhow::Error) -> (r: String)
    ensures
        r@ == display_of(*e),
{
    e.to_string()
}

/// The messages of the cause chain, outermost first. There is always at
/// least one: the error's own.
pub fn messages(e: &anyhow::Error) -> (r: Vec<String>)
    ensures
        views(r@) == chain_of(*e),
        r@.len() >= 1,
{
    error_chain(e)
}

/// The message that the error displays: the head of its chain.
pub fn message(e: &anyhow::Error) -> (r: String)
    ensures
        r@ == display_of(*e),
        r@ == chain_of(*e)[0],
{
    error_display(e)
}

} // verus!
