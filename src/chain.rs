use vstd::prelude::*;

verus! {

#[verifier::external_type_specification]
#[verifier::external_body]
pub struct ExAnyhowError(anyhow::Error);

/// The messages of an error's causes, outermost first: the error itself,
/// then its source, then that one's source, and so on.
pub uninterp spec fn chain_of(e: anyhow::Error) -> Seq<Seq<char>>;

/// The messages of a chain joined by `": "`, outermost first.
pub open spec fn chain_text(c: Seq<Seq<char>>) -> Seq<char>
    decreases c.len(),
{
    if c.len() == 0 {
        seq![]
    } else if c.len() == 1 {
        c[0]
    } else {
        c[0] + ": "@ + chain_text(c.drop_first())
    }
}

/// The message of the outermost error of a chain.
pub open spec fn outer_message(c: Seq<Seq<char>>) -> Seq<char> {
    if c.len() == 0 {
        seq![]
    } else {
        c[0]
    }
}

/// Relies on `anyhow::Error::msg`: the error it builds from a `String` has
/// no source, and displays as that string.
#[verifier::external_body]
pub(crate) fn error_from_message(msg: &str) -> (r: anyhow::Error)
    ensures
        chain_of(r) == seq![msg@],
{
    anyhow::Error::msg(msg.to_string())
}

/// Relies on anyhow's alternate `Display` (`{:#}`): the error's own message,
/// then `": "` and the message of each further cause of `Error::chain`.
#[verifier::external_body]
pub(crate) fn render_chain(e: &anyhow::Error) -> (r: String)
    ensures
        r@ == chain_text(chain_of(*e)),
{
    format!("{:#}", e)
}

/// Relies on anyhow's plain `Display` (`{}`): the outermost error's message
/// alone.
#[verifier::external_body]
pub(crate) fn render_outer(e: &anyhow::Error) -> (r: String)
    ensures
        r@ == outer_message(chain_of(*e)),
{
    format!("{}", e)
}

} // verus!
