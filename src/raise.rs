use crate::chain::error_from_message;
use crate::convert::IntoTAResult;
use crate::error::{serialized_text, ErrorMode, TACommandError, TAResult};
use vstd::prelude::*;
use vstd::string::StringExecFns;

verus! {

/// Whether `r` is a failure over a fresh error whose only message is `msg`.
pub open spec fn fails_with<T>(r: TAResult<T>, msg: Seq<char>) -> bool {
    r matches Err(b) && b.chain() == seq![msg]
}

/// Whether `r` is a failure over what `err` converts into by `Into`.
pub open spec fn fails_with_error<T, E: Into<anyhow::Error>>(r: TAResult<T>, err: E) -> bool {
    r matches Err(b) && call_ensures(<E as Into<anyhow::Error>>::into, (err,), b.0)
}

/// The message of a failed condition whose source text is `text`.
pub open spec fn condition_message(text: Seq<char>) -> Seq<char> {
    "Condition failed: `"@ + text + "`"@
}

/// Whether `t` occurs in `s` as a contiguous part.
pub open spec fn contains_text(s: Seq<char>, t: Seq<char>) -> bool {
    exists|i: int| 0 <= i && i + t.len() <= s.len() && #[trigger] s.subrange(i, i + t.len()) == t
}

/// Fails with a new error whose message is `msg`. A caller returns the
/// result at once: `return bail(..)`.
pub fn bail<T>(msg: &str) -> (r: TAResult<T>)
    ensures
        fails_with(r, msg@),
{
    error_from_message(msg).into_ta_result()
}

/// Fails with `err`, converted into an `anyhow::Error`.
pub fn bail_error<T, E: Into<anyhow::Error>>(err: E) -> (r: TAResult<T>)
    ensures
        fails_with_error(r, err),
{
    Err::<T, E>(err).into_ta_result()
}

/// Succeeds when `cond` holds, and otherwise fails with a message built
/// from `cond_text`, the condition's source text. A caller passes the
/// result on with `?`.
pub fn ensure(cond: bool, cond_text: &str) -> (r: TAResult<()>)
    ensures
        cond ==> r == Ok::<(), TACommandError>(()),
        !cond ==> fails_with(r, condition_message(cond_text@)),
{
    if cond {
        Ok(())
    } else {
        let mut msg = String::from_str("Condition failed: `");
        msg.append(cond_text);
        msg.append("`");
        error_from_message(msg.as_str()).into_ta_result()
    }
}

/// Succeeds when `cond` holds, and otherwise fails with message `msg`.
pub fn ensure_or(cond: bool, msg: &str) -> (r: TAResult<()>)
    ensures
        cond ==> r == Ok::<(), TACommandError>(()),
        !cond ==> fails_with(r, msg@),
{
    if cond {
        Ok(())
    } else {
        bail(msg)
    }
}

/// Succeeds when `cond` holds, and otherwise fails with `err`, converted
/// into an `anyhow::Error`.
pub fn ensure_or_error<E: Into<anyhow::Error>>(cond: bool, err: E) -> (r: TAResult<()>)
    ensures
        cond ==> r == Ok::<(), TACommandError>(()),
        !cond ==> fails_with_error(r, err),
{
    if cond {
        Ok(())
    } else {
        bail_error(err)
    }
}

/// A failure with message `msg` serializes, in verbose mode, to `msg`
/// itself, so its serialized form contains `msg`.
pub proof fn lemma_bail_serializes_message<T>(msg: Seq<char>, r: TAResult<T>)
    requires
        fails_with(r, msg),
    ensures
        r matches Err(b) && serialized_text(b.chain(), ErrorMode::Verbose) == msg,
        r matches Err(b) && contains_text(serialized_text(b.chain(), ErrorMode::Verbose), msg),
{
    let s = serialized_text(r->Err_0.chain(), ErrorMode::Verbose);
    let k: int = 0;
    assert(s.subrange(k, k + msg.len()) =~= msg);
    assert(contains_text(s, msg));
}

/// A failed condition's serialized form, in verbose mode, contains the
/// condition's source text.
pub proof fn lemma_condition_message_names_condition<T>(text: Seq<char>, r: TAResult<T>)
    requires
        fails_with(r, condition_message(text)),
    ensures
        r matches Err(b) && serialized_text(b.chain(), ErrorMode::Verbose) == condition_message(
            text,
        ),
        r matches Err(b) && contains_text(serialized_text(b.chain(), ErrorMode::Verbose), text),
{
    reveal_strlit("Condition failed: `");
    let s = serialized_text(r->Err_0.chain(), ErrorMode::Verbose);
    assert(s.subrange(19, 19 + text.len() as int) =~= text);
}

} // verus!
