//! Example commands: what a host registers, built on the library.

use crate::chain::{chain_of, error_from_message};
use crate::convert::{IntoEmptyTAResult, IntoTAResult};
use crate::error::{TACommandError, TAResult};
use crate::raise::{bail, condition_message, ensure, fails_with};
use vstd::prelude::*;
use vstd::string::StringExecFns;

verus! {

/// An operation that always fails, with message
/// "Simulating a possible throw".
pub fn function_that_throws() -> (r: Result<(), anyhow::Error>)
    ensures
        r matches Err(e) && chain_of(e) == seq!["Simulating a possible throw"@],
{
    Err(error_from_message("Simulating a possible throw"))
}

/// An operation that always succeeds, with "this function succeeds".
pub fn function_that_succeeds() -> (r: Result<String, anyhow::Error>)
    ensures
        r matches Ok(s) && s@ == "this function succeeds"@,
{
    Ok(String::from_str("this function succeeds"))
}

/// A command that succeeds without any conversion.
pub fn test() -> (r: TAResult<String>)
    ensures
        r matches Ok(s) && s@ == "No error thrown."@,
{
    Ok(String::from_str("No error thrown."))
}

/// A command that passes a successful operation's value through.
pub fn test_anyhow_success() -> (r: TAResult<String>)
    ensures
        r matches Ok(s) && s@ == "this function succeeds"@,
{
    function_that_succeeds().into_ta_result()
}

/// A command whose operation fails: the failure is returned and the rest of
/// the command does not run.
pub fn test_throw() -> (r: TAResult<String>)
    ensures
        fails_with(r, "Simulating a possible throw"@),
{
    if let Err(e) = function_that_throws() {
        return Err(TACommandError::from(e));
    }
    Ok(String::from_str("this should never trigger"))
}

/// A command that turns errors held outright into failed results.
pub fn test_pure_err_conversion() -> (r: TAResult<String>)
    ensures
        fails_with(r, "Showcase of the .into_ta_result()"@),
{
    let _some_empty_err = error_from_message("some err").into_ta_empty_result();
    error_from_message("Showcase of the .into_ta_result()").into_ta_result()
}

/// A command that fails with a message of its own.
pub fn test_bail() -> (r: TAResult<String>)
    ensures
        fails_with(r, "Showcase of the .bail!()"@),
{
    bail("Showcase of the .bail!()")
}

/// A command whose condition does not hold: it fails naming the condition,
/// and the rest of the command does not run.
pub fn test_ensure() -> (r: TAResult<String>)
    ensures
        fails_with(r, "Condition failed: `1 == 2`"@),
{
    if let Err(e) = ensure(1 == 2, "1 == 2") {
        proof {
            reveal_strlit("Condition failed: `");
            reveal_strlit("1 == 2");
            reveal_strlit("`");
            reveal_strlit("Condition failed: `1 == 2`");
        }
        assert(condition_message("1 == 2"@) =~= "Condition failed: `1 == 2`"@);
        return Err(e);
    }
    Ok(String::from_str("this should never trigger"))
}

} // verus!
