use crate::chain::{chain_of, chain_text, outer_message, render_chain, render_outer};
use vstd::prelude::*;
use vstd::string::StringExecFns;

verus! {

/// How much of a failure a boundary error shows.
#[derive(Clone, Copy, Debug, PartialEq, Eq, Structural)]
pub enum ErrorMode {
    /// The whole chain of causes.
    Verbose,
    /// A fixed placeholder in serialized form; no cause text.
    Redacted,
}

/// The mode this build renders and serializes errors in.
pub const BUILD_MODE: ErrorMode = ErrorMode::Verbose;

/// The text that a redacted error serializes to.
pub open spec fn redacted_text() -> Seq<char> {
    "errors disabled in production."@
}

/// What a boundary error over chain `c` displays as in mode `m`: the whole
/// chain when verbose, the outermost message alone when redacted.
pub open spec fn display_text(c: Seq<Seq<char>>, m: ErrorMode) -> Seq<char> {
    match m {
        ErrorMode::Verbose => chain_text(c),
        ErrorMode::Redacted => outer_message(c),
    }
}

/// What a boundary error over chain `c` serializes to in mode `m`: the whole
/// chain when verbose, the fixed placeholder when redacted.
pub open spec fn serialized_text(c: Seq<Seq<char>>, m: ErrorMode) -> Seq<char> {
    match m {
        ErrorMode::Verbose => chain_text(c),
        ErrorMode::Redacted => redacted_text(),
    }
}

/// A chained error that has crossed a command boundary. It renders as a
/// single string, so a host can hand it to its own transport.
#[derive(Debug)]
pub struct TACommandError(pub anyhow::Error);

/// The result type of a command.
pub type TAResult<T> = Result<T, TACommandError>;

impl TACommandError {
    /// The messages of the wrapped error's causes, outermost first.
    pub open spec fn chain(&self) -> Seq<Seq<char>> {
        chain_of(self.0)
    }

    /// The error's text in mode `mode`.
    pub fn to_string_in(&self, mode: ErrorMode) -> (r: String)
        ensures
            r@ == display_text(self.chain(), mode),
    {
        match mode {
            ErrorMode::Verbose => render_chain(&self.0),
            ErrorMode::Redacted => render_outer(&self.0),
        }
    }

    /// The error's text in this build's mode.
    pub fn to_string(&self) -> (r: String)
        ensures
            r@ == display_text(self.chain(), BUILD_MODE),
    {
        self.to_string_in(BUILD_MODE)
    }

    /// The single string that the error serializes to in mode `mode`. A
    /// redacted one holds nothing of the error's own text.
    pub fn serialize_in(&self, mode: ErrorMode) -> (r: String)
        ensures
            r@ == serialized_text(self.chain(), mode),
            mode == ErrorMode::Verbose ==> r@ == chain_text(self.chain()),
            mode == ErrorMode::Redacted ==> r@ == redacted_text(),
    {
        match mode {
            ErrorMode::Verbose => render_chain(&self.0),
            ErrorMode::Redacted => {
                let r = String::from_str("errors disabled in production.");
                proof {
                    reveal_strlit("errors disabled in production.");
                }
                r
            },
        }
    }

    /// The single string that the error serializes to in this build's mode.
    pub fn serialize(&self) -> (r: String)
        ensures
            r@ == serialized_text(self.chain(), BUILD_MODE),
    {
        self.serialize_in(BUILD_MODE)
    }
}

impl From<anyhow::Error> for TACommandError {
    fn from(error: anyhow::Error) -> (r: Self)
        ensures
            r == TACommandError(error),
    {
        TACommandError(error)
    }
}

impl vstd::std_specs::convert::FromSpecImpl<anyhow::Error> for TACommandError {
    open spec fn obeys_from_spec() -> bool {
        true
    }

    open spec fn from_spec(v: anyhow::Error) -> Self {
        TACommandError(v)
    }
}

} // verus!
