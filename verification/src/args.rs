use vstd::prelude::*;

verus! {

/// A parsed command line: exactly one action per invocation.
#[derive(Clone, Debug, PartialEq, Eq)]
pub struct Args {
    pub action: Action,
}

/// The operations the command line exposes. A missing `version` is
/// supplied as the "latest" sentinel before an action is built.
#[derive(Clone, Debug, PartialEq, Eq)]
pub enum Action {
    Create { name: String, version: String },
    Launch { name: String },
    List,
    Remove { name: String },
    Update { name: String, version: String },
    Versions,
}

} // verus!
