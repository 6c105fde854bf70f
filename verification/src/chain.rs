//! The chain alternatives a host node can be started with, selected by the
//! name given on its command line. Which authorities and which genesis
//! tokens each alternative gets is host configuration, outside this core.

use vstd::prelude::*;

verus! {

/// The chain specification option.
#[derive(Clone, Copy, PartialEq, Eq, Structural, Debug)]
pub enum Alternative {
    /// The current runtime, with a single development authority.
    Development,
    /// The current runtime, with the simple local set of authorities.
    LocalTestnet,
}

/// The alternative a chain name selects: `dev` is the development chain,
/// the empty name and `local` are the local testnet, anything else nothing.
pub open spec fn spec_alternative_from(s: Seq<char>) -> Option<Alternative> {
    if s == "dev"@ {
        Some(Alternative::Development)
    } else if s.len() == 0 || s == "local"@ {
        Some(Alternative::LocalTestnet)
    } else {
        None
    }
}

impl Alternative {
    /// Selects an alternative by chain name.
    pub fn from(s: &str) -> (r: Option<Alternative>)
        ensures
            r == spec_alternative_from(s@),
    {
        if s.to_owned() == "dev".to_owned() {
            Some(Alternative::Development)
        } else if s.is_empty() || s.to_owned() == "local".to_owned() {
            Some(Alternative::LocalTestnet)
        } else {
            None
        }
    }
}

} // verus!
