use vstd::prelude::*;

use crate::models::{IpAddress, PollType, ProviderConfig};

verus! {

/// A source of polls: what it is, what it polls, and how it is set up.
/// The fetch itself is I/O and is made by the caller.
pub trait Pollable {
    /// How the provider is set up.
    spec fn config_spec(&self) -> ProviderConfig;

    /// The name the provider was configured under.
    spec fn username_spec(&self) -> Seq<char>;

    fn username(&self) -> (r: String)
        ensures
            r@ == self.username_spec(),
    ;

    fn target(&self) -> (r: IpAddress)
        ensures
            r == self.config_spec().target,
    ;

    fn whoami(&self) -> (r: PollType)
        ensures
            r == self.config_spec().name,
    ;

    fn dump(&self) -> (r: ProviderConfig)
        ensures
            r == self.config_spec(),
    ;
}

} // verus!
