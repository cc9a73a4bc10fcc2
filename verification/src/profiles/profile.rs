//! What the profiles of all engines offer.

use vstd::prelude::*;

verus! {

/// The profile of an engine.
pub trait Profile {
    /// The arguments that the engine is started with.
    fn get_args(&self) -> &Vec<&'static str>;
}

/// The engines that there are profiles for.
#[derive(Clone, Copy, Debug, PartialEq, Eq, Structural)]
pub enum ProfileType {
    Spidermonkey,
    Jsc,
    V8,
}

/// The texts of a list of arguments.
pub open spec fn args_view(args: Seq<&'static str>) -> Seq<Seq<char>> {
    args.map_values(|s: &'static str| s@)
}

} // verus!
