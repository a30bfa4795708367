use vstd::prelude::*;

mod sql_mutations;

pub use self::sql_mutations::SqlMutator;

verus! {

/// A generator of new inputs from existing ones, with a cheap plausibility
/// filter.
pub trait Mutator {
    /// The inputs that `is_valid` accepts.
    spec fn accepts(&self, input: Seq<u8>) -> bool;

    /// `output` is one of the results that `mutate` may give for `input`.
    spec fn may_produce(&self, input: Seq<u8>, output: Seq<u8>) -> bool;

    fn mutate(&self, input: &[u8]) -> (r: Vec<u8>)
        ensures
            self.may_produce(input@, r@),
    ;

    fn is_valid(&self, input: &[u8]) -> (r: bool)
        ensures
            r == self.accepts(input@),
    ;
}

} // verus!
