//! The interface that every template engine of the benchmark implements.
use vstd::prelude::*;

use crate::data::BigTable;
use crate::data::Teams;
use crate::output::Output;

verus! {

/// A template engine set up to render the two pages of the benchmark.
pub trait Benchmark: Default + Sized {
    /// The buffer the engine renders into.
    type Output: Output;

    /// What a failed rendering reports.
    type Error;

    /// Holds of an engine whose renderings never fail.
    spec fn never_fails() -> bool;

    /// The bytes of the output after rendering `table` into an output that
    /// held `before`.
    spec fn big_table_written(before: Seq<u8>, table: Seq<Seq<usize>>) -> Seq<u8>;

    /// The bytes of the output after rendering `teams` into an output that
    /// held `before`.
    spec fn teams_written(before: Seq<u8>, teams: (u16, Seq<(Seq<char>, u8)>)) -> Seq<u8>;

    /// Renders the big-table page into `output`.
    fn big_table(&mut self, output: &mut Self::Output, input: &BigTable) -> (r: Result<
        (),
        Self::Error,
    >)
        ensures
            Self::never_fails() ==> r is Ok,
            r is Ok ==> final(output).written() == Self::big_table_written(
                old(output).written(),
                input@,
            ),
    ;

    /// Renders the teams page into `output`.
    fn teams(&mut self, output: &mut Self::Output, input: &Teams) -> (r: Result<(), Self::Error>)
        ensures
            Self::never_fails() ==> r is Ok,
            r is Ok ==> final(output).written() == Self::teams_written(
                old(output).written(),
                input@,
            ),
    ;
}

} // verus!
