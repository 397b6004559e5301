//! Dispatch from a menu entry to its action collaborator.
//!
//! The three actions are opaque collaborators: each is a synchronous
//! `() -> String` call that reports any internal failure as ordinary text
//! in its result. This module only decides which collaborator runs.

use vstd::prelude::*;

use crate::menu::MenuItem;

verus! {

/// Run the action bound to `item`: exactly one of the three collaborators
/// is invoked, and its text result is returned unchanged.
pub fn execute_script<F1, F2, F3>(
    item: &MenuItem,
    single_file_run: F1,
    multi_file_run: F2,
    benchmark: F3,
) -> (r: String) where
    F1: FnOnce() -> String,
    F2: FnOnce() -> String,
    F3: FnOnce() -> String,

    requires
        *item is SingleFileRun ==> call_requires(single_file_run, ()),
        *item is MultiFileRun ==> call_requires(multi_file_run, ()),
        *item is Benchmark ==> call_requires(benchmark, ()),
    ensures
        *item is SingleFileRun ==> call_ensures(single_file_run, (), r),
        *item is MultiFileRun ==> call_ensures(multi_file_run, (), r),
        *item is Benchmark ==> call_ensures(benchmark, (), r),
{
    match item {
        MenuItem::SingleFileRun => single_file_run(),
        MenuItem::MultiFileRun => multi_file_run(),
        MenuItem::Benchmark => benchmark(),
    }
}

} // verus!
