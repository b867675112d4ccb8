//! Adapters turn a benchmark harness's output into results.
use vstd::prelude::*;

verus! {

/// An adapter for one benchmark harness's output format.
pub trait Adapter {
    /// What a successful conversion yields.
    type Results;
    /// Why a conversion failed.
    type Error;

    /// What parsing `input` in this adapter's format yields.
    spec fn parsed(input: Seq<char>) -> Result<Self::Results, Self::Error>;

    /// Converts `input` with this adapter; by default, as `parse` does.
    fn convert(&self, input: &str) -> (converted: Result<Self::Results, Self::Error>)
        default_ensures
            converted == Self::parsed(input@),
    {
        Self::parse(input)
    }

    /// Parses `input` in this adapter's format.
    fn parse(input: &str) -> (parsed: Result<Self::Results, Self::Error>)
        ensures
            parsed == Self::parsed(input@),
    ;
}

/// The adapters that a report can name.
#[derive(Debug, Clone, Copy, PartialEq, Eq, Structural)]
pub enum JsonAdapter {
    /// Detects the format by itself.
    Magic,
    Json,
    Rust,
    RustBench,
    RustCriterion,
    Cpp,
    CppGoogle,
}

impl Default for JsonAdapter {
    fn default() -> (adapter: Self)
        ensures
            adapter == JsonAdapter::Magic,
    {
        JsonAdapter::Magic
    }
}

} // verus!
