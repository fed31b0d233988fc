use vstd::prelude::*;

verus! {

/// How source maps are emitted.
#[derive(Clone, Copy, Debug, PartialEq, Eq, Structural)]
pub struct Devtool {
    /// Some form of debugging output is asked for.
    pub enabled: bool,
    /// Source maps are generated.
    pub source_map: bool,
}

impl Devtool {
    pub fn enabled(&self) -> (r: bool)
        ensures
            r == self.enabled,
    {
        self.enabled
    }

    pub fn source_map(&self) -> (r: bool)
        ensures
            r == self.source_map,
    {
        self.source_map
    }
}

/// The output options that enter every content hash.
#[derive(Debug)]
pub struct OutputOptions {
    pub hash_salt: Option<String>,
}

/// The options of the compilation that a module reads.
#[derive(Debug)]
pub struct CompilerOptions {
    /// The project root.
    pub context: String,
    pub devtool: Devtool,
    pub output: OutputOptions,
}

} // verus!
