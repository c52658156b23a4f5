//! What to launch and what to load into it.

use vstd::prelude::*;

verus! {

/// One launch, as the configuration describes it.
#[derive(Debug)]
pub struct Config {
    /// The program to start.
    pub executable_path: String,
    /// The directory to start it in; the one that holds the program where
    /// none is given.
    pub current_directory: Option<String>,
    /// The libraries to load into it before it runs, in this order.
    pub dependencies: Option<Vec<String>>,
    /// Arguments for the program. They are kept, and not passed on.
    pub args: Option<Vec<String>>,
}

impl Config {
    /// The libraries to load, in order: none where the list is absent.
    pub open spec fn dependency_paths(&self) -> Seq<String> {
        match self.dependencies {
            Some(paths) => paths@,
            None => Seq::empty(),
        }
    }

    /// The number of libraries to load.
    pub fn dependency_count(&self) -> (count: usize)
        ensures
            count == self.dependency_paths().len(),
    {
        match &self.dependencies {
            Some(paths) => paths.len(),
            None => 0,
        }
    }
}

} // verus!
