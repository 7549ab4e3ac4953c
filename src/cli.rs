//! Command-line arguments of the controller.
use vstd::prelude::*;

verus! {

/// The controller's command-line arguments.
#[derive(Debug)]
pub struct Args {
    /// Path of the configuration file.
    pub config: Option<String>,
}

} // verus!
