//! Commands of the developer command line.

use vstd::prelude::*;

verus! {

/// Fixture management commands.
#[derive(Debug, Clone)]
pub enum FixtureAction {
    /// List available fixtures
    List,
    /// Generate a fixture file
    Generate {
        /// Fixture type: successful, failed, refunded
        kind: String,
        /// Amount in minor units
        amount: i64,
        /// Currency code
        currency: String,
        /// Output file path
        output: Option<String>,
    },
    /// Replay a fixture file
    Replay {
        /// Path to the fixture JSON file
        path: String,
    },
}

} // verus!
