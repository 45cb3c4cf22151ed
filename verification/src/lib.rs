//! Lifecycle management for a sidecar backend process.
//!
//! The library holds the decision logic of a small process supervisor: how
//! startup reacts to the data-directory and port checks, which command-line
//! arguments the backend is spawned with, how each line of its output is
//! classified for logging, and how the stored child handle is taken and
//! killed exactly once on shutdown. The surrounding GUI shell performs the
//! actual I/O and feeds the results back into these functions.

pub mod classify;
pub mod supervisor;

use vstd::prelude::*;

verus! {

use vstd::string::StringExecFns;

/// Greeting command exposed on the GUI command bridge.
pub fn greet(name: String) -> (r: String)
    ensures
        r@ == "Hello, "@ + name@ + "! Welcome to Moonsway."@,
{
    let mut s = String::from_str("Hello, ");
    s.append(name.as_str());
    s.append("! Welcome to Moonsway.");
    proof {
        assert(s@ =~= "Hello, "@ + name@ + "! Welcome to Moonsway."@);
    }
    s
}

} // verus!
