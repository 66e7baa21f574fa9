//! Where the daemon listens and the command line connects.

use vstd::prelude::*;
use vstd::string::*;

verus! {

/// The address used when `BRAIN_ADD` is not set.
pub open spec fn default_brain_address() -> Seq<char> {
    "127.0.0.1:8080"@
}

/// The address of the daemon: the value of `BRAIN_ADD` when it is set,
/// `127.0.0.1:8080` otherwise.
pub fn brain_address(configured: Option<String>) -> (r: String)
    ensures
        r@ == match configured {
            Some(a) => a@,
            None => default_brain_address(),
        },
{
    match configured {
        Some(a) => a,
        None => String::from_str("127.0.0.1:8080"),
    }
}

} // verus!
