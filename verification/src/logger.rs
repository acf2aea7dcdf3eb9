//! A logging facade: what the rest of a consensus library asks of a log
//! sink, whatever backend stands behind it.

use std::fmt::Debug;
use vstd::prelude::*;

verus! {

/// Six operations, one for each severity, in ascending urgency. Each takes a
/// message that is already formatted and hands it, with its severity, to the
/// sink. None returns anything, and none fails towards its caller.
pub trait Logger: Send + Sync + Debug {
    fn trace(&self, msg: &str);

    fn debug(&self, msg: &str);

    fn info(&self, msg: &str);

    fn warn(&self, msg: &str);

    fn error(&self, msg: &str);

    /// The most urgent severity. What follows from it is the sink's
    /// policy: this operation returns like the others.
    fn fatal(&self, msg: &str);
}

} // verus!
