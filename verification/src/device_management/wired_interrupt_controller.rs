//! Controllers of wired interrupt lines.
use vstd::prelude::*;

use crate::interrupt_routing::{InterruptTarget, WiredIntCtlrId, WiredSource};

verus! {

/// Errors of wired interrupt controllers.
#[derive(Debug, Clone, Copy, PartialEq, Eq, Structural)]
pub enum Error {
    InvalidSource,
    InvalidTarget,
    IdOutOfRange,
}

/// A controller of wired interrupt lines, which routes each of its sources to a target.
pub trait WiredIntCtlr {
    fn num_sources(&self) -> u64;

    fn set_target(&mut self, source: WiredSource, target: InterruptTarget) -> Result<(), Error>;

    fn clear_target(&mut self, source: WiredSource) -> Result<(), Error>;

    fn id(&self) -> WiredIntCtlrId;
}

} // verus!
