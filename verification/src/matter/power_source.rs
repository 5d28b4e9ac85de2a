//! Power Source: the wired source that the inverter is.
use vstd::prelude::*;

use crate::domain::{PvSnapshot, SourceStatus};
use crate::matter::list;
use crate::matter::list::{ConstraintError, ListRead};

verus! {

/// `Order`: the single source of the node, and thus the preferred one.
pub const ORDER: u8 = 0;

/// `Description`.
pub const DESCRIPTION: &'static str = "PV inverter (grid)";

/// `Status`, the one attribute that changes.
pub fn status(snapshot: &PvSnapshot) -> (res: SourceStatus)
    ensures
        res == snapshot.status(),
{
    snapshot.source_status()
}

/// `EndpointList` of a source that powers these endpoints.
pub fn endpoint_list(powered: &[u16], read: ListRead) -> (res: Result<Vec<u16>, ConstraintError>)
    ensures
        read.answered(powered@, res),
{
    list::read_list(powered, read)
}

} // verus!
