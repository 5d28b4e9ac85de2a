//! Descriptor extensions: the parts of a composed endpoint, and semantic tags.
use vstd::prelude::*;

use crate::matter::list;
use crate::matter::list::{ConstraintError, ListRead};

verus! {

/// Power Source namespace and its Grid tag, mandatory on the Power Source
/// endpoint of a Solar Power device.
pub const POWER_SOURCE_NAMESPACE: u8 = 0x0F;

pub const POWER_SOURCE_TAG_GRID: u8 = 0x01;

/// Common Location namespace and its Inside tag, for a sensor that is located
/// inside the equipment.
pub const COMMON_LOCATION_NAMESPACE: u8 = 0x06;

pub const COMMON_LOCATION_TAG_INSIDE: u8 = 0x02;

/// A Descriptor `SemanticTagStruct`.
#[derive(Debug, Clone, Copy, PartialEq, Eq)]
pub struct SemanticTag {
    /// The manufacturer of a namespace that is not a standard one.
    pub mfg_code: Option<u16>,
    pub namespace_id: u8,
    pub tag: u8,
    pub label: Option<&'static str>,
}

/// `TagList` of an endpoint that carries these tags.
pub fn tag_list(tags: &[SemanticTag], read: ListRead) -> (res: Result<
    Vec<SemanticTag>,
    ConstraintError,
>)
    ensures
        read.answered(tags@, res),
{
    list::read_list(tags, read)
}

/// The parts of a composition endpoint are the component endpoints that it is
/// given; no other endpoint has any.
#[derive(Debug, Clone, Copy, PartialEq, Eq)]
pub struct SolarPartsMatcher {
    pub parent: u16,
    pub children: &'static [u16],
}

impl SolarPartsMatcher {
    pub open spec fn lists(self, our_endpoint: u16, endpoint: u16) -> bool {
        our_endpoint == self.parent && self.children@.contains(endpoint)
    }

    /// Whether `endpoint` is among the parts of `our_endpoint`.
    pub fn matches(&self, our_endpoint: u16, endpoint: u16) -> (res: bool)
        ensures
            res == self.lists(our_endpoint, endpoint),
    {
        if our_endpoint != self.parent {
            return false;
        }
        let mut i: usize = 0;
        while i < self.children.len()
            invariant
                our_endpoint == self.parent,
                i <= self.children@.len(),
                forall|j: int| 0 <= j < i ==> self.children@[j] != endpoint,
            decreases self.children@.len() - i,
        {
            if self.children[i] == endpoint {
                return true;
            }
            i = i + 1;
        }
        false
    }
}

} // verus!
