use vstd::prelude::*;

use crate::target::Target;

verus! {

/// Where an externally exported spatial reference is found: the bus name of the
/// service that exports it, its object path, and, optionally, the object path whose
/// tracking state is followed.
#[derive(Debug, Clone, PartialEq, Eq)]
pub struct SpatialRefAddress {
    pub well_known_name: String,
    pub spatial_path: String,
    pub tracked_path: Option<String>,
}

impl SpatialRefAddress {
    /// An address made of copies of the given names.
    pub fn new(well_known_name: &str, spatial_path: &str, tracked_path: Option<&str>) -> (a:
        SpatialRefAddress)
        ensures
            a.well_known_name@ == well_known_name@,
            a.spatial_path@ == spatial_path@,
            match (a.tracked_path, tracked_path) {
                (Some(x), Some(y)) => x@ == y@,
                (None, None) => true,
                _ => false,
            },
    {
        let tracked_path = match tracked_path {
            Some(p) => Some(p.to_owned()),
            None => None,
        };
        SpatialRefAddress {
            well_known_name: well_known_name.to_owned(),
            spatial_path: spatial_path.to_owned(),
            tracked_path,
        }
    }
}

impl Target {
    /// The address of the spatial reference that a launcher on this target is parented
    /// to, following the tracking state of the target's tracked object.
    pub fn spatial_ref_address(&self) -> (a: SpatialRefAddress)
        ensures
            a.well_known_name@ == self.well_known_name(),
            a.spatial_path@ == self.spatial_path(),
            a.tracked_path matches Some(p) && p@ == self.tracked_path(),
    {
        let (name, spatial_path, tracked_path) = self.spatial_ref_info();
        SpatialRefAddress::new(name, spatial_path, Some(tracked_path))
    }
}

/// The tracking state to report for a query of the tracked object: its answer, or
/// tracked when the query failed.
pub fn tracked_state_or_default(reply: Option<bool>) -> (b: bool)
    ensures
        b == match reply {
            Some(x) => x,
            None => true,
        },
{
    match reply {
        Some(x) => x,
        None => true,
    }
}

} // verus!
