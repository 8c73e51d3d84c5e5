use vstd::prelude::*;

verus! {

/// A Remo hardware unit as the cloud API describes it. Fetched once from the
/// cloud and read-only thereafter; the dashboard only displays its fields.
#[derive(Clone, Debug, PartialEq)]
pub struct Device {
    pub id: String,
    pub name: String,
    pub temperature_offset: i32,
    pub humidity_offset: i32,
    pub created_at: String,
    pub updated_at: String,
    pub firmware_version: String,
}

} // verus!
