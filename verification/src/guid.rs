use vstd::prelude::*;

verus! {

/// A COM GUID, by its four standard fields.
#[derive(Clone, Copy, Debug, PartialEq, Eq)]
pub struct Guid {
    pub data1: u32,
    pub data2: u16,
    pub data3: u16,
    pub data4: [u8; 8],
}

impl Guid {
    /// Builds a GUID from its four standard fields.
    pub fn new(data1: u32, data2: u16, data3: u16, data4: [u8; 8]) -> (guid: Guid)
        ensures
            guid.data1 == data1,
            guid.data2 == data2,
            guid.data3 == data3,
            guid.data4 == data4,
    {
        Guid { data1, data2, data3, data4 }
    }
}

} // verus!
