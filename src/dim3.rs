use vstd::prelude::*;

verus! {

/// Grid or block dimensions of a kernel launch, as `(x, y, z)`.
#[derive(Debug, Clone, Copy)]
pub struct Dim3(pub (u32, u32, u32));

impl Dim3 {
    /// The dimensions `(x, y, z)`.
    pub fn new(x: u32, y: u32, z: u32) -> (r: Dim3)
        ensures
            r.0 == (x, y, z),
    {
        Dim3((x, y, z))
    }

    /// Two dimensions; the third is one.
    pub fn from_xy(x: u32, y: u32) -> (r: Dim3)
        ensures
            r.0 == (x, y, 1u32),
    {
        Dim3((x, y, 1))
    }

    /// One dimension; the other two are one.
    pub fn from_x(x: u32) -> (r: Dim3)
        ensures
            r.0 == (x, 1u32, 1u32),
    {
        Dim3((x, 1, 1))
    }

    /// The dimensions as a tuple.
    pub fn into_tuple(self) -> (r: (u32, u32, u32))
        ensures
            r == self.0,
    {
        self.0
    }
}

impl From<u32> for Dim3 {
    fn from(x: u32) -> (r: Dim3) {
        Dim3::from_x(x)
    }
}

impl vstd::std_specs::convert::FromSpecImpl<u32> for Dim3 {
    open spec fn obeys_from_spec() -> bool {
        true
    }

    open spec fn from_spec(x: u32) -> Dim3 {
        Dim3((x, 1u32, 1u32))
    }
}

} // verus!
