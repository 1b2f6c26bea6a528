//! Handles and devices tagged with the backend that owns them.
use vstd::prelude::*;

verus! {

/// Which of the two backends a handle or device belongs to.
#[derive(Clone, Copy, Debug, PartialEq, Eq, Structural)]
pub enum BackendTag {
    Backend1,
    Backend2,
}

/// A tensor handle owned by the first or by the second backend.
#[derive(Clone, Debug)]
pub enum TensorHandle2<H1, H2> {
    Handle1(H1),
    Handle2(H2),
}

/// A device of the first or of the second backend.
#[derive(Clone, Debug)]
pub enum MultiDevice2<D1, D2> {
    Device1(D1),
    Device2(D2),
}

impl<H1, H2> TensorHandle2<H1, H2> {
    pub open spec fn tag_of(self) -> BackendTag {
        match self {
            TensorHandle2::Handle1(_) => BackendTag::Backend1,
            TensorHandle2::Handle2(_) => BackendTag::Backend2,
        }
    }

    pub fn tag(&self) -> (r: BackendTag)
        ensures
            r == self.tag_of(),
    {
        match self {
            TensorHandle2::Handle1(_) => BackendTag::Backend1,
            TensorHandle2::Handle2(_) => BackendTag::Backend2,
        }
    }
}

impl<D1, D2> MultiDevice2<D1, D2> {
    pub open spec fn tag_of(self) -> BackendTag {
        match self {
            MultiDevice2::Device1(_) => BackendTag::Backend1,
            MultiDevice2::Device2(_) => BackendTag::Backend2,
        }
    }

    pub fn tag(&self) -> (r: BackendTag)
        ensures
            r == self.tag_of(),
    {
        match self {
            MultiDevice2::Device1(_) => BackendTag::Backend1,
            MultiDevice2::Device2(_) => BackendTag::Backend2,
        }
    }
}

} // verus!
