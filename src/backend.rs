//! The capabilities that the bridge needs from each of its two backends.
use vstd::prelude::*;
use crate::data::{CanonicalData, DataView, DType, Shape, TensorKind};

verus! {

/// A compute backend that owns tensor handles and can move, read and build
/// tensors of each kind. The bridge is generic over two implementations.
/// The spec functions model what a handle stands for and how the backend
/// stores data that it is given.
pub trait TransferBackend {
    /// Opaque reference to tensor storage owned by this backend.
    type Handle;

    /// Device descriptor of this backend.
    type Device;

    /// Content of the tensor of the given kind that a handle refers to.
    spec fn content(kind: TensorKind, h: Self::Handle) -> DataView;

    /// Device on which the tensor that a handle refers to resides.
    spec fn device_of(kind: TensorKind, h: Self::Handle) -> Self::Device;

    /// Element type in which this backend stores tensors of the given kind.
    spec fn native_dtype(kind: TensorKind) -> DType;

    /// Content of a tensor that this backend builds from canonical data `d`:
    /// `d` converted to the backend's own element type for the kind.
    spec fn native(kind: TensorKind, d: DataView) -> DataView;

    /// Moves the tensor to another device of the same backend. The content
    /// is kept exactly.
    fn to_device(kind: TensorKind, h: Self::Handle, shape: Shape, device: &Self::Device) -> (r:
        Self::Handle)
        requires
            Self::content(kind, h).shape == shape@,
        ensures
            Self::content(kind, r) == Self::content(kind, h),
            Self::device_of(kind, r) == *device,
    ;

    /// Reads the tensor into canonical data, waiting for the backend to
    /// finish. `None` when the platform cannot block on that wait.
    fn read_data(kind: TensorKind, h: Self::Handle, shape: Shape) -> (r: Option<CanonicalData>)
        requires
            Self::content(kind, h).shape == shape@,
        ensures
            r matches Some(d) ==> d@ == Self::content(kind, h) && d@.well_formed(),
    ;

    /// Builds a tensor on the device from well-formed canonical data. The
    /// shape is kept; data already in the backend's element type for the
    /// kind is kept exactly.
    fn from_data(kind: TensorKind, d: CanonicalData, device: &Self::Device) -> (r: Self::Handle)
        requires
            d@.well_formed(),
        ensures
            Self::content(kind, r) == Self::native(kind, d@),
            Self::content(kind, r).shape == d@.shape,
            d@.dtype == Self::native_dtype(kind) ==> Self::content(kind, r) == d@,
            Self::device_of(kind, r) == *device,
    ;
}

} // verus!
