//! The bridge: relocates a tensor handle to a device of either backend.
use core::marker::PhantomData;
use vstd::prelude::*;
use crate::backend::TransferBackend;
use crate::data::{DataView, DType, Shape, TensorKind};
use crate::handle::{BackendTag, MultiDevice2, TensorHandle2};

verus! {

/// Failure of a bridge call.
#[derive(Clone, Copy, Debug, PartialEq, Eq, Structural)]
pub enum BridgeError {
    /// The source backend's data could not be read synchronously: the
    /// platform does not support blocking on pending work.
    BlockingUnsupported,
}

/// Text that describes [`BridgeError::BlockingUnsupported`].
pub const BLOCKING_UNSUPPORTED_MESSAGE: &'static str = "Failed to read tensor data synchronously.
This can happen on platforms that don't support blocking futures like WASM.";

impl BridgeError {
    /// Text that describes the error.
    pub fn message(&self) -> (r: &'static str)
        ensures
            *self == BridgeError::BlockingUnsupported ==> r == BLOCKING_UNSUPPORTED_MESSAGE,
    {
        match self {
            BridgeError::BlockingUnsupported => BLOCKING_UNSUPPORTED_MESSAGE,
        }
    }
}

/// Transfers tensors between the backends `B1` and `B2` through their
/// canonical data.
pub struct ByteBridge<B1, B2> {
    backends: PhantomData<(B1, B2)>,
}

impl<B1: TransferBackend, B2: TransferBackend> ByteBridge<B1, B2> {
    /// Content of the tensor of the given kind behind a tagged handle.
    pub open spec fn content_of(kind: TensorKind, t: TensorHandle2<B1::Handle, B2::Handle>) -> DataView {
        match t {
            TensorHandle2::Handle1(h) => B1::content(kind, h),
            TensorHandle2::Handle2(h) => B2::content(kind, h),
        }
    }

    /// The tensor behind `t` belongs to the backend of `d` and resides on `d`.
    pub open spec fn resides_on(
        kind: TensorKind,
        t: TensorHandle2<B1::Handle, B2::Handle>,
        d: MultiDevice2<B1::Device, B2::Device>,
    ) -> bool {
        match (t, d) {
            (TensorHandle2::Handle1(h), MultiDevice2::Device1(x)) => B1::device_of(kind, h) == x,
            (TensorHandle2::Handle2(h), MultiDevice2::Device2(x)) => B2::device_of(kind, h) == x,
            _ => false,
        }
    }

    /// Element type in which the backend of `tag` stores tensors of `kind`.
    pub open spec fn native_dtype_of(tag: BackendTag, kind: TensorKind) -> DType {
        match tag {
            BackendTag::Backend1 => B1::native_dtype(kind),
            BackendTag::Backend2 => B2::native_dtype(kind),
        }
    }

    /// Content that a move from backend `source` to backend `target` yields
    /// for content `c`: unchanged within one backend, and unchanged across
    /// backends when `c` is already in the target's element type for the
    /// kind; otherwise `c` converted by the target backend.
    pub open spec fn moved_content(
        kind: TensorKind,
        c: DataView,
        source: BackendTag,
        target: BackendTag,
    ) -> DataView {
        if source == target || c.dtype == Self::native_dtype_of(target, kind) {
            c
        } else if target == BackendTag::Backend1 {
            B1::native(kind, c)
        } else {
            B2::native(kind, c)
        }
    }

    /// Moves the tensor of the given kind behind `tensor`, whose shape is
    /// `shape`, to `target_device`. Within one backend this is that
    /// backend's own device move; across backends the tensor is read into
    /// canonical data and rebuilt on the target backend.
    pub fn change_backend(
        kind: TensorKind,
        tensor: TensorHandle2<B1::Handle, B2::Handle>,
        shape: Shape,
        target_device: &MultiDevice2<B1::Device, B2::Device>,
    ) -> (r: Result<TensorHandle2<B1::Handle, B2::Handle>, BridgeError>)
        requires
            Self::content_of(kind, tensor).shape == shape@,
        ensures
            match r {
                Ok(t) => {
                    &&& t.tag_of() == target_device.tag_of()
                    &&& Self::resides_on(kind, t, *target_device)
                    &&& Self::content_of(kind, t) == Self::moved_content(
                        kind,
                        Self::content_of(kind, tensor),
                        tensor.tag_of(),
                        target_device.tag_of(),
                    )
                    &&& Self::content_of(kind, t).shape == shape@
                },
                Err(e) => {
                    &&& e == BridgeError::BlockingUnsupported
                    &&& tensor.tag_of() != target_device.tag_of()
                },
            },
    {
        match tensor {
            TensorHandle2::Handle1(handle) => match target_device {
                MultiDevice2::Device1(device) => {
                    let handle = B1::to_device(kind, handle, shape, device);
                    Ok(TensorHandle2::Handle1(handle))
                },
                MultiDevice2::Device2(device) => {
                    match B1::read_data(kind, handle, shape) {
                        Some(data) => {
                            let handle = B2::from_data(kind, data, device);
                            Ok(TensorHandle2::Handle2(handle))
                        },
                        None => Err(BridgeError::BlockingUnsupported),
                    }
                },
            },
            TensorHandle2::Handle2(handle) => match target_device {
                MultiDevice2::Device1(device) => {
                    match B2::read_data(kind, handle, shape) {
                        Some(data) => {
                            let handle = B1::from_data(kind, data, device);
                            Ok(TensorHandle2::Handle1(handle))
                        },
                        None => Err(BridgeError::BlockingUnsupported),
                    }
                },
                MultiDevice2::Device2(device) => {
                    let handle = B2::to_device(kind, handle, shape, device);
                    Ok(TensorHandle2::Handle2(handle))
                },
            },
        }
    }

    /// Moves a float tensor to `target_device`; see [`Self::change_backend`].
    pub fn change_backend_float(
        tensor: TensorHandle2<B1::Handle, B2::Handle>,
        shape: Shape,
        target_device: &MultiDevice2<B1::Device, B2::Device>,
    ) -> (r: Result<TensorHandle2<B1::Handle, B2::Handle>, BridgeError>)
        requires
            Self::content_of(TensorKind::Float, tensor).shape == shape@,
        ensures
            match r {
                Ok(t) => {
                    &&& t.tag_of() == target_device.tag_of()
                    &&& Self::resides_on(TensorKind::Float, t, *target_device)
                    &&& Self::content_of(TensorKind::Float, t) == Self::moved_content(
                        TensorKind::Float,
                        Self::content_of(TensorKind::Float, tensor),
                        tensor.tag_of(),
                        target_device.tag_of(),
                    )
                    &&& Self::content_of(TensorKind::Float, t).shape == shape@
                },
                Err(e) => {
                    &&& e == BridgeError::BlockingUnsupported
                    &&& tensor.tag_of() != target_device.tag_of()
                },
            },
    {
        Self::change_backend(TensorKind::Float, tensor, shape, target_device)
    }

    /// Moves an int tensor to `target_device`; see [`Self::change_backend`].
    pub fn change_backend_int(
        tensor: TensorHandle2<B1::Handle, B2::Handle>,
        shape: Shape,
        target_device: &MultiDevice2<B1::Device, B2::Device>,
    ) -> (r: Result<TensorHandle2<B1::Handle, B2::Handle>, BridgeError>)
        requires
            Self::content_of(TensorKind::Int, tensor).shape == shape@,
        ensures
            match r {
                Ok(t) => {
                    &&& t.tag_of() == target_device.tag_of()
                    &&& Self::resides_on(TensorKind::Int, t, *target_device)
                    &&& Self::content_of(TensorKind::Int, t) == Self::moved_content(
                        TensorKind::Int,
                        Self::content_of(TensorKind::Int, tensor),
                        tensor.tag_of(),
                        target_device.tag_of(),
                    )
                    &&& Self::content_of(TensorKind::Int, t).shape == shape@
                },
                Err(e) => {
                    &&& e == BridgeError::BlockingUnsupported
                    &&& tensor.tag_of() != target_device.tag_of()
                },
            },
    {
        Self::change_backend(TensorKind::Int, tensor, shape, target_device)
    }

    /// Moves a bool tensor to `target_device`; see [`Self::change_backend`].
    pub fn change_backend_bool(
        tensor: TensorHandle2<B1::Handle, B2::Handle>,
        shape: Shape,
        target_device: &MultiDevice2<B1::Device, B2::Device>,
    ) -> (r: Result<TensorHandle2<B1::Handle, B2::Handle>, BridgeError>)
        requires
            Self::content_of(TensorKind::Bool, tensor).shape == shape@,
        ensures
            match r {
                Ok(t) => {
                    &&& t.tag_of() == target_device.tag_of()
                    &&& Self::resides_on(TensorKind::Bool, t, *target_device)
                    &&& Self::content_of(TensorKind::Bool, t) == Self::moved_content(
                        TensorKind::Bool,
                        Self::content_of(TensorKind::Bool, tensor),
                        tensor.tag_of(),
                        target_device.tag_of(),
                    )
                    &&& Self::content_of(TensorKind::Bool, t).shape == shape@
                },
                Err(e) => {
                    &&& e == BridgeError::BlockingUnsupported
                    &&& tensor.tag_of() != target_device.tag_of()
                },
            },
    {
        Self::change_backend(TensorKind::Bool, tensor, shape, target_device)
    }
}

} // verus!
