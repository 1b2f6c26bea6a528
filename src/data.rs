//! Backend-neutral tensor data: element type, shape and raw bytes.
use vstd::prelude::*;

verus! {

/// Kind of a tensor; each kind has its own family of backend operations.
#[derive(Clone, Copy, Debug, PartialEq, Eq, Structural)]
pub enum TensorKind {
    Float,
    Int,
    Bool,
}

/// Element type of the bytes held by [`CanonicalData`].
#[derive(Clone, Copy, Debug, PartialEq, Eq, Structural)]
pub enum DType {
    F64,
    F32,
    F16,
    BF16,
    I64,
    I32,
    I16,
    I8,
    U64,
    U32,
    U8,
    Bool,
}

/// Ordered dimension extents of a tensor.
#[derive(Clone, Debug, PartialEq, Eq)]
pub struct Shape {
    pub dims: Vec<usize>,
}

impl View for Shape {
    type V = Seq<usize>;

    open spec fn view(&self) -> Seq<usize> {
        self.dims@
    }
}

impl Shape {
    pub fn new(dims: Vec<usize>) -> (r: Shape)
        ensures
            r@ == dims@,
    {
        Shape { dims }
    }

    pub fn num_dims(&self) -> (r: usize)
        ensures
            r == self@.len(),
    {
        self.dims.len()
    }
}

/// What a tensor holds, as seen through canonical data.
pub struct DataView {
    pub dtype: DType,
    pub shape: Seq<usize>,
    pub bytes: Seq<u8>,
}

/// Tensor content in transit between two backends.
#[derive(Clone, Debug, PartialEq, Eq)]
pub struct CanonicalData {
    pub dtype: DType,
    pub shape: Vec<usize>,
    pub bytes: Vec<u8>,
}

impl View for CanonicalData {
    type V = DataView;

    open spec fn view(&self) -> DataView {
        DataView { dtype: self.dtype, shape: self.shape@, bytes: self.bytes@ }
    }
}

/// Number of bytes that one element of the given type occupies.
pub open spec fn dtype_size(dtype: DType) -> nat {
    match dtype {
        DType::F64 | DType::I64 | DType::U64 => 8,
        DType::F32 | DType::I32 | DType::U32 => 4,
        DType::F16 | DType::BF16 | DType::I16 => 2,
        DType::I8 | DType::U8 | DType::Bool => 1,
    }
}

/// Number of elements of a tensor with the given dimension extents.
pub open spec fn num_elements(dims: Seq<usize>) -> nat
    decreases dims.len(),
{
    if dims.len() == 0 {
        1
    } else {
        dims.last() as nat * num_elements(dims.drop_last())
    }
}

impl DataView {
    /// The bytes hold exactly one element of `dtype` for each position of
    /// `shape`.
    pub open spec fn well_formed(self) -> bool {
        self.bytes.len() == num_elements(self.shape) * dtype_size(self.dtype)
    }
}

impl CanonicalData {
    pub fn new(dtype: DType, shape: Vec<usize>, bytes: Vec<u8>) -> (r: CanonicalData)
        ensures
            r@ == (DataView { dtype, shape: shape@, bytes: bytes@ }),
    {
        CanonicalData { dtype, shape, bytes }
    }
}

} // verus!
