//! Properties of the bridge that relate several moves.
use vstd::prelude::*;
use crate::backend::TransferBackend;
use crate::bridge::ByteBridge;
use crate::data::{DataView, TensorKind};
use crate::handle::{BackendTag, MultiDevice2, TensorHandle2};

verus! {

/// Moving content from backend `a` to backend `b` and back gives back
/// exactly the content it started from, when both moves stay within one
/// backend or when both backends store the kind in the content's element
/// type.
pub proof fn lemma_round_trip<B1: TransferBackend, B2: TransferBackend>(
    kind: TensorKind,
    c: DataView,
    a: BackendTag,
    b: BackendTag,
)
    requires
        a == b || (c.dtype == ByteBridge::<B1, B2>::native_dtype_of(a, kind) && c.dtype
            == ByteBridge::<B1, B2>::native_dtype_of(b, kind)),
    ensures
        ByteBridge::<B1, B2>::moved_content(
            kind,
            ByteBridge::<B1, B2>::moved_content(kind, c, a, b),
            b,
            a,
        ) == c,
{
}

/// Moving a tensor to the device it already resides on cannot fail, and
/// keeps its content exactly.
pub proof fn lemma_same_device<B1: TransferBackend, B2: TransferBackend>(
    kind: TensorKind,
    t: TensorHandle2<B1::Handle, B2::Handle>,
    d: MultiDevice2<B1::Device, B2::Device>,
)
    requires
        ByteBridge::<B1, B2>::resides_on(kind, t, d),
    ensures
        t.tag_of() == d.tag_of(),
        ByteBridge::<B1, B2>::moved_content(
            kind,
            ByteBridge::<B1, B2>::content_of(kind, t),
            t.tag_of(),
            d.tag_of(),
        ) == ByteBridge::<B1, B2>::content_of(kind, t),
{
}

/// What a move of one kind yields is fixed by the content of that kind
/// behind the moved handle and by the two backends: two handles of one
/// backend with equal content of that kind give equal results, whatever
/// else they differ in.
pub proof fn lemma_kind_isolation<B1: TransferBackend, B2: TransferBackend>(
    kind: TensorKind,
    t1: TensorHandle2<B1::Handle, B2::Handle>,
    t2: TensorHandle2<B1::Handle, B2::Handle>,
    target: BackendTag,
)
    requires
        t1.tag_of() == t2.tag_of(),
        ByteBridge::<B1, B2>::content_of(kind, t1) == ByteBridge::<B1, B2>::content_of(kind, t2),
    ensures
        ByteBridge::<B1, B2>::moved_content(
            kind,
            ByteBridge::<B1, B2>::content_of(kind, t1),
            t1.tag_of(),
            target,
        ) == ByteBridge::<B1, B2>::moved_content(
            kind,
            ByteBridge::<B1, B2>::content_of(kind, t2),
            t2.tag_of(),
            target,
        ),
{
}

} // verus!
