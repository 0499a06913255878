//! Output tensors whose element type is known only at run time, and the
//! type-checked extraction of a typed tensor from them.
use vstd::prelude::*;

use crate::element::{has_fixed_stride, TensorElementDataType};
use crate::error::TensorExtractError;

verus! {

/// The number of elements of a tensor of this shape: the product of its
/// dimensions, 1 for a scalar.
pub open spec fn shape_size(shape: Seq<usize>) -> int
    decreases shape.len(),
{
    if shape.len() == 0 {
        1
    } else {
        shape_size(shape.drop_last()) * shape.last()
    }
}

proof fn lemma_shape_size_zero(shape: Seq<usize>, k: int)
    requires
        0 <= k < shape.len(),
        shape[k] == 0,
    ensures
        shape_size(shape) == 0,
    decreases shape.len(),
{
    let rest = shape_size(shape.drop_last());
    if k < shape.len() - 1 {
        assert(shape.drop_last()[k] == 0);
        lemma_shape_size_zero(shape.drop_last(), k);
        assert(rest * shape.last() == 0) by (nonlinear_arith)
            requires
                rest == 0,
        ;
    } else {
        assert(rest * shape.last() == 0) by (nonlinear_arith)
            requires
                shape.last() == 0,
        ;
    }
}

proof fn lemma_shape_size_pos(shape: Seq<usize>)
    requires
        forall|j: int| 0 <= j < shape.len() ==> shape[j] >= 1,
    ensures
        shape_size(shape) >= 1,
    decreases shape.len(),
{
    if shape.len() > 0 {
        let rest = shape.drop_last();
        assert forall|j: int| 0 <= j < rest.len() implies rest[j] >= 1 by {
            assert(rest[j] == shape[j]);
        }
        lemma_shape_size_pos(rest);
        let x = shape_size(rest);
        let y = shape.last() as int;
        assert(x * y >= 1) by (nonlinear_arith)
            requires
                x >= 1,
                y >= 1,
        ;
    }
}

proof fn lemma_shape_size_grows(shape: Seq<usize>, i: int)
    requires
        0 <= i <= shape.len(),
        forall|j: int| 0 <= j < shape.len() ==> shape[j] >= 1,
    ensures
        shape_size(shape.subrange(0, i)) <= shape_size(shape),
    decreases shape.len() - i,
{
    if i < shape.len() {
        lemma_shape_size_grows(shape, i + 1);
        let p = shape.subrange(0, i + 1);
        let q = shape.subrange(0, i);
        assert(p.drop_last() =~= q);
        assert forall|j: int| 0 <= j < q.len() implies q[j] >= 1 by {
            assert(q[j] == shape[j]);
        }
        lemma_shape_size_pos(q);
        let x = shape_size(q);
        let y = p.last() as int;
        assert(y == shape[i]);
        assert(x <= x * y) by (nonlinear_arith)
            requires
                x >= 1,
                y >= 1,
        ;
    } else {
        assert(shape.subrange(0, i) =~= shape);
    }
}

/// The number of elements of a tensor of this shape, or `None` where it
/// does not fit in a `usize`.
pub fn shape_element_count(shape: &Vec<usize>) -> (r: Option<usize>)
    ensures
        (r is None) == (shape_size(shape@) > usize::MAX),
        r matches Some(n) ==> n == shape_size(shape@),
{
    let mut k: usize = 0;
    while k < shape.len()
        invariant
            k <= shape@.len(),
            forall|j: int| 0 <= j < k ==> shape@[j] >= 1,
        decreases shape@.len() - k,
    {
        if shape[k] == 0 {
            proof {
                lemma_shape_size_zero(shape@, k as int);
            }
            return Some(0);
        }
        k = k + 1;
    }
    let mut acc: usize = 1;
    let mut i: usize = 0;
    while i < shape.len()
        invariant
            i <= shape@.len(),
            forall|j: int| 0 <= j < shape@.len() ==> shape@[j] >= 1,
            acc == shape_size(shape@.subrange(0, i as int)),
        decreases shape@.len() - i,
    {
        proof {
            assert(shape@.subrange(0, i + 1).drop_last() =~= shape@.subrange(0, i as int));
        }
        match acc.checked_mul(shape[i]) {
            Some(p) => {
                acc = p;
            },
            None => {
                proof {
                    lemma_shape_size_grows(shape@, i + 1);
                }
                return None;
            },
        }
        i = i + 1;
    }
    proof {
        assert(shape@.subrange(0, i as int) =~= shape@);
    }
    Some(acc)
}

/// How a typed tensor reaches its elements.
#[derive(Debug, Clone, Copy, PartialEq, Eq, Structural)]
pub enum TensorLayout {
    /// A view straight over the engine's buffer, without a copy.
    View,
    /// A host-owned container rebuilt element by element from the engine's
    /// buffer, for elements without a fixed stride.
    Owned,
}

/// The layout that extraction gives elements of this type.
pub open spec fn layout_of(t: TensorElementDataType) -> TensorLayout {
    if has_fixed_stride(t) {
        TensorLayout::View
    } else {
        TensorLayout::Owned
    }
}

fn copy_shape(shape: &Vec<usize>) -> (r: Vec<usize>)
    ensures
        r@ == shape@,
{
    let mut r: Vec<usize> = Vec::new();
    let mut i: usize = 0;
    while i < shape.len()
        invariant
            i <= shape@.len(),
            r@ == shape@.subrange(0, i as int),
        decreases shape@.len() - i,
    {
        r.push(shape[i]);
        i = i + 1;
        proof {
            assert(r@ =~= shape@.subrange(0, i as int));
        }
    }
    proof {
        assert(shape@.subrange(0, i as int) =~= shape@);
    }
    r
}

/// Whether `offsets` can mark where each string starts in a buffer of
/// `len` bytes: in order, and none past the end.
pub open spec fn offsets_valid(offsets: Seq<usize>, len: nat) -> bool {
    &&& forall|i: int, j: int| 0 <= i <= j < offsets.len() ==> offsets[i] <= offsets[j]
    &&& forall|i: int| 0 <= i < offsets.len() ==> offsets[i] <= len
}

/// Where string `i` ends: at the next one's start, the last at the end of
/// the buffer.
pub open spec fn string_end(offsets: Seq<usize>, len: nat, i: int) -> int {
    if i + 1 < offsets.len() {
        offsets[i + 1] as int
    } else {
        len as int
    }
}

/// Rebuilds the elements of a string tensor, which the engine returns as one
/// buffer of bytes and the offset where each string starts. Each element is
/// copied into a container of its own; `None` where the offsets are out of
/// order or past the end of the buffer.
pub fn string_elements(content: &Vec<u8>, offsets: &Vec<usize>) -> (r: Option<Vec<Vec<u8>>>)
    ensures
        (r is Some) == offsets_valid(offsets@, content@.len()),
        r matches Some(elems) ==> elems@.len() == offsets@.len() && forall|i: int|
            0 <= i < offsets@.len() ==> (#[trigger] elems@[i])@ == content@.subrange(
                offsets@[i] as int,
                string_end(offsets@, content@.len(), i),
            ),
{
    let n = offsets.len();
    let mut k: usize = 0;
    while k < n
        invariant
            n == offsets@.len(),
            k <= n,
            forall|i: int| 0 <= i < k ==> offsets@[i] <= content@.len(),
            forall|i: int| 0 <= i < k && i + 1 < n ==> #[trigger] offsets@[i] <= offsets@[i + 1],
        decreases n - k,
    {
        if offsets[k] > content.len() || (k + 1 < n && offsets[k] > offsets[k + 1]) {
            return None;
        }
        k = k + 1;
    }
    assert forall|i: int, j: int| 0 <= i <= j < offsets@.len() implies offsets@[i] <= offsets@[j] by {
        lemma_sorted_steps(offsets@, i, j);
    }
    let mut elems: Vec<Vec<u8>> = Vec::new();
    let mut i: usize = 0;
    while i < n
        invariant
            n == offsets@.len(),
            i <= n,
            offsets_valid(offsets@, content@.len()),
            elems@.len() == i,
            forall|m: int|
                0 <= m < i ==> (#[trigger] elems@[m])@ == content@.subrange(
                    offsets@[m] as int,
                    string_end(offsets@, content@.len(), m),
                ),
        decreases n - i,
    {
        let start = offsets[i];
        let end = if i + 1 < n {
            offsets[i + 1]
        } else {
            content.len()
        };
        let mut e: Vec<u8> = Vec::new();
        let mut b: usize = start;
        while b < end
            invariant
                start <= b <= end <= content@.len(),
                e@ == content@.subrange(start as int, b as int),
            decreases end - b,
        {
            e.push(content[b]);
            b = b + 1;
            proof {
                assert(e@ =~= content@.subrange(start as int, b as int));
            }
        }
        elems.push(e);
        i = i + 1;
    }
    Some(elems)
}

proof fn lemma_sorted_steps(offsets: Seq<usize>, i: int, j: int)
    requires
        0 <= i <= j < offsets.len(),
        forall|m: int| 0 <= m && m + 1 < offsets.len() ==> #[trigger] offsets[m] <= offsets[m + 1],
    ensures
        offsets[i] <= offsets[j],
    decreases j - i,
{
    if i < j {
        lemma_sorted_steps(offsets, i, j - 1);
    }
}

/// An output tensor together with its declared element type and shape. The
/// buffer `B` stands for the engine's output value; it is carried, not read.
#[verifier::reject_recursive_types(B)]
#[derive(Debug)]
pub struct DynOrtTensor<B> {
    tensor_data: B,
    shape: Vec<usize>,
    tensor_element_len: usize,
    data_type: TensorElementDataType,
}

/// What a typed extraction gives: the shape, the element count and the
/// layout, or the error.
pub type ExtractOutcome = Result<(Seq<usize>, nat, TensorLayout), TensorExtractError>;

impl<B> DynOrtTensor<B> {
    /// The declared element type.
    pub closed spec fn data_type_spec(self) -> TensorElementDataType {
        self.data_type
    }

    /// The declared shape.
    pub closed spec fn shape_spec(self) -> Seq<usize> {
        self.shape@
    }

    /// The number of elements that the shape implies.
    pub closed spec fn element_len_spec(self) -> nat {
        self.tensor_element_len as nat
    }

    /// The buffer carried.
    pub closed spec fn tensor_data_spec(self) -> B {
        self.tensor_data
    }

    /// The element count is the shape's product.
    pub open spec fn wf(self) -> bool {
        self.element_len_spec() == shape_size(self.shape_spec())
    }

    /// What extracting elements of type `requested` gives.
    pub open spec fn extract_spec(self, requested: TensorElementDataType) -> ExtractOutcome {
        if requested != self.data_type_spec() {
            Err(TensorExtractError::DataTypeMismatch { actual: self.data_type_spec(), requested })
        } else {
            Ok((self.shape_spec(), self.element_len_spec(), layout_of(requested)))
        }
    }

    /// A tensor over `tensor_data` of the given shape and element type, or
    /// `None` where the shape's element count does not fit in a `usize`.
    pub fn new(tensor_data: B, shape: Vec<usize>, data_type: TensorElementDataType) -> (r: Option<
        DynOrtTensor<B>,
    >)
        ensures
            (r is None) == (shape_size(shape@) > usize::MAX),
            r matches Some(t) ==> t.wf() && t.shape_spec() == shape@ && t.data_type_spec()
                == data_type && t.tensor_data_spec() == tensor_data,
    {
        match shape_element_count(&shape) {
            Some(tensor_element_len) => Some(
                DynOrtTensor { tensor_data, shape, tensor_element_len, data_type },
            ),
            None => None,
        }
    }

    /// The element type this tensor holds.
    pub fn data_type(&self) -> (r: TensorElementDataType)
        ensures
            r == self.data_type_spec(),
    {
        self.data_type
    }

    /// The declared shape.
    pub fn shape(&self) -> (r: &Vec<usize>)
        ensures
            r@ == self.shape_spec(),
    {
        &self.shape
    }

    /// The number of elements.
    pub fn element_len(&self) -> (r: usize)
        ensures
            r == self.element_len_spec(),
    {
        self.tensor_element_len
    }

    /// The buffer carried.
    pub fn tensor_data(&self) -> (r: &B)
        ensures
            *r == self.tensor_data_spec(),
    {
        &self.tensor_data
    }

    /// Extracts a tensor of elements of type `requested`. It fails with a
    /// mismatch that names both types unless `requested` is the declared type;
    /// otherwise the typed tensor has the declared shape and element count and
    /// borrows the same buffer. The tensor itself is left as it was, so the
    /// call may be repeated with the same or another type.
    pub fn try_extract(&self, requested: TensorElementDataType) -> (r: Result<
        OrtOwnedTensor<'_, B>,
        TensorExtractError,
    >)
        requires
            self.wf(),
        ensures
            r matches Err(e) ==> self.extract_spec(requested) == Err::<
                (Seq<usize>, nat, TensorLayout),
                TensorExtractError,
            >(e),
            r matches Ok(t) ==> self.extract_spec(requested) == Ok::<
                (Seq<usize>, nat, TensorLayout),
                TensorExtractError,
            >((t.shape_spec(), t.len_spec(), t.layout_spec())) && *t.data_spec()
                == self.tensor_data_spec() && t.element_type_spec() == requested,
            (r is Ok) == (requested == self.data_type_spec()),
    {
        if self.data_type != requested {
            Err(TensorExtractError::DataTypeMismatch { actual: self.data_type, requested })
        } else {
            let layout = if requested.is_fixed_stride() {
                TensorLayout::View
            } else {
                TensorLayout::Owned
            };
            Ok(
                OrtOwnedTensor {
                    data: &self.tensor_data,
                    shape: copy_shape(&self.shape),
                    len: self.tensor_element_len,
                    element_type: requested,
                    layout,
                },
            )
        }
    }
}

/// Asking a tensor for any type other than its declared one fails with a
/// mismatch naming the declared type as actual and the asked type as
/// requested; the outcome depends on the tensor and the type alone, so
/// asking again gives the same.
pub proof fn lemma_mismatch_is_reported<B>(t: DynOrtTensor<B>, requested: TensorElementDataType)
    requires
        requested != t.data_type_spec(),
    ensures
        t.extract_spec(requested) == Err::<(Seq<usize>, nat, TensorLayout), TensorExtractError>(
            TensorExtractError::DataTypeMismatch { actual: t.data_type_spec(), requested },
        ),
{
}

/// Asking a well-formed tensor for its declared type succeeds, with the
/// declared shape and as many elements as the product of its dimensions.
pub proof fn lemma_declared_type_extracts<B>(t: DynOrtTensor<B>)
    requires
        t.wf(),
    ensures
        t.extract_spec(t.data_type_spec()) matches Ok((shape, len, layout)) && shape
            == t.shape_spec() && len == shape_size(t.shape_spec()) && layout == layout_of(
            t.data_type_spec(),
        ),
{
}

/// A typed tensor extracted from a dynamically typed one. It borrows the
/// buffer, so it cannot outlive the output value it was built from.
#[verifier::reject_recursive_types(B)]
#[derive(Debug)]
pub struct OrtOwnedTensor<'a, B> {
    data: &'a B,
    shape: Vec<usize>,
    len: usize,
    element_type: TensorElementDataType,
    layout: TensorLayout,
}

impl<'a, B> OrtOwnedTensor<'a, B> {
    /// The buffer borrowed.
    pub closed spec fn data_spec(self) -> &'a B {
        self.data
    }

    /// The shape.
    pub closed spec fn shape_spec(self) -> Seq<usize> {
        self.shape@
    }

    /// The element count.
    pub closed spec fn len_spec(self) -> nat {
        self.len as nat
    }

    /// The element type.
    pub closed spec fn element_type_spec(self) -> TensorElementDataType {
        self.element_type
    }

    /// How the elements are reached.
    pub closed spec fn layout_spec(self) -> TensorLayout {
        self.layout
    }

    /// The buffer borrowed.
    pub fn data(&self) -> (r: &'a B)
        ensures
            r == self.data_spec(),
    {
        self.data
    }

    /// The shape.
    pub fn shape(&self) -> (r: &Vec<usize>)
        ensures
            r@ == self.shape_spec(),
    {
        &self.shape
    }

    /// The element count.
    pub fn len(&self) -> (r: usize)
        ensures
            r == self.len_spec(),
    {
        self.len
    }

    /// The element type.
    pub fn element_type(&self) -> (r: TensorElementDataType)
        ensures
            r == self.element_type_spec(),
    {
        self.element_type
    }

    /// How the elements are reached.
    pub fn layout(&self) -> (r: TensorLayout)
        ensures
            r == self.layout_spec(),
    {
        self.layout
    }
}

} // verus!
