use vstd::prelude::*;
use crate::error::PipelineError;

verus! {

/// Height and width, in pixels, of the square image the detector reads.
pub const INPUT_SIDE: usize = 640;

/// Colour channels the detector reads.
pub const INPUT_CHANNELS: usize = 3;

/// Number of elements of a dense tensor with the given dimensions.
pub open spec fn shape_product(dims: Seq<usize>) -> int
    decreases dims.len(),
{
    if dims.len() == 0 {
        1
    } else {
        shape_product(dims.drop_last()) * dims.last() as int
    }
}

/// A shape is an ordered sequence of positive dimension sizes.
pub open spec fn dims_positive(dims: Seq<usize>) -> bool {
    forall|i: int| 0 <= i < dims.len() ==> dims[i] > 0
}

/// A buffer of this shape can be filled from `data_len` elements.
pub open spec fn fits_data(dims: Seq<usize>, data_len: int) -> bool {
    dims_positive(dims) && shape_product(dims) == data_len
}

proof fn lemma_drop_last_positive(dims: Seq<usize>)
    requires
        dims_positive(dims),
        dims.len() > 0,
    ensures
        dims_positive(dims.drop_last()),
        dims.last() > 0,
{
    let d = dims.drop_last();
    assert forall|i: int| 0 <= i < d.len() implies d[i] > 0 by {
        assert(d[i] == dims[i]);
    }
    assert(dims[dims.len() - 1] > 0);
}

pub proof fn lemma_product_positive(dims: Seq<usize>)
    requires
        dims_positive(dims),
    ensures
        shape_product(dims) >= 1,
    decreases dims.len(),
{
    if dims.len() > 0 {
        lemma_drop_last_positive(dims);
        lemma_product_positive(dims.drop_last());
        let p = shape_product(dims.drop_last());
        let l = dims.last() as int;
        assert(p * l >= 1) by (nonlinear_arith)
            requires
                p >= 1,
                l >= 1,
        ;
    }
}

/// With positive dimensions, the product of a prefix never exceeds the whole.
pub proof fn lemma_prefix_product_le(dims: Seq<usize>, j: int)
    requires
        dims_positive(dims),
        0 <= j <= dims.len(),
    ensures
        shape_product(dims.subrange(0, j)) <= shape_product(dims),
    decreases dims.len(),
{
    if j < dims.len() {
        let d = dims.drop_last();
        assert(d.subrange(0, j) =~= dims.subrange(0, j));
        lemma_drop_last_positive(dims);
        lemma_prefix_product_le(d, j);
        lemma_product_positive(d);
        let p = shape_product(d);
        let l = dims.last() as int;
        assert(p <= p * l) by (nonlinear_arith)
            requires
                p >= 1,
                l >= 1,
        ;
    } else {
        assert(dims.subrange(0, j) =~= dims);
    }
}

/// The element count of a shape: `None` where a dimension is zero or the
/// count does not fit in `usize`.
pub fn element_count(dims: &Vec<usize>) -> (r: Option<usize>)
    ensures
        r.is_some() <==> dims_positive(dims@) && shape_product(dims@) <= usize::MAX,
        r matches Some(n) ==> n == shape_product(dims@),
{
    let mut acc: usize = 1;
    let mut i: usize = 0;
    while i < dims.len()
        invariant
            i <= dims.len(),
            acc as int == shape_product(dims@.subrange(0, i as int)),
            forall|k: int| 0 <= k < i ==> dims@[k] > 0,
        decreases dims.len() - i,
    {
        let d = dims[i];
        assert(dims@.subrange(0, i + 1).drop_last() =~= dims@.subrange(0, i as int));
        if d == 0 {
            return None;
        }
        match acc.checked_mul(d) {
            Some(p) => {
                acc = p;
            },
            None => {
                proof {
                    if dims_positive(dims@) {
                        lemma_prefix_product_le(dims@, i + 1);
                    }
                }
                return None;
            },
        }
        i = i + 1;
    }
    assert(dims@.subrange(0, i as int) =~= dims@);
    Some(acc)
}

/// Checks that `data_len` elements fill a buffer of shape `dims` exactly and
/// returns the element count.
pub fn check_buffer_data(dims: &Vec<usize>, data_len: usize) -> (r: Result<usize, PipelineError>)
    ensures
        r is Ok <==> fits_data(dims@, data_len as int),
        r matches Ok(n) ==> n == data_len,
        r matches Err(e) ==> e == PipelineError::ShapeMismatch,
{
    match element_count(dims) {
        Some(n) => {
            if n == data_len {
                Ok(n)
            } else {
                Err(PipelineError::ShapeMismatch)
            }
        },
        None => Err(PipelineError::ShapeMismatch),
    }
}

/// Byte length of a dense buffer of the given shape: `None` where the shape
/// has a zero dimension or the length does not fit in `usize`.
pub fn byte_length(dims: &Vec<usize>, element_size: usize) -> (r: Option<usize>)
    requires
        element_size > 0,
    ensures
        r.is_some() <==> dims_positive(dims@) && shape_product(dims@) * element_size
            <= usize::MAX,
        r matches Some(b) ==> b == shape_product(dims@) * element_size,
{
    match element_count(dims) {
        Some(n) => n.checked_mul(element_size),
        None => {
            proof {
                if dims_positive(dims@) {
                    lemma_product_positive(dims@);
                    let p = shape_product(dims@);
                    let e = element_size as int;
                    assert(p <= p * e) by (nonlinear_arith)
                        requires
                            p >= 1,
                            e >= 1,
                    ;
                }
            }
            None
        },
    }
}

pub open spec fn detector_input_dims() -> Seq<usize> {
    seq![1usize, INPUT_SIDE, INPUT_SIDE, INPUT_CHANNELS]
}

pub open spec fn planar_dims() -> Seq<usize> {
    seq![1usize, INPUT_CHANNELS, INPUT_SIDE, INPUT_SIDE]
}

/// The shape in which the compiled detector takes its input: one image,
/// channel-last.
pub fn detector_input_shape() -> (r: Vec<usize>)
    ensures
        r@ == detector_input_dims(),
{
    let r = vec![1usize, INPUT_SIDE, INPUT_SIDE, INPUT_CHANNELS];
    assert(r@ =~= detector_input_dims());
    r
}

/// The shape of the preprocessed image tensor: one image, channel-major.
pub fn planar_shape() -> (r: Vec<usize>)
    ensures
        r@ == planar_dims(),
{
    let r = vec![1usize, INPUT_CHANNELS, INPUT_SIDE, INPUT_SIDE];
    assert(r@ =~= planar_dims());
    r
}

/// The channel-major tensor and the channel-last input shape hold the same
/// number of elements, so the preprocessed tensor fills the input buffer.
pub proof fn lemma_planar_fills_input()
    ensures
        shape_product(planar_dims()) == shape_product(detector_input_dims()),
        shape_product(detector_input_dims()) == 1228800,
        dims_positive(detector_input_dims()),
{
    let e = Seq::<usize>::empty();
    let a1 = seq![1usize];
    let a2 = seq![1usize, 3];
    let a3 = seq![1usize, 3, 640];
    let b2 = seq![1usize, 640];
    let b3 = seq![1usize, 640, 640];
    assert(shape_product(e) == 1);
    assert(a1.drop_last() =~= e);
    assert(a1.last() == 1);
    assert(shape_product(a1) == 1);
    assert(a2.drop_last() =~= a1);
    assert(shape_product(a2) == 3);
    assert(a3.drop_last() =~= a2);
    assert(shape_product(a3) == 1920);
    assert(planar_dims().drop_last() =~= a3);
    assert(shape_product(planar_dims()) == 1228800);
    assert(b2.drop_last() =~= a1);
    assert(shape_product(b2) == 640);
    assert(b3.drop_last() =~= b2);
    assert(shape_product(b3) == 409600);
    assert(detector_input_dims().drop_last() =~= b3);
    assert(detector_input_dims().last() == 3);
    assert(shape_product(detector_input_dims()) == 1228800);
}

} // verus!
