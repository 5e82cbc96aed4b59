//! The stack description: linear dimensions, floating hole/pin pairs, and
//! the ordered assembly they form.  Every numeric parameter is carried as an
//! IEEE-754 binary64 bit pattern, so the validity rules are decided and
//! proved on plain 64-bit integers.

use vstd::prelude::*;
use crate::StackError;
use crate::float_bits::{gt_zero, lt_zero, bits_gt_zero, bits_lt_zero};

verus! {

/// Whether a tolerance triple is in the valid domain: the sigma ratio must
/// compare strictly greater than zero (so a zero, negative or NaN ratio is
/// rejected), and neither tolerance magnitude may compare less than zero.
pub open spec fn valid_tolerance(plus: u64, minus: u64, sigma: u64) -> bool {
    gt_zero(sigma) && !lt_zero(plus) && !lt_zero(minus)
}

/// One linear dimension: a nominal length `dim`, a plus/minus tolerance
/// band, and the sigma ratio that the band spans.  All four fields are
/// binary64 bit patterns.
#[derive(Clone, Copy, Debug)]
pub struct Linear {
    pub dim: u64,
    pub plus: u64,
    pub minus: u64,
    pub sigma: u64,
}

impl Linear {
    /// The dimension's parameters are in the valid domain.
    pub open spec fn wf(self) -> bool {
        valid_tolerance(self.plus, self.minus, self.sigma)
    }

    /// Builds a linear dimension, rejecting parameters outside the valid
    /// domain at construction time, never at simulation time.
    pub fn new(dim: u64, plus: u64, minus: u64, sigma: u64) -> (r: Result<Linear, StackError>)
        ensures
            r is Ok <==> valid_tolerance(plus, minus, sigma),
            r matches Ok(l) ==> l == (Linear { dim, plus, minus, sigma }),
            r matches Err(e) ==> e == StackError::InvalidParameter,
    {
        if bits_gt_zero(sigma) && !bits_lt_zero(plus) && !bits_lt_zero(minus) {
            Ok(Linear { dim, plus, minus, sigma })
        } else {
            Err(StackError::InvalidParameter)
        }
    }
}

/// The hole side of a floating pair, validated by the same rule as a linear
/// dimension.
#[derive(Clone, Copy, Debug)]
pub struct Hole {
    pub inner: Linear,
}

impl Hole {
    /// Builds the hole side of a floating pair; the parameters are validated
    /// as for a linear dimension.
    pub fn new(dim: u64, plus: u64, minus: u64, sigma: u64) -> (r: Result<Hole, StackError>)
        ensures
            r is Ok <==> valid_tolerance(plus, minus, sigma),
            r matches Ok(h) ==> h.inner == (Linear { dim, plus, minus, sigma }),
            r matches Err(e) ==> e == StackError::InvalidParameter,
    {
        match Linear::new(dim, plus, minus, sigma) {
            Ok(inner) => Ok(Hole { inner }),
            Err(e) => Err(e),
        }
    }
}

/// The pin side of a floating pair, validated by the same rule as a linear
/// dimension.
#[derive(Clone, Copy, Debug)]
pub struct Pin {
    pub inner: Linear,
}

impl Pin {
    /// Builds the pin side of a floating pair; the parameters are validated
    /// as for a linear dimension.
    pub fn new(dim: u64, plus: u64, minus: u64, sigma: u64) -> (r: Result<Pin, StackError>)
        ensures
            r is Ok <==> valid_tolerance(plus, minus, sigma),
            r matches Ok(p) ==> p.inner == (Linear { dim, plus, minus, sigma }),
            r matches Err(e) ==> e == StackError::InvalidParameter,
    {
        match Linear::new(dim, plus, minus, sigma) {
            Ok(inner) => Ok(Pin { inner }),
            Err(e) => Err(e),
        }
    }
}

/// A floating hole/pin clearance pair.  Its contribution to a trial is the
/// difference of the two sides' sampled deviations; it adds no fixed nominal
/// length to the stack.
#[derive(Clone, Copy, Debug)]
pub struct Float {
    pub hole: Linear,
    pub pin: Linear,
}

impl Float {
    /// The pair's two sides are in the valid domain.
    pub open spec fn wf(self) -> bool {
        self.hole.wf() && self.pin.wf()
    }

    /// Builds a floating pair from its two validated sides.
    pub fn new(hole: Hole, pin: Pin) -> (r: Float)
        ensures
            r.hole == hole.inner,
            r.pin == pin.inner,
    {
        Float { hole: hole.inner, pin: pin.inner }
    }
}

/// One dimension of the stack: either a simple linear offset or a floating
/// hole/pin pair.
#[derive(Clone, Copy, Debug)]
pub enum Dimension {
    Linear { inner: Linear },
    Float { inner: Float },
}

impl Dimension {
    /// The dimension's parameters are in the valid domain.
    pub open spec fn wf(self) -> bool {
        match self {
            Dimension::Linear { inner } => inner.wf(),
            Dimension::Float { inner } => inner.wf(),
        }
    }
}

/// An assembly: an assembly-level sigma ratio (a binary64 bit pattern) and
/// an ordered sequence of dimensions.  The order is preserved so that a
/// seeded simulation is reproducible; the total is a sum over the sequence,
/// so the order never changes the result.  The description is immutable
/// once built: the engine only reads it.
#[derive(Debug)]
pub struct TolStack {
    pub assy_sigma: u64,
    pub dimensions: Vec<Dimension>,
}

impl TolStack {
    /// Every dimension of the stack is in the valid domain.
    pub open spec fn wf(self) -> bool {
        forall|i: int| 0 <= i < self.dimensions@.len() ==> self.dimensions@[i].wf()
    }

    /// Builds an empty stack with the given assembly-level sigma ratio.
    pub fn new(assy_sigma: u64) -> (r: TolStack)
        ensures
            r.assy_sigma == assy_sigma,
            r.dimensions@ == Seq::<Dimension>::empty(),
            r.wf(),
    {
        TolStack { assy_sigma, dimensions: Vec::new() }
    }
}

/// Appending a dimension to a builder.
pub trait PushDim<T>: Sized {
    /// How the builder after `with_dim` relates to the builder before it and
    /// to the appended item.
    spec fn dim_pushed(self, item: T, r: Self) -> bool;

    /// Appends one dimension, handing the builder back for chaining.
    fn with_dim(self, item: T) -> (r: Self)
        ensures
            self.dim_pushed(item, r),
    ;
}

impl PushDim<Linear> for TolStack {
    open spec fn dim_pushed(self, item: Linear, r: TolStack) -> bool {
        &&& r.dimensions@ == self.dimensions@.push(Dimension::Linear { inner: item })
        &&& r.assy_sigma == self.assy_sigma
    }

    fn with_dim(self, item: Linear) -> (r: Self) {
        let mut s = self;
        s.dimensions.push(Dimension::Linear { inner: item });
        s
    }
}

impl PushDim<Float> for TolStack {
    open spec fn dim_pushed(self, item: Float, r: TolStack) -> bool {
        &&& r.dimensions@ == self.dimensions@.push(Dimension::Float { inner: item })
        &&& r.assy_sigma == self.assy_sigma
    }

    fn with_dim(self, item: Float) -> (r: Self) {
        let mut s = self;
        s.dimensions.push(Dimension::Float { inner: item });
        s
    }
}

/// Appending a valid linear dimension to a stack whose dimensions are all
/// valid leaves a stack whose dimensions are all valid: validation never
/// has to be repeated at simulation time.
pub proof fn lemma_push_linear_preserves_wf(pre: TolStack, item: Linear, post: TolStack)
    requires
        pre.wf(),
        item.wf(),
        pre.dim_pushed(item, post),
    ensures
        post.wf(),
{
    assert forall|i: int| 0 <= i < post.dimensions@.len() implies post.dimensions@[i].wf() by {
        if i < pre.dimensions@.len() {
            assert(post.dimensions@[i] == pre.dimensions@[i]);
        }
    }
}

/// Appending a valid floating pair to a stack whose dimensions are all
/// valid leaves a stack whose dimensions are all valid.
pub proof fn lemma_push_float_preserves_wf(pre: TolStack, item: Float, post: TolStack)
    requires
        pre.wf(),
        item.wf(),
        pre.dim_pushed(item, post),
    ensures
        post.wf(),
{
    assert forall|i: int| 0 <= i < post.dimensions@.len() implies post.dimensions@[i].wf() by {
        if i < pre.dimensions@.len() {
            assert(post.dimensions@[i] == pre.dimensions@[i]);
        }
    }
}

/// The nominal lengths of the `Linear` dimensions of a sequence, in order:
/// the fixed, non-toleranced part of the overall stack length.  Floating
/// pairs contribute nothing here.
pub open spec fn linear_lengths_of(dims: Seq<Dimension>) -> Seq<u64>
    decreases dims.len(),
{
    if dims.len() == 0 {
        Seq::empty()
    } else {
        let rest = linear_lengths_of(dims.drop_last());
        match dims.last() {
            Dimension::Linear { inner } => rest.push(inner.dim),
            Dimension::Float { .. } => rest,
        }
    }
}

impl TolStack {
    /// The nominal lengths (bit patterns) of the stack's `Linear` dimensions,
    /// in stack order; their sum is the fixed part of the mean.
    pub fn linear_lengths(&self) -> (r: Vec<u64>)
        ensures
            r@ == linear_lengths_of(self.dimensions@),
    {
        let mut out: Vec<u64> = Vec::new();
        let n: usize = self.dimensions.len();
        for i in 0..n
            invariant
                n == self.dimensions@.len(),
                out@ == linear_lengths_of(self.dimensions@.take(i as int)),
        {
            proof {
                assert(self.dimensions@.take(i + 1).drop_last() =~= self.dimensions@.take(i as int));
                assert(self.dimensions@.take(i + 1).last() == self.dimensions@[i as int]);
            }
            match self.dimensions[i] {
                Dimension::Linear { inner } => { out.push(inner.dim); },
                Dimension::Float { .. } => {},
            }
        }
        proof {
            assert(self.dimensions@.take(n as int) =~= self.dimensions@);
        }
        out
    }
}

} // verus!
