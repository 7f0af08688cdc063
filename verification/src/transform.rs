use vstd::prelude::*;
use crate::scalar::Scalar;

verus! {

/// One elementary change of an object's placement.  Each stands for the
/// matrix of that name.
#[derive(Clone, Copy, Debug, PartialEq, Eq, Structural)]
pub enum TransformOp {
    /// Scaling by a factor along each axis.
    Scale(Scalar, Scalar, Scalar),
    /// A shift along each axis.
    Translate(Scalar, Scalar, Scalar),
    /// A rotation about the x axis by an angle in degrees.
    RotateX(Scalar),
    /// A rotation about the y axis by an angle in degrees.
    RotateY(Scalar),
    /// A rotation about the z axis by an angle in degrees.
    RotateZ(Scalar),
}

/// The model matrix of an object, held as the elementary operations whose
/// product it is.
///
/// The matrix is the product of the matrices of `ops`, taken from the
/// first to the last: each operation multiplies the matrix from the right,
/// so it acts in the object's own space, before the operations applied
/// earlier.  The library keeps the order; the renderer forms the product.
#[derive(Clone, Debug, PartialEq, Eq)]
pub struct Transform {
    pub ops: Vec<TransformOp>,
}

impl View for Transform {
    type V = Seq<TransformOp>;

    open spec fn view(&self) -> Seq<TransformOp> {
        self.ops@
    }
}

impl Transform {
    /// The identity: no operation has been applied.
    pub fn identity() -> (t: Transform)
        ensures
            t@ == Seq::<TransformOp>::empty(),
    {
        Transform { ops: Vec::new() }
    }

    /// Multiplies the matrix from the right by that of `op`.
    pub fn apply(&mut self, op: TransformOp)
        ensures
            final(self)@ == old(self)@.push(op),
    {
        self.ops.push(op);
    }

    pub fn scale(&mut self, x: Scalar, y: Scalar, z: Scalar)
        ensures
            final(self)@ == old(self)@.push(TransformOp::Scale(x, y, z)),
    {
        self.apply(TransformOp::Scale(x, y, z));
    }

    pub fn translate(&mut self, x: Scalar, y: Scalar, z: Scalar)
        ensures
            final(self)@ == old(self)@.push(TransformOp::Translate(x, y, z)),
    {
        self.apply(TransformOp::Translate(x, y, z));
    }

    /// Rotates about the x axis by `angle` degrees.
    pub fn rotate_x(&mut self, angle: Scalar)
        ensures
            final(self)@ == old(self)@.push(TransformOp::RotateX(angle)),
    {
        self.apply(TransformOp::RotateX(angle));
    }

    /// Rotates about the y axis by `angle` degrees.
    pub fn rotate_y(&mut self, angle: Scalar)
        ensures
            final(self)@ == old(self)@.push(TransformOp::RotateY(angle)),
    {
        self.apply(TransformOp::RotateY(angle));
    }

    /// Rotates about the z axis by `angle` degrees.
    pub fn rotate_z(&mut self, angle: Scalar)
        ensures
            final(self)@ == old(self)@.push(TransformOp::RotateZ(angle)),
    {
        self.apply(TransformOp::RotateZ(angle));
    }
}

/// The operations recorded once `calls` have been applied, one after the
/// other, to a transform that had recorded `before`.
pub open spec fn applied(before: Seq<TransformOp>, calls: Seq<TransformOp>) -> Seq<TransformOp>
    decreases calls.len(),
{
    if calls.len() == 0 {
        before
    } else {
        applied(before, calls.drop_last()).push(calls.last())
    }
}

/// Whatever calls are made, what is recorded is what was recorded before
/// them followed by the operations of the calls, in the order of the
/// calls: starting from the identity, it is the calls themselves.  So the
/// matrix is the product of the elementary matrices in call order.
pub proof fn lemma_calls_compose_in_order(before: Seq<TransformOp>, calls: Seq<TransformOp>)
    ensures
        applied(before, calls) == before + calls,
        applied(Seq::empty(), calls) == calls,
    decreases calls.len(),
{
    if calls.len() > 0 {
        lemma_calls_compose_in_order(before, calls.drop_last());
        lemma_calls_compose_in_order(Seq::empty(), calls.drop_last());
        assert(calls.drop_last().push(calls.last()) =~= calls);
        assert((before + calls.drop_last()).push(calls.last()) =~= before + calls);
    } else {
        assert(before + calls =~= before);
        assert(calls =~= Seq::<TransformOp>::empty());
    }
}

/// The order of two calls is kept: what is recorded after `first` and
/// then `second` is what is recorded after `second` and then `first` only
/// where the two are the same operation.
pub proof fn lemma_order_is_kept(before: Seq<TransformOp>, first: TransformOp, second: TransformOp)
    ensures
        applied(before, seq![first, second]) == applied(before, seq![second, first]) <==> first
            == second,
{
    lemma_calls_compose_in_order(before, seq![first, second]);
    lemma_calls_compose_in_order(before, seq![second, first]);
    let one = before + seq![first, second];
    let other = before + seq![second, first];
    assert(one[before.len() as int] == first);
    assert(other[before.len() as int] == second);
    if first == second {
        assert(one =~= other);
    }
}

} // verus!
