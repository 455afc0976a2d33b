use crate::math::{Euler, Float, Matrix4, Vector3};
use vstd::prelude::*;

verus! {

/// The transform of one group of a model. A model with several parts has one
/// group per part, and each can be moved on its own.
#[derive(Clone, Copy, Debug, PartialEq, Eq, Structural)]
pub struct ModelDataGroup {
    pub matrix: Matrix4,
}

impl ModelDataGroup {
    pub open spec fn spec_default() -> ModelDataGroup {
        ModelDataGroup { matrix: Matrix4::spec_identity() }
    }
}

impl Default for ModelDataGroup {
    /// A group that is not moved: its matrix is the identity.
    fn default() -> (r: ModelDataGroup)
        ensures
            r == ModelDataGroup::spec_default(),
    {
        ModelDataGroup { matrix: Matrix4::identity() }
    }
}

/// The data of a model: where it stands in the world, how it is turned and
/// scaled, and the transform of each of its groups.
///
/// Every handle has a data record of its own, which the handle and the
/// registry entry of the model both refer to.
#[derive(Debug)]
pub struct ModelData {
    /// The position of the model in the world.
    pub position: Vector3,
    /// The rotation of the model.
    pub rotation: Euler,
    /// The scale of the model.
    pub scale: Float,
    /// One transform for each group of the model.
    pub groups: Vec<ModelDataGroup>,
}

/// What a data record holds, with its groups as a sequence.
pub struct ModelDataView {
    pub position: Vector3,
    pub rotation: Euler,
    pub scale: Float,
    pub groups: Seq<ModelDataGroup>,
}

impl View for ModelData {
    type V = ModelDataView;

    open spec fn view(&self) -> ModelDataView {
        ModelDataView {
            position: self.position,
            rotation: self.rotation,
            scale: self.scale,
            groups: self.groups@,
        }
    }
}

impl Default for ModelData {
    /// At the origin, not rotated, at scale `1.0`, without groups.
    fn default() -> (r: ModelData)
        ensures
            r.position == Vector3::spec_zero(),
            r.rotation == Euler::spec_zero(),
            r.scale == Float::spec_one(),
            r.groups@.len() == 0,
    {
        ModelData {
            position: Vector3::zero(),
            rotation: Euler::zero(),
            scale: Float::one(),
            groups: Vec::new(),
        }
    }
}

impl ModelData {
    /// A copy of this record with the same values, to be owned by another handle.
    pub fn snapshot(&self) -> (r: ModelData)
        ensures
            r@ == self@,
    {
        let mut groups: Vec<ModelDataGroup> = Vec::new();
        let n: usize = self.groups.len();
        let mut i: usize = 0;
        while i < n
            invariant
                n == self.groups@.len(),
                i <= n,
                groups@ == self.groups@.subrange(0, i as int),
            decreases n - i,
        {
            groups.push(self.groups[i]);
            i += 1;
            assert(groups@ =~= self.groups@.subrange(0, i as int));
        }
        assert(groups@ =~= self.groups@);
        ModelData {
            position: self.position,
            rotation: self.rotation,
            scale: self.scale,
            groups,
        }
    }

    /// `count` groups, each with the identity as its matrix.
    pub open spec fn spec_rest_groups(count: nat) -> Seq<ModelDataGroup> {
        Seq::new(count, |i: int| ModelDataGroup::spec_default())
    }

    /// `count` groups, each with the identity as its matrix.
    pub fn rest_groups(count: usize) -> (groups: Vec<ModelDataGroup>)
        ensures
            groups@ == ModelData::spec_rest_groups(count as nat),
    {
        let mut groups: Vec<ModelDataGroup> = Vec::new();
        let mut i: usize = 0;
        while i < count
            invariant
                i <= count,
                groups@ == ModelData::spec_rest_groups(i as nat),
            decreases count - i,
        {
            groups.push(ModelDataGroup::default());
            i += 1;
            assert(groups@ =~= ModelData::spec_rest_groups(i as nat));
        }
        groups
    }
}

} // verus!
