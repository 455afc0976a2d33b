use crate::math::{Float, Vector3};
use vstd::prelude::*;
use vstd::slice::slice_subrange;

verus! {

/// The color of a light, in three parts.
#[derive(Clone, Copy, Debug, PartialEq, Eq, Structural)]
pub struct LightColor {
    /// The light that reaches an object from all around, so that it is
    /// never completely dark.
    pub ambient: Vector3,
    /// The light that an object reflects the more, the more it faces the source.
    pub diffuse: Vector3,
    /// The bright spot that the source leaves on a shiny object.
    pub specular: Vector3,
}

impl LightColor {
    pub open spec fn spec_default() -> LightColor {
        LightColor {
            ambient: Vector3::spec_zero(),
            diffuse: Vector3::spec_zero(),
            specular: Vector3::spec_zero(),
        }
    }
}

impl Default for LightColor {
    /// No light of any kind.
    fn default() -> (r: LightColor)
        ensures
            r == LightColor::spec_default(),
    {
        LightColor { ambient: Vector3::zero(), diffuse: Vector3::zero(), specular: Vector3::zero() }
    }
}

/// A light that shines in one direction from far away, as the sun does.
/// Light that comes from the sky goes down, so its direction is `(0, -1, 0)`.
#[derive(Clone, Copy, Debug, PartialEq, Eq, Structural)]
pub struct DirectionalLight {
    /// The direction of the light source
    pub direction: Vector3,
    /// The color of the light source.
    pub color: LightColor,
}

impl Default for DirectionalLight {
    /// A light without direction and without color.
    fn default() -> (r: DirectionalLight)
        ensures
            r == (DirectionalLight {
                direction: Vector3::spec_zero(),
                color: LightColor::spec_default(),
            }),
    {
        DirectionalLight { direction: Vector3::zero(), color: LightColor::default() }
    }
}

/// Bit pattern of `0.09`.
pub const ATTENUATION_LINEAR_BITS: u32 = 0x3db8_51ec;

/// Bit pattern of `0.032`.
pub const ATTENUATION_QUADRATIC_BITS: u32 = 0x3d03_126f;

/// By how much a point light fades with the distance.
#[derive(Clone, Copy, Debug, PartialEq, Eq, Structural)]
pub struct PointLightAttenuation {
    /// Reduces the light at every distance alike.
    pub constant: Float,
    /// Reduces the light in proportion to the distance.
    pub linear: Float,
    /// Reduces the light in proportion to the square of the distance.
    pub quadratic: Float,
}

impl PointLightAttenuation {
    pub open spec fn spec_default() -> PointLightAttenuation {
        PointLightAttenuation {
            constant: Float::spec_one(),
            linear: Float { bits: ATTENUATION_LINEAR_BITS },
            quadratic: Float { bits: ATTENUATION_QUADRATIC_BITS },
        }
    }
}

impl Default for PointLightAttenuation {
    /// `1.0`, `0.09` and `0.032`: a light that reaches about fifty units far.
    fn default() -> (r: PointLightAttenuation)
        ensures
            r == PointLightAttenuation::spec_default(),
    {
        PointLightAttenuation {
            constant: Float::one(),
            linear: Float::from_bits(ATTENUATION_LINEAR_BITS),
            quadratic: Float::from_bits(ATTENUATION_QUADRATIC_BITS),
        }
    }
}

/// A light that shines from one point in all directions, as a lightbulb does.
#[derive(Clone, Copy, Debug, PartialEq, Eq, Structural)]
pub struct PointLight {
    /// The position of the light in the world.
    pub position: Vector3,
    /// The color of the light in the world.
    pub color: LightColor,
    /// How much the light decays over a distance.
    pub attenuation: PointLightAttenuation,
}

impl Default for PointLight {
    /// A light at the origin, without color, that fades as the default
    /// attenuation says.
    fn default() -> (r: PointLight)
        ensures
            r == (PointLight {
                position: Vector3::spec_zero(),
                color: LightColor::spec_default(),
                attenuation: PointLightAttenuation::spec_default(),
            }),
    {
        PointLight {
            position: Vector3::zero(),
            color: LightColor::default(),
            attenuation: PointLightAttenuation::default(),
        }
    }
}

/// The number of lights of one kind that the shaders can take.
pub const LIGHT_COUNT: usize = 100;

/// A list of at most 100 light sources, kept in a fixed array because the
/// shaders take no more.
pub struct FixedVec<T> {
    pub(crate) data: [T; LIGHT_COUNT],
    pub(crate) len: usize,
}

/// Calls `array_init::array_init` with a closure that ignores the index and
/// returns `T::default()`. Nothing is claimed of what the array holds: the
/// length of the result is in its type.
#[verifier::external_body]
fn default_array<T: Default>() -> (r: [T; LIGHT_COUNT]) {
    array_init::array_init(|_| T::default())
}

/// Indexes a mutable array with the range `..n`, as `std::ops::IndexMut`
/// gives it for arrays and slices: the result is the first `n` elements,
/// and what is written to it is written to the array, whose other elements
/// stay as they are. `n` must not exceed the length, else the index panics.
#[verifier::external_body]
fn prefix_mut<T>(array: &mut [T; LIGHT_COUNT], n: usize) -> (out: &mut [T])
    requires
        n <= LIGHT_COUNT,
    ensures
        out@ == old(array)@.subrange(0, n as int),
        final(out)@.len() == n,
        final(array)@ == final(out)@ + old(array)@.subrange(n as int, LIGHT_COUNT as int),
{
    &mut array[..n]
}

impl<T> View for FixedVec<T> {
    type V = Seq<T>;

    /// The lights in the list, in the order in which they were added.
    closed spec fn view(&self) -> Seq<T> {
        self.data@.subrange(0, self.len as int)
    }
}

impl<T> FixedVec<T> {
    /// Whether the list is in order: it holds no more than the array has room for.
    pub closed spec fn wf(&self) -> bool {
        self.len <= LIGHT_COUNT
    }

    /// Extracts a slice containing the entire fixed vec.
    pub fn as_slice(&self) -> (r: &[T])
        requires
            self.wf(),
        ensures
            r@ == self@,
    {
        slice_subrange(self.data.as_slice(), 0, self.len)
    }

    /// Extracts a mutable slice of the entire fixed vec.
    pub fn as_mut_slice(&mut self) -> (r: &mut [T])
        requires
            old(self).wf(),
        ensures
            r@ == old(self)@,
            final(self)@ == final(r)@,
            final(self).wf(),
    {
        let n: usize = self.len;
        let r = prefix_mut(&mut self.data, n);
        proof {
            assert((final(r)@ + old(self).data@.subrange(n as int, LIGHT_COUNT as int)).subrange(
                0,
                n as int,
            ) =~= final(r)@);
        }
        r
    }

    /// Get the amount of lights that are stored in this `FixedVec`.
    ///
    /// Note: this is always 100 or lower.
    pub fn len(&self) -> (r: usize)
        requires
            self.wf(),
        ensures
            r == self@.len(),
            r <= LIGHT_COUNT,
    {
        self.len
    }

    /// Returns `true` if this `FixedVec` is empty.
    pub fn is_empty(&self) -> (r: bool)
        requires
            self.wf(),
        ensures
            r == (self@.len() == 0),
    {
        self.len() == 0
    }

    /// Add a new light to this `FixedVec`, which must hold fewer than 100.
    pub fn push(&mut self, t: T)
        requires
            old(self).wf(),
            old(self)@.len() < LIGHT_COUNT,
        ensures
            final(self).wf(),
            final(self)@ == old(self)@.push(t),
    {
        self.data[self.len] = t;
        self.len += 1;
        assert(self@ =~= old(self)@.push(t));
    }

    /// Remove the last light source from this `FixedVec`, which must not be empty.
    pub fn pop(&mut self)
        requires
            old(self).wf(),
            old(self)@.len() > 0,
        ensures
            final(self).wf(),
            final(self)@ == old(self)@.drop_last(),
    {
        self.len -= 1;
        assert(self@ =~= old(self)@.drop_last());
    }

    /// The light at `index`, which must be below the length.
    pub fn get(&self, index: usize) -> (r: &T)
        requires
            self.wf(),
            index < self@.len(),
        ensures
            *r == self@[index as int],
    {
        &self.data[index]
    }

    /// Puts `t` in the place of the light at `index`, which must be below
    /// the length.
    pub fn set(&mut self, index: usize, t: T)
        requires
            old(self).wf(),
            index < old(self)@.len(),
        ensures
            final(self).wf(),
            final(self)@ == old(self)@.update(index as int, t),
    {
        self.data[index] = t;
        assert(self@ =~= old(self)@.update(index as int, t));
    }
}

/// A directional light as the shaders take it: twelve numbers in a row.
#[derive(Clone, Copy, Debug, PartialEq, Eq, Structural)]
pub struct DirectionalLightUniform {
    pub direction_x: Float,
    pub direction_y: Float,
    pub direction_z: Float,
    pub color_ambient_r: Float,
    pub color_ambient_g: Float,
    pub color_ambient_b: Float,
    pub color_diffuse_r: Float,
    pub color_diffuse_g: Float,
    pub color_diffuse_b: Float,
    pub color_specular_r: Float,
    pub color_specular_g: Float,
    pub color_specular_b: Float,
}

impl DirectionalLight {
    /// The light as the shaders take it. The green of the diffuse color is
    /// handed over as its red is.
    pub open spec fn spec_uniform(self) -> DirectionalLightUniform {
        DirectionalLightUniform {
            direction_x: self.direction.x,
            direction_y: self.direction.y,
            direction_z: self.direction.z,
            color_ambient_r: self.color.ambient.x,
            color_ambient_g: self.color.ambient.y,
            color_ambient_b: self.color.ambient.z,
            color_diffuse_r: self.color.diffuse.x,
            color_diffuse_g: self.color.diffuse.x,
            color_diffuse_b: self.color.diffuse.z,
            color_specular_r: self.color.specular.x,
            color_specular_g: self.color.specular.y,
            color_specular_b: self.color.specular.z,
        }
    }

    /// The light as the shaders take it.
    pub fn uniform(&self) -> (r: DirectionalLightUniform)
        ensures
            r == self.spec_uniform(),
    {
        DirectionalLightUniform {
            direction_x: self.direction.x,
            direction_y: self.direction.y,
            direction_z: self.direction.z,
            color_ambient_r: self.color.ambient.x,
            color_ambient_g: self.color.ambient.y,
            color_ambient_b: self.color.ambient.z,
            color_diffuse_r: self.color.diffuse.x,
            color_diffuse_g: self.color.diffuse.x,
            color_diffuse_b: self.color.diffuse.z,
            color_specular_r: self.color.specular.x,
            color_specular_g: self.color.specular.y,
            color_specular_b: self.color.specular.z,
        }
    }
}

/// Calls `array_init::array_init` with a closure that takes the index `i`
/// to the uniform of the light at `i`. The crate calls the closure once for
/// each index, in order, and puts what it returns at that index.
#[verifier::external_body]
fn uniform_array(lights: &[DirectionalLight; LIGHT_COUNT]) -> (r: [DirectionalLightUniform;
    LIGHT_COUNT])
    ensures
        forall|i: int| 0 <= i < LIGHT_COUNT ==> #[trigger] r@[i] == lights@[i].spec_uniform(),
{
    array_init::array_init(|i| lights[i].uniform())
}

impl FixedVec<DirectionalLight> {
    /// The lights as the shaders take them: how many there are, and a full
    /// array that holds them at its beginning.
    pub fn to_shader_value(&self) -> (r: (i32, [DirectionalLightUniform; LIGHT_COUNT]))
        requires
            self.wf(),
        ensures
            r.0 == self@.len(),
            forall|i: int| 0 <= i < self@.len() ==> #[trigger] r.1@[i] == self@[i].spec_uniform(),
    {
        let result = uniform_array(&self.data);
        (self.len as i32, result)
    }
}

impl<T: Default> FixedVec<T> {
    /// An empty list.
    pub fn new() -> (r: FixedVec<T>)
        ensures
            r.wf(),
            r@ == Seq::<T>::empty(),
    {
        let r = FixedVec { data: default_array(), len: 0 };
        assert(r@ =~= Seq::<T>::empty());
        r
    }
}

/// The state of the lights in the game: the lights that shine in one
/// direction, and those that shine from a point.
pub struct LightState {
    /// A `FixedVec` of directional lights
    pub directional: FixedVec<DirectionalLight>,
    /// A `FixedVec` of point lights.
    pub point: FixedVec<PointLight>,
}

impl LightState {
    /// No lights of either kind.
    pub fn new() -> (r: LightState)
        ensures
            r.directional.wf(),
            r.point.wf(),
            r.directional@ == Seq::<DirectionalLight>::empty(),
            r.point@ == Seq::<PointLight>::empty(),
    {
        LightState { directional: FixedVec::new(), point: FixedVec::new() }
    }
}

} // verus!
