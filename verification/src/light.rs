//! The three kinds of light and what each exports to a shader.

use crate::math_data::GVec3;
use crate::scalar::Scalar;
use crate::uniform::dotted;
use crate::uniform::field_name;
use crate::uniform::StructToUniform;
use crate::uniform::UniformStorage;
use crate::uniform::UniformValue;
use vstd::prelude::*;

verus! {

/// A light at a point, which fades with distance `d` by
/// `1 / (constant + linear * d + quadratic * d * d)`.
#[derive(Clone, Copy, Debug, PartialEq, Eq, Structural)]
pub struct PointLight {
    pub position: GVec3,
    pub ambient: GVec3,
    pub diffuse: GVec3,
    pub specular: GVec3,
    pub constant: Scalar,
    pub linear: Scalar,
    pub quadratic: Scalar,
}

impl PointLight {
    pub fn new(
        position: GVec3,
        ambient: GVec3,
        diffuse: GVec3,
        specular: GVec3,
        constant: Scalar,
        linear: Scalar,
        quadratic: Scalar,
    ) -> (r: PointLight)
        ensures
            r == (PointLight { position, ambient, diffuse, specular, constant, linear, quadratic }),
    {
        PointLight { ambient, diffuse, specular, constant, linear, position, quadratic }
    }

    /// Gives the light the colour `color`: diffuse and specular take it as it
    /// is, ambient takes `dimmed`, which the caller has made a tenth of it.
    /// Position and fading stay.
    pub fn set_color(&mut self, color: GVec3, dimmed: GVec3)
        ensures
            *final(self) == (PointLight {
                ambient: dimmed,
                diffuse: color,
                specular: color,
                ..*old(self)
            }),
    {
        self.ambient = dimmed;
        self.diffuse = color;
        self.specular = color;
    }
}

impl StructToUniform for PointLight {
    open spec fn uniforms(&self, struct_name: Seq<char>) -> Map<Seq<char>, UniformValue> {
        Map::<Seq<char>, UniformValue>::empty().insert(
            dotted(struct_name, "position"@),
            UniformValue::Vec3(self.position.data),
        ).insert(dotted(struct_name, "ambient"@), UniformValue::Vec3(self.ambient.data)).insert(
            dotted(struct_name, "diffuse"@),
            UniformValue::Vec3(self.diffuse.data),
        ).insert(dotted(struct_name, "specular"@), UniformValue::Vec3(self.specular.data)).insert(
            dotted(struct_name, "constant"@),
            UniformValue::Float(self.constant),
        ).insert(dotted(struct_name, "linear"@), UniformValue::Float(self.linear)).insert(
            dotted(struct_name, "quadratic"@),
            UniformValue::Float(self.quadratic),
        )
    }

    fn as_uniform(&self, struct_name: &str, storage: &mut UniformStorage) {
        storage.add(field_name(struct_name, "position").as_str(), self.position.as_uniform_value());
        storage.add(field_name(struct_name, "ambient").as_str(), self.ambient.as_uniform_value());
        storage.add(field_name(struct_name, "diffuse").as_str(), self.diffuse.as_uniform_value());
        storage.add(field_name(struct_name, "specular").as_str(), self.specular.as_uniform_value());
        storage.add(field_name(struct_name, "constant").as_str(), UniformValue::Float(self.constant));
        storage.add(field_name(struct_name, "linear").as_str(), UniformValue::Float(self.linear));
        storage.add(
            field_name(struct_name, "quadratic").as_str(),
            UniformValue::Float(self.quadratic),
        );
        assert(storage@ =~= old(storage)@.union_prefer_right(self.uniforms(struct_name@)));
    }
}

/// A light from a direction, as from far away.
#[derive(Clone, Copy, Debug, PartialEq, Eq, Structural)]
pub struct DirectionalLight {
    pub direction: GVec3,
    pub ambient: GVec3,
    pub diffuse: GVec3,
    pub specular: GVec3,
}

impl DirectionalLight {
    pub fn new(position: GVec3, ambient: GVec3, diffuse: GVec3, specular: GVec3) -> (r:
        DirectionalLight)
        ensures
            r == (DirectionalLight { direction: position, ambient, diffuse, specular }),
    {
        DirectionalLight { ambient, diffuse, specular, direction: position }
    }
}

impl StructToUniform for DirectionalLight {
    open spec fn uniforms(&self, struct_name: Seq<char>) -> Map<Seq<char>, UniformValue> {
        Map::<Seq<char>, UniformValue>::empty().insert(
            dotted(struct_name, "direction"@),
            UniformValue::Vec3(self.direction.data),
        ).insert(dotted(struct_name, "ambient"@), UniformValue::Vec3(self.ambient.data)).insert(
            dotted(struct_name, "diffuse"@),
            UniformValue::Vec3(self.diffuse.data),
        ).insert(dotted(struct_name, "specular"@), UniformValue::Vec3(self.specular.data))
    }

    fn as_uniform(&self, struct_name: &str, storage: &mut UniformStorage) {
        storage.add(
            field_name(struct_name, "direction").as_str(),
            self.direction.as_uniform_value(),
        );
        storage.add(field_name(struct_name, "ambient").as_str(), self.ambient.as_uniform_value());
        storage.add(field_name(struct_name, "diffuse").as_str(), self.diffuse.as_uniform_value());
        storage.add(field_name(struct_name, "specular").as_str(), self.specular.as_uniform_value());
        assert(storage@ =~= old(storage)@.union_prefer_right(self.uniforms(struct_name@)));
    }
}

/// A light at a point that shines in a cone. The two cutoffs are the cosines
/// of the angles at which the cone starts to fade and at which it ends.
#[derive(Clone, Copy, Debug, PartialEq, Eq, Structural)]
pub struct SpotLight {
    pub position: GVec3,
    pub direction: GVec3,
    pub ambient: GVec3,
    pub diffuse: GVec3,
    pub specular: GVec3,
    pub cut_off: Scalar,
    pub outer_cut_off: Scalar,
    pub constant: Scalar,
    pub linear: Scalar,
    pub quadratic: Scalar,
}

impl SpotLight {
    pub fn new(
        position: GVec3,
        direction: GVec3,
        ambient: GVec3,
        diffuse: GVec3,
        specular: GVec3,
        constant: Scalar,
        linear: Scalar,
        quadratic: Scalar,
        cut_off: Scalar,
        outer_cut_off: Scalar,
    ) -> (r: SpotLight)
        ensures
            r == (SpotLight {
                position,
                direction,
                ambient,
                diffuse,
                specular,
                cut_off,
                outer_cut_off,
                constant,
                linear,
                quadratic,
            }),
    {
        SpotLight {
            position,
            ambient,
            diffuse,
            specular,
            direction,
            cut_off,
            outer_cut_off,
            constant,
            linear,
            quadratic,
        }
    }
}

impl StructToUniform for SpotLight {
    open spec fn uniforms(&self, struct_name: Seq<char>) -> Map<Seq<char>, UniformValue> {
        Map::<Seq<char>, UniformValue>::empty().insert(
            dotted(struct_name, "position"@),
            UniformValue::Vec3(self.position.data),
        ).insert(dotted(struct_name, "direction"@), UniformValue::Vec3(self.direction.data)).insert(
            dotted(struct_name, "ambient"@),
            UniformValue::Vec3(self.ambient.data),
        ).insert(dotted(struct_name, "diffuse"@), UniformValue::Vec3(self.diffuse.data)).insert(
            dotted(struct_name, "specular"@),
            UniformValue::Vec3(self.specular.data),
        ).insert(dotted(struct_name, "cutOff"@), UniformValue::Float(self.cut_off)).insert(
            dotted(struct_name, "outerCutOff"@),
            UniformValue::Float(self.outer_cut_off),
        ).insert(dotted(struct_name, "constant"@), UniformValue::Float(self.constant)).insert(
            dotted(struct_name, "linear"@),
            UniformValue::Float(self.linear),
        ).insert(dotted(struct_name, "quadratic"@), UniformValue::Float(self.quadratic))
    }

    fn as_uniform(&self, struct_name: &str, storage: &mut UniformStorage) {
        storage.add(field_name(struct_name, "position").as_str(), self.position.as_uniform_value());
        storage.add(
            field_name(struct_name, "direction").as_str(),
            self.direction.as_uniform_value(),
        );
        storage.add(field_name(struct_name, "ambient").as_str(), self.ambient.as_uniform_value());
        storage.add(field_name(struct_name, "diffuse").as_str(), self.diffuse.as_uniform_value());
        storage.add(field_name(struct_name, "specular").as_str(), self.specular.as_uniform_value());
        storage.add(field_name(struct_name, "cutOff").as_str(), UniformValue::Float(self.cut_off));
        storage.add(
            field_name(struct_name, "outerCutOff").as_str(),
            UniformValue::Float(self.outer_cut_off),
        );
        storage.add(field_name(struct_name, "constant").as_str(), UniformValue::Float(self.constant));
        storage.add(field_name(struct_name, "linear").as_str(), UniformValue::Float(self.linear));
        storage.add(
            field_name(struct_name, "quadratic").as_str(),
            UniformValue::Float(self.quadratic),
        );
        assert(storage@ =~= old(storage)@.union_prefer_right(self.uniforms(struct_name@)));
    }
}

/// The number of point lights in a scene: the length of the array of point
/// lights on the shader's side.
pub const POINT_LIGHT_COUNT: usize = 4;

/// The character of a decimal digit.
pub open spec fn digit(d: nat) -> char {
    if d == 0 {
        '0'
    } else if d == 1 {
        '1'
    } else if d == 2 {
        '2'
    } else if d == 3 {
        '3'
    } else if d == 4 {
        '4'
    } else if d == 5 {
        '5'
    } else if d == 6 {
        '6'
    } else if d == 7 {
        '7'
    } else if d == 8 {
        '8'
    } else {
        '9'
    }
}

/// A number written in decimal digits, without leading zeros.
pub open spec fn decimal(n: nat) -> Seq<char>
    decreases n,
{
    if n < 10 {
        seq![digit(n)]
    } else {
        decimal(n / 10).push(digit(n % 10))
    }
}

/// The name of the element `index` of the shader-side array `array`: the
/// name of the array with the index in square brackets behind it.
pub open spec fn indexed(array: Seq<char>, index: nat) -> Seq<char> {
    array + seq!['['] + decimal(index) + seq![']']
}

fn digit_name(d: usize) -> (r: &'static str)
    requires
        d < 10,
    ensures
        r@ == seq![digit(d as nat)],
{
    proof {
        reveal_strlit("0");
        reveal_strlit("1");
        reveal_strlit("2");
        reveal_strlit("3");
        reveal_strlit("4");
        reveal_strlit("5");
        reveal_strlit("6");
        reveal_strlit("7");
        reveal_strlit("8");
        reveal_strlit("9");
    }
    let r = if d == 0 {
        "0"
    } else if d == 1 {
        "1"
    } else if d == 2 {
        "2"
    } else if d == 3 {
        "3"
    } else if d == 4 {
        "4"
    } else if d == 5 {
        "5"
    } else if d == 6 {
        "6"
    } else if d == 7 {
        "7"
    } else if d == 8 {
        "8"
    } else {
        "9"
    };
    assert(r@ =~= seq![digit(d as nat)]);
    r
}

/// The number `n` written in decimal digits, without leading zeros.
pub fn decimal_name(n: usize) -> (r: String)
    ensures
        r@ == decimal(n as nat),
    decreases n,
{
    if n < 10 {
        digit_name(n).to_owned()
    } else {
        let r = decimal_name(n / 10).concat(digit_name(n % 10));
        assert(r@ =~= decimal((n / 10) as nat).push(digit((n % 10) as nat)));
        r
    }
}

/// The name of the element `index` of the shader-side array `array`.
pub fn element_name(array: &str, index: usize) -> (r: String)
    ensures
        r@ == indexed(array@, index as nat),
{
    proof {
        reveal_strlit("[");
        reveal_strlit("]");
    }
    let digits: String = decimal_name(index);
    let r = array.to_owned().concat("[").concat(digits.as_str()).concat("]");
    assert("["@ =~= seq!['[']);
    assert("]"@ =~= seq![']']);
    r
}

/// The bag after the first `count` of the lights were exported, each under
/// the name of its element of `array`.
pub open spec fn with_lights(
    bag: Map<Seq<char>, UniformValue>,
    lights: Seq<PointLight>,
    array: Seq<char>,
    count: nat,
) -> Map<Seq<char>, UniformValue>
    decreases count,
{
    if count == 0 {
        bag
    } else {
        with_lights(bag, lights, array, (count - 1) as nat).union_prefer_right(
            lights[count - 1].uniforms(indexed(array, (count - 1) as nat)),
        )
    }
}

/// Exports every light of `lights` to `storage`, the light at place `i`
/// under the name of element `i` of the shader-side array `array`.
pub fn export_point_lights(lights: &[PointLight], array: &str, storage: &mut UniformStorage)
    ensures
        final(storage)@ == with_lights(old(storage)@, lights@, array@, lights@.len()),
{
    let mut i: usize = 0;
    while i < lights.len()
        invariant
            i <= lights.len(),
            storage@ == with_lights(old(storage)@, lights@, array@, i as nat),
        decreases lights.len() - i,
    {
        let name: String = element_name(array, i);
        lights[i].as_uniform(name.as_str(), storage);
        i += 1;
    }
}

} // verus!
