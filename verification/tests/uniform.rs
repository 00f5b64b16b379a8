use rust_opengl::light::decimal_name;
use rust_opengl::light::element_name;
use rust_opengl::light::export_point_lights;
use rust_opengl::light::DirectionalLight;
use rust_opengl::light::POINT_LIGHT_COUNT;
use rust_opengl::light::PointLight;
use rust_opengl::light::SpotLight;
use rust_opengl::material::Material;
use rust_opengl::material::PbrMaterial;
use rust_opengl::math::Mat4;
use rust_opengl::math::Vec3;
use rust_opengl::math_data::GMat4;
use rust_opengl::math_data::GVec3;
use rust_opengl::scalar::Scalar;
use rust_opengl::uniform::field_name;
use rust_opengl::uniform::StructToUniform;
use rust_opengl::uniform::TextureHandle;
use rust_opengl::uniform::UniformStorage;
use rust_opengl::uniform::UniformValue;

fn s(x: f32) -> Scalar {
    Scalar::from_bits(x.to_bits())
}

fn v(x: f32, y: f32, z: f32) -> GVec3 {
    GVec3::new(s(x), s(y), s(z))
}

fn as_vec3(x: f32, y: f32, z: f32) -> UniformValue {
    UniformValue::Vec3(Vec3 { x: s(x), y: s(y), z: s(z) })
}

fn names(bag: &UniformStorage) -> Vec<String> {
    let mut out = Vec::new();
    for i in 0..bag.len() {
        out.push(bag.name_at(i).clone());
    }
    out.sort();
    out
}

#[test]
fn bag_starts_empty() {
    let bag = UniformStorage::new();
    assert_eq!(bag.len(), 0);
    assert_eq!(bag.get("vp"), None);
    assert_eq!(UniformStorage::default().len(), 0);
}

#[test]
fn bag_holds_what_was_added() {
    let mut bag = UniformStorage::new();
    bag.add("toggleTorchLight", UniformValue::Bool(true));
    bag.add("viewPos", as_vec3(4.0, 4.0, 2.0));
    assert_eq!(bag.len(), 2);
    assert_eq!(bag.get("toggleTorchLight"), Some(UniformValue::Bool(true)));
    assert_eq!(bag.get("viewPos"), Some(as_vec3(4.0, 4.0, 2.0)));
    assert_eq!(bag.get("viewpos"), None);
}

#[test]
fn bag_last_write_wins() {
    let mut bag = UniformStorage::new();
    bag.add("color", UniformValue::Float(s(0.25)));
    bag.add("other", UniformValue::Bool(false));
    bag.add("color", UniformValue::Float(s(0.75)));
    assert_eq!(bag.get("color"), Some(UniformValue::Float(s(0.75))));
    assert_eq!(bag.get("other"), Some(UniformValue::Bool(false)));
    assert_eq!(bag.len(), 2);
    assert_eq!(names(&bag), vec!["color".to_string(), "other".to_string()]);
}

#[test]
fn bag_walk_meets_each_binding_once() {
    let mut bag = UniformStorage::new();
    bag.add("a", UniformValue::Bool(true));
    bag.add("b", UniformValue::Float(s(1.0)));
    bag.add("a", UniformValue::Bool(false));
    bag.add("c", UniformValue::Texture2d(TextureHandle { id: 7 }));
    for i in 0..bag.len() {
        let name = bag.name_at(i).clone();
        assert_eq!(bag.get(&name), Some(bag.value_at(i)));
    }
    assert_eq!(names(&bag), vec!["a".to_string(), "b".to_string(), "c".to_string()]);
}

#[test]
fn bag_name_may_be_empty() {
    let mut bag = UniformStorage::new();
    bag.add("", UniformValue::Bool(true));
    assert_eq!(bag.get(""), Some(UniformValue::Bool(true)));
    assert_eq!(bag.len(), 1);
}

#[test]
fn field_names_are_dotted() {
    assert_eq!(field_name("material", "diffuse"), "material.diffuse");
    assert_eq!(field_name("pointLights[2]", "position"), "pointLights[2].position");
    assert_eq!(field_name("", ""), ".");
}

#[test]
fn vectors_and_matrices_become_values() {
    assert_eq!(v(1.0, 2.0, 3.0).as_uniform_value(), as_vec3(1.0, 2.0, 3.0));
    let m = Mat4::identity();
    assert_eq!(GMat4::new(m).as_uniform_value(), UniformValue::Mat4(m));
    assert_eq!(GMat4::new(m).data, m);
    assert_eq!(v(1.0, 2.0, 3.0).data, Vec3 { x: s(1.0), y: s(2.0), z: s(3.0) });
}

#[test]
fn point_light_exports_its_seven_fields() {
    let light = PointLight::new(
        v(1.2, 2.0, 2.0),
        v(0.1, 0.1, 0.1),
        v(0.5, 0.5, 0.5),
        v(1.0, 1.0, 1.0),
        s(1.0),
        s(0.09),
        s(0.0032),
    );
    let mut bag = UniformStorage::new();
    light.as_uniform("pointLights[0]", &mut bag);
    assert_eq!(bag.len(), 7);
    assert_eq!(
        names(&bag),
        vec![
            "pointLights[0].ambient".to_string(),
            "pointLights[0].constant".to_string(),
            "pointLights[0].diffuse".to_string(),
            "pointLights[0].linear".to_string(),
            "pointLights[0].position".to_string(),
            "pointLights[0].quadratic".to_string(),
            "pointLights[0].specular".to_string(),
        ]
    );
    assert_eq!(bag.get("pointLights[0].position"), Some(as_vec3(1.2, 2.0, 2.0)));
    assert_eq!(bag.get("pointLights[0].ambient"), Some(as_vec3(0.1, 0.1, 0.1)));
    assert_eq!(bag.get("pointLights[0].diffuse"), Some(as_vec3(0.5, 0.5, 0.5)));
    assert_eq!(bag.get("pointLights[0].specular"), Some(as_vec3(1.0, 1.0, 1.0)));
    assert_eq!(bag.get("pointLights[0].constant"), Some(UniformValue::Float(s(1.0))));
    assert_eq!(bag.get("pointLights[0].linear"), Some(UniformValue::Float(s(0.09))));
    assert_eq!(bag.get("pointLights[0].quadratic"), Some(UniformValue::Float(s(0.0032))));
}

#[test]
fn point_lights_export_side_by_side() {
    let mut bag = UniformStorage::new();
    for i in 0..4 {
        let light = PointLight::new(
            v(i as f32, 0.0, 0.0),
            v(0.1, 0.1, 0.1),
            v(0.5, 0.5, 0.5),
            v(1.0, 1.0, 1.0),
            s(1.0),
            s(0.09),
            s(0.0032),
        );
        light.as_uniform(&format!("pointLights[{}]", i), &mut bag);
    }
    assert_eq!(bag.len(), 28);
    assert_eq!(bag.get("pointLights[3].position"), Some(as_vec3(3.0, 0.0, 0.0)));
    assert_eq!(bag.get("pointLights[0].position"), Some(as_vec3(0.0, 0.0, 0.0)));
}

#[test]
fn point_light_export_overwrites_what_stood_there() {
    let first = PointLight::new(
        v(1.0, 1.0, 1.0),
        v(0.1, 0.1, 0.1),
        v(0.5, 0.5, 0.5),
        v(1.0, 1.0, 1.0),
        s(1.0),
        s(0.09),
        s(0.0032),
    );
    let mut second = first;
    second.position = v(9.0, 9.0, 9.0);
    let mut bag = UniformStorage::new();
    bag.add("vp", UniformValue::Mat4(Mat4::identity()));
    first.as_uniform("light", &mut bag);
    second.as_uniform("light", &mut bag);
    assert_eq!(bag.len(), 8);
    assert_eq!(bag.get("light.position"), Some(as_vec3(9.0, 9.0, 9.0)));
    assert_eq!(bag.get("vp"), Some(UniformValue::Mat4(Mat4::identity())));
}

#[test]
fn point_light_takes_a_colour() {
    let mut light = PointLight::new(
        v(1.0, 2.0, 3.0),
        v(0.1, 0.1, 0.1),
        v(0.5, 0.5, 0.5),
        v(1.0, 1.0, 1.0),
        s(1.0),
        s(0.09),
        s(0.0032),
    );
    light.set_color(v(0.2, 0.4, 0.6), v(0.02, 0.04, 0.06));
    assert_eq!(light.ambient, v(0.02, 0.04, 0.06));
    assert_eq!(light.diffuse, v(0.2, 0.4, 0.6));
    assert_eq!(light.specular, v(0.2, 0.4, 0.6));
    assert_eq!(light.position, v(1.0, 2.0, 3.0));
    assert_eq!(light.linear, s(0.09));
}

#[test]
fn directional_light_exports_its_four_fields() {
    let light = DirectionalLight::new(
        v(1.2, 2.0, 2.0),
        v(0.05, 0.05, 0.1),
        v(0.2, 0.2, 0.7),
        v(0.7, 0.7, 0.7),
    );
    assert_eq!(light.direction, v(1.2, 2.0, 2.0));
    let mut bag = UniformStorage::new();
    light.as_uniform("dirLight", &mut bag);
    assert_eq!(
        names(&bag),
        vec![
            "dirLight.ambient".to_string(),
            "dirLight.diffuse".to_string(),
            "dirLight.direction".to_string(),
            "dirLight.specular".to_string(),
        ]
    );
    assert_eq!(bag.get("dirLight.direction"), Some(as_vec3(1.2, 2.0, 2.0)));
    assert_eq!(bag.get("dirLight.ambient"), Some(as_vec3(0.05, 0.05, 0.1)));
    assert_eq!(bag.get("dirLight.diffuse"), Some(as_vec3(0.2, 0.2, 0.7)));
    assert_eq!(bag.get("dirLight.specular"), Some(as_vec3(0.7, 0.7, 0.7)));
}

#[test]
fn spot_light_exports_its_ten_fields() {
    let inner = 12.5f32.to_radians().cos();
    let outer = 17.5f32.to_radians().cos();
    let light = SpotLight::new(
        v(4.0, 4.0, 2.0),
        v(-0.6, -0.6, -0.3),
        v(0.05, 0.05, 0.05),
        v(0.5, 0.5, 0.5),
        v(1.0, 1.0, 1.0),
        s(1.0),
        s(0.045),
        s(0.0075),
        s(inner),
        s(outer),
    );
    let mut bag = UniformStorage::new();
    light.as_uniform("spotLight", &mut bag);
    assert_eq!(bag.len(), 10);
    assert_eq!(bag.get("spotLight.position"), Some(as_vec3(4.0, 4.0, 2.0)));
    assert_eq!(bag.get("spotLight.direction"), Some(as_vec3(-0.6, -0.6, -0.3)));
    assert_eq!(bag.get("spotLight.ambient"), Some(as_vec3(0.05, 0.05, 0.05)));
    assert_eq!(bag.get("spotLight.diffuse"), Some(as_vec3(0.5, 0.5, 0.5)));
    assert_eq!(bag.get("spotLight.specular"), Some(as_vec3(1.0, 1.0, 1.0)));
    assert_eq!(bag.get("spotLight.cutOff"), Some(UniformValue::Float(s(inner))));
    assert_eq!(bag.get("spotLight.outerCutOff"), Some(UniformValue::Float(s(outer))));
    assert_eq!(bag.get("spotLight.constant"), Some(UniformValue::Float(s(1.0))));
    assert_eq!(bag.get("spotLight.linear"), Some(UniformValue::Float(s(0.045))));
    assert_eq!(bag.get("spotLight.quadratic"), Some(UniformValue::Float(s(0.0075))));
    assert_eq!(bag.get("spotLight.cut_off"), None);
}

#[test]
fn material_stores_shininess_times_128() {
    let m = Material::new(TextureHandle { id: 3 }, TextureHandle { id: 4 }, s(0.6));
    assert_eq!(m.shininess, s(0.6 * 128.0));
    assert_eq!(m.diffuse, TextureHandle { id: 3 });
    assert_eq!(m.specular, TextureHandle { id: 4 });
    let one = Material::new(TextureHandle { id: 3 }, TextureHandle { id: 4 }, s(1.0));
    assert_eq!(one.shininess, s(128.0));
}

#[test]
fn material_exports_textures_and_shininess() {
    let m = Material::new(TextureHandle { id: 3 }, TextureHandle { id: 4 }, s(0.5));
    let mut bag = UniformStorage::new();
    m.as_uniform("material", &mut bag);
    assert_eq!(bag.len(), 3);
    assert_eq!(
        bag.get("material.diffuse"),
        Some(UniformValue::Texture2d(TextureHandle { id: 3 }))
    );
    assert_eq!(
        bag.get("material.specular"),
        Some(UniformValue::Texture2d(TextureHandle { id: 4 }))
    );
    assert_eq!(bag.get("material.shininess"), Some(UniformValue::Float(s(64.0))));
}

#[test]
fn pbr_material_exports_three_maps() {
    let m = PbrMaterial::new(
        TextureHandle { id: 1 },
        TextureHandle { id: 2 },
        TextureHandle { id: 3 },
    );
    let mut bag = UniformStorage::new();
    m.as_uniform("material", &mut bag);
    assert_eq!(bag.len(), 3);
    assert_eq!(
        bag.get("material.diffuse"),
        Some(UniformValue::Texture2d(TextureHandle { id: 1 }))
    );
    assert_eq!(
        bag.get("material.specular"),
        Some(UniformValue::Texture2d(TextureHandle { id: 2 }))
    );
    assert_eq!(
        bag.get("material.normal"),
        Some(UniformValue::Texture2d(TextureHandle { id: 3 }))
    );
    assert_eq!(bag.get("material.shininess"), None);
}

#[test]
fn numbers_are_written_in_decimal() {
    assert_eq!(decimal_name(0), "0");
    assert_eq!(decimal_name(7), "7");
    assert_eq!(decimal_name(9), "9");
    assert_eq!(decimal_name(10), "10");
    assert_eq!(decimal_name(4096), "4096");
    assert_eq!(decimal_name(1_000_000), "1000000");
    assert_eq!(decimal_name(usize::MAX), format!("{}", usize::MAX));
    for n in 0..1200usize {
        assert_eq!(decimal_name(n), n.to_string());
    }
}

#[test]
fn elements_are_named_with_brackets() {
    assert_eq!(element_name("pointLights", 0), "pointLights[0]");
    assert_eq!(element_name("pointLights", 3), "pointLights[3]");
    assert_eq!(element_name("bones", 127), "bones[127]");
    assert_eq!(element_name("", 5), "[5]");
}

#[test]
fn array_of_point_lights_exports_each_under_its_index() {
    assert_eq!(POINT_LIGHT_COUNT, 4);
    let positions = [[1.2, 2.0, 2.0], [2.3, -3.3, -4.0], [-4.0, 2.0, -12.0], [0.0, 0.0, -3.0]];
    let mut lights = Vec::new();
    for p in positions.iter() {
        lights.push(PointLight::new(
            v(p[0], p[1], p[2]),
            v(0.1, 0.1, 0.1),
            v(0.5, 0.5, 0.5),
            v(1.0, 1.0, 1.0),
            s(1.0),
            s(0.09),
            s(0.0032),
        ));
    }
    let mut bag = UniformStorage::new();
    bag.add("viewPos", as_vec3(0.0, 0.0, 0.0));
    export_point_lights(&lights, "pointLights", &mut bag);
    let mut by_hand = UniformStorage::new();
    by_hand.add("viewPos", as_vec3(0.0, 0.0, 0.0));
    for (i, light) in lights.iter().enumerate() {
        light.as_uniform(&format!("pointLights[{}]", i), &mut by_hand);
    }
    assert_eq!(bag.len(), 1 + 7 * POINT_LIGHT_COUNT);
    assert_eq!(names(&bag), names(&by_hand));
    for i in 0..by_hand.len() {
        let name = by_hand.name_at(i).clone();
        assert_eq!(bag.get(&name), Some(by_hand.value_at(i)));
    }
    assert_eq!(bag.get("pointLights[2].position"), Some(as_vec3(-4.0, 2.0, -12.0)));
    assert_eq!(bag.get("pointLights[4].position"), None);
}

#[test]
fn no_point_lights_export_nothing() {
    let mut bag = UniformStorage::new();
    bag.add("vp", UniformValue::Bool(true));
    export_point_lights(&[], "pointLights", &mut bag);
    assert_eq!(bag.len(), 1);
}
