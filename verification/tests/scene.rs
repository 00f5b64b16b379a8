use rust_opengl::binding::Binding;
use rust_opengl::colors::Colors;
use rust_opengl::geometry::cube::cube_indexes;
use rust_opengl::geometry::cube::cube_vertexes;
use rust_opengl::geometry::cube::CUBE_VERTEX_COUNT;
use rust_opengl::input::mouse_button_index;
use rust_opengl::input::Analog2d;
use rust_opengl::input::Gesture;
use rust_opengl::input::Input;
use rust_opengl::input::InputEvent;
use rust_opengl::input::InputState;
use rust_opengl::input::MouseButton;
use rust_opengl::scalar::Scalar;
use rust_opengl::set_fullscreen;
use rust_opengl::vertex::VertexFlat;
use rust_opengl::vertex::VertexNorm;
use rust_opengl::vertex::VertexTex;
use winit::event::VirtualKeyCode as Key;
use rust_opengl::State;

fn s(x: f32) -> Scalar {
    Scalar::from_bits(x.to_bits())
}

#[test]
fn named_colours_have_their_channels() {
    assert_eq!(Colors::RED.to_tuple(), (255, 0, 0, 255));
    assert_eq!(Colors::GREEN.to_tuple(), (0, 255, 0, 255));
    assert_eq!(Colors::BLUE.to_tuple(), (0, 0, 255, 255));
    assert_eq!(Colors::YELLOW.to_tuple(), (255, 255, 0, 255));
    assert_eq!(Colors::MAGENTA.to_tuple(), (255, 0, 255, 255));
    assert_eq!(Colors::TEAL.to_tuple(), (0, 255, 255, 255));
    assert_eq!(Colors::GREY.to_tuple(), (128, 128, 128, 255));
    assert_eq!(Colors::BLACK.to_tuple(), (0, 0, 0, 255));
    assert_eq!(Colors::WHITE.to_tuple(), (255, 255, 255, 255));
    assert_eq!(Colors::Other(1, 2, 3, 4).to_tuple(), (1, 2, 3, 4));
}

#[test]
fn draws_take_turns_through_the_names() {
    let names = [
        Colors::RED,
        Colors::BLUE,
        Colors::GREEN,
        Colors::MAGENTA,
        Colors::YELLOW,
        Colors::TEAL,
        Colors::WHITE,
        Colors::GREY,
        Colors::BLACK,
    ];
    for n in 0..27u32 {
        assert_eq!(Colors::pick(n), names[(n % 9) as usize]);
    }
    assert_eq!(Colors::pick(u32::MAX), names[(u32::MAX % 9) as usize]);
}

#[test]
fn random_colour_is_a_named_one() {
    let mut seen = Vec::new();
    for _ in 0..2000 {
        let c = Colors::random();
        assert!(!matches!(c, Colors::Other(..)));
        if !seen.contains(&c) {
            seen.push(c);
        }
    }
    assert!(seen.len() > 1);
}

#[test]
fn cube_has_twelve_triangles_over_fourteen_vertices() {
    let indexes = cube_indexes();
    assert_eq!(indexes.len(), 36);
    assert_eq!(&indexes[0..6], &[0, 2, 1, 1, 2, 3]);
    assert_eq!(&indexes[30..36], &[3, 12, 5, 5, 12, 13]);
    assert_eq!(CUBE_VERTEX_COUNT, 14);
    for i in indexes.iter() {
        assert!(*i < CUBE_VERTEX_COUNT);
    }
    assert_eq!(
        indexes,
        [
            0, 2, 1, 1, 2, 3, 4, 5, 6, 5, 7, 6, 6, 7, 8, 7, 9, 8, 1, 3, 4, 3, 5, 4, 1, 11, 10, 1,
            4, 11, 3, 12, 5, 5, 12, 13
        ]
    );
}

#[test]
fn fullscreen_flips() {
    let mut fullscreen = false;
    assert!(set_fullscreen(&mut fullscreen));
    assert!(fullscreen);
    assert!(!set_fullscreen(&mut fullscreen));
    assert!(!fullscreen);
}

#[test]
fn state_starts_black_with_white_bulbs() {
    let state = State::default();
    assert!(!state.open_debug);
    assert!(!state.quit);
    assert_eq!(state.frame_time, 0);
    assert_eq!(state.background_color, [s(0.0), s(0.0), s(0.0), s(1.0)]);
    assert_eq!(state.light_bulb_color, [[s(1.0); 4]; 4]);
}

#[test]
fn buttons_have_their_places() {
    assert_eq!(mouse_button_index(&MouseButton::Left), 0);
    assert_eq!(mouse_button_index(&MouseButton::Middle), 1);
    assert_eq!(mouse_button_index(&MouseButton::Right), 2);
    assert_eq!(mouse_button_index(&MouseButton::Other(9)), 9);
}

#[test]
fn input_states_compare() {
    assert_eq!(InputState::Pressed(3), InputState::Pressed(3));
    assert_ne!(InputState::Pressed(3), InputState::Released(3));
    assert_ne!(InputState::Pressed(3), InputState::Pressed(4));
}

#[test]
fn nothing_happens_at_first() {
    let input = Input::create();
    assert!(!input.poll_gesture(&Gesture::NoGesture));
    assert!(!input.poll_gesture(&Gesture::QuitTrigger));
    assert!(!input.poll_gesture(&Gesture::KeyHold(36)));
    assert!(!input.poll_gesture(&Gesture::KeyTrigger(36)));
    assert!(!input.poll_gesture(&Gesture::ButtonHold(MouseButton::Right)));
    assert!(!input.is_mouse_grabbed());
}

#[test]
fn key_triggers_once_and_holds_on() {
    let mut input = Input::create();
    input.update(&InputEvent::KeyPressed(Some(36)));
    assert!(input.poll_gesture(&Gesture::KeyTrigger(36)));
    assert!(input.poll_gesture(&Gesture::KeyHold(36)));
    assert!(!input.poll_gesture(&Gesture::KeyHold(37)));
    input.tick_reset();
    assert!(!input.poll_gesture(&Gesture::KeyTrigger(36)));
    assert!(input.poll_gesture(&Gesture::KeyHold(36)));
    input.update(&InputEvent::KeyReleased(Some(36)));
    assert!(!input.poll_gesture(&Gesture::KeyHold(36)));
    input.update(&InputEvent::KeyPressed(None));
    input.update(&InputEvent::Other);
    assert!(!input.poll_gesture(&Gesture::KeyHold(36)));
}

#[test]
fn button_triggers_once_and_holds_on() {
    let mut input = Input::create();
    input.update(&InputEvent::ButtonPressed(MouseButton::Right));
    assert!(input.poll_gesture(&Gesture::ButtonTrigger(MouseButton::Right)));
    assert!(input.poll_gesture(&Gesture::ButtonHold(MouseButton::Right)));
    assert!(!input.poll_gesture(&Gesture::ButtonHold(MouseButton::Left)));
    assert!(input.poll_gesture(&Gesture::ButtonHold(MouseButton::Other(2))));
    input.increment_index();
    assert!(!input.poll_gesture(&Gesture::ButtonTrigger(MouseButton::Right)));
    assert!(input.poll_gesture(&Gesture::ButtonHold(MouseButton::Right)));
    input.update(&InputEvent::ButtonReleased(MouseButton::Right));
    assert!(!input.poll_gesture(&Gesture::ButtonHold(MouseButton::Right)));
}

#[test]
fn keys_and_buttons_that_are_not_followed_are_passed_over() {
    let mut input = Input::create();
    input.update(&InputEvent::KeyPressed(Some(512)));
    input.update(&InputEvent::KeyPressed(Some(u16::MAX)));
    input.update(&InputEvent::ButtonPressed(MouseButton::Other(256)));
    assert!(!input.poll_gesture(&Gesture::KeyHold(512)));
    assert!(!input.poll_gesture(&Gesture::KeyHold(u16::MAX)));
    assert!(!input.poll_gesture(&Gesture::ButtonHold(MouseButton::Other(256))));
    input.update(&InputEvent::KeyPressed(Some(511)));
    input.update(&InputEvent::ButtonPressed(MouseButton::Other(255)));
    assert!(input.poll_gesture(&Gesture::KeyHold(511)));
    assert!(input.poll_gesture(&Gesture::ButtonHold(MouseButton::Other(255))));
}

#[test]
fn quit_is_asked_for_one_tick() {
    let mut input = Input::create();
    input.update(&InputEvent::CloseRequested);
    assert!(input.poll_gesture(&Gesture::QuitTrigger));
    input.tick_reset();
    assert!(!input.poll_gesture(&Gesture::QuitTrigger));
}

#[test]
fn any_and_all_of_gestures() {
    let mut input = Input::create();
    input.update(&InputEvent::KeyPressed(Some(13)));
    let d_or_right = Gesture::AnyOf(vec![Gesture::KeyHold(13), Gesture::KeyHold(100)]);
    let d_and_right = Gesture::AllOf(vec![Gesture::KeyHold(13), Gesture::KeyHold(100)]);
    assert!(input.poll_gesture(&d_or_right));
    assert!(!input.poll_gesture(&d_and_right));
    input.update(&InputEvent::KeyPressed(Some(100)));
    assert!(input.poll_gesture(&d_and_right));
    assert!(!input.poll_gesture(&Gesture::AnyOf(vec![])));
    assert!(input.poll_gesture(&Gesture::AllOf(vec![])));
    let nested = Gesture::AllOf(vec![
        Gesture::AnyOf(vec![Gesture::KeyHold(1), Gesture::KeyHold(13)]),
        Gesture::AnyOf(vec![Gesture::NoGesture, d_and_right]),
    ]);
    assert!(input.poll_gesture(&nested));
    input.update(&InputEvent::KeyReleased(Some(100)));
    assert!(!input.poll_gesture(&nested));
}

#[test]
fn axis_reads_step_back_step_or_rest() {
    let mut input = Input::create();
    let forward = Gesture::KeyHold(35);
    let back = Gesture::KeyHold(28);
    let step = s(0.015);
    assert_eq!(input.poll_axis(&forward, &back, step), s(0.0));
    input.update(&InputEvent::KeyPressed(Some(28)));
    assert_eq!(input.poll_axis(&forward, &back, step), s(-0.015));
    input.update(&InputEvent::KeyPressed(Some(35)));
    assert_eq!(input.poll_axis(&forward, &back, step), s(0.015));
}

#[test]
fn cursor_grab_is_granted_on_sync() {
    let mut input = Input::create();
    assert_eq!(input.sync_cursor_grab(), None);
    input.set_cursor_grabbed(true);
    assert!(!input.is_mouse_grabbed());
    assert_eq!(input.sync_cursor_grab(), Some(true));
    assert!(input.is_mouse_grabbed());
    assert_eq!(input.sync_cursor_grab(), None);
    input.set_cursor_grabbed(false);
    assert_eq!(input.sync_cursor_grab(), Some(false));
    assert!(!input.is_mouse_grabbed());
}

#[test]
fn vertices_hold_what_they_are_given() {
    let flat = VertexFlat::new(s(1.0), s(2.0), s(3.0));
    assert_eq!(flat.position, [s(1.0), s(2.0), s(3.0)]);
    let tex = VertexTex::new(s(1.0), s(2.0), s(3.0), [s(0.25), s(0.75)]);
    assert_eq!(tex.position, [s(1.0), s(2.0), s(3.0)]);
    assert_eq!(tex.tex_coords, [s(0.25), s(0.75)]);
    let normal = [s(0.0), s(0.0), s(1.0)];
    let a = VertexNorm::new(s(1.0), s(2.0), s(3.0), normal, [s(0.25), s(0.75)]);
    let b = VertexNorm::from([s(1.0), s(2.0), s(3.0)], normal, [s(0.25), s(0.75)]);
    assert_eq!(a.position, b.position);
    assert_eq!(a.normal, normal);
    assert_eq!(b.normal, normal);
    assert_eq!(a.tex_coords, b.tex_coords);
    assert_eq!(a.tex_coords, [s(0.25), s(0.75)]);
}

#[test]
fn cube_vertices_are_corners_with_their_places_in_the_texture() {
    let want: [[f32; 5]; 14] = [
        [0.0, 1.0, 0.0, 0.00, 0.66],
        [0.0, 0.0, 0.0, 0.25, 0.66],
        [1.0, 1.0, 0.0, 0.00, 0.33],
        [1.0, 0.0, 0.0, 0.25, 0.33],
        [0.0, 0.0, 1.0, 0.50, 0.66],
        [1.0, 0.0, 1.0, 0.50, 0.33],
        [0.0, 1.0, 1.0, 0.75, 0.66],
        [1.0, 1.0, 1.0, 0.75, 0.33],
        [0.0, 1.0, 0.0, 1.00, 0.66],
        [1.0, 1.0, 0.0, 1.00, 0.33],
        [0.0, 1.0, 0.0, 0.25, 1.00],
        [0.0, 1.0, 1.0, 0.50, 1.00],
        [1.0, 1.0, 0.0, 0.25, 0.00],
        [1.0, 1.0, 1.0, 0.50, 0.00],
    ];
    let got = cube_vertexes();
    assert_eq!(got.len(), CUBE_VERTEX_COUNT as usize);
    for i in 0..14 {
        assert_eq!(got[i].position, [s(want[i][0]), s(want[i][1]), s(want[i][2])]);
        assert_eq!(got[i].tex_coords, [s(want[i][3]), s(want[i][4])]);
    }
}

fn key_of(gesture: &Gesture) -> Option<(bool, u16)> {
    match gesture {
        Gesture::KeyHold(code) => Some((true, *code)),
        Gesture::KeyTrigger(code) => Some((false, *code)),
        _ => None,
    }
}

fn keys_of(gesture: &Gesture) -> Vec<u16> {
    match gesture {
        Gesture::AnyOf(subgestures) => {
            subgestures.iter().map(|g| key_of(g).unwrap()).map(|(held, code)| {
                assert!(held);
                code
            }).collect()
        }
        _ => panic!("not a choice of keys"),
    }
}

#[test]
fn bound_keys_are_those_of_the_window_system() {
    let binding = Binding::create();
    assert_eq!(key_of(&binding.exit), Some((false, Key::Escape as u16)));
    assert_eq!(key_of(&binding.jump), Some((true, Key::Space as u16)));
    assert_eq!(key_of(&binding.fall), Some((true, Key::C as u16)));
    assert_eq!(key_of(&binding.fullscreen), Some((false, Key::F as u16)));
    assert_eq!(key_of(&binding.toggle_torch_light), Some((false, Key::T as u16)));
    assert_eq!(key_of(&binding.swap_color), Some((false, Key::R as u16)));
    assert!(matches!(binding.toggle_mouse, Gesture::ButtonHold(MouseButton::Right)));
    match &binding.movement {
        Analog2d::Gestures { x_positive, x_negative, y_positive, y_negative, step } => {
            assert_eq!(keys_of(x_positive), vec![Key::D as u16, Key::Right as u16]);
            assert_eq!(keys_of(x_negative), vec![Key::Q as u16, Key::Left as u16]);
            assert_eq!(keys_of(y_positive), vec![Key::Z as u16, Key::Up as u16]);
            assert_eq!(keys_of(y_negative), vec![Key::S as u16, Key::Down as u16]);
            assert_eq!(*step, s(0.015));
        }
        _ => panic!("movement is not steered by keys"),
    }
    match &binding.look {
        Analog2d::Mouse { sensitivity } => assert_eq!(*sensitivity, s(0.015)),
        _ => panic!("look is not steered by the mouse"),
    }
    match &binding.scroll {
        Analog2d::MouseWheel { sensitivity } => assert_eq!(*sensitivity, s(0.030)),
        _ => panic!("scroll is not steered by the wheel"),
    }
}

#[test]
fn bound_movement_reads_the_keys() {
    let binding = Binding::create();
    let mut input = Input::create();
    input.update(&InputEvent::KeyPressed(Some(Key::Left as u16)));
    input.update(&InputEvent::KeyPressed(Some(Key::Z as u16)));
    match &binding.movement {
        Analog2d::Gestures { x_positive, x_negative, y_positive, y_negative, step } => {
            assert_eq!(input.poll_axis(x_positive, x_negative, *step), s(-0.015));
            assert_eq!(input.poll_axis(y_positive, y_negative, *step), s(0.015));
        }
        _ => panic!("movement is not steered by keys"),
    }
    assert!(!input.poll_gesture(&binding.exit));
    input.update(&InputEvent::KeyPressed(Some(Key::Escape as u16)));
    assert!(input.poll_gesture(&binding.exit));
}
