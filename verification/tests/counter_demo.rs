use ui_widgets::color::{ColorSpec, NamedColor};
use ui_widgets::counter::{
    button_system, counter_display, create_counter_text, setup, ButtonAction, Counter,
};
use ui_widgets::interaction::Interaction;
use ui_widgets::scene::{Role, SceneEntity, TextContent};

fn digits(value: i32) -> String {
    String::from_utf8(counter_display(value)).expect("decimal digits are ASCII")
}

#[test]
fn counter_starts_at_zero() {
    let c: Counter = Default::default();
    assert_eq!(c.0, 0);
}

#[test]
fn press_increment_adds_one() {
    let mut c = Counter(41);
    let border = button_system(&mut c, Interaction::Pressed, Some(ButtonAction::Increment));
    assert_eq!(c.0, 42);
    assert_eq!(border, ColorSpec::Named(NamedColor::Red));
}

#[test]
fn press_decrement_subtracts_one() {
    let mut c = Counter(0);
    let border = button_system(&mut c, Interaction::Pressed, Some(ButtonAction::Decrement));
    assert_eq!(c.0, -1);
    assert_eq!(border, ColorSpec::Named(NamedColor::Red));
}

#[test]
fn press_without_action_keeps_value() {
    let mut c = Counter(7);
    let border = button_system(&mut c, Interaction::Pressed, None);
    assert_eq!(c.0, 7);
    assert_eq!(border, ColorSpec::Named(NamedColor::Red));
}

#[test]
fn hover_and_idle_keep_value() {
    let mut c = Counter(7);
    let border = button_system(&mut c, Interaction::Hovered, Some(ButtonAction::Increment));
    assert_eq!(c.0, 7);
    assert_eq!(border, ColorSpec::Named(NamedColor::White));
    let border = button_system(&mut c, Interaction::Idle, Some(ButtonAction::Decrement));
    assert_eq!(c.0, 7);
    assert_eq!(border, ColorSpec::Named(NamedColor::Black));
}

#[test]
fn increment_then_decrement_cancels() {
    let mut c = Counter(123);
    button_system(&mut c, Interaction::Pressed, Some(ButtonAction::Increment));
    button_system(&mut c, Interaction::Pressed, Some(ButtonAction::Decrement));
    assert_eq!(c.0, 123);
}

#[test]
fn display_zero() {
    assert_eq!(digits(0), "0");
}

#[test]
fn display_positive() {
    assert_eq!(digits(7), "7");
    assert_eq!(digits(42), "42");
    assert_eq!(digits(1000), "1000");
}

#[test]
fn display_negative() {
    assert_eq!(digits(-1), "-1");
    assert_eq!(digits(-12), "-12");
}

#[test]
fn display_extremes() {
    assert_eq!(digits(i32::MAX), "2147483647");
    assert_eq!(digits(i32::MIN), "-2147483648");
}

#[test]
fn counter_scene_shape() {
    let scene = setup(&Counter(0));
    assert_eq!(scene.len(), 7);
    assert!(matches!(scene[0], SceneEntity::Camera { clear_color: None }));
    match &scene[2] {
        SceneEntity::Widget(display) => {
            assert_eq!(display.parent, Some(1));
            assert_eq!(display.role, Role::CounterText);
            let text = display.text.expect("the display holds text");
            assert_eq!(text.content, TextContent::CounterValue(0));
        }
        SceneEntity::Camera { .. } => panic!("expected the counter display"),
    }
    match &scene[3] {
        SceneEntity::Widget(dec) => {
            assert!(dec.button);
            assert!(dec.border_radius_max);
            assert_eq!(dec.role, Role::CounterAction(ButtonAction::Decrement));
        }
        SceneEntity::Camera { .. } => panic!("expected the decrement button"),
    }
    match &scene[5] {
        SceneEntity::Widget(inc) => {
            assert_eq!(inc.role, Role::CounterAction(ButtonAction::Increment));
        }
        SceneEntity::Camera { .. } => panic!("expected the increment button"),
    }
    match &scene[6] {
        SceneEntity::Widget(plus) => {
            assert_eq!(plus.parent, Some(5));
            let text = plus.text.expect("the caption holds text");
            assert_eq!(
                text.content,
                TextContent::Fixed(ui_widgets::scene::Label::Plus)
            );
        }
        SceneEntity::Camera { .. } => panic!("expected the plus caption"),
    }
}

#[test]
fn counter_text_appends_two_nodes() {
    let mut scene = Vec::new();
    create_counter_text(&mut scene, &Counter(-3));
    assert_eq!(scene.len(), 2);
    match &scene[1] {
        SceneEntity::Widget(text_node) => {
            assert_eq!(text_node.parent, Some(0));
            let text = text_node.text.expect("the display holds text");
            assert_eq!(text.content, TextContent::CounterValue(-3));
        }
        SceneEntity::Camera { .. } => panic!("expected the display text"),
    }
}
