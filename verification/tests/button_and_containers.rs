use ui_widgets::button_example;
use ui_widgets::color::{ColorSpec, NamedColor};
use ui_widgets::hierarchy_layout;
use ui_widgets::interaction::Interaction;
use ui_widgets::layout::{AlignContent, AlignItems, FlexDirection, JustifyContent, Layout, Val};
use ui_widgets::root_container;
use ui_widgets::scene::{Label, SceneEntity, TextContent};

#[test]
fn button_visual_pressed() {
    let v = button_example::button_system(Interaction::Pressed);
    assert_eq!(v.label, Label::Press);
    assert_eq!(v.background, ColorSpec::Srgb(350, 750, 350));
    assert_eq!(v.border, ColorSpec::Named(NamedColor::Red));
}

#[test]
fn button_visual_hovered() {
    let v = button_example::button_system(Interaction::Hovered);
    assert_eq!(v.label, Label::Hover);
    assert_eq!(v.background, ColorSpec::Srgb(250, 250, 250));
    assert_eq!(v.border, ColorSpec::Named(NamedColor::White));
}

#[test]
fn button_visual_idle() {
    let v = button_example::button_system(Interaction::Idle);
    assert_eq!(v.label, Label::Button);
    assert_eq!(v.background, ColorSpec::Srgb(150, 150, 150));
    assert_eq!(v.border, ColorSpec::Named(NamedColor::Black));
}

#[test]
fn button_scene_shape() {
    let scene = button_example::setup();
    assert_eq!(scene.len(), 4);
    assert!(matches!(scene[0], SceneEntity::Camera { clear_color: None }));
    match &scene[1] {
        SceneEntity::Widget(root) => {
            assert_eq!(root.parent, None);
            assert_eq!(root.layout.width, Val::Percent(100));
            assert_eq!(root.layout.justify_content, JustifyContent::Center);
            assert!(!root.button);
        }
        SceneEntity::Camera { .. } => panic!("expected the root widget"),
    }
    match &scene[2] {
        SceneEntity::Widget(button) => {
            assert_eq!(button.parent, Some(1));
            assert!(button.button);
            assert_eq!(button.background, Some(ColorSpec::Srgb(150, 150, 150)));
            assert_eq!(button.border_color, Some(ColorSpec::Named(NamedColor::Black)));
        }
        SceneEntity::Camera { .. } => panic!("expected the button widget"),
    }
    match &scene[3] {
        SceneEntity::Widget(caption) => {
            assert_eq!(caption.parent, Some(2));
            let text = caption.text.expect("the caption holds text");
            assert_eq!(text.content, TextContent::Fixed(Label::Click));
            assert_eq!(text.font_size, 28);
            assert_eq!(text.color, ColorSpec::Srgb(0, 0, 255000));
        }
        SceneEntity::Camera { .. } => panic!("expected the caption widget"),
    }
}

#[test]
fn label_texts() {
    assert_eq!(Label::Click.text(), "Click");
    assert_eq!(Label::Press.text(), "Press");
    assert_eq!(Label::Hover.text(), "Hover");
    assert_eq!(Label::Button.text(), "Button");
    assert_eq!(Label::ConfirmAction.text(), "Confirm action!");
    assert_eq!(Label::Submit.text(), "Submit");
    assert_eq!(Label::Minus.text(), "-");
    assert_eq!(Label::Plus.text(), "+");
    assert_eq!(Label::EnterName.text(), "Enter name");
    assert_eq!(Label::EnterPassword.text(), "Enter password");
    assert_eq!(Label::SingleChild.text(), "SINGLE CHILD");
}

#[test]
fn root_container_scene() {
    let scene = root_container::setup();
    assert_eq!(scene.len(), 2);
    assert!(matches!(scene[0], SceneEntity::Camera { clear_color: None }));
    match &scene[1] {
        SceneEntity::Widget(root) => {
            assert_eq!(root.parent, None);
            assert_eq!(root.layout.width, Val::Percent(100));
            assert_eq!(root.layout.height, Val::Percent(100));
            assert_eq!(root.layout.flex_direction, FlexDirection::Column);
            assert_eq!(root.background, Some(ColorSpec::Srgb(0, 255000, 0)));
        }
        SceneEntity::Camera { .. } => panic!("expected the root widget"),
    }
}

#[test]
fn hierarchy_scene_tree() {
    let scene = hierarchy_layout::setup();
    assert_eq!(scene.len(), 5);
    let parents: Vec<Option<usize>> = scene
        .iter()
        .map(|e| match e {
            SceneEntity::Widget(w) => w.parent,
            SceneEntity::Camera { .. } => None,
        })
        .collect();
    assert_eq!(parents, vec![None, None, Some(1), Some(1), Some(3)]);
    match &scene[4] {
        SceneEntity::Widget(child) => {
            assert_eq!(child.layout.width, Val::Percent(40));
            assert_eq!(child.layout.height, Val::Percent(20));
            assert_eq!(child.layout.align_content, AlignContent::Center);
            assert_eq!(child.background, Some(ColorSpec::Named(NamedColor::Blue)));
            let text = child.text.expect("the child holds text");
            assert_eq!(text.content, TextContent::Fixed(Label::SingleChild));
            assert_eq!(text.font_size, 33);
        }
        SceneEntity::Camera { .. } => panic!("expected the single child"),
    }
}

#[test]
fn hierarchy_captions() {
    let scene = hierarchy_layout::setup();
    match &scene[2] {
        SceneEntity::Widget(first) => {
            let text = first.text.expect("the first container holds text");
            assert_eq!(text.content, TextContent::Fixed(Label::InsideContainerOne));
            assert_eq!(first.background, Some(ColorSpec::Named(NamedColor::Grey)));
        }
        SceneEntity::Camera { .. } => panic!("expected the first container"),
    }
    match &scene[3] {
        SceneEntity::Widget(second) => {
            let text = second.text.expect("the second container holds text");
            assert_eq!(text.content, TextContent::Fixed(Label::InsideContainerTwo));
            assert_eq!(second.layout.justify_content, JustifyContent::End);
            assert_eq!(second.layout.align_items, AlignItems::End);
        }
        SceneEntity::Camera { .. } => panic!("expected the second container"),
    }
}

#[test]
fn layout_default_is_unset() {
    let l: Layout = Default::default();
    assert_eq!(l.width, Val::Auto);
    assert_eq!(l.height, Val::Auto);
    assert_eq!(l.flex_direction, FlexDirection::Row);
    assert_eq!(l.justify_content, JustifyContent::Unset);
    assert_eq!(l.margin, Val::Auto);
}
