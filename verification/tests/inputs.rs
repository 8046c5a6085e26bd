use ui_widgets::color::{ColorSpec, NamedColor};
use ui_widgets::cosmic_input_text::{
    field_report, join_spans, starts_with, submit_inputs, FieldReport, SubmitOutcome,
};
use ui_widgets::interaction::Interaction;
use ui_widgets::scene::{FontFamily, Label, Role, SceneEntity, TextContent};
use ui_widgets::simple_text_input::{focus, handle_submit, text_input, FocusUpdate};

fn spans(parts: &[&str]) -> Vec<Vec<u8>> {
    parts.iter().map(|p| p.as_bytes().to_vec()).collect()
}

#[test]
fn username_input_starts_inactive() {
    let w = text_input();
    assert!(w.focus_policy_block);
    assert_eq!(w.role, Role::Username);
    let input = w.text_input.expect("the widget holds a line input");
    assert_eq!(input.placeholder, Label::Name);
    assert!(input.inactive);
    assert_eq!(input.mask_character, None);
    assert_eq!(w.border_color, Some(ColorSpec::Srgb(250, 250, 250)));
}

#[test]
fn line_input_scene_shape() {
    let scene = ui_widgets::simple_text_input::setup();
    assert_eq!(scene.len(), 6);
    match &scene[1] {
        SceneEntity::Widget(container) => {
            assert!(container.interactive);
            assert!(!container.button);
        }
        SceneEntity::Camera { .. } => panic!("expected the container"),
    }
    match &scene[3] {
        SceneEntity::Widget(password) => {
            assert_eq!(password.role, Role::Password);
            let input = password.text_input.expect("the widget holds a line input");
            assert_eq!(input.placeholder, Label::Password);
            assert_eq!(input.mask_character, Some('*'));
            assert!(input.retain_on_submit);
            assert!(!input.inactive);
        }
        SceneEntity::Camera { .. } => panic!("expected the password input"),
    }
    match &scene[4] {
        SceneEntity::Widget(submit) => {
            assert!(submit.button);
            assert_eq!(submit.role, Role::SubmitButton);
            assert_eq!(submit.background, Some(ColorSpec::Named(NamedColor::Blue400)));
        }
        SceneEntity::Camera { .. } => panic!("expected the submit button"),
    }
}

#[test]
fn click_focuses_only_the_clicked_input() {
    let inputs: Vec<u64> = vec![10, 20, 30];
    let updates = focus(Interaction::Pressed, 20, &inputs).expect("a press yields updates");
    assert_eq!(updates.len(), 3);
    assert_eq!(
        updates[0],
        FocusUpdate { inactive: true, border: ColorSpec::Srgb(250, 250, 250) }
    );
    assert_eq!(
        updates[1],
        FocusUpdate { inactive: false, border: ColorSpec::Srgb(750, 520, 990) }
    );
    assert_eq!(
        updates[2],
        FocusUpdate { inactive: true, border: ColorSpec::Srgb(250, 250, 250) }
    );
}

#[test]
fn hover_changes_no_focus() {
    let inputs: Vec<u64> = vec![10, 20];
    assert_eq!(focus(Interaction::Hovered, 10, &inputs), None);
}

#[test]
fn submit_press_reports_both_buffers() {
    let report = handle_submit(
        Interaction::Pressed,
        Some("ada".to_string()),
        Some("hunter2".to_string()),
    )
    .expect("a press yields a report");
    assert_eq!(report.username, Some("ada".to_string()));
    assert_eq!(report.password, Some("hunter2".to_string()));
}

#[test]
fn submit_needs_a_press() {
    assert_eq!(handle_submit(Interaction::Idle, Some("ada".to_string()), None), None);
}

#[test]
fn join_concatenates_in_order() {
    assert_eq!(join_spans(&spans(&["ab", "cd", "", "e"])), b"abcde".to_vec());
    assert_eq!(join_spans(&spans(&[])), Vec::<u8>::new());
}

#[test]
fn starts_with_cases() {
    assert!(starts_with(&b"Enter name".to_vec(), &b"Enter".to_vec()));
    assert!(starts_with(&b"abc".to_vec(), &b"".to_vec()));
    assert!(!starts_with(&b"abc".to_vec(), &b"abcd".to_vec()));
    assert!(!starts_with(&b"abc".to_vec(), &b"abd".to_vec()));
}

#[test]
fn placeholder_text_counts_as_missing() {
    let report = field_report(b"Enter name".to_vec(), &b"Enter name".to_vec());
    assert_eq!(report, FieldReport::NotProvided);
    let report = field_report(b"grace".to_vec(), &b"Enter name".to_vec());
    assert_eq!(report, FieldReport::Provided(b"grace".to_vec()));
}

#[test]
fn submit_inputs_classifies_each_editor() {
    let name = spans(&["gra", "ce"]);
    let password = spans(&["Enter password"]);
    let outcome = submit_inputs(Interaction::Pressed, Some(&name), Some(&password))
        .expect("a press yields an outcome");
    assert_eq!(
        outcome,
        SubmitOutcome {
            name: Some(FieldReport::Provided(b"grace".to_vec())),
            password: Some(FieldReport::NotProvided),
        }
    );
}

#[test]
fn submit_inputs_without_editors() {
    let outcome =
        submit_inputs(Interaction::Pressed, None, None).expect("a press yields an outcome");
    assert_eq!(outcome, SubmitOutcome { name: None, password: None });
}

#[test]
fn submit_inputs_needs_a_press() {
    let name = spans(&["grace"]);
    assert_eq!(submit_inputs(Interaction::Hovered, Some(&name), None), None);
}

#[test]
fn editor_scene_shape() {
    let scene = ui_widgets::cosmic_input_text::setup();
    assert_eq!(scene.len(), 6);
    match &scene[0] {
        SceneEntity::Camera { clear_color } => {
            assert_eq!(*clear_color, Some(ColorSpec::Named(NamedColor::Pink)));
        }
        SceneEntity::Widget(_) => panic!("expected the camera"),
    }
    match &scene[2] {
        SceneEntity::Widget(name) => {
            assert_eq!(name.role, Role::NameInput);
            let editor = name.cosmic_edit.expect("the widget holds an editor");
            assert_eq!(editor.placeholder, Label::EnterName);
            assert_eq!(editor.family, FontFamily::VictorMono);
            assert_eq!(editor.text_color, ColorSpec::Rgb8(0x94, 0x00, 0xD3));
            assert_eq!(editor.font_size, 20);
        }
        SceneEntity::Camera { .. } => panic!("expected the name editor"),
    }
    match &scene[5] {
        SceneEntity::Widget(caption) => {
            let text = caption.text.expect("the caption holds text");
            assert_eq!(text.content, TextContent::Fixed(Label::Submit));
            assert_eq!(text.font_size, 17);
        }
        SceneEntity::Camera { .. } => panic!("expected the submit caption"),
    }
}
