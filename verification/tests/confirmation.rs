use ui_widgets::color::{ColorSpec, NamedColor};
use ui_widgets::confirmation_example::{
    button_systems, get_text_view, setup_ui, PressTarget, SelectedButton,
};
use ui_widgets::interaction::Interaction;
use ui_widgets::scene::{Role, SceneEntity, TextContent};

#[test]
fn selection_starts_unselected() {
    let s: SelectedButton = Default::default();
    assert_eq!(s, SelectedButton::Unselected);
}

#[test]
fn status_lines() {
    assert_eq!(
        get_text_view(&SelectedButton::Confirm),
        "selected action is ...  Confirm"
    );
    assert_eq!(
        get_text_view(&SelectedButton::Cancel),
        "selected action is ...  Cancel"
    );
    assert_eq!(
        get_text_view(&SelectedButton::Unselected),
        "selected action is ...  None"
    );
}

#[test]
fn press_confirm_selects_confirm() {
    let mut selected = SelectedButton::Unselected;
    let status = button_systems(&mut selected, Interaction::Pressed, PressTarget::ConfirmButton);
    assert_eq!(selected, SelectedButton::Confirm);
    assert_eq!(status, Some("selected action is ...  Confirm"));
}

#[test]
fn press_cancel_selects_cancel() {
    let mut selected = SelectedButton::Confirm;
    let status = button_systems(&mut selected, Interaction::Pressed, PressTarget::CancelButton);
    assert_eq!(selected, SelectedButton::Cancel);
    assert_eq!(status, Some("selected action is ...  Cancel"));
}

#[test]
fn press_elsewhere_keeps_selection() {
    let mut selected = SelectedButton::Cancel;
    let status = button_systems(&mut selected, Interaction::Pressed, PressTarget::Other);
    assert_eq!(selected, SelectedButton::Cancel);
    assert_eq!(status, Some("selected action is ...  Cancel"));
}

#[test]
fn hover_changes_nothing() {
    let mut selected = SelectedButton::Unselected;
    let status = button_systems(&mut selected, Interaction::Hovered, PressTarget::ConfirmButton);
    assert_eq!(selected, SelectedButton::Unselected);
    assert_eq!(status, None);
}

#[test]
fn dialog_scene_shape() {
    let scene = setup_ui(&SelectedButton::Unselected);
    assert_eq!(scene.len(), 10);
    assert!(matches!(scene[0], SceneEntity::Camera { clear_color: None }));
    let roles: Vec<Role> = scene
        .iter()
        .map(|e| match e {
            SceneEntity::Widget(w) => w.role,
            SceneEntity::Camera { .. } => Role::Plain,
        })
        .collect();
    assert_eq!(roles[5], Role::ConfirmButton);
    assert_eq!(roles[7], Role::CancelButton);
    assert_eq!(roles[9], Role::StatusText);
    match &scene[5] {
        SceneEntity::Widget(confirm) => {
            assert!(confirm.button);
            assert_eq!(confirm.parent, Some(4));
            assert_eq!(confirm.background, Some(ColorSpec::Named(NamedColor::Blue)));
        }
        SceneEntity::Camera { .. } => panic!("expected the confirm button"),
    }
    match &scene[9] {
        SceneEntity::Widget(status) => {
            assert_eq!(status.parent, Some(1));
            let text = status.text.expect("the status line holds text");
            assert_eq!(text.content, TextContent::Status(SelectedButton::Unselected));
            assert_eq!(text.color, ColorSpec::Named(NamedColor::Cyan400));
            assert_eq!(text.font_size, 30);
        }
        SceneEntity::Camera { .. } => panic!("expected the status line"),
    }
}

#[test]
fn dialog_scene_parents_point_backward() {
    let scene = setup_ui(&SelectedButton::Cancel);
    for (i, e) in scene.iter().enumerate() {
        if let SceneEntity::Widget(w) = e {
            if let Some(p) = w.parent {
                assert!(p < i);
                assert!(matches!(scene[p], SceneEntity::Widget(_)));
            }
        }
    }
}
