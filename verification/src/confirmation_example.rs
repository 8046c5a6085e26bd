//! The confirmation dialog demo: a confirm and a cancel button that
//! update a shared selection, and a status line that reports it.

use vstd::prelude::*;
use crate::color::{ColorSpec, NamedColor};
use crate::interaction::Interaction;
use crate::layout::{AlignItems, FlexDirection, JustifyContent, JustifyItems, Layout, Val};
use crate::scene::{
    scene_wf, FontAsset, Label, Role, SceneEntity, TextContent, TextSpec, WidgetSpec,
};

verus! {

/// Which dialog button was selected last. The status line renders the
/// unselected state as `None`, as the host's debug formatting of the
/// original resource did.
#[derive(Clone, Copy, PartialEq, Eq, Debug)]
pub enum SelectedButton {
    /// The confirm button was pressed last.
    Confirm,
    /// The cancel button was pressed last.
    Cancel,
    /// Neither button has been pressed yet.
    Unselected,
}

impl Default for SelectedButton {
    /// The dialog starts with no selection.
    fn default() -> (s: SelectedButton)
        ensures
            s == SelectedButton::Unselected,
    {
        SelectedButton::Unselected
    }
}

/// Which kind of widget a press landed on.
#[derive(Clone, Copy, PartialEq, Eq, Debug)]
pub enum PressTarget {
    /// The confirm button.
    ConfirmButton,
    /// The cancel button.
    CancelButton,
    /// Any other interactive widget.
    Other,
}

/// The characters of the status line for a selection.
pub open spec fn spec_text_view(selected: SelectedButton) -> Seq<char> {
    match selected {
        SelectedButton::Confirm => "selected action is ...  Confirm"@,
        SelectedButton::Cancel => "selected action is ...  Cancel"@,
        SelectedButton::Unselected => "selected action is ...  None"@,
    }
}

/// Returns the status line for a selection.
pub fn get_text_view(currently_selected_option: &SelectedButton) -> (r: &'static str)
    ensures
        r@ == spec_text_view(*currently_selected_option),
{
    match currently_selected_option {
        SelectedButton::Confirm => "selected action is ...  Confirm",
        SelectedButton::Cancel => "selected action is ...  Cancel",
        SelectedButton::Unselected => "selected action is ...  None",
    }
}

/// The selection after one interaction report: a press on the confirm
/// or cancel button takes it; any other event leaves it.
pub open spec fn spec_next_selection(
    current: SelectedButton,
    interaction: Interaction,
    target: PressTarget,
) -> SelectedButton {
    if interaction is Pressed {
        match target {
            PressTarget::ConfirmButton => SelectedButton::Confirm,
            PressTarget::CancelButton => SelectedButton::Cancel,
            PressTarget::Other => current,
        }
    } else {
        current
    }
}

/// Reacts to one changed interaction in the dialog: a press updates the
/// selection according to the pressed widget and rewrites the status
/// line; any other interaction change leaves both alone.
pub fn button_systems(
    selected: &mut SelectedButton,
    interaction: Interaction,
    target: PressTarget,
) -> (status: Option<&'static str>)
    ensures
        *final(selected) == spec_next_selection(*old(selected), interaction, target),
        interaction is Pressed ==> (status matches Some(t) && t@ == spec_text_view(
            *final(selected),
        )),
        !(interaction is Pressed) ==> status is None,
{
    if let Interaction::Pressed = interaction {
        match target {
            PressTarget::ConfirmButton => {
                *selected = SelectedButton::Confirm;
            },
            PressTarget::CancelButton => {
                *selected = SelectedButton::Cancel;
            },
            PressTarget::Other => {},
        }
        Some(get_text_view(selected))
    } else {
        None
    }
}

/// The layout both dialog buttons use: a fixed 100 by 40 pixel box
/// with a 20 pixel margin and centred content.
pub open spec fn spec_dialog_button_layout() -> Layout {
    Layout {
        width: Val::Px(100),
        height: Val::Px(40),
        margin: Val::Px(20),
        justify_content: JustifyContent::Center,
        align_items: AlignItems::Center,
        ..Layout::spec_default()
    }
}

/// Returns the dialog's button layout.
pub fn dialog_button_layout() -> (l: Layout)
    ensures
        l == spec_dialog_button_layout(),
{
    Layout {
        width: Val::Px(100),
        height: Val::Px(40),
        margin: Val::Px(20),
        justify_content: JustifyContent::Center,
        align_items: AlignItems::Center,
        ..Default::default()
    }
}

/// The status line appended under the main container: it renders the
/// status text of the selection it was built with, in cyan at 30
/// points.
pub open spec fn spec_status_node(main_container: usize, selected: SelectedButton) -> SceneEntity {
    SceneEntity::Widget(
        WidgetSpec {
            text: Some(
                TextSpec {
                    content: TextContent::Status(selected),
                    font: FontAsset::Builtin,
                    font_size: 30,
                    color: ColorSpec::Named(NamedColor::Cyan400),
                },
            ),
            role: Role::StatusText,
            ..WidgetSpec::spec_plain(Some(main_container))
        },
    )
}

/// Appends the dialog's status line as a child of the main container.
pub fn selected_button_text_view(
    scene: &mut Vec<SceneEntity>,
    main_container: usize,
    selected_button: &SelectedButton,
)
    ensures
        final(scene)@ == old(scene)@.push(spec_status_node(main_container, *selected_button)),
{
    scene.push(
        SceneEntity::Widget(
            WidgetSpec {
                text: Some(
                    TextSpec {
                        content: TextContent::Status(*selected_button),
                        font: FontAsset::Builtin,
                        font_size: 30,
                        color: ColorSpec::Named(NamedColor::Cyan400),
                    },
                ),
                role: Role::StatusText,
                ..WidgetSpec::plain(Some(main_container))
            },
        ),
    );
}

/// The dialog's scene: a camera, a dark full-screen container, the
/// dialog body with its prompt, a white footer row holding the confirm
/// and cancel buttons, and the status line built from the given
/// selection.
pub open spec fn spec_setup_ui(selected: SelectedButton) -> Seq<SceneEntity> {
    seq![
        SceneEntity::Camera { clear_color: None },
        SceneEntity::Widget(
            WidgetSpec {
                layout: Layout {
                    width: Val::Percent(100),
                    height: Val::Percent(100),
                    justify_content: JustifyContent::Center,
                    align_items: AlignItems::Center,
                    flex_direction: FlexDirection::Column,
                    ..Layout::spec_default()
                },
                background: Some(ColorSpec::Srgb(100, 100, 100)),
                ..WidgetSpec::spec_plain(None)
            },
        ),
        SceneEntity::Widget(
            WidgetSpec {
                layout: Layout {
                    width: Val::Px(500),
                    height: Val::Px(200),
                    justify_content: JustifyContent::Center,
                    align_items: AlignItems::Start,
                    flex_direction: FlexDirection::Column,
                    ..Layout::spec_default()
                },
                background: Some(ColorSpec::Srgb(0, 0, 0)),
                ..WidgetSpec::spec_plain(Some(1))
            },
        ),
        SceneEntity::Widget(
            WidgetSpec {
                layout: Layout {
                    width: Val::Percent(100),
                    height: Val::Percent(60),
                    align_items: AlignItems::Center,
                    ..Layout::spec_default()
                },
                background: Some(ColorSpec::Named(NamedColor::Grey)),
                text: Some(
                    TextSpec {
                        content: TextContent::Fixed(Label::ConfirmAction),
                        font: FontAsset::Builtin,
                        font_size: 30,
                        color: ColorSpec::Named(NamedColor::White),
                    },
                ),
                ..WidgetSpec::spec_plain(Some(2))
            },
        ),
        SceneEntity::Widget(
            WidgetSpec {
                layout: Layout {
                    width: Val::Percent(100),
                    height: Val::Percent(40),
                    align_items: AlignItems::End,
                    justify_content: JustifyContent::SpaceAround,
                    justify_items: JustifyItems::End,
                    padding: Val::Px(5),
                    ..Layout::spec_default()
                },
                background: Some(ColorSpec::Named(NamedColor::White)),
                ..WidgetSpec::spec_plain(Some(2))
            },
        ),
        SceneEntity::Widget(
            WidgetSpec {
                layout: spec_dialog_button_layout(),
                background: Some(ColorSpec::Named(NamedColor::Blue)),
                button: true,
                role: Role::ConfirmButton,
                ..WidgetSpec::spec_plain(Some(4))
            },
        ),
        SceneEntity::Widget(
            WidgetSpec {
                text: Some(
                    TextSpec {
                        content: TextContent::Fixed(Label::Confirm),
                        font: FontAsset::Builtin,
                        font_size: 17,
                        color: ColorSpec::Srgb(255000, 255000, 255000),
                    },
                ),
                ..WidgetSpec::spec_plain(Some(5))
            },
        ),
        SceneEntity::Widget(
            WidgetSpec {
                layout: spec_dialog_button_layout(),
                background: Some(ColorSpec::Named(NamedColor::Grey)),
                button: true,
                role: Role::CancelButton,
                ..WidgetSpec::spec_plain(Some(4))
            },
        ),
        SceneEntity::Widget(
            WidgetSpec {
                text: Some(
                    TextSpec {
                        content: TextContent::Fixed(Label::Cancel),
                        font: FontAsset::Builtin,
                        font_size: 17,
                        color: ColorSpec::Named(NamedColor::White),
                    },
                ),
                ..WidgetSpec::spec_plain(Some(7))
            },
        ),
        spec_status_node(1, selected),
    ]
}

/// Builds the dialog's startup scene around the given selection.
pub fn setup_ui(selected_button: &SelectedButton) -> (scene: Vec<SceneEntity>)
    ensures
        scene@ == spec_setup_ui(*selected_button),
        scene_wf(scene@),
{
    let mut scene: Vec<SceneEntity> = Vec::new();
    scene.push(SceneEntity::Camera { clear_color: None });
    scene.push(
        SceneEntity::Widget(
            WidgetSpec {
                layout: Layout {
                    width: Val::Percent(100),
                    height: Val::Percent(100),
                    justify_content: JustifyContent::Center,
                    align_items: AlignItems::Center,
                    flex_direction: FlexDirection::Column,
                    ..Default::default()
                },
                background: Some(ColorSpec::Srgb(100, 100, 100)),
                ..WidgetSpec::plain(None)
            },
        ),
    );
    scene.push(
        SceneEntity::Widget(
            WidgetSpec {
                layout: Layout {
                    width: Val::Px(500),
                    height: Val::Px(200),
                    justify_content: JustifyContent::Center,
                    align_items: AlignItems::Start,
                    flex_direction: FlexDirection::Column,
                    ..Default::default()
                },
                background: Some(ColorSpec::Srgb(0, 0, 0)),
                ..WidgetSpec::plain(Some(1))
            },
        ),
    );
    scene.push(
        SceneEntity::Widget(
            WidgetSpec {
                layout: Layout {
                    width: Val::Percent(100),
                    height: Val::Percent(60),
                    align_items: AlignItems::Center,
                    ..Default::default()
                },
                background: Some(ColorSpec::Named(NamedColor::Grey)),
                text: Some(
                    TextSpec {
                        content: TextContent::Fixed(Label::ConfirmAction),
                        font: FontAsset::Builtin,
                        font_size: 30,
                        color: ColorSpec::Named(NamedColor::White),
                    },
                ),
                ..WidgetSpec::plain(Some(2))
            },
        ),
    );
    scene.push(
        SceneEntity::Widget(
            WidgetSpec {
                layout: Layout {
                    width: Val::Percent(100),
                    height: Val::Percent(40),
                    align_items: AlignItems::End,
                    justify_content: JustifyContent::SpaceAround,
                    justify_items: JustifyItems::End,
                    padding: Val::Px(5),
                    ..Default::default()
                },
                background: Some(ColorSpec::Named(NamedColor::White)),
                ..WidgetSpec::plain(Some(2))
            },
        ),
    );
    scene.push(
        SceneEntity::Widget(
            WidgetSpec {
                layout: dialog_button_layout(),
                background: Some(ColorSpec::Named(NamedColor::Blue)),
                button: true,
                role: Role::ConfirmButton,
                ..WidgetSpec::plain(Some(4))
            },
        ),
    );
    scene.push(
        SceneEntity::Widget(
            WidgetSpec {
                text: Some(
                    TextSpec {
                        content: TextContent::Fixed(Label::Confirm),
                        font: FontAsset::Builtin,
                        font_size: 17,
                        color: ColorSpec::Srgb(255000, 255000, 255000),
                    },
                ),
                ..WidgetSpec::plain(Some(5))
            },
        ),
    );
    scene.push(
        SceneEntity::Widget(
            WidgetSpec {
                layout: dialog_button_layout(),
                background: Some(ColorSpec::Named(NamedColor::Grey)),
                button: true,
                role: Role::CancelButton,
                ..WidgetSpec::plain(Some(4))
            },
        ),
    );
    scene.push(
        SceneEntity::Widget(
            WidgetSpec {
                text: Some(
                    TextSpec {
                        content: TextContent::Fixed(Label::Cancel),
                        font: FontAsset::Builtin,
                        font_size: 17,
                        color: ColorSpec::Named(NamedColor::White),
                    },
                ),
                ..WidgetSpec::plain(Some(7))
            },
        ),
    );
    selected_button_text_view(&mut scene, 1, selected_button);
    proof {
        assert(scene@ =~= spec_setup_ui(*selected_button));
        assert forall|i: int| 0 <= i < scene@.len() implies match #[trigger] scene@[i] {
            SceneEntity::Widget(w) => match w.parent {
                Some(p) => p < i && scene@[p as int] is Widget,
                None => true,
            },
            SceneEntity::Camera { .. } => true,
        } by {
            if i == 2 || i == 9 {
                assert(scene@[1] is Widget);
            } else if i == 3 || i == 4 {
                assert(scene@[2] is Widget);
            } else if i == 5 || i == 7 {
                assert(scene@[4] is Widget);
            } else if i == 6 {
                assert(scene@[5] is Widget);
            } else if i == 8 {
                assert(scene@[7] is Widget);
            }
        }
    }
    scene
}

} // verus!
