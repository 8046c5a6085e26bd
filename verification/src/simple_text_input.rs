//! The line-input demo: a username and a password input with a submit
//! button. Clicking an input focuses it and unfocuses the other;
//! pressing submit reports both buffers.

use vstd::prelude::*;
use crate::color::{ColorSpec, NamedColor};
use crate::interaction::Interaction;
use crate::layout::{AlignItems, FlexDirection, JustifyContent, Layout, Val};
use crate::scene::{
    scene_wf, FontAsset, Label, Role, SceneEntity, TextContent, TextInputSpec, TextSpec,
    WidgetSpec,
};

verus! {

/// The border colour of the focused input: sRGB (0.75, 0.52, 0.99).
pub open spec fn spec_active_border() -> ColorSpec {
    ColorSpec::Srgb(750, 520, 990)
}

/// The border colour of an unfocused input: sRGB (0.25, 0.25, 0.25).
pub open spec fn spec_inactive_border() -> ColorSpec {
    ColorSpec::Srgb(250, 250, 250)
}

/// Returns the focused input's border colour.
pub fn active_border() -> (c: ColorSpec)
    ensures
        c == spec_active_border(),
{
    ColorSpec::Srgb(750, 520, 990)
}

/// Returns an unfocused input's border colour.
pub fn inactive_border() -> (c: ColorSpec)
    ensures
        c == spec_inactive_border(),
{
    ColorSpec::Srgb(250, 250, 250)
}

/// The layout both inputs use: 200 pixels wide with a 5 pixel border
/// and 5 pixels of padding.
pub open spec fn spec_input_layout() -> Layout {
    Layout {
        width: Val::Px(200),
        border: Val::Px(5),
        padding: Val::Px(5),
        ..Layout::spec_default()
    }
}

/// The username input: it starts unfocused, shows the `Name`
/// placeholder, and blocks clicks from reaching the container behind
/// it.
pub open spec fn spec_text_input() -> WidgetSpec {
    WidgetSpec {
        layout: spec_input_layout(),
        border_color: Some(spec_inactive_border()),
        background: Some(ColorSpec::Srgb(150, 150, 150)),
        focus_policy_block: true,
        role: Role::Username,
        text_input: Some(
            TextInputSpec {
                placeholder: Label::Name,
                font_size: 34,
                text_color: ColorSpec::Srgb(900, 900, 900),
                explicit_empty_value: false,
                mask_character: None,
                retain_on_submit: false,
                inactive: true,
            },
        ),
        ..WidgetSpec::spec_plain(None)
    }
}

/// Returns the username input's widget, not yet parented.
pub fn text_input() -> (w: WidgetSpec)
    ensures
        w == spec_text_input(),
{
    WidgetSpec {
        layout: Layout {
            width: Val::Px(200),
            border: Val::Px(5),
            padding: Val::Px(5),
            ..Default::default()
        },
        border_color: Some(inactive_border()),
        background: Some(ColorSpec::Srgb(150, 150, 150)),
        focus_policy_block: true,
        role: Role::Username,
        text_input: Some(
            TextInputSpec {
                placeholder: Label::Name,
                font_size: 34,
                text_color: ColorSpec::Srgb(900, 900, 900),
                explicit_empty_value: false,
                mask_character: None,
                retain_on_submit: false,
                inactive: true,
            },
        ),
        ..WidgetSpec::plain(None)
    }
}

/// The demo's scene: a camera, an interactive full-screen container,
/// the username and password inputs, and the submit button with its
/// caption.
pub open spec fn spec_setup() -> Seq<SceneEntity> {
    seq![
        SceneEntity::Camera { clear_color: None },
        SceneEntity::Widget(
            WidgetSpec {
                layout: Layout {
                    width: Val::Percent(100),
                    height: Val::Percent(100),
                    align_items: AlignItems::Center,
                    justify_content: JustifyContent::Center,
                    flex_direction: FlexDirection::Column,
                    row_gap: Val::Px(10),
                    ..Layout::spec_default()
                },
                interactive: true,
                ..WidgetSpec::spec_plain(None)
            },
        ),
        SceneEntity::Widget(WidgetSpec { parent: Some(1), ..spec_text_input() }),
        SceneEntity::Widget(
            WidgetSpec {
                layout: spec_input_layout(),
                border_color: Some(spec_active_border()),
                background: Some(ColorSpec::Srgb(150, 150, 150)),
                role: Role::Password,
                text_input: Some(
                    TextInputSpec {
                        placeholder: Label::Password,
                        font_size: 34,
                        text_color: ColorSpec::Srgb(900, 900, 900),
                        explicit_empty_value: true,
                        mask_character: Some('*'),
                        retain_on_submit: true,
                        inactive: false,
                    },
                ),
                ..WidgetSpec::spec_plain(Some(1))
            },
        ),
        SceneEntity::Widget(
            WidgetSpec {
                layout: Layout {
                    width: Val::Px(100),
                    height: Val::Px(40),
                    margin: Val::Px(20),
                    justify_content: JustifyContent::Center,
                    align_items: AlignItems::Center,
                    ..Layout::spec_default()
                },
                border_color: Some(ColorSpec::Named(NamedColor::Blue)),
                background: Some(ColorSpec::Named(NamedColor::Blue400)),
                button: true,
                role: Role::SubmitButton,
                ..WidgetSpec::spec_plain(Some(1))
            },
        ),
        SceneEntity::Widget(
            WidgetSpec {
                text: Some(
                    TextSpec {
                        content: TextContent::Fixed(Label::Submit),
                        font: FontAsset::Builtin,
                        font_size: 17,
                        color: ColorSpec::Srgb(255000, 255000, 255000),
                    },
                ),
                ..WidgetSpec::spec_plain(Some(4))
            },
        ),
    ]
}

/// Builds the demo's startup scene.
pub fn setup() -> (scene: Vec<SceneEntity>)
    ensures
        scene@ == spec_setup(),
        scene_wf(scene@),
{
    let mut scene: Vec<SceneEntity> = Vec::new();
    scene.push(SceneEntity::Camera { clear_color: None });
    scene.push(
        SceneEntity::Widget(
            WidgetSpec {
                layout: Layout {
                    width: Val::Percent(100),
                    height: Val::Percent(100),
                    align_items: AlignItems::Center,
                    justify_content: JustifyContent::Center,
                    flex_direction: FlexDirection::Column,
                    row_gap: Val::Px(10),
                    ..Default::default()
                },
                interactive: true,
                ..WidgetSpec::plain(None)
            },
        ),
    );
    scene.push(SceneEntity::Widget(WidgetSpec { parent: Some(1), ..text_input() }));
    scene.push(
        SceneEntity::Widget(
            WidgetSpec {
                layout: Layout {
                    width: Val::Px(200),
                    border: Val::Px(5),
                    padding: Val::Px(5),
                    ..Default::default()
                },
                border_color: Some(active_border()),
                background: Some(ColorSpec::Srgb(150, 150, 150)),
                role: Role::Password,
                text_input: Some(
                    TextInputSpec {
                        placeholder: Label::Password,
                        font_size: 34,
                        text_color: ColorSpec::Srgb(900, 900, 900),
                        explicit_empty_value: true,
                        mask_character: Some('*'),
                        retain_on_submit: true,
                        inactive: false,
                    },
                ),
                ..WidgetSpec::plain(Some(1))
            },
        ),
    );
    scene.push(
        SceneEntity::Widget(
            WidgetSpec {
                layout: Layout {
                    width: Val::Px(100),
                    height: Val::Px(40),
                    margin: Val::Px(20),
                    justify_content: JustifyContent::Center,
                    align_items: AlignItems::Center,
                    ..Default::default()
                },
                border_color: Some(ColorSpec::Named(NamedColor::Blue)),
                background: Some(ColorSpec::Named(NamedColor::Blue400)),
                button: true,
                role: Role::SubmitButton,
                ..WidgetSpec::plain(Some(1))
            },
        ),
    );
    scene.push(
        SceneEntity::Widget(
            WidgetSpec {
                text: Some(
                    TextSpec {
                        content: TextContent::Fixed(Label::Submit),
                        font: FontAsset::Builtin,
                        font_size: 17,
                        color: ColorSpec::Srgb(255000, 255000, 255000),
                    },
                ),
                ..WidgetSpec::plain(Some(4))
            },
        ),
    );
    proof {
        assert(scene@ =~= spec_setup());
        assert forall|i: int| 0 <= i < scene@.len() implies match #[trigger] scene@[i] {
            SceneEntity::Widget(w) => match w.parent {
                Some(p) => p < i && scene@[p as int] is Widget,
                None => true,
            },
            SceneEntity::Camera { .. } => true,
        } by {
            if 2 <= i <= 4 {
                assert(scene@[1] is Widget);
            } else if i == 5 {
                assert(scene@[4] is Widget);
            }
        }
    }
    scene
}

/// What the focus pass writes back to one input after a click: whether
/// it is now inactive, and its border colour.
#[derive(Clone, Copy, PartialEq, Eq, Debug)]
pub struct FocusUpdate {
    /// Whether the input is now out of focus.
    pub inactive: bool,
    /// The input's new border colour.
    pub border: ColorSpec,
}

/// The update one input receives when the widget `clicked` was pressed:
/// the clicked input becomes active with the active border, every other
/// input becomes inactive with the inactive border.
pub open spec fn spec_focus_update(entity: u64, clicked: u64) -> FocusUpdate {
    if entity == clicked {
        FocusUpdate { inactive: false, border: spec_active_border() }
    } else {
        FocusUpdate { inactive: true, border: spec_inactive_border() }
    }
}

/// Reacts to one changed interaction: a press on the widget `clicked`
/// yields one focus update per input, in the order the inputs are
/// given; any other interaction change yields none.
pub fn focus(interaction: Interaction, clicked: u64, inputs: &Vec<u64>) -> (updates: Option<
    Vec<FocusUpdate>,
>)
    ensures
        interaction is Pressed ==> (updates matches Some(u) && u@.len() == inputs@.len()
            && (forall|i: int|
            0 <= i < inputs@.len() ==> u@[i] == spec_focus_update(inputs@[i], clicked))),
        !(interaction is Pressed) ==> updates is None,
{
    if let Interaction::Pressed = interaction {
        let mut updates: Vec<FocusUpdate> = Vec::new();
        let mut i: usize = 0;
        while i < inputs.len()
            invariant
                i <= inputs@.len(),
                updates@.len() == i as int,
                forall|j: int|
                    0 <= j < i as int ==> updates@[j] == spec_focus_update(inputs@[j], clicked),
            decreases inputs@.len() - i,
        {
            if inputs[i] == clicked {
                updates.push(FocusUpdate { inactive: false, border: active_border() });
            } else {
                updates.push(FocusUpdate { inactive: true, border: inactive_border() });
            }
            i = i + 1;
        }
        Some(updates)
    } else {
        None
    }
}

/// What a press on the submit button reports: the buffers of the
/// inputs that were found, unchanged.
#[derive(Clone, PartialEq, Eq, Debug)]
pub struct SubmitReport {
    /// The username buffer, if the username input was found.
    pub username: Option<String>,
    /// The password buffer, if the password input was found.
    pub password: Option<String>,
}

/// Reacts to one changed interaction on the submit button: a press
/// reports both input buffers unchanged; any other change reports
/// nothing.
pub fn handle_submit(
    interaction: Interaction,
    username: Option<String>,
    password: Option<String>,
) -> (report: Option<SubmitReport>)
    ensures
        interaction is Pressed ==> (report matches Some(r) && r.username == username && r.password
            == password),
        !(interaction is Pressed) ==> report is None,
{
    if let Interaction::Pressed = interaction {
        Some(SubmitReport { username, password })
    } else {
        None
    }
}

} // verus!
