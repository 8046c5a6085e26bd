//! The button demo: a single button whose caption, fill and border
//! follow the pointer's interaction state.

use vstd::prelude::*;
use crate::color::{
    spec_hovered_button, spec_normal_button, spec_pressed_button, ColorSpec, NamedColor,
};
use crate::interaction::Interaction;
use crate::layout::{AlignItems, JustifyContent, Layout, Val};
use crate::scene::{
    scene_wf, FontAsset, Label, SceneEntity, TextContent, TextSpec, WidgetSpec,
};

verus! {

/// Everything the button demo changes on an interaction change: the
/// caption, the background fill and the border colour.
#[derive(Clone, Copy, PartialEq, Eq, Debug)]
pub struct ButtonVisual {
    /// The caption shown inside the button.
    pub label: Label,
    /// The button's background fill.
    pub background: ColorSpec,
    /// The button's border colour.
    pub border: ColorSpec,
}

/// The visual state the button shows for an interaction state: green
/// fill and red border while pressed, lighter fill and white border
/// while hovered, the resting fill and black border otherwise.
pub open spec fn spec_button_visual(interaction: Interaction) -> ButtonVisual {
    match interaction {
        Interaction::Pressed => ButtonVisual {
            label: Label::Press,
            background: spec_pressed_button(),
            border: ColorSpec::Named(NamedColor::Red),
        },
        Interaction::Hovered => ButtonVisual {
            label: Label::Hover,
            background: spec_hovered_button(),
            border: ColorSpec::Named(NamedColor::White),
        },
        Interaction::Idle => ButtonVisual {
            label: Label::Button,
            background: spec_normal_button(),
            border: ColorSpec::Named(NamedColor::Black),
        },
    }
}

/// Reacts to one changed interaction on the button: picks the caption,
/// fill and border for the new interaction state.
pub fn button_system(interaction: Interaction) -> (visual: ButtonVisual)
    ensures
        visual == spec_button_visual(interaction),
{
    match interaction {
        Interaction::Pressed => ButtonVisual {
            label: Label::Press,
            background: ColorSpec::Srgb(350, 750, 350),
            border: ColorSpec::Named(NamedColor::Red),
        },
        Interaction::Hovered => ButtonVisual {
            label: Label::Hover,
            background: ColorSpec::Srgb(250, 250, 250),
            border: ColorSpec::Named(NamedColor::White),
        },
        Interaction::Idle => ButtonVisual {
            label: Label::Button,
            background: ColorSpec::Srgb(150, 150, 150),
            border: ColorSpec::Named(NamedColor::Black),
        },
    }
}

/// The demo's scene: a camera, a full-screen centring container, the
/// button, and its caption.
pub open spec fn spec_setup() -> Seq<SceneEntity> {
    seq![
        SceneEntity::Camera { clear_color: None },
        SceneEntity::Widget(
            WidgetSpec {
                layout: Layout {
                    width: Val::Percent(100),
                    height: Val::Percent(100),
                    justify_content: JustifyContent::Center,
                    align_items: AlignItems::Center,
                    ..Layout::spec_default()
                },
                ..WidgetSpec::spec_plain(None)
            },
        ),
        SceneEntity::Widget(
            WidgetSpec {
                layout: Layout {
                    width: Val::Percent(20),
                    height: Val::Percent(20),
                    justify_content: JustifyContent::Center,
                    align_items: AlignItems::Center,
                    ..Layout::spec_default()
                },
                background: Some(spec_normal_button()),
                border_color: Some(ColorSpec::Named(NamedColor::Black)),
                button: true,
                ..WidgetSpec::spec_plain(Some(1))
            },
        ),
        SceneEntity::Widget(
            WidgetSpec {
                text: Some(
                    TextSpec {
                        content: TextContent::Fixed(Label::Click),
                        font: FontAsset::Builtin,
                        font_size: 28,
                        color: ColorSpec::Srgb(0, 0, 255000),
                    },
                ),
                ..WidgetSpec::spec_plain(Some(2))
            },
        ),
    ]
}

/// Builds the demo's startup scene.
pub fn setup() -> (scene: Vec<SceneEntity>)
    ensures
        scene@ == spec_setup(),
        scene_wf(scene@),
{
    let mut scene: Vec<SceneEntity> = Vec::new();
    scene.push(SceneEntity::Camera { clear_color: None });
    scene.push(
        SceneEntity::Widget(
            WidgetSpec {
                layout: Layout {
                    width: Val::Percent(100),
                    height: Val::Percent(100),
                    justify_content: JustifyContent::Center,
                    align_items: AlignItems::Center,
                    ..Default::default()
                },
                ..WidgetSpec::plain(None)
            },
        ),
    );
    scene.push(
        SceneEntity::Widget(
            WidgetSpec {
                layout: Layout {
                    width: Val::Percent(20),
                    height: Val::Percent(20),
                    justify_content: JustifyContent::Center,
                    align_items: AlignItems::Center,
                    ..Default::default()
                },
                background: Some(ColorSpec::Srgb(150, 150, 150)),
                border_color: Some(ColorSpec::Named(NamedColor::Black)),
                button: true,
                ..WidgetSpec::plain(Some(1))
            },
        ),
    );
    scene.push(
        SceneEntity::Widget(
            WidgetSpec {
                text: Some(
                    TextSpec {
                        content: TextContent::Fixed(Label::Click),
                        font: FontAsset::Builtin,
                        font_size: 28,
                        color: ColorSpec::Srgb(0, 0, 255000),
                    },
                ),
                ..WidgetSpec::plain(Some(2))
            },
        ),
    );
    proof {
        assert(scene@ =~= spec_setup());
        assert forall|i: int| 0 <= i < scene@.len() implies match #[trigger] scene@[i] {
            SceneEntity::Widget(w) => match w.parent {
                Some(p) => p < i && scene@[p as int] is Widget,
                None => true,
            },
            SceneEntity::Camera { .. } => true,
        } by {
            if i == 2 {
                assert(scene@[1] is Widget);
            } else if i == 3 {
                assert(scene@[2] is Widget);
            }
        }
    }
    scene
}

} // verus!
