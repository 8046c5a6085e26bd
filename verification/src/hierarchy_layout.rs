//! The hierarchy demo: a root container with a captioned child, a
//! nested container, and a single grandchild.

use vstd::prelude::*;
use crate::color::{ColorSpec, NamedColor};
use crate::layout::{AlignContent, AlignItems, FlexDirection, JustifyContent, Layout, Val};
use crate::scene::{
    scene_wf, FontAsset, Label, SceneEntity, TextContent, TextSpec, WidgetSpec,
};

verus! {

/// The caption style every node of this demo shares: the bundled bold
/// font at 33 points in black.
pub open spec fn spec_caption(label: Label) -> TextSpec {
    TextSpec {
        content: TextContent::Fixed(label),
        font: FontAsset::FiraSansBold,
        font_size: 33,
        color: ColorSpec::Named(NamedColor::Black),
    }
}

/// Returns the demo's caption style for a label.
pub fn caption(label: Label) -> (t: TextSpec)
    ensures
        t == spec_caption(label),
{
    TextSpec {
        content: TextContent::Fixed(label),
        font: FontAsset::FiraSansBold,
        font_size: 33,
        color: ColorSpec::Named(NamedColor::Black),
    }
}

/// The demo's scene: a camera, a white full-screen root in column
/// direction, a grey captioned child, a green nested container packing
/// toward its end, and a blue single grandchild.
pub open spec fn spec_setup() -> Seq<SceneEntity> {
    seq![
        SceneEntity::Camera { clear_color: None },
        SceneEntity::Widget(
            WidgetSpec {
                layout: Layout {
                    width: Val::Percent(100),
                    height: Val::Percent(100),
                    justify_content: JustifyContent::Center,
                    align_items: AlignItems::Center,
                    flex_direction: FlexDirection::Column,
                    ..Layout::spec_default()
                },
                background: Some(ColorSpec::Named(NamedColor::White)),
                ..WidgetSpec::spec_plain(None)
            },
        ),
        SceneEntity::Widget(
            WidgetSpec {
                layout: Layout {
                    width: Val::Percent(80),
                    height: Val::Percent(80),
                    ..Layout::spec_default()
                },
                background: Some(ColorSpec::Named(NamedColor::Grey)),
                text: Some(spec_caption(Label::InsideContainerOne)),
                ..WidgetSpec::spec_plain(Some(1))
            },
        ),
        SceneEntity::Widget(
            WidgetSpec {
                layout: Layout {
                    width: Val::Percent(80),
                    height: Val::Percent(80),
                    justify_content: JustifyContent::End,
                    align_items: AlignItems::End,
                    ..Layout::spec_default()
                },
                background: Some(ColorSpec::Named(NamedColor::Green)),
                text: Some(spec_caption(Label::InsideContainerTwo)),
                ..WidgetSpec::spec_plain(Some(1))
            },
        ),
        SceneEntity::Widget(
            WidgetSpec {
                layout: Layout {
                    width: Val::Percent(40),
                    height: Val::Percent(20),
                    align_content: AlignContent::Center,
                    ..Layout::spec_default()
                },
                background: Some(ColorSpec::Named(NamedColor::Blue)),
                text: Some(spec_caption(Label::SingleChild)),
                ..WidgetSpec::spec_plain(Some(3))
            },
        ),
    ]
}

/// Builds the demo's startup scene.
pub fn setup() -> (scene: Vec<SceneEntity>)
    ensures
        scene@ == spec_setup(),
        scene_wf(scene@),
{
    let mut scene: Vec<SceneEntity> = Vec::new();
    scene.push(SceneEntity::Camera { clear_color: None });
    scene.push(
        SceneEntity::Widget(
            WidgetSpec {
                layout: Layout {
                    width: Val::Percent(100),
                    height: Val::Percent(100),
                    justify_content: JustifyContent::Center,
                    align_items: AlignItems::Center,
                    flex_direction: FlexDirection::Column,
                    ..Default::default()
                },
                background: Some(ColorSpec::Named(NamedColor::White)),
                ..WidgetSpec::plain(None)
            },
        ),
    );
    scene.push(
        SceneEntity::Widget(
            WidgetSpec {
                layout: Layout {
                    width: Val::Percent(80),
                    height: Val::Percent(80),
                    ..Default::default()
                },
                background: Some(ColorSpec::Named(NamedColor::Grey)),
                text: Some(caption(Label::InsideContainerOne)),
                ..WidgetSpec::plain(Some(1))
            },
        ),
    );
    scene.push(
        SceneEntity::Widget(
            WidgetSpec {
                layout: Layout {
                    width: Val::Percent(80),
                    height: Val::Percent(80),
                    justify_content: JustifyContent::End,
                    align_items: AlignItems::End,
                    ..Default::default()
                },
                background: Some(ColorSpec::Named(NamedColor::Green)),
                text: Some(caption(Label::InsideContainerTwo)),
                ..WidgetSpec::plain(Some(1))
            },
        ),
    );
    scene.push(
        SceneEntity::Widget(
            WidgetSpec {
                layout: Layout {
                    width: Val::Percent(40),
                    height: Val::Percent(20),
                    align_content: AlignContent::Center,
                    ..Default::default()
                },
                background: Some(ColorSpec::Named(NamedColor::Blue)),
                text: Some(caption(Label::SingleChild)),
                ..WidgetSpec::plain(Some(3))
            },
        ),
    );
    proof {
        assert(scene@ =~= spec_setup());
        assert forall|i: int| 0 <= i < scene@.len() implies match #[trigger] scene@[i] {
            SceneEntity::Widget(w) => match w.parent {
                Some(p) => p < i && scene@[p as int] is Widget,
                None => true,
            },
            SceneEntity::Camera { .. } => true,
        } by {
            if 2 <= i <= 3 {
                assert(scene@[1] is Widget);
            } else if i == 4 {
                assert(scene@[3] is Widget);
            }
        }
    }
    scene
}

} // verus!
