//! The root-container demo: a camera and one full-screen container.

use vstd::prelude::*;
use crate::color::ColorSpec;
use crate::layout::{AlignItems, FlexDirection, JustifyContent, Layout, Val};
use crate::scene::{scene_wf, SceneEntity, WidgetSpec};

verus! {

/// The demo's scene: a camera and a full-screen green root node that
/// centres its children in a column.
pub open spec fn spec_setup() -> Seq<SceneEntity> {
    seq![
        SceneEntity::Camera { clear_color: None },
        SceneEntity::Widget(
            WidgetSpec {
                layout: Layout {
                    width: Val::Percent(100),
                    height: Val::Percent(100),
                    justify_content: JustifyContent::Center,
                    align_items: AlignItems::Center,
                    flex_direction: FlexDirection::Column,
                    ..Layout::spec_default()
                },
                background: Some(ColorSpec::Srgb(0, 255000, 0)),
                ..WidgetSpec::spec_plain(None)
            },
        ),
    ]
}

/// Builds the demo's startup scene.
pub fn setup() -> (scene: Vec<SceneEntity>)
    ensures
        scene@ == spec_setup(),
        scene_wf(scene@),
{
    let mut scene: Vec<SceneEntity> = Vec::new();
    scene.push(SceneEntity::Camera { clear_color: None });
    scene.push(
        SceneEntity::Widget(
            WidgetSpec {
                layout: Layout {
                    width: Val::Percent(100),
                    height: Val::Percent(100),
                    justify_content: JustifyContent::Center,
                    align_items: AlignItems::Center,
                    flex_direction: FlexDirection::Column,
                    ..Default::default()
                },
                background: Some(ColorSpec::Srgb(0, 255000, 0)),
                ..WidgetSpec::plain(None)
            },
        ),
    );
    proof {
        assert(scene@ =~= spec_setup());
    }
    scene
}

} // verus!
