//! The counter demo: an increment and a decrement button beside a
//! numeric display.

use vstd::prelude::*;
use crate::color::{spec_normal_button, ColorSpec, NamedColor};
use crate::interaction::Interaction;
use crate::layout::{AlignItems, JustifyContent, Layout, PositionType, Val};
use crate::scene::{
    scene_wf, FontAsset, Label, Role, SceneEntity, TextContent, TextSpec, WidgetSpec,
};

verus! {

/// What a counter button does when pressed.
#[derive(Clone, Copy, PartialEq, Eq, Debug)]
pub enum ButtonAction {
    /// Add one to the counter.
    Increment,
    /// Subtract one from the counter.
    Decrement,
}

/// The demo's single counter value.
#[derive(Clone, Copy, PartialEq, Eq, Debug)]
pub struct Counter(pub i32);

impl Default for Counter {
    /// A counter starts at zero.
    fn default() -> (c: Counter)
        ensures
            c.0 == 0,
    {
        Counter(0)
    }
}

/// The counter value after one interaction report: a press on a button
/// carrying an action moves the counter by one; anything else leaves it.
pub open spec fn spec_next_counter(
    value: int,
    interaction: Interaction,
    action: Option<ButtonAction>,
) -> int {
    if interaction is Pressed {
        match action {
            Some(ButtonAction::Increment) => value + 1,
            Some(ButtonAction::Decrement) => value - 1,
            None => value,
        }
    } else {
        value
    }
}

/// Pressing increment and then decrement (or the other way round)
/// returns the counter to where it started, from any value.
pub proof fn lemma_increment_decrement_cancel(value: int)
    ensures
        spec_next_counter(
            spec_next_counter(value, Interaction::Pressed, Some(ButtonAction::Increment)),
            Interaction::Pressed,
            Some(ButtonAction::Decrement),
        ) == value,
        spec_next_counter(
            spec_next_counter(value, Interaction::Pressed, Some(ButtonAction::Decrement)),
            Interaction::Pressed,
            Some(ButtonAction::Increment),
        ) == value,
{
}

/// Only a press on a button that carries an action moves the counter.
pub proof fn lemma_counter_moves_only_on_action(
    value: int,
    interaction: Interaction,
    action: Option<ButtonAction>,
)
    requires
        !(interaction is Pressed) || action is None,
    ensures
        spec_next_counter(value, interaction, action) == value,
{
}

/// The border colour a counter button shows for an interaction state:
/// red while pressed, white while hovered, black at rest.
pub open spec fn spec_button_border(interaction: Interaction) -> ColorSpec {
    match interaction {
        Interaction::Pressed => ColorSpec::Named(NamedColor::Red),
        Interaction::Hovered => ColorSpec::Named(NamedColor::White),
        Interaction::Idle => ColorSpec::Named(NamedColor::Black),
    }
}

/// Reacts to one changed interaction on a counter button: moves the
/// counter if the button was pressed and carries an action, and picks
/// the border colour for the new interaction state.
pub fn button_system(
    counter: &mut Counter,
    interaction: Interaction,
    action: Option<ButtonAction>,
) -> (border: ColorSpec)
    requires
        interaction is Pressed && action == Some(ButtonAction::Increment) ==> old(
            counter,
        ).0 < i32::MAX,
        interaction is Pressed && action == Some(ButtonAction::Decrement) ==> old(
            counter,
        ).0 > i32::MIN,
    ensures
        final(counter).0 == spec_next_counter(old(counter).0 as int, interaction, action),
        border == spec_button_border(interaction),
{
    match interaction {
        Interaction::Pressed => {
            match action {
                Some(ButtonAction::Increment) => {
                    counter.0 = counter.0 + 1;
                },
                Some(ButtonAction::Decrement) => {
                    counter.0 = counter.0 - 1;
                },
                None => {},
            }
            ColorSpec::Named(NamedColor::Red)
        },
        Interaction::Hovered => ColorSpec::Named(NamedColor::White),
        Interaction::Idle => ColorSpec::Named(NamedColor::Black),
    }
}

/// The decimal digits of a non-negative number, most significant first.
pub open spec fn spec_digits(n: nat) -> Seq<u8>
    decreases n,
{
    if n < 10 {
        seq![(48 + n) as u8]
    } else {
        spec_digits(n / 10).push((48 + n % 10) as u8)
    }
}

/// The decimal rendering of a counter value: a minus sign followed by
/// the digits of the magnitude when negative, the digits alone
/// otherwise.
pub open spec fn spec_decimal(value: int) -> Seq<u8> {
    if value < 0 {
        seq![45u8] + spec_digits((-value) as nat)
    } else {
        spec_digits(value as nat)
    }
}

/// Appends the decimal digits of `n`, most significant first.
fn push_digits(n: u32, out: &mut Vec<u8>)
    ensures
        final(out)@ == old(out)@ + spec_digits(n as nat),
    decreases n,
{
    if n < 10 {
        out.push(48 + n as u8);
    } else {
        push_digits(n / 10, out);
        out.push(48 + (n % 10) as u8);
    }
}

/// Renders a counter value as the ASCII bytes of its decimal form, as
/// the counter display shows it.
pub fn counter_display(value: i32) -> (r: Vec<u8>)
    ensures
        r@ == spec_decimal(value as int),
{
    let mut out: Vec<u8> = Vec::new();
    if value < 0 {
        out.push(45);
        let magnitude: u32 = (-(value as i64)) as u32;
        push_digits(magnitude, &mut out);
    } else {
        push_digits(value as u32, &mut out);
    }
    out
}

/// The layout every button of this demo uses: a fixed 100 by 65 pixel
/// box with a 5 pixel border, centred content, placed absolutely.
pub open spec fn spec_button_layout(top: u32, left: u32) -> Layout {
    Layout {
        width: Val::Px(100),
        height: Val::Px(65),
        border: Val::Px(5),
        justify_content: JustifyContent::Center,
        align_items: AlignItems::Center,
        position_type: PositionType::Absolute,
        top: Val::Px(top),
        left: Val::Px(left),
        ..Layout::spec_default()
    }
}

/// Returns the demo's button layout at the given offsets.
pub fn button_layout(top: u32, left: u32) -> (l: Layout)
    ensures
        l == spec_button_layout(top, left),
{
    Layout {
        width: Val::Px(100),
        height: Val::Px(65),
        border: Val::Px(5),
        justify_content: JustifyContent::Center,
        align_items: AlignItems::Center,
        position_type: PositionType::Absolute,
        top: Val::Px(top),
        left: Val::Px(left),
        ..Default::default()
    }
}

/// The caption style of this demo: the bundled bold font at 33 points
/// in light grey.
pub open spec fn spec_caption(content: TextContent) -> TextSpec {
    TextSpec {
        content: content,
        font: FontAsset::FiraSansBold,
        font_size: 33,
        color: ColorSpec::Srgb(900, 900, 900),
    }
}

/// Returns the demo's caption style for a content.
pub fn caption(content: TextContent) -> (t: TextSpec)
    ensures
        t == spec_caption(content),
{
    TextSpec {
        content: content,
        font: FontAsset::FiraSansBold,
        font_size: 33,
        color: ColorSpec::Srgb(900, 900, 900),
    }
}

/// The two entities of the counter display: a rounded button box, and
/// its child text showing the digits of the counter value the display
/// was built with. `base` is the index the first of the two takes in
/// the scene list.
pub open spec fn spec_counter_text_nodes(value: i32, base: usize) -> Seq<SceneEntity> {
    seq![
        SceneEntity::Widget(
            WidgetSpec {
                layout: spec_button_layout(45, 70),
                background: Some(spec_normal_button()),
                border_color: Some(ColorSpec::Named(NamedColor::Black)),
                border_radius_max: true,
                button: true,
                ..WidgetSpec::spec_plain(None)
            },
        ),
        SceneEntity::Widget(
            WidgetSpec {
                text: Some(spec_caption(TextContent::CounterValue(value))),
                role: Role::CounterText,
                ..WidgetSpec::spec_plain(Some(base))
            },
        ),
    ]
}

/// Appends the counter display to a scene: a rounded button box and its
/// child text, seeded with the digits of the given counter value.
pub fn create_counter_text(scene: &mut Vec<SceneEntity>, counter_value: &Counter)
    requires
        old(scene)@.len() < usize::MAX,
    ensures
        final(scene)@ == old(scene)@ + spec_counter_text_nodes(
            counter_value.0,
            old(scene)@.len() as usize,
        ),
{
    let base: usize = scene.len();
    scene.push(
        SceneEntity::Widget(
            WidgetSpec {
                layout: button_layout(45, 70),
                background: Some(ColorSpec::Srgb(150, 150, 150)),
                border_color: Some(ColorSpec::Named(NamedColor::Black)),
                border_radius_max: true,
                button: true,
                ..WidgetSpec::plain(None)
            },
        ),
    );
    scene.push(
        SceneEntity::Widget(
            WidgetSpec {
                text: Some(caption(TextContent::CounterValue(counter_value.0))),
                role: Role::CounterText,
                ..WidgetSpec::plain(Some(base))
            },
        ),
    );
    proof {
        assert(scene@ =~= old(scene)@ + spec_counter_text_nodes(
            counter_value.0,
            old(scene)@.len() as usize,
        ));
    }
}

/// One counter button and its caption. `base` is the index the button
/// takes in the scene list.
pub open spec fn spec_action_button_nodes(
    action: ButtonAction,
    label: Label,
    left: u32,
    base: usize,
) -> Seq<SceneEntity> {
    seq![
        SceneEntity::Widget(
            WidgetSpec {
                layout: spec_button_layout(150, left),
                background: Some(spec_normal_button()),
                border_color: Some(ColorSpec::Named(NamedColor::Black)),
                border_radius_max: true,
                button: true,
                role: Role::CounterAction(action),
                ..WidgetSpec::spec_plain(None)
            },
        ),
        SceneEntity::Widget(
            WidgetSpec {
                text: Some(spec_caption(TextContent::Fixed(label))),
                ..WidgetSpec::spec_plain(Some(base))
            },
        ),
    ]
}

/// The demo's scene: a camera, the counter display, and the decrement
/// and increment buttons with their captions.
pub open spec fn spec_setup(value: i32) -> Seq<SceneEntity> {
    seq![SceneEntity::Camera { clear_color: None }] + spec_counter_text_nodes(value, 1)
        + spec_action_button_nodes(ButtonAction::Decrement, Label::Minus, 25, 3)
        + spec_action_button_nodes(ButtonAction::Increment, Label::Plus, 120, 5)
}

/// Builds the demo's startup scene around the given counter value.
pub fn setup(counter: &Counter) -> (scene: Vec<SceneEntity>)
    ensures
        scene@ == spec_setup(counter.0),
        scene_wf(scene@),
{
    let mut scene: Vec<SceneEntity> = Vec::new();
    scene.push(SceneEntity::Camera { clear_color: None });
    create_counter_text(&mut scene, counter);
    scene.push(
        SceneEntity::Widget(
            WidgetSpec {
                layout: button_layout(150, 25),
                background: Some(ColorSpec::Srgb(150, 150, 150)),
                border_color: Some(ColorSpec::Named(NamedColor::Black)),
                border_radius_max: true,
                button: true,
                role: Role::CounterAction(ButtonAction::Decrement),
                ..WidgetSpec::plain(None)
            },
        ),
    );
    scene.push(
        SceneEntity::Widget(
            WidgetSpec {
                text: Some(caption(TextContent::Fixed(Label::Minus))),
                ..WidgetSpec::plain(Some(3))
            },
        ),
    );
    scene.push(
        SceneEntity::Widget(
            WidgetSpec {
                layout: button_layout(150, 120),
                background: Some(ColorSpec::Srgb(150, 150, 150)),
                border_color: Some(ColorSpec::Named(NamedColor::Black)),
                border_radius_max: true,
                button: true,
                role: Role::CounterAction(ButtonAction::Increment),
                ..WidgetSpec::plain(None)
            },
        ),
    );
    scene.push(
        SceneEntity::Widget(
            WidgetSpec {
                text: Some(caption(TextContent::Fixed(Label::Plus))),
                ..WidgetSpec::plain(Some(5))
            },
        ),
    );
    proof {
        assert(scene@ =~= spec_setup(counter.0));
        assert forall|i: int| 0 <= i < scene@.len() implies match #[trigger] scene@[i] {
            SceneEntity::Widget(w) => match w.parent {
                Some(p) => p < i && scene@[p as int] is Widget,
                None => true,
            },
            SceneEntity::Camera { .. } => true,
        } by {
            if i == 2 {
                assert(scene@[1] is Widget);
            } else if i == 4 {
                assert(scene@[3] is Widget);
            } else if i == 6 {
                assert(scene@[5] is Widget);
            }
        }
    }
    scene
}

} // verus!
