//! Scene descriptions: the static widget trees the demos build at
//! startup.
//!
//! A scene is a flat list of entities; each widget names its parent by
//! index into the list, so a well-formed scene is a forest whose edges
//! only point backward. The host shell walks the list in order and
//! spawns one engine entity per element.

use vstd::prelude::*;
use crate::color::ColorSpec;
use crate::confirmation_example::SelectedButton;
use crate::counter::ButtonAction;
use crate::layout::Layout;

verus! {

/// A fixed piece of text a demo displays.
#[derive(Clone, Copy, PartialEq, Eq, Debug)]
pub enum Label {
    /// The button's resting caption.
    Click,
    /// The button's caption while pressed.
    Press,
    /// The button's caption while hovered.
    Hover,
    /// The button's caption when the pointer leaves.
    Button,
    /// The confirmation dialog's prompt.
    ConfirmAction,
    /// The confirm button's caption.
    Confirm,
    /// The cancel button's caption.
    Cancel,
    /// The submit button's caption.
    Submit,
    /// The decrement button's caption.
    Minus,
    /// The increment button's caption.
    Plus,
    /// The username input's placeholder.
    Name,
    /// The password input's placeholder.
    Password,
    /// The rich-text name input's placeholder.
    EnterName,
    /// The rich-text password input's placeholder.
    EnterPassword,
    /// The first nested container's caption.
    InsideContainerOne,
    /// The second nested container's caption.
    InsideContainerTwo,
    /// The innermost child's caption.
    SingleChild,
}

impl Label {
    /// The characters of the label.
    pub open spec fn spec_text(self) -> Seq<char> {
        match self {
            Label::Click => "Click"@,
            Label::Press => "Press"@,
            Label::Hover => "Hover"@,
            Label::Button => "Button"@,
            Label::ConfirmAction => "Confirm action!"@,
            Label::Confirm => "Confirm"@,
            Label::Cancel => "Cancel"@,
            Label::Submit => "Submit"@,
            Label::Minus => "-"@,
            Label::Plus => "+"@,
            Label::Name => "Name"@,
            Label::Password => "Password"@,
            Label::EnterName => "Enter name"@,
            Label::EnterPassword => "Enter password"@,
            Label::InsideContainerOne => "Inside container 1"@,
            Label::InsideContainerTwo => "Inside container 2"@,
            Label::SingleChild => "SINGLE CHILD"@,
        }
    }

    /// Returns the label's text.
    pub fn text(self) -> (r: &'static str)
        ensures
            r@ == self.spec_text(),
    {
        match self {
            Label::Click => "Click",
            Label::Press => "Press",
            Label::Hover => "Hover",
            Label::Button => "Button",
            Label::ConfirmAction => "Confirm action!",
            Label::Confirm => "Confirm",
            Label::Cancel => "Cancel",
            Label::Submit => "Submit",
            Label::Minus => "-",
            Label::Plus => "+",
            Label::Name => "Name",
            Label::Password => "Password",
            Label::EnterName => "Enter name",
            Label::EnterPassword => "Enter password",
            Label::InsideContainerOne => "Inside container 1",
            Label::InsideContainerTwo => "Inside container 2",
            Label::SingleChild => "SINGLE CHILD",
        }
    }
}

/// What a text node displays.
#[derive(Clone, Copy, PartialEq, Eq, Debug)]
pub enum TextContent {
    /// A fixed label.
    Fixed(Label),
    /// The confirmation dialog's status line; the shell renders it with
    /// the status text of the selection the node was built with, and
    /// the dialog's update logic rewrites it on every press.
    Status(SelectedButton),
    /// The counter's value, rendered as decimal digits; the node holds
    /// the value it was built with, and the counter's update logic
    /// rewrites the digits on every change.
    CounterValue(i32),
}

/// The font a text node asks for.
#[derive(Clone, Copy, PartialEq, Eq, Debug)]
pub enum FontAsset {
    /// The engine's built-in font.
    Builtin,
    /// The bundled bold sans-serif font.
    FiraSansBold,
}

/// A text element attached to a widget node.
#[derive(Clone, Copy, PartialEq, Eq, Debug)]
pub struct TextSpec {
    /// What the node displays.
    pub content: TextContent,
    /// The font asset.
    pub font: FontAsset,
    /// Font size in whole points.
    pub font_size: u32,
    /// Text colour.
    pub color: ColorSpec,
}

/// A single-line text-input element, as the line-input plugin takes it.
#[derive(Clone, Copy, PartialEq, Eq, Debug)]
pub struct TextInputSpec {
    /// Placeholder shown while the buffer is empty.
    pub placeholder: Label,
    /// Font size of the entered text, in whole points.
    pub font_size: u32,
    /// Colour of the entered text.
    pub text_color: ColorSpec,
    /// Whether the demo seeds the input with an explicit empty buffer.
    pub explicit_empty_value: bool,
    /// Replacement character for hidden input, if any.
    pub mask_character: Option<char>,
    /// Whether the buffer is kept on submit.
    pub retain_on_submit: bool,
    /// Whether the input starts out of focus.
    pub inactive: bool,
}

/// The font family a rich-text editor buffer asks for.
#[derive(Clone, Copy, PartialEq, Eq, Debug)]
pub enum FontFamily {
    /// No family set; the editor falls back to its default.
    Unspecified,
    /// The "Victor Mono" family.
    VictorMono,
}

/// A rich-text editor element, as the editor plugin takes it.
#[derive(Clone, Copy, PartialEq, Eq, Debug)]
pub struct CosmicEditSpec {
    /// Font size of the buffer, in whole points.
    pub font_size: u32,
    /// Line height of the buffer, in whole points.
    pub line_height: u32,
    /// Font family of the buffer's attributes.
    pub family: FontFamily,
    /// Colour of the entered text.
    pub text_color: ColorSpec,
    /// Placeholder shown while the buffer is empty.
    pub placeholder: Label,
    /// Colour of the placeholder text.
    pub placeholder_color: ColorSpec,
}

/// The role a widget plays in its demo's update logic. The shell tags
/// the spawned entity with it so events can be routed back.
#[derive(Clone, Copy, PartialEq, Eq, Debug)]
pub enum Role {
    /// No role; purely visual.
    Plain,
    /// The confirmation dialog's confirm button.
    ConfirmButton,
    /// The confirmation dialog's cancel button.
    CancelButton,
    /// The confirmation dialog's status line.
    StatusText,
    /// The counter display.
    CounterText,
    /// A counter button together with its action.
    CounterAction(ButtonAction),
    /// The username line input.
    Username,
    /// The password line input.
    Password,
    /// The rich-text name input.
    NameInput,
    /// The rich-text password input.
    PasswordInput,
    /// The submit button of an input demo.
    SubmitButton,
}

/// One widget of a scene.
#[derive(Clone, Copy, PartialEq, Eq, Debug)]
pub struct WidgetSpec {
    /// Index of the parent entity in the scene list, if any.
    pub parent: Option<usize>,
    /// Layout properties.
    pub layout: Layout,
    /// Background fill, if set.
    pub background: Option<ColorSpec>,
    /// Border colour, if set.
    pub border_color: Option<ColorSpec>,
    /// Whether the border is fully rounded.
    pub border_radius_max: bool,
    /// Whether the node blocks pointer events from the nodes behind it.
    pub focus_policy_block: bool,
    /// Whether the node is a button.
    pub button: bool,
    /// Whether the node tracks pointer interaction even though it is
    /// not a button.
    pub interactive: bool,
    /// The node's role in the update logic.
    pub role: Role,
    /// Text displayed by the node, if any.
    pub text: Option<TextSpec>,
    /// Line-input element attached to the node, if any.
    pub text_input: Option<TextInputSpec>,
    /// Rich-text editor element attached to the node, if any.
    pub cosmic_edit: Option<CosmicEditSpec>,
}

impl WidgetSpec {
    /// A widget with the given parent and no properties set.
    pub open spec fn spec_plain(parent: Option<usize>) -> WidgetSpec {
        WidgetSpec {
            parent: parent,
            layout: Layout::spec_default(),
            background: None,
            border_color: None,
            border_radius_max: false,
            focus_policy_block: false,
            button: false,
            interactive: false,
            role: Role::Plain,
            text: None,
            text_input: None,
            cosmic_edit: None,
        }
    }

    /// Returns a widget with the given parent and no properties set.
    pub fn plain(parent: Option<usize>) -> (w: WidgetSpec)
        ensures
            w == WidgetSpec::spec_plain(parent),
    {
        WidgetSpec {
            parent: parent,
            layout: Default::default(),
            background: None,
            border_color: None,
            border_radius_max: false,
            focus_policy_block: false,
            button: false,
            interactive: false,
            role: Role::Plain,
            text: None,
            text_input: None,
            cosmic_edit: None,
        }
    }
}

/// One entity of a scene: the camera or a widget node.
#[derive(Clone, Copy, PartialEq, Eq, Debug)]
pub enum SceneEntity {
    /// The demo's camera, with an optional clear colour.
    Camera {
        /// Clear colour, if the demo overrides the engine's default.
        clear_color: Option<ColorSpec>,
    },
    /// A widget node.
    Widget(WidgetSpec),
}

/// A scene is well-formed when every widget's parent link points to an
/// earlier entity that is itself a widget: the entities form a forest
/// that the shell can spawn in list order.
pub open spec fn scene_wf(s: Seq<SceneEntity>) -> bool {
    forall|i: int|
        0 <= i < s.len() ==> match #[trigger] s[i] {
            SceneEntity::Widget(w) => match w.parent {
                Some(p) => p < i && s[p as int] is Widget,
                None => true,
            },
            SceneEntity::Camera { .. } => true,
        }
}

} // verus!
