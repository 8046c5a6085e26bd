//! The rich-text input demo: a name and a password editor with a
//! submit button. A press on the button gathers each editor's text
//! spans and reports the text, unless the buffer still starts with its
//! placeholder, in which case the field counts as not provided.

use vstd::prelude::*;
use vstd::slice::slice_to_vec;
use vstd::string::{StrSliceExecFns, StringSliceAdditionalSpecFns};
use crate::color::{ColorSpec, NamedColor};
use crate::interaction::Interaction;
use crate::layout::{AlignItems, FlexDirection, JustifyContent, Layout, Val};
use crate::scene::{
    scene_wf, CosmicEditSpec, FontAsset, FontFamily, Label, Role, SceneEntity, TextContent,
    TextSpec, WidgetSpec,
};

verus! {

/// One rich-text editor of this demo: a 20 point buffer in the
/// "Victor Mono" family, purple text, and a gray placeholder.
pub open spec fn spec_editor(placeholder: Label) -> CosmicEditSpec {
    CosmicEditSpec {
        font_size: 20,
        line_height: 20,
        family: FontFamily::VictorMono,
        text_color: ColorSpec::Rgb8(0x94, 0x00, 0xD3),
        placeholder: placeholder,
        placeholder_color: ColorSpec::Named(NamedColor::Gray),
    }
}

/// Returns this demo's editor element with the given placeholder.
pub fn editor(placeholder: Label) -> (e: CosmicEditSpec)
    ensures
        e == spec_editor(placeholder),
{
    CosmicEditSpec {
        font_size: 20,
        line_height: 20,
        family: FontFamily::VictorMono,
        text_color: ColorSpec::Rgb8(0x94, 0x00, 0xD3),
        placeholder: placeholder,
        placeholder_color: ColorSpec::Named(NamedColor::Gray),
    }
}

/// The layout both editors use: a 200 by 30 pixel box with a 20 pixel
/// margin.
pub open spec fn spec_editor_layout() -> Layout {
    Layout {
        width: Val::Px(200),
        height: Val::Px(30),
        margin: Val::Px(20),
        ..Layout::spec_default()
    }
}

/// The demo's scene: a camera clearing to pink, a black full-screen
/// column, the name and password editors, and the submit button with
/// its caption.
pub open spec fn spec_setup() -> Seq<SceneEntity> {
    seq![
        SceneEntity::Camera { clear_color: Some(ColorSpec::Named(NamedColor::Pink)) },
        SceneEntity::Widget(
            WidgetSpec {
                layout: Layout {
                    width: Val::Percent(100),
                    height: Val::Percent(100),
                    justify_content: JustifyContent::FlexStart,
                    align_items: AlignItems::FlexStart,
                    flex_direction: FlexDirection::Column,
                    ..Layout::spec_default()
                },
                background: Some(ColorSpec::Named(NamedColor::Black)),
                ..WidgetSpec::spec_plain(None)
            },
        ),
        SceneEntity::Widget(
            WidgetSpec {
                layout: spec_editor_layout(),
                cosmic_edit: Some(spec_editor(Label::EnterName)),
                role: Role::NameInput,
                ..WidgetSpec::spec_plain(Some(1))
            },
        ),
        SceneEntity::Widget(
            WidgetSpec {
                layout: spec_editor_layout(),
                cosmic_edit: Some(spec_editor(Label::EnterPassword)),
                role: Role::PasswordInput,
                ..WidgetSpec::spec_plain(Some(1))
            },
        ),
        SceneEntity::Widget(
            WidgetSpec {
                layout: Layout {
                    width: Val::Px(100),
                    height: Val::Px(40),
                    margin: Val::Px(20),
                    justify_content: JustifyContent::Center,
                    align_items: AlignItems::Center,
                    ..Layout::spec_default()
                },
                background: Some(ColorSpec::Named(NamedColor::Blue)),
                button: true,
                role: Role::SubmitButton,
                ..WidgetSpec::spec_plain(Some(1))
            },
        ),
        SceneEntity::Widget(
            WidgetSpec {
                text: Some(
                    TextSpec {
                        content: TextContent::Fixed(Label::Submit),
                        font: FontAsset::Builtin,
                        font_size: 17,
                        color: ColorSpec::Srgb(255000, 255000, 255000),
                    },
                ),
                ..WidgetSpec::spec_plain(Some(4))
            },
        ),
    ]
}

/// Builds the demo's startup scene.
pub fn setup() -> (scene: Vec<SceneEntity>)
    ensures
        scene@ == spec_setup(),
        scene_wf(scene@),
{
    let mut scene: Vec<SceneEntity> = Vec::new();
    scene.push(SceneEntity::Camera { clear_color: Some(ColorSpec::Named(NamedColor::Pink)) });
    scene.push(
        SceneEntity::Widget(
            WidgetSpec {
                layout: Layout {
                    width: Val::Percent(100),
                    height: Val::Percent(100),
                    justify_content: JustifyContent::FlexStart,
                    align_items: AlignItems::FlexStart,
                    flex_direction: FlexDirection::Column,
                    ..Default::default()
                },
                background: Some(ColorSpec::Named(NamedColor::Black)),
                ..WidgetSpec::plain(None)
            },
        ),
    );
    scene.push(
        SceneEntity::Widget(
            WidgetSpec {
                layout: Layout {
                    width: Val::Px(200),
                    height: Val::Px(30),
                    margin: Val::Px(20),
                    ..Default::default()
                },
                cosmic_edit: Some(editor(Label::EnterName)),
                role: Role::NameInput,
                ..WidgetSpec::plain(Some(1))
            },
        ),
    );
    scene.push(
        SceneEntity::Widget(
            WidgetSpec {
                layout: Layout {
                    width: Val::Px(200),
                    height: Val::Px(30),
                    margin: Val::Px(20),
                    ..Default::default()
                },
                cosmic_edit: Some(editor(Label::EnterPassword)),
                role: Role::PasswordInput,
                ..WidgetSpec::plain(Some(1))
            },
        ),
    );
    scene.push(
        SceneEntity::Widget(
            WidgetSpec {
                layout: Layout {
                    width: Val::Px(100),
                    height: Val::Px(40),
                    margin: Val::Px(20),
                    justify_content: JustifyContent::Center,
                    align_items: AlignItems::Center,
                    ..Default::default()
                },
                background: Some(ColorSpec::Named(NamedColor::Blue)),
                button: true,
                role: Role::SubmitButton,
                ..WidgetSpec::plain(Some(1))
            },
        ),
    );
    scene.push(
        SceneEntity::Widget(
            WidgetSpec {
                text: Some(
                    TextSpec {
                        content: TextContent::Fixed(Label::Submit),
                        font: FontAsset::Builtin,
                        font_size: 17,
                        color: ColorSpec::Srgb(255000, 255000, 255000),
                    },
                ),
                ..WidgetSpec::plain(Some(4))
            },
        ),
    );
    proof {
        assert(scene@ =~= spec_setup());
        assert forall|i: int| 0 <= i < scene@.len() implies match #[trigger] scene@[i] {
            SceneEntity::Widget(w) => match w.parent {
                Some(p) => p < i && scene@[p as int] is Widget,
                None => true,
            },
            SceneEntity::Camera { .. } => true,
        } by {
            if 2 <= i <= 4 {
                assert(scene@[1] is Widget);
            } else if i == 5 {
                assert(scene@[4] is Widget);
            }
        }
    }
    scene
}

/// The byte views of a list of byte buffers.
pub open spec fn views(spans: Seq<Vec<u8>>) -> Seq<Seq<u8>> {
    spans.map_values(|v: Vec<u8>| v@)
}

/// The concatenation of the byte sequences of `s` from position `i`
/// on.
pub open spec fn spec_join_from(s: Seq<Seq<u8>>, i: int) -> Seq<u8>
    decreases s.len() - i,
{
    if i < 0 || i >= s.len() {
        Seq::empty()
    } else {
        s[i] + spec_join_from(s, i + 1)
    }
}

/// The concatenation of all the byte sequences of `s`, in order.
pub open spec fn spec_join(s: Seq<Seq<u8>>) -> Seq<u8> {
    spec_join_from(s, 0)
}

/// Concatenates the spans from position `i` on.
fn join_from(spans: &Vec<Vec<u8>>, i: usize) -> (r: Vec<u8>)
    requires
        i <= spans@.len(),
    ensures
        r@ == spec_join_from(views(spans@), i as int),
    decreases spans@.len() - i,
{
    if i == spans.len() {
        Vec::new()
    } else {
        let mut r: Vec<u8> = slice_to_vec(spans[i].as_slice());
        let mut rest = join_from(spans, i + 1);
        proof {
            assert(views(spans@)[i as int] == spans@[i as int]@);
        }
        r.append(&mut rest);
        r
    }
}

/// Concatenates a buffer's text spans into the buffer's full text, in
/// span order.
pub fn join_spans(spans: &Vec<Vec<u8>>) -> (r: Vec<u8>)
    ensures
        r@ == spec_join(views(spans@)),
{
    join_from(spans, 0)
}

/// Whether `text` begins with `prefix`.
pub open spec fn spec_starts_with(text: Seq<u8>, prefix: Seq<u8>) -> bool {
    prefix.len() <= text.len() && text.subrange(0, prefix.len() as int) == prefix
}

/// Returns whether `text` begins with `prefix`.
pub fn starts_with(text: &Vec<u8>, prefix: &Vec<u8>) -> (r: bool)
    ensures
        r == spec_starts_with(text@, prefix@),
{
    if prefix.len() > text.len() {
        return false;
    }
    let mut i: usize = 0;
    while i < prefix.len()
        invariant
            prefix@.len() <= text@.len(),
            i <= prefix@.len(),
            forall|j: int| 0 <= j < i as int ==> text@[j] == prefix@[j],
        decreases prefix@.len() - i,
    {
        if text[i] != prefix[i] {
            return false;
        }
        i = i + 1;
    }
    proof {
        assert(text@.subrange(0, prefix@.len() as int) =~= prefix@);
    }
    true
}

/// What a submit press reports of one editor's text.
#[derive(Clone, PartialEq, Eq, Debug)]
pub enum FieldReport {
    /// The buffer still starts with its placeholder: no input was
    /// provided.
    NotProvided,
    /// The text that was entered.
    Provided(Vec<u8>),
}

/// Whether `report` is the right report for a buffer whose full text
/// is `text` under the given placeholder: not provided when the text
/// still starts with the placeholder, the text itself otherwise.
pub open spec fn spec_field_ok(report: FieldReport, text: Seq<u8>, placeholder: Seq<u8>) -> bool {
    if spec_starts_with(text, placeholder) {
        report is NotProvided
    } else {
        report matches FieldReport::Provided(v) && v@ == text
    }
}

/// Classifies one editor's full text against its placeholder.
pub fn field_report(text: Vec<u8>, placeholder: &Vec<u8>) -> (report: FieldReport)
    ensures
        spec_field_ok(report, text@, placeholder@),
{
    if starts_with(&text, placeholder) {
        FieldReport::NotProvided
    } else {
        FieldReport::Provided(text)
    }
}

/// What one submit press reports: one field report per editor that was
/// found.
#[derive(Clone, PartialEq, Eq, Debug)]
pub struct SubmitOutcome {
    /// The name editor's report, if the editor was found.
    pub name: Option<FieldReport>,
    /// The password editor's report, if the editor was found.
    pub password: Option<FieldReport>,
}

/// Returns the name editor's placeholder as bytes.
pub fn enter_name_bytes() -> (r: Vec<u8>)
    ensures
        r@ == "Enter name".spec_bytes(),
{
    "Enter name".as_bytes_vec()
}

/// Returns the password editor's placeholder as bytes.
pub fn enter_password_bytes() -> (r: Vec<u8>)
    ensures
        r@ == "Enter password".spec_bytes(),
{
    "Enter password".as_bytes_vec()
}

/// Reacts to one changed interaction on the submit button: a press
/// joins each found editor's spans and classifies the text against the
/// editor's placeholder; any other change reports nothing.
pub fn submit_inputs(
    interaction: Interaction,
    name_spans: Option<&Vec<Vec<u8>>>,
    password_spans: Option<&Vec<Vec<u8>>>,
) -> (outcome: Option<SubmitOutcome>)
    ensures
        !(interaction is Pressed) ==> outcome is None,
        interaction is Pressed ==> (outcome matches Some(out) && (match name_spans {
            Some(spans) => out.name matches Some(r) && spec_field_ok(
                r,
                spec_join(views(spans@)),
                "Enter name".spec_bytes(),
            ),
            None => out.name is None,
        }) && (match password_spans {
            Some(spans) => out.password matches Some(r) && spec_field_ok(
                r,
                spec_join(views(spans@)),
                "Enter password".spec_bytes(),
            ),
            None => out.password is None,
        })),
{
    if let Interaction::Pressed = interaction {
        let name = match name_spans {
            Some(spans) => Some(field_report(join_spans(spans), &enter_name_bytes())),
            None => None,
        };
        let password = match password_spans {
            Some(spans) => Some(field_report(join_spans(spans), &enter_password_bytes())),
            None => None,
        };
        Some(SubmitOutcome { name, password })
    } else {
        None
    }
}

} // verus!
