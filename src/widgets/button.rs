//! Buttons: components with text, a background color and interaction state.

use vstd::prelude::*;

use crate::elements::Text;
use crate::interaction::{
    Enableable, Focusable, Hoverable, InteractionMessage, InteractionState, Interactive, Pressable,
};
use crate::message::Message;
use crate::model::{Component, Model};
use crate::style::Color;

verus! {

/// What a button looks like at one moment: its text, background and
/// interaction state.
#[derive(Debug, PartialEq)]
pub struct ButtonView {
    /// The label.
    pub text: Text,
    /// The background color.
    pub background_color: Color,
    /// Whether it is enabled, pressed, focused, hovered.
    pub interaction_state: InteractionState,
}

impl Clone for ButtonView {
    fn clone(&self) -> (r: ButtonView)
        ensures
            r == *self,
    {
        ButtonView {
            text: self.text.clone(),
            background_color: self.background_color,
            interaction_state: self.interaction_state,
        }
    }
}

impl crate::view::View for ButtonView {}

/// What can happen to a button.
#[derive(Clone, Copy, PartialEq, Eq, Debug, Structural)]
pub enum ButtonMessage {
    /// The user clicked the button.
    Clicked,
    /// Its interaction state changed.
    Interaction(InteractionMessage),
}

impl Message for ButtonMessage {}

/// The background of a new button: light gray.
pub open spec fn spec_default_button_background() -> Color {
    Color { r: 230, g: 230, b: 230, a: 255 }
}

/// A button component. Styling is set when it is built; interaction
/// messages change its state.
#[derive(Debug, PartialEq)]
pub struct Button {
    /// The label.
    pub text: Text,
    /// The background color.
    pub background_color: Color,
    /// Enabled, pressed, focused and hovered state.
    pub interactive: Interactive,
}

impl Clone for Button {
    fn clone(&self) -> (r: Button)
        ensures
            r == *self,
    {
        Button {
            text: self.text.clone(),
            background_color: self.background_color,
            interactive: self.interactive,
        }
    }
}

impl Button {
    /// An enabled button with the given label, default text style and a
    /// light gray background.
    pub fn new(text: &str) -> (b: Button)
        ensures
            b.text.content@ == text@,
            b.text.style == crate::style::TextStyle::spec_default(),
            b.background_color == spec_default_button_background(),
            forall|g: crate::interaction::InteractionFlag|
                #[trigger] b.interactive.state.has(g) == (g
                    == crate::interaction::InteractionFlag::Enabled),
    {
        Button {
            text: Text::new(text),
            background_color: Color::rgb(230, 230, 230),
            interactive: Interactive::new(),
        }
    }

    /// This button with the given background color.
    pub fn background_color(self, color: Color) -> (b: Button)
        ensures
            b == (Button { background_color: color, ..self }),
    {
        Button { background_color: color, ..self }
    }

    /// This button with its label transformed by `f`.
    pub fn with_text<F: FnOnce(Text) -> Text>(self, f: F) -> (b: Button)
        requires
            f.requires((self.text,)),
        ensures
            f.ensures((self.text,), b.text),
            b.background_color == self.background_color,
            b.interactive == self.interactive,
    {
        let Button { text, background_color, interactive } = self;
        Button { text: f(text), background_color, interactive }
    }
}

impl Model for Button {
    type Message = ButtonMessage;

    /// A click leaves the button as it is (the parent handles it); an
    /// interaction message updates its interaction state.
    fn update(self, message: ButtonMessage) -> (r: Button)
        ensures
            r == match message {
                ButtonMessage::Clicked => self,
                ButtonMessage::Interaction(m) => Button {
                    interactive: Interactive {
                        state: self.interactive.state.spec_with(m.flag(), m.value()),
                    },
                    ..self
                },
            },
    {
        match message {
            ButtonMessage::Clicked => self,
            ButtonMessage::Interaction(m) => Button {
                interactive: self.interactive.update(m),
                ..self
            },
        }
    }
}

impl Component for Button {
    type View = ButtonView;

    fn view(&self) -> (v: ButtonView)
        ensures
            v.text == self.text,
            v.background_color == self.background_color,
            v.interaction_state == self.interactive.state,
    {
        ButtonView {
            text: self.text.clone(),
            background_color: self.background_color,
            interaction_state: self.interactive.state,
        }
    }
}

impl Enableable for Button {
    open spec fn spec_enabled(&self) -> bool {
        self.interactive.spec_enabled()
    }

    open spec fn spec_with_enabled(self, enabled: bool) -> Button {
        Button { interactive: self.interactive.spec_with_enabled(enabled), ..self }
    }

    fn is_enabled(&self) -> (r: bool) {
        self.interactive.is_enabled()
    }

    fn enable(self) -> (r: Button) {
        Button { interactive: self.interactive.enable(), ..self }
    }

    fn disable(self) -> (r: Button) {
        Button { interactive: self.interactive.disable(), ..self }
    }
}

impl Pressable for Button {
    open spec fn spec_pressed(&self) -> bool {
        self.interactive.spec_pressed()
    }

    open spec fn spec_with_pressed(self, pressed: bool) -> Button {
        Button { interactive: self.interactive.spec_with_pressed(pressed), ..self }
    }

    fn is_pressed(&self) -> (r: bool) {
        self.interactive.is_pressed()
    }

    fn press(self) -> (r: Button) {
        Button { interactive: self.interactive.press(), ..self }
    }

    fn release(self) -> (r: Button) {
        Button { interactive: self.interactive.release(), ..self }
    }
}

impl Focusable for Button {
    open spec fn spec_focused(&self) -> bool {
        self.interactive.spec_focused()
    }

    /// A button can gain focus while it is enabled.
    open spec fn spec_can_receive_focus(&self) -> bool {
        self.interactive.spec_can_receive_focus()
    }

    open spec fn spec_with_focused(self, focused: bool) -> Button {
        Button { interactive: self.interactive.spec_with_focused(focused), ..self }
    }

    fn is_focused(&self) -> (r: bool) {
        self.interactive.is_focused()
    }

    fn can_receive_focus(&self) -> (r: bool) {
        self.interactive.can_receive_focus()
    }

    fn focus(self) -> (r: Button) {
        Button { interactive: self.interactive.focus(), ..self }
    }

    fn unfocus(self) -> (r: Button) {
        Button { interactive: self.interactive.unfocus(), ..self }
    }
}

impl Hoverable for Button {
    open spec fn spec_hovered(&self) -> bool {
        self.interactive.spec_hovered()
    }

    open spec fn spec_with_hovered(self, hovered: bool) -> Button {
        Button { interactive: self.interactive.spec_with_hovered(hovered), ..self }
    }

    fn is_hovered(&self) -> (r: bool) {
        self.interactive.is_hovered()
    }

    fn hover(self) -> (r: Button) {
        Button { interactive: self.interactive.hover(), ..self }
    }

    fn unhover(self) -> (r: Button) {
        Button { interactive: self.interactive.unhover(), ..self }
    }
}

} // verus!
