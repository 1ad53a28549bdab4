//! Interaction state shared by interactive components.
//!
//! `InteractionState` packs the four common interaction flags (enabled,
//! pressed, focused, hovered) into one byte. `Interactive` wraps it as a model
//! driven by `InteractionMessage`s, and the `Enableable`, `Pressable`,
//! `Focusable` and `Hoverable` traits give every component the same
//! by-value API: each transformation returns a new instance.

use vstd::prelude::*;

use crate::message::Message;
use crate::model::{Component, Model};

verus! {

/// One of the interaction flags that an `InteractionState` holds.
#[derive(Clone, Copy, PartialEq, Eq, Debug, Structural)]
pub enum InteractionFlag {
    /// The component accepts user interaction.
    Enabled,
    /// The component is being pressed (mouse down, touch active).
    Pressed,
    /// The component has keyboard focus.
    Focused,
    /// A pointer is over the component.
    Hovered,
}

impl InteractionFlag {
    /// The bit that stands for this flag.
    pub open spec fn spec_mask(self) -> u8 {
        match self {
            InteractionFlag::Enabled => 1u8,
            InteractionFlag::Pressed => 2u8,
            InteractionFlag::Focused => 4u8,
            InteractionFlag::Hovered => 8u8,
        }
    }

    /// The bit that stands for this flag.
    pub fn mask(self) -> (m: u8)
        ensures
            m == self.spec_mask(),
    {
        match self {
            InteractionFlag::Enabled => 1u8,
            InteractionFlag::Pressed => 2u8,
            InteractionFlag::Focused => 4u8,
            InteractionFlag::Hovered => 8u8,
        }
    }
}

/// Setting or clearing one single-bit mask leaves every other single-bit mask
/// as it was.
proof fn lemma_single_bit_update(b: u8, m: u8, n: u8)
    by (bit_vector)
    requires
        m == 1u8 || m == 2u8 || m == 4u8 || m == 8u8,
        n == 1u8 || n == 2u8 || n == 4u8 || n == 8u8,
    ensures
        (b | m) & m != 0,
        (b & !m) & m == 0,
        m != n ==> (((b | m) & n != 0) == (b & n != 0)),
        m != n ==> (((b & !m) & n != 0) == (b & n != 0)),
        (m | n) & n != 0,
        (m | n) & m != 0,
{
}

/// Of the single-bit masks, only `m` itself meets `m`.
proof fn lemma_single_bit_alone(m: u8, n: u8)
    by (bit_vector)
    requires
        m == 1u8 || m == 2u8 || m == 4u8 || m == 8u8,
        n == 1u8 || n == 2u8 || n == 4u8 || n == 8u8,
    ensures
        (m & n != 0) == (m == n),
        (0u8 & n) == 0,
{
}

/// The interaction flags of a component, one bit each.
#[derive(Clone, Copy, PartialEq, Eq, Debug, Structural)]
pub struct InteractionState {
    /// The raw flag bits.
    pub bits: u8,
}

impl InteractionState {
    /// The enabled flag.
    pub const ENABLED: InteractionFlag = InteractionFlag::Enabled;

    /// The pressed flag.
    pub const PRESSED: InteractionFlag = InteractionFlag::Pressed;

    /// The focused flag.
    pub const FOCUSED: InteractionFlag = InteractionFlag::Focused;

    /// The hovered flag.
    pub const HOVERED: InteractionFlag = InteractionFlag::Hovered;

    /// Whether `flag` is set.
    pub open spec fn has(self, flag: InteractionFlag) -> bool {
        self.bits & flag.spec_mask() != 0
    }

    /// This state with `flag` set to `value`.
    pub open spec fn spec_with(self, flag: InteractionFlag, value: bool) -> InteractionState {
        if value {
            InteractionState { bits: self.bits | flag.spec_mask() }
        } else {
            InteractionState { bits: self.bits & !flag.spec_mask() }
        }
    }

    /// Setting one flag changes that flag alone.
    pub proof fn lemma_with(self, flag: InteractionFlag, value: bool)
        ensures
            forall|g: InteractionFlag|
                #[trigger] self.spec_with(flag, value).has(g) == if g == flag {
                    value
                } else {
                    self.has(g)
                },
    {
        assert forall|g: InteractionFlag|
            #[trigger] self.spec_with(flag, value).has(g) == if g == flag {
                value
            } else {
                self.has(g)
            } by {
            lemma_single_bit_update(self.bits, flag.spec_mask(), g.spec_mask());
        }
    }

    /// The state with no flag set.
    pub fn empty() -> (r: InteractionState)
        ensures
            r.bits == 0,
            forall|g: InteractionFlag| !#[trigger] r.has(g),
    {
        let r = InteractionState { bits: 0 };
        assert forall|g: InteractionFlag| !#[trigger] r.has(g) by {
            lemma_single_bit_alone(1u8, g.spec_mask());
        }
        r
    }

    /// The state with `flag` alone set.
    pub fn only(flag: InteractionFlag) -> (r: InteractionState)
        ensures
            r.bits == flag.spec_mask(),
            forall|g: InteractionFlag| #[trigger] r.has(g) == (g == flag),
    {
        let r = InteractionState { bits: flag.mask() };
        assert forall|g: InteractionFlag| #[trigger] r.has(g) == (g == flag) by {
            lemma_single_bit_alone(flag.spec_mask(), g.spec_mask());
        }
        r
    }

    /// The raw flag bits.
    pub fn bits(&self) -> (r: u8)
        ensures
            r == self.bits,
    {
        self.bits
    }

    /// Whether `flag` is set.
    pub fn contains(&self, flag: InteractionFlag) -> (r: bool)
        ensures
            r == self.has(flag),
    {
        self.bits & flag.mask() != 0
    }

    /// This state with `flag` set to `value` and every other flag unchanged.
    pub fn with(self, flag: InteractionFlag, value: bool) -> (r: InteractionState)
        ensures
            r == self.spec_with(flag, value),
            forall|g: InteractionFlag|
                #[trigger] r.has(g) == if g == flag {
                    value
                } else {
                    self.has(g)
                },
    {
        proof {
            self.lemma_with(flag, value);
        }
        if value {
            InteractionState { bits: self.bits | flag.mask() }
        } else {
            InteractionState { bits: self.bits & !flag.mask() }
        }
    }

    /// Sets `flag` to `value`, leaving every other flag unchanged.
    pub fn set(&mut self, flag: InteractionFlag, value: bool)
        ensures
            *final(self) == old(self).spec_with(flag, value),
            forall|g: InteractionFlag|
                #[trigger] final(self).has(g) == if g == flag {
                    value
                } else {
                    old(self).has(g)
                },
    {
        *self = self.with(flag, value);
    }

    /// Sets `flag`.
    pub fn insert(&mut self, flag: InteractionFlag)
        ensures
            *final(self) == old(self).spec_with(flag, true),
            forall|g: InteractionFlag|
                #[trigger] final(self).has(g) == (g == flag || old(self).has(g)),
    {
        self.set(flag, true);
    }

    /// Clears `flag`.
    pub fn remove(&mut self, flag: InteractionFlag)
        ensures
            *final(self) == old(self).spec_with(flag, false),
            forall|g: InteractionFlag|
                #[trigger] final(self).has(g) == (g != flag && old(self).has(g)),
    {
        self.set(flag, false);
    }
}

impl Default for InteractionState {
    /// A fresh component: enabled, and nothing else.
    fn default() -> (r: InteractionState)
        ensures
            r.bits == 1,
            forall|g: InteractionFlag| #[trigger] r.has(g) == (g == InteractionFlag::Enabled),
    {
        InteractionState::only(InteractionFlag::Enabled)
    }
}

impl core::ops::BitOr for InteractionFlag {
    type Output = InteractionState;

    fn bitor(self, rhs: InteractionFlag) -> InteractionState {
        InteractionState { bits: self.mask() | rhs.mask() }
    }
}

impl vstd::std_specs::ops::BitOrSpecImpl for InteractionFlag {
    open spec fn obeys_bitor_spec() -> bool {
        true
    }

    open spec fn bitor_req(self, rhs: InteractionFlag) -> bool {
        true
    }

    open spec fn bitor_spec(self, rhs: InteractionFlag) -> InteractionState {
        InteractionState { bits: self.spec_mask() | rhs.spec_mask() }
    }
}

impl core::ops::BitOr<InteractionFlag> for InteractionState {
    type Output = InteractionState;

    fn bitor(self, rhs: InteractionFlag) -> InteractionState {
        InteractionState { bits: self.bits | rhs.mask() }
    }
}

impl vstd::std_specs::ops::BitOrSpecImpl<InteractionFlag> for InteractionState {
    open spec fn obeys_bitor_spec() -> bool {
        true
    }

    open spec fn bitor_req(self, rhs: InteractionFlag) -> bool {
        true
    }

    open spec fn bitor_spec(self, rhs: InteractionFlag) -> InteractionState {
        self.spec_with(rhs, true)
    }
}

/// Components that can be enabled or disabled.
pub trait Enableable: Sized {
    /// Whether the component accepts user interaction.
    spec fn spec_enabled(&self) -> bool;

    /// This component with its enabled state set to `enabled` and nothing
    /// else changed.
    spec fn spec_with_enabled(self, enabled: bool) -> Self;

    /// Whether the component accepts user interaction.
    fn is_enabled(&self) -> (r: bool)
        ensures
            r == self.spec_enabled(),
    ;

    /// The component, enabled.
    fn enable(self) -> (r: Self)
        ensures
            r == self.spec_with_enabled(true),
            r.spec_enabled(),
    ;

    /// The component, disabled.
    fn disable(self) -> (r: Self)
        ensures
            r == self.spec_with_enabled(false),
            !r.spec_enabled(),
    ;

    /// The component with the given enabled state.
    fn with_enabled(self, enabled: bool) -> (r: Self)
        ensures
            r == self.spec_with_enabled(enabled),
            r.spec_enabled() == enabled,
    {
        if enabled {
            self.enable()
        } else {
            self.disable()
        }
    }
}

/// Components with a pressed state (held down by a pointer or a touch).
pub trait Pressable: Sized {
    /// Whether the component is pressed.
    spec fn spec_pressed(&self) -> bool;

    /// This component with its pressed state set to `pressed` and nothing
    /// else changed.
    spec fn spec_with_pressed(self, pressed: bool) -> Self;

    /// Whether the component is pressed.
    fn is_pressed(&self) -> (r: bool)
        ensures
            r == self.spec_pressed(),
    ;

    /// The component, pressed.
    fn press(self) -> (r: Self)
        ensures
            r == self.spec_with_pressed(true),
            r.spec_pressed(),
    ;

    /// The component, released.
    fn release(self) -> (r: Self)
        ensures
            r == self.spec_with_pressed(false),
            !r.spec_pressed(),
    ;

    /// The component with the given pressed state.
    fn with_pressed(self, pressed: bool) -> (r: Self)
        ensures
            r == self.spec_with_pressed(pressed),
            r.spec_pressed() == pressed,
    {
        if pressed {
            self.press()
        } else {
            self.release()
        }
    }
}

/// Components that can hold keyboard focus.
pub trait Focusable: Sized {
    /// Whether the component has keyboard focus.
    spec fn spec_focused(&self) -> bool;

    /// Whether the component may gain keyboard focus.
    spec fn spec_can_receive_focus(&self) -> bool;

    /// This component with its focus set to `focused` and nothing else
    /// changed.
    spec fn spec_with_focused(self, focused: bool) -> Self;

    /// Whether the component has keyboard focus.
    fn is_focused(&self) -> (r: bool)
        ensures
            r == self.spec_focused(),
    ;

    /// Whether the component may gain keyboard focus.
    fn can_receive_focus(&self) -> (r: bool)
        ensures
            r == self.spec_can_receive_focus(),
    ;

    /// The component, focused.
    fn focus(self) -> (r: Self)
        ensures
            r == self.spec_with_focused(true),
            r.spec_focused(),
    ;

    /// The component, without focus.
    fn unfocus(self) -> (r: Self)
        ensures
            r == self.spec_with_focused(false),
            !r.spec_focused(),
    ;

    /// The component with the given focus state.
    fn with_focused(self, focused: bool) -> (r: Self)
        ensures
            r == self.spec_with_focused(focused),
            r.spec_focused() == focused,
    {
        if focused {
            self.focus()
        } else {
            self.unfocus()
        }
    }
}

/// Components that notice a pointer over them.
pub trait Hoverable: Sized {
    /// Whether a pointer is over the component.
    spec fn spec_hovered(&self) -> bool;

    /// This component with its hover state set to `hovered` and nothing else
    /// changed.
    spec fn spec_with_hovered(self, hovered: bool) -> Self;

    /// Whether a pointer is over the component.
    fn is_hovered(&self) -> (r: bool)
        ensures
            r == self.spec_hovered(),
    ;

    /// The component, hovered.
    fn hover(self) -> (r: Self)
        ensures
            r == self.spec_with_hovered(true),
            r.spec_hovered(),
    ;

    /// The component, not hovered.
    fn unhover(self) -> (r: Self)
        ensures
            r == self.spec_with_hovered(false),
            !r.spec_hovered(),
    ;

    /// The component with the given hover state.
    fn with_hovered(self, hovered: bool) -> (r: Self)
        ensures
            r == self.spec_with_hovered(hovered),
            r.spec_hovered() == hovered,
    {
        if hovered {
            self.hover()
        } else {
            self.unhover()
        }
    }
}

impl Enableable for InteractionState {
    open spec fn spec_enabled(&self) -> bool {
        self.has(InteractionFlag::Enabled)
    }

    open spec fn spec_with_enabled(self, enabled: bool) -> InteractionState {
        self.spec_with(InteractionFlag::Enabled, enabled)
    }

    fn is_enabled(&self) -> (r: bool) {
        self.contains(InteractionFlag::Enabled)
    }

    fn enable(self) -> (r: InteractionState) {
        self.with(InteractionFlag::Enabled, true)
    }

    fn disable(self) -> (r: InteractionState) {
        self.with(InteractionFlag::Enabled, false)
    }
}

impl Pressable for InteractionState {
    open spec fn spec_pressed(&self) -> bool {
        self.has(InteractionFlag::Pressed)
    }

    open spec fn spec_with_pressed(self, pressed: bool) -> InteractionState {
        self.spec_with(InteractionFlag::Pressed, pressed)
    }

    fn is_pressed(&self) -> (r: bool) {
        self.contains(InteractionFlag::Pressed)
    }

    fn press(self) -> (r: InteractionState) {
        self.with(InteractionFlag::Pressed, true)
    }

    fn release(self) -> (r: InteractionState) {
        self.with(InteractionFlag::Pressed, false)
    }
}

impl Focusable for InteractionState {
    open spec fn spec_focused(&self) -> bool {
        self.has(InteractionFlag::Focused)
    }

    /// A state can gain focus while it is enabled.
    open spec fn spec_can_receive_focus(&self) -> bool {
        self.has(InteractionFlag::Enabled)
    }

    open spec fn spec_with_focused(self, focused: bool) -> InteractionState {
        self.spec_with(InteractionFlag::Focused, focused)
    }

    fn is_focused(&self) -> (r: bool) {
        self.contains(InteractionFlag::Focused)
    }

    fn can_receive_focus(&self) -> (r: bool) {
        self.contains(InteractionFlag::Enabled)
    }

    fn focus(self) -> (r: InteractionState) {
        self.with(InteractionFlag::Focused, true)
    }

    fn unfocus(self) -> (r: InteractionState) {
        self.with(InteractionFlag::Focused, false)
    }
}

impl Hoverable for InteractionState {
    open spec fn spec_hovered(&self) -> bool {
        self.has(InteractionFlag::Hovered)
    }

    open spec fn spec_with_hovered(self, hovered: bool) -> InteractionState {
        self.spec_with(InteractionFlag::Hovered, hovered)
    }

    fn is_hovered(&self) -> (r: bool) {
        self.contains(InteractionFlag::Hovered)
    }

    fn hover(self) -> (r: InteractionState) {
        self.with(InteractionFlag::Hovered, true)
    }

    fn unhover(self) -> (r: InteractionState) {
        self.with(InteractionFlag::Hovered, false)
    }
}

/// Messages that change the interaction state of a component.
#[derive(Clone, Copy, PartialEq, Eq, Debug, Structural)]
pub enum InteractionMessage {
    /// The enabled state changed.
    EnabledChanged(bool),
    /// The press state changed (mouse down or up, touch start or end).
    PressStateChanged(bool),
    /// Keyboard focus was gained or lost.
    FocusChanged(bool),
    /// The pointer entered or left the component.
    HoverChanged(bool),
}

impl InteractionMessage {
    /// The flag that this message sets or clears.
    pub open spec fn flag(self) -> InteractionFlag {
        match self {
            InteractionMessage::EnabledChanged(_) => InteractionFlag::Enabled,
            InteractionMessage::PressStateChanged(_) => InteractionFlag::Pressed,
            InteractionMessage::FocusChanged(_) => InteractionFlag::Focused,
            InteractionMessage::HoverChanged(_) => InteractionFlag::Hovered,
        }
    }

    /// The value that this message gives its flag.
    pub open spec fn value(self) -> bool {
        match self {
            InteractionMessage::EnabledChanged(v) => v,
            InteractionMessage::PressStateChanged(v) => v,
            InteractionMessage::FocusChanged(v) => v,
            InteractionMessage::HoverChanged(v) => v,
        }
    }
}

impl Message for InteractionMessage {}

/// The interactive part of a component: its interaction state, as a model of
/// its own. Components embed it to get enabled, pressed, focused and hovered
/// handling.
#[derive(Clone, Copy, PartialEq, Eq, Debug, Structural)]
pub struct Interactive {
    /// The current interaction state.
    pub state: InteractionState,
}

impl Interactive {
    /// A component in the default state: enabled, and nothing else.
    pub fn new() -> (r: Interactive)
        ensures
            forall|g: InteractionFlag| #[trigger] r.state.has(g) == (g == InteractionFlag::Enabled),
    {
        Interactive { state: InteractionState::default() }
    }

    /// A component in the given state.
    pub fn with_state(state: InteractionState) -> (r: Interactive)
        ensures
            r.state == state,
    {
        Interactive { state }
    }
}

impl Default for Interactive {
    fn default() -> (r: Interactive)
        ensures
            forall|g: InteractionFlag| #[trigger] r.state.has(g) == (g == InteractionFlag::Enabled),
    {
        Interactive::new()
    }
}

impl Model for Interactive {
    type Message = InteractionMessage;

    /// Sets the flag that `message` names to the value it carries.
    fn update(self, message: InteractionMessage) -> (r: Interactive)
        ensures
            r.state == self.state.spec_with(message.flag(), message.value()),
            forall|g: InteractionFlag|
                #[trigger] r.state.has(g) == if g == message.flag() {
                    message.value()
                } else {
                    self.state.has(g)
                },
    {
        let mut new_state = self.state;
        match message {
            InteractionMessage::EnabledChanged(enabled) => {
                new_state.set(InteractionFlag::Enabled, enabled);
            },
            InteractionMessage::PressStateChanged(pressed) => {
                new_state.set(InteractionFlag::Pressed, pressed);
            },
            InteractionMessage::FocusChanged(focused) => {
                new_state.set(InteractionFlag::Focused, focused);
            },
            InteractionMessage::HoverChanged(hovered) => {
                new_state.set(InteractionFlag::Hovered, hovered);
            },
        }
        Interactive { state: new_state }
    }
}

impl Component for Interactive {
    /// The interaction state has no look of its own.
    type View = ();

    fn view(&self) {
    }
}

impl Enableable for Interactive {
    open spec fn spec_enabled(&self) -> bool {
        self.state.spec_enabled()
    }

    open spec fn spec_with_enabled(self, enabled: bool) -> Interactive {
        Interactive { state: self.state.spec_with_enabled(enabled) }
    }

    fn is_enabled(&self) -> (r: bool) {
        self.state.is_enabled()
    }

    fn enable(self) -> (r: Interactive) {
        Interactive { state: self.state.enable() }
    }

    fn disable(self) -> (r: Interactive) {
        Interactive { state: self.state.disable() }
    }
}

impl Pressable for Interactive {
    open spec fn spec_pressed(&self) -> bool {
        self.state.spec_pressed()
    }

    open spec fn spec_with_pressed(self, pressed: bool) -> Interactive {
        Interactive { state: self.state.spec_with_pressed(pressed) }
    }

    fn is_pressed(&self) -> (r: bool) {
        self.state.is_pressed()
    }

    fn press(self) -> (r: Interactive) {
        Interactive { state: self.state.press() }
    }

    fn release(self) -> (r: Interactive) {
        Interactive { state: self.state.release() }
    }
}

impl Focusable for Interactive {
    open spec fn spec_focused(&self) -> bool {
        self.state.spec_focused()
    }

    /// A component can gain focus while it is enabled.
    open spec fn spec_can_receive_focus(&self) -> bool {
        self.state.spec_can_receive_focus()
    }

    open spec fn spec_with_focused(self, focused: bool) -> Interactive {
        Interactive { state: self.state.spec_with_focused(focused) }
    }

    fn is_focused(&self) -> (r: bool) {
        self.state.is_focused()
    }

    fn can_receive_focus(&self) -> (r: bool) {
        self.state.can_receive_focus()
    }

    fn focus(self) -> (r: Interactive) {
        Interactive { state: self.state.focus() }
    }

    fn unfocus(self) -> (r: Interactive) {
        Interactive { state: self.state.unfocus() }
    }
}

impl Hoverable for Interactive {
    open spec fn spec_hovered(&self) -> bool {
        self.state.spec_hovered()
    }

    open spec fn spec_with_hovered(self, hovered: bool) -> Interactive {
        Interactive { state: self.state.spec_with_hovered(hovered) }
    }

    fn is_hovered(&self) -> (r: bool) {
        self.state.is_hovered()
    }

    fn hover(self) -> (r: Interactive) {
        Interactive { state: self.state.hover() }
    }

    fn unhover(self) -> (r: Interactive) {
        Interactive { state: self.state.unhover() }
    }
}

} // verus!
