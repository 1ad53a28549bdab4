//! Views: pure data that describes a UI tree.
//!
//! A statically typed tree is any nesting of view types (tuples, options,
//! stacks). A tree whose shape is known only at run time holds its children as
//! `AnyView`s: a view of any of the framework's dynamic view types, tagged with
//! the type key under which backends register an extractor for it.

use vstd::prelude::*;
use vstd::view::View as _;

use crate::elements::{HStack, Spacer, Text, VStack};
use crate::widgets::ButtonView;

verus! {

/// Marker for types that can stand in a UI tree.
pub trait View {}

impl View for () {}

impl<V: View> View for Option<V> {}

impl View for Vec<AnyView> {}

impl<V1: View, V2: View> View for (V1, V2) {}

impl<V1: View, V2: View, V3: View> View for (V1, V2, V3) {}

impl<V1: View, V2: View, V3: View, V4: View> View for (V1, V2, V3, V4) {}

impl<V1: View, V2: View, V3: View, V4: View, V5: View> View for (V1, V2, V3, V4, V5) {}

impl<V1: View, V2: View, V3: View, V4: View, V5: View, V6: View> View for (V1, V2, V3, V4, V5, V6) {}

impl<V1: View, V2: View, V3: View, V4: View, V5: View, V6: View, V7: View> View for (
    V1,
    V2,
    V3,
    V4,
    V5,
    V6,
    V7,
) {}

impl<V1: View, V2: View, V3: View, V4: View, V5: View, V6: View, V7: View, V8: View> View for (
    V1,
    V2,
    V3,
    V4,
    V5,
    V6,
    V7,
    V8,
) {}

impl<
    V1: View,
    V2: View,
    V3: View,
    V4: View,
    V5: View,
    V6: View,
    V7: View,
    V8: View,
    V9: View,
> View for (V1, V2, V3, V4, V5, V6, V7, V8, V9) {}

impl<
    V1: View,
    V2: View,
    V3: View,
    V4: View,
    V5: View,
    V6: View,
    V7: View,
    V8: View,
    V9: View,
    V10: View,
> View for (V1, V2, V3, V4, V5, V6, V7, V8, V9, V10) {}

impl<
    V1: View,
    V2: View,
    V3: View,
    V4: View,
    V5: View,
    V6: View,
    V7: View,
    V8: View,
    V9: View,
    V10: View,
    V11: View,
> View for (V1, V2, V3, V4, V5, V6, V7, V8, V9, V10, V11) {}

impl<
    V1: View,
    V2: View,
    V3: View,
    V4: View,
    V5: View,
    V6: View,
    V7: View,
    V8: View,
    V9: View,
    V10: View,
    V11: View,
    V12: View,
> View for (V1, V2, V3, V4, V5, V6, V7, V8, V9, V10, V11, V12) {}

/// A stable identifier of a dynamic view type: registries are keyed by it.
pub type TypeKey = u64;

/// The key of the empty view `()`.
pub const EMPTY_KEY: TypeKey = 0;

/// The key of `Text`.
pub const TEXT_KEY: TypeKey = 1;

/// The key of `ButtonView`.
pub const BUTTON_VIEW_KEY: TypeKey = 2;

/// The key of `Spacer`.
pub const SPACER_KEY: TypeKey = 3;

/// The key of a dynamic column, `VStack<Vec<AnyView>>`.
pub const DYNAMIC_VSTACK_KEY: TypeKey = 4;

/// The key of a dynamic row, `HStack<Vec<AnyView>>`.
pub const DYNAMIC_HSTACK_KEY: TypeKey = 5;

/// A view of any dynamic view type, held by value: the element type of
/// containers whose children are chosen at run time.
#[derive(Debug, PartialEq)]
pub enum AnyView {
    /// The empty view `()`.
    Empty,
    /// A text.
    Text(Text),
    /// A button's view.
    Button(ButtonView),
    /// A spacer.
    Spacer(Spacer),
    /// A dynamic column.
    VStack(VStack<Vec<AnyView>>),
    /// A dynamic row.
    HStack(HStack<Vec<AnyView>>),
}

impl View for AnyView {}

impl AnyView {
    /// The key of the type of the view held.
    pub open spec fn spec_type_key(self) -> TypeKey {
        match self {
            AnyView::Empty => EMPTY_KEY,
            AnyView::Text(_) => TEXT_KEY,
            AnyView::Button(_) => BUTTON_VIEW_KEY,
            AnyView::Spacer(_) => SPACER_KEY,
            AnyView::VStack(_) => DYNAMIC_VSTACK_KEY,
            AnyView::HStack(_) => DYNAMIC_HSTACK_KEY,
        }
    }

    /// The key of the type of the view held.
    pub fn type_key(&self) -> (k: TypeKey)
        ensures
            k == self.spec_type_key(),
    {
        match self {
            AnyView::Empty => EMPTY_KEY,
            AnyView::Text(_) => TEXT_KEY,
            AnyView::Button(_) => BUTTON_VIEW_KEY,
            AnyView::Spacer(_) => SPACER_KEY,
            AnyView::VStack(_) => DYNAMIC_VSTACK_KEY,
            AnyView::HStack(_) => DYNAMIC_HSTACK_KEY,
        }
    }

    /// The name of the type of the view held.
    pub open spec fn spec_type_label(self) -> &'static str {
        match self {
            AnyView::Empty => "()",
            AnyView::Text(_) => "Text",
            AnyView::Button(_) => "ButtonView",
            AnyView::Spacer(_) => "Spacer",
            AnyView::VStack(_) => "VStack<Vec<AnyView>>",
            AnyView::HStack(_) => "HStack<Vec<AnyView>>",
        }
    }

    /// The children of a dynamic container; nothing for any other view.
    pub open spec fn spec_children(self) -> Seq<AnyView> {
        match self {
            AnyView::VStack(s) => s.content@,
            AnyView::HStack(s) => s.content@,
            _ => Seq::empty(),
        }
    }

    /// The children of a dynamic container; `None` for any other view.
    pub fn children(&self) -> (r: Option<&Vec<AnyView>>)
        ensures
            r matches Some(c) ==> c@ == self.spec_children(),
            r is None ==> self.spec_children() == Seq::<AnyView>::empty(),
            r is Some <==> (self is VStack || self is HStack),
    {
        match self {
            AnyView::VStack(s) => Some(&s.content),
            AnyView::HStack(s) => Some(&s.content),
            _ => None,
        }
    }

    /// The name of the type of the view held.
    pub fn type_label(&self) -> (r: &'static str)
        ensures
            r == self.spec_type_label(),
    {
        match self {
            AnyView::Empty => "()",
            AnyView::Text(_) => "Text",
            AnyView::Button(_) => "ButtonView",
            AnyView::Spacer(_) => "Spacer",
            AnyView::VStack(_) => "VStack<Vec<AnyView>>",
            AnyView::HStack(_) => "HStack<Vec<AnyView>>",
        }
    }
}

/// A view type that can be held in an `AnyView` and recovered from one.
pub trait DynamicView: View + Sized {
    /// The key of this type.
    spec fn spec_type_key() -> TypeKey;

    /// This view held as an `AnyView`.
    spec fn spec_into_any(self) -> AnyView;

    /// The key of this type.
    fn type_key() -> (k: TypeKey)
        ensures
            k == Self::spec_type_key(),
    ;

    /// The name of this type, for diagnostics.
    spec fn spec_type_label() -> &'static str;

    /// The name of this type, for diagnostics.
    fn type_label() -> (r: &'static str)
        ensures
            r == Self::spec_type_label(),
    ;

    /// This view held as an `AnyView`, under this type's key.
    fn into_any(self) -> (r: AnyView)
        ensures
            r == self.spec_into_any(),
            r.spec_type_key() == Self::spec_type_key(),
    ;

    /// The view of this type that `view` holds; `None` when it holds a view
    /// of another type, that is, exactly when its key is another.
    fn downcast_ref(view: &AnyView) -> (r: Option<&Self>)
        ensures
            r is Some <==> view.spec_type_key() == Self::spec_type_key(),
            r matches Some(v) ==> *view == (*v).spec_into_any(),
    ;
}

impl DynamicView for () {
    open spec fn spec_type_key() -> TypeKey {
        EMPTY_KEY
    }

    open spec fn spec_into_any(self) -> AnyView {
        AnyView::Empty
    }

    fn type_key() -> (k: TypeKey) {
        EMPTY_KEY
    }

    open spec fn spec_type_label() -> &'static str {
        "()"
    }

    fn type_label() -> (r: &'static str) {
        "()"
    }

    fn into_any(self) -> (r: AnyView) {
        AnyView::Empty
    }

    fn downcast_ref(view: &AnyView) -> (r: Option<&()>) {
        match view {
            AnyView::Empty => Some(&()),
            _ => None,
        }
    }
}

impl DynamicView for Text {
    open spec fn spec_type_key() -> TypeKey {
        TEXT_KEY
    }

    open spec fn spec_into_any(self) -> AnyView {
        AnyView::Text(self)
    }

    fn type_key() -> (k: TypeKey) {
        TEXT_KEY
    }

    open spec fn spec_type_label() -> &'static str {
        "Text"
    }

    fn type_label() -> (r: &'static str) {
        "Text"
    }

    fn into_any(self) -> (r: AnyView) {
        AnyView::Text(self)
    }

    fn downcast_ref(view: &AnyView) -> (r: Option<&Text>) {
        match view {
            AnyView::Text(v) => Some(v),
            _ => None,
        }
    }
}

impl DynamicView for ButtonView {
    open spec fn spec_type_key() -> TypeKey {
        BUTTON_VIEW_KEY
    }

    open spec fn spec_into_any(self) -> AnyView {
        AnyView::Button(self)
    }

    fn type_key() -> (k: TypeKey) {
        BUTTON_VIEW_KEY
    }

    open spec fn spec_type_label() -> &'static str {
        "ButtonView"
    }

    fn type_label() -> (r: &'static str) {
        "ButtonView"
    }

    fn into_any(self) -> (r: AnyView) {
        AnyView::Button(self)
    }

    fn downcast_ref(view: &AnyView) -> (r: Option<&ButtonView>) {
        match view {
            AnyView::Button(v) => Some(v),
            _ => None,
        }
    }
}

impl DynamicView for Spacer {
    open spec fn spec_type_key() -> TypeKey {
        SPACER_KEY
    }

    open spec fn spec_into_any(self) -> AnyView {
        AnyView::Spacer(self)
    }

    fn type_key() -> (k: TypeKey) {
        SPACER_KEY
    }

    open spec fn spec_type_label() -> &'static str {
        "Spacer"
    }

    fn type_label() -> (r: &'static str) {
        "Spacer"
    }

    fn into_any(self) -> (r: AnyView) {
        AnyView::Spacer(self)
    }

    fn downcast_ref(view: &AnyView) -> (r: Option<&Spacer>) {
        match view {
            AnyView::Spacer(v) => Some(v),
            _ => None,
        }
    }
}

impl DynamicView for VStack<Vec<AnyView>> {
    open spec fn spec_type_key() -> TypeKey {
        DYNAMIC_VSTACK_KEY
    }

    open spec fn spec_into_any(self) -> AnyView {
        AnyView::VStack(self)
    }

    fn type_key() -> (k: TypeKey) {
        DYNAMIC_VSTACK_KEY
    }

    open spec fn spec_type_label() -> &'static str {
        "VStack<Vec<AnyView>>"
    }

    fn type_label() -> (r: &'static str) {
        "VStack<Vec<AnyView>>"
    }

    fn into_any(self) -> (r: AnyView) {
        AnyView::VStack(self)
    }

    fn downcast_ref(view: &AnyView) -> (r: Option<&VStack<Vec<AnyView>>>) {
        match view {
            AnyView::VStack(v) => Some(v),
            _ => None,
        }
    }
}

impl DynamicView for HStack<Vec<AnyView>> {
    open spec fn spec_type_key() -> TypeKey {
        DYNAMIC_HSTACK_KEY
    }

    open spec fn spec_into_any(self) -> AnyView {
        AnyView::HStack(self)
    }

    fn type_key() -> (k: TypeKey) {
        DYNAMIC_HSTACK_KEY
    }

    open spec fn spec_type_label() -> &'static str {
        "HStack<Vec<AnyView>>"
    }

    fn type_label() -> (r: &'static str) {
        "HStack<Vec<AnyView>>"
    }

    fn into_any(self) -> (r: AnyView) {
        AnyView::HStack(self)
    }

    fn downcast_ref(view: &AnyView) -> (r: Option<&HStack<Vec<AnyView>>>) {
        match view {
            AnyView::HStack(v) => Some(v),
            _ => None,
        }
    }
}

} // verus!
