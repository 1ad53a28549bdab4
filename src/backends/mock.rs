//! The mock backend: extracts views into plain data that tests can compare.
//!
//! It supports text, buttons, spacers, options, tuples of 2 to 12 views and
//! stacks, statically; and text, buttons, spacers and dynamic stacks through
//! its registry, each converted into the uniform `MockDynamicChild`.

use vstd::prelude::*;

use crate::elements::{Alignment, HStack, Spacer, Text, VStack};
use crate::extraction::{
    result_model, spec_extract_and_convert, spec_extract_dynamic,
    DynamicExtractor, ExtractionError, ExtractionResult, RenderContext, ViewExtractor,
    ViewRegistry,
};
use crate::interaction::InteractionState;
use crate::style::{Color, TextStyle};
use crate::view::{
    AnyView, DynamicView, TypeKey, BUTTON_VIEW_KEY, DYNAMIC_HSTACK_KEY, DYNAMIC_VSTACK_KEY,
    EMPTY_KEY, SPACER_KEY, TEXT_KEY,
};
use crate::widgets::ButtonView;

verus! {

/// Extracted text.
#[derive(Debug, PartialEq)]
pub struct MockText {
    /// The text.
    pub content: String,
    /// Font size in logical pixels.
    pub font_size: u32,
    /// Text color.
    pub color: Color,
}

impl Clone for MockText {
    fn clone(&self) -> (r: MockText)
        ensures
            r == *self,
    {
        MockText { content: self.content.clone(), font_size: self.font_size, color: self.color }
    }
}

impl DeepView for MockText {
    type V = MockText;

    open spec fn deep_view(&self) -> MockText {
        *self
    }
}

/// Extracted button: what affects how it is drawn.
#[derive(Debug, PartialEq)]
pub struct MockButton {
    /// The label.
    pub text: String,
    /// Background color.
    pub background_color: Color,
    /// Style of the label.
    pub text_style: TextStyle,
    /// Enabled, pressed, focused, hovered.
    pub interaction_state: InteractionState,
}

impl Clone for MockButton {
    fn clone(&self) -> (r: MockButton)
        ensures
            r == *self,
    {
        MockButton {
            text: self.text.clone(),
            background_color: self.background_color,
            text_style: self.text_style,
            interaction_state: self.interaction_state,
        }
    }
}

impl DeepView for MockButton {
    type V = MockButton;

    open spec fn deep_view(&self) -> MockButton {
        *self
    }
}

/// Extracted spacer.
#[derive(Clone, Copy, PartialEq, Eq, Debug, Structural)]
pub struct MockSpacer {
    /// Minimum size in logical pixels.
    pub min_size: u32,
}

impl DeepView for MockSpacer {
    type V = MockSpacer;

    open spec fn deep_view(&self) -> MockSpacer {
        *self
    }
}

/// Extracted column.
#[derive(Clone, Debug, PartialEq)]
pub struct MockVStack<T> {
    /// The extracted children.
    pub content: T,
    /// Horizontal alignment of the children.
    pub alignment: Alignment,
    /// Space between children.
    pub spacing: u32,
}

impl<T: DeepView> DeepView for MockVStack<T> {
    type V = MockVStack<T::V>;

    open spec fn deep_view(&self) -> MockVStack<T::V> {
        MockVStack {
            content: self.content.deep_view(),
            alignment: self.alignment,
            spacing: self.spacing,
        }
    }
}

/// Extracted row.
#[derive(Clone, Debug, PartialEq)]
pub struct MockHStack<T> {
    /// The extracted children.
    pub content: T,
    /// Vertical alignment of the children.
    pub alignment: Alignment,
    /// Space between children.
    pub spacing: u32,
}

impl<T: DeepView> DeepView for MockHStack<T> {
    type V = MockHStack<T::V>;

    open spec fn deep_view(&self) -> MockHStack<T::V> {
        MockHStack {
            content: self.content.deep_view(),
            alignment: self.alignment,
            spacing: self.spacing,
        }
    }
}

/// The uniform output of dynamic extraction: whichever view type produced
/// it, a child of a dynamic container comes out as one of these.
#[derive(Debug, PartialEq)]
pub enum MockDynamicChild {
    /// From a `Text`.
    Text(MockText),
    /// From a `ButtonView`.
    Button(MockButton),
    /// From a `Spacer`.
    Spacer(MockSpacer),
    /// From a dynamic column.
    VStack(MockVStack<Vec<MockDynamicChild>>),
    /// From a dynamic row.
    HStack(MockHStack<Vec<MockDynamicChild>>),
}

/// A `MockDynamicChild` seen structurally, with containers as sequences.
pub enum DynamicChildModel {
    /// From a `Text`.
    Text(MockText),
    /// From a `ButtonView`.
    Button(MockButton),
    /// From a `Spacer`.
    Spacer(MockSpacer),
    /// From a dynamic column.
    VStack(MockVStack<Seq<DynamicChildModel>>),
    /// From a dynamic row.
    HStack(MockHStack<Seq<DynamicChildModel>>),
}

/// The structural picture of a dynamic child.
pub open spec fn child_model(c: MockDynamicChild) -> DynamicChildModel
    decreases c, 1nat,
{
    match c {
        MockDynamicChild::Text(t) => DynamicChildModel::Text(t),
        MockDynamicChild::Button(b) => DynamicChildModel::Button(b),
        MockDynamicChild::Spacer(s) => DynamicChildModel::Spacer(s),
        MockDynamicChild::VStack(s) => DynamicChildModel::VStack(
            MockVStack {
                content: children_model(s.content@),
                alignment: s.alignment,
                spacing: s.spacing,
            },
        ),
        MockDynamicChild::HStack(s) => DynamicChildModel::HStack(
            MockHStack {
                content: children_model(s.content@),
                alignment: s.alignment,
                spacing: s.spacing,
            },
        ),
    }
}

/// The structural pictures of a sequence of dynamic children.
pub open spec fn children_model(cs: Seq<MockDynamicChild>) -> Seq<DynamicChildModel>
    decreases cs, 0nat,
{
    if cs.len() == 0 {
        Seq::empty()
    } else {
        children_model(cs.subrange(0, cs.len() - 1)).push(child_model(cs[cs.len() - 1]))
    }
}

/// The pictures of a sequence of children are the children's pictures, one
/// for one.
proof fn lemma_children_model(cs: Seq<MockDynamicChild>)
    ensures
        children_model(cs) =~= Seq::new(cs.len(), |i: int| child_model(cs[i])),
    decreases cs.len(),
{
    if cs.len() > 0 {
        lemma_children_model(cs.subrange(0, cs.len() - 1));
    }
}

impl DeepView for MockDynamicChild {
    type V = DynamicChildModel;

    open spec fn deep_view(&self) -> DynamicChildModel {
        child_model(*self)
    }
}

/// The mock backend's type-erased output: any output of its registered
/// extractors and converters.
#[derive(Debug, PartialEq)]
pub enum MockOutput {
    /// Extracted text.
    Text(MockText),
    /// Extracted button.
    Button(MockButton),
    /// Extracted spacer.
    Spacer(MockSpacer),
    /// Extracted dynamic column.
    VStack(MockVStack<Vec<MockDynamicChild>>),
    /// Extracted dynamic row.
    HStack(MockHStack<Vec<MockDynamicChild>>),
    /// A converted output.
    Child(MockDynamicChild),
}

/// A `MockOutput` seen structurally.
pub enum MockOutputModel {
    /// Extracted text.
    Text(MockText),
    /// Extracted button.
    Button(MockButton),
    /// Extracted spacer.
    Spacer(MockSpacer),
    /// Extracted dynamic column.
    VStack(MockVStack<Seq<DynamicChildModel>>),
    /// Extracted dynamic row.
    HStack(MockHStack<Seq<DynamicChildModel>>),
    /// A converted output.
    Child(DynamicChildModel),
}

impl DeepView for MockOutput {
    type V = MockOutputModel;

    open spec fn deep_view(&self) -> MockOutputModel {
        match self {
            MockOutput::Text(t) => MockOutputModel::Text(*t),
            MockOutput::Button(b) => MockOutputModel::Button(*b),
            MockOutput::Spacer(s) => MockOutputModel::Spacer(*s),
            MockOutput::VStack(s) => MockOutputModel::VStack(s.deep_view()),
            MockOutput::HStack(s) => MockOutputModel::HStack(s.deep_view()),
            MockOutput::Child(c) => MockOutputModel::Child(c.deep_view()),
        }
    }
}

/// The mock backend. It owns a registry, filled once by `new`, holding an
/// extractor and a converter into `MockDynamicChild` for each of text,
/// buttons, spacers and dynamic stacks.
pub struct MockBackend {
    registry: ViewRegistry,
}

/// What the mock backend makes of a text.
pub open spec fn spec_mock_text(t: Text) -> MockText {
    MockText { content: t.content, font_size: t.style.font_size, color: t.style.color }
}

/// What the mock backend makes of a button's view.
pub open spec fn spec_mock_button(b: ButtonView) -> MockButton {
    MockButton {
        text: b.text.content,
        background_color: b.background_color,
        text_style: b.text.style,
        interaction_state: b.interaction_state,
    }
}

impl ViewExtractor<Text> for MockBackend {
    type Output = MockText;

    open spec fn spec_extract(view: Text, ctx: RenderContext) -> ExtractionResult<MockText> {
        Ok(spec_mock_text(view))
    }

    fn extract(view: &Text, ctx: &RenderContext) -> (r: ExtractionResult<MockText>) {
        Ok(
            MockText {
                content: view.content.clone(),
                font_size: view.style.font_size,
                color: view.style.color,
            },
        )
    }
}

impl ViewExtractor<ButtonView> for MockBackend {
    type Output = MockButton;

    open spec fn spec_extract(view: ButtonView, ctx: RenderContext) -> ExtractionResult<MockButton> {
        Ok(spec_mock_button(view))
    }

    fn extract(view: &ButtonView, ctx: &RenderContext) -> (r: ExtractionResult<MockButton>) {
        Ok(
            MockButton {
                text: view.text.content.clone(),
                background_color: view.background_color,
                text_style: view.text.style,
                interaction_state: view.interaction_state,
            },
        )
    }
}

impl ViewExtractor<Spacer> for MockBackend {
    type Output = MockSpacer;

    open spec fn spec_extract(view: Spacer, ctx: RenderContext) -> ExtractionResult<MockSpacer> {
        Ok(MockSpacer { min_size: view.min_size })
    }

    fn extract(view: &Spacer, ctx: &RenderContext) -> (r: ExtractionResult<MockSpacer>) {
        Ok(MockSpacer { min_size: view.min_size })
    }
}

/// An optional view extracts to `None` when absent, and to its view's
/// output when present.
impl<V: crate::view::View> ViewExtractor<Option<V>> for MockBackend where Self: ViewExtractor<V> {
    type Output = Option<<Self as ViewExtractor<V>>::Output>;

    open spec fn spec_extract(view: Option<V>, ctx: RenderContext) -> ExtractionResult<
        <Self::Output as DeepView>::V,
    > {
        match view {
            None => Ok(None),
            Some(v) => match <Self as ViewExtractor<V>>::spec_extract(v, ctx) {
                Ok(o) => Ok(Some(o)),
                Err(e) => Err(e),
            },
        }
    }

    fn extract(view: &Option<V>, ctx: &RenderContext) -> (r: ExtractionResult<Self::Output>) {
        match view {
            None => Ok(None),
            Some(v) => {
                let o = Self::extract(v, ctx)?;
                Ok(Some(o))
            },
        }
    }
}

/// A column with statically typed content extracts its content and copies
/// alignment and spacing.
impl<T: crate::view::View> ViewExtractor<VStack<T>> for MockBackend where Self: ViewExtractor<T> {
    type Output = MockVStack<<Self as ViewExtractor<T>>::Output>;

    open spec fn spec_extract(view: VStack<T>, ctx: RenderContext) -> ExtractionResult<
        <Self::Output as DeepView>::V,
    > {
        match <Self as ViewExtractor<T>>::spec_extract(view.content, ctx) {
            Ok(c) => Ok(MockVStack { content: c, alignment: view.alignment, spacing: view.spacing }),
            Err(e) => Err(e),
        }
    }

    fn extract(view: &VStack<T>, ctx: &RenderContext) -> (r: ExtractionResult<Self::Output>) {
        let content = Self::extract(&view.content, ctx)?;
        Ok(MockVStack { content, alignment: view.alignment, spacing: view.spacing })
    }
}

/// A row with statically typed content extracts its content and copies
/// alignment and spacing.
impl<T: crate::view::View> ViewExtractor<HStack<T>> for MockBackend where Self: ViewExtractor<T> {
    type Output = MockHStack<<Self as ViewExtractor<T>>::Output>;

    open spec fn spec_extract(view: HStack<T>, ctx: RenderContext) -> ExtractionResult<
        <Self::Output as DeepView>::V,
    > {
        match <Self as ViewExtractor<T>>::spec_extract(view.content, ctx) {
            Ok(c) => Ok(MockHStack { content: c, alignment: view.alignment, spacing: view.spacing }),
            Err(e) => Err(e),
        }
    }

    fn extract(view: &HStack<T>, ctx: &RenderContext) -> (r: ExtractionResult<Self::Output>) {
        let content = Self::extract(&view.content, ctx)?;
        Ok(MockHStack { content, alignment: view.alignment, spacing: view.spacing })
    }
}

/// A tuple of 2 views extracts to the tuple of its elements' outputs,
/// failing with the first element's error.
impl<
    V1: crate::view::View,
    V2: crate::view::View,
> ViewExtractor<(V1, V2)> for MockBackend where Self: ViewExtractor<V1> + ViewExtractor<V2> {
    type Output = (
        <Self as ViewExtractor<V1>>::Output,
        <Self as ViewExtractor<V2>>::Output,
    );

    open spec fn spec_extract(view: (V1, V2), ctx: RenderContext) -> ExtractionResult<
        <Self::Output as DeepView>::V,
    > {
        let r1 = <Self as ViewExtractor<V1>>::spec_extract(view.0, ctx);
        let r2 = <Self as ViewExtractor<V2>>::spec_extract(view.1, ctx);
        if r1 is Err {
            Err(r1->Err_0)
        } else if r2 is Err {
            Err(r2->Err_0)
        } else {
            Ok((r1->Ok_0, r2->Ok_0))
        }
    }

    fn extract(view: &(V1, V2), ctx: &RenderContext) -> (r: ExtractionResult<Self::Output>) {
        Ok(
            (
                Self::extract(&view.0, ctx)?,
                Self::extract(&view.1, ctx)?,
            ),
        )
    }
}

/// A tuple of 3 views extracts to the tuple of its elements' outputs,
/// failing with the first element's error.
impl<
    V1: crate::view::View,
    V2: crate::view::View,
    V3: crate::view::View,
> ViewExtractor<(V1, V2, V3)> for MockBackend where Self: ViewExtractor<V1> + ViewExtractor<V2> + ViewExtractor<V3> {
    type Output = (
        <Self as ViewExtractor<V1>>::Output,
        <Self as ViewExtractor<V2>>::Output,
        <Self as ViewExtractor<V3>>::Output,
    );

    open spec fn spec_extract(view: (V1, V2, V3), ctx: RenderContext) -> ExtractionResult<
        <Self::Output as DeepView>::V,
    > {
        let r1 = <Self as ViewExtractor<V1>>::spec_extract(view.0, ctx);
        let r2 = <Self as ViewExtractor<V2>>::spec_extract(view.1, ctx);
        let r3 = <Self as ViewExtractor<V3>>::spec_extract(view.2, ctx);
        if r1 is Err {
            Err(r1->Err_0)
        } else if r2 is Err {
            Err(r2->Err_0)
        } else if r3 is Err {
            Err(r3->Err_0)
        } else {
            Ok((r1->Ok_0, r2->Ok_0, r3->Ok_0))
        }
    }

    fn extract(view: &(V1, V2, V3), ctx: &RenderContext) -> (r: ExtractionResult<Self::Output>) {
        Ok(
            (
                Self::extract(&view.0, ctx)?,
                Self::extract(&view.1, ctx)?,
                Self::extract(&view.2, ctx)?,
            ),
        )
    }
}

/// A tuple of 4 views extracts to the tuple of its elements' outputs,
/// failing with the first element's error.
impl<
    V1: crate::view::View,
    V2: crate::view::View,
    V3: crate::view::View,
    V4: crate::view::View,
> ViewExtractor<(V1, V2, V3, V4)> for MockBackend where Self: ViewExtractor<V1> + ViewExtractor<V2> + ViewExtractor<V3> + ViewExtractor<V4> {
    type Output = (
        <Self as ViewExtractor<V1>>::Output,
        <Self as ViewExtractor<V2>>::Output,
        <Self as ViewExtractor<V3>>::Output,
        <Self as ViewExtractor<V4>>::Output,
    );

    open spec fn spec_extract(view: (V1, V2, V3, V4), ctx: RenderContext) -> ExtractionResult<
        <Self::Output as DeepView>::V,
    > {
        let r1 = <Self as ViewExtractor<V1>>::spec_extract(view.0, ctx);
        let r2 = <Self as ViewExtractor<V2>>::spec_extract(view.1, ctx);
        let r3 = <Self as ViewExtractor<V3>>::spec_extract(view.2, ctx);
        let r4 = <Self as ViewExtractor<V4>>::spec_extract(view.3, ctx);
        if r1 is Err {
            Err(r1->Err_0)
        } else if r2 is Err {
            Err(r2->Err_0)
        } else if r3 is Err {
            Err(r3->Err_0)
        } else if r4 is Err {
            Err(r4->Err_0)
        } else {
            Ok((r1->Ok_0, r2->Ok_0, r3->Ok_0, r4->Ok_0))
        }
    }

    fn extract(view: &(V1, V2, V3, V4), ctx: &RenderContext) -> (r: ExtractionResult<Self::Output>) {
        Ok(
            (
                Self::extract(&view.0, ctx)?,
                Self::extract(&view.1, ctx)?,
                Self::extract(&view.2, ctx)?,
                Self::extract(&view.3, ctx)?,
            ),
        )
    }
}

/// A tuple of 5 views extracts to the tuple of its elements' outputs,
/// failing with the first element's error.
impl<
    V1: crate::view::View,
    V2: crate::view::View,
    V3: crate::view::View,
    V4: crate::view::View,
    V5: crate::view::View,
> ViewExtractor<(V1, V2, V3, V4, V5)> for MockBackend where Self: ViewExtractor<V1> + ViewExtractor<V2> + ViewExtractor<V3> + ViewExtractor<V4> + ViewExtractor<V5> {
    type Output = (
        <Self as ViewExtractor<V1>>::Output,
        <Self as ViewExtractor<V2>>::Output,
        <Self as ViewExtractor<V3>>::Output,
        <Self as ViewExtractor<V4>>::Output,
        <Self as ViewExtractor<V5>>::Output,
    );

    open spec fn spec_extract(view: (V1, V2, V3, V4, V5), ctx: RenderContext) -> ExtractionResult<
        <Self::Output as DeepView>::V,
    > {
        let r1 = <Self as ViewExtractor<V1>>::spec_extract(view.0, ctx);
        let r2 = <Self as ViewExtractor<V2>>::spec_extract(view.1, ctx);
        let r3 = <Self as ViewExtractor<V3>>::spec_extract(view.2, ctx);
        let r4 = <Self as ViewExtractor<V4>>::spec_extract(view.3, ctx);
        let r5 = <Self as ViewExtractor<V5>>::spec_extract(view.4, ctx);
        if r1 is Err {
            Err(r1->Err_0)
        } else if r2 is Err {
            Err(r2->Err_0)
        } else if r3 is Err {
            Err(r3->Err_0)
        } else if r4 is Err {
            Err(r4->Err_0)
        } else if r5 is Err {
            Err(r5->Err_0)
        } else {
            Ok((r1->Ok_0, r2->Ok_0, r3->Ok_0, r4->Ok_0, r5->Ok_0))
        }
    }

    fn extract(view: &(V1, V2, V3, V4, V5), ctx: &RenderContext) -> (r: ExtractionResult<Self::Output>) {
        Ok(
            (
                Self::extract(&view.0, ctx)?,
                Self::extract(&view.1, ctx)?,
                Self::extract(&view.2, ctx)?,
                Self::extract(&view.3, ctx)?,
                Self::extract(&view.4, ctx)?,
            ),
        )
    }
}

/// A tuple of 6 views extracts to the tuple of its elements' outputs,
/// failing with the first element's error.
impl<
    V1: crate::view::View,
    V2: crate::view::View,
    V3: crate::view::View,
    V4: crate::view::View,
    V5: crate::view::View,
    V6: crate::view::View,
> ViewExtractor<(V1, V2, V3, V4, V5, V6)> for MockBackend where Self: ViewExtractor<V1> + ViewExtractor<V2> + ViewExtractor<V3> + ViewExtractor<V4> + ViewExtractor<V5> + ViewExtractor<V6> {
    type Output = (
        <Self as ViewExtractor<V1>>::Output,
        <Self as ViewExtractor<V2>>::Output,
        <Self as ViewExtractor<V3>>::Output,
        <Self as ViewExtractor<V4>>::Output,
        <Self as ViewExtractor<V5>>::Output,
        <Self as ViewExtractor<V6>>::Output,
    );

    open spec fn spec_extract(view: (V1, V2, V3, V4, V5, V6), ctx: RenderContext) -> ExtractionResult<
        <Self::Output as DeepView>::V,
    > {
        let r1 = <Self as ViewExtractor<V1>>::spec_extract(view.0, ctx);
        let r2 = <Self as ViewExtractor<V2>>::spec_extract(view.1, ctx);
        let r3 = <Self as ViewExtractor<V3>>::spec_extract(view.2, ctx);
        let r4 = <Self as ViewExtractor<V4>>::spec_extract(view.3, ctx);
        let r5 = <Self as ViewExtractor<V5>>::spec_extract(view.4, ctx);
        let r6 = <Self as ViewExtractor<V6>>::spec_extract(view.5, ctx);
        if r1 is Err {
            Err(r1->Err_0)
        } else if r2 is Err {
            Err(r2->Err_0)
        } else if r3 is Err {
            Err(r3->Err_0)
        } else if r4 is Err {
            Err(r4->Err_0)
        } else if r5 is Err {
            Err(r5->Err_0)
        } else if r6 is Err {
            Err(r6->Err_0)
        } else {
            Ok((r1->Ok_0, r2->Ok_0, r3->Ok_0, r4->Ok_0, r5->Ok_0, r6->Ok_0))
        }
    }

    fn extract(view: &(V1, V2, V3, V4, V5, V6), ctx: &RenderContext) -> (r: ExtractionResult<Self::Output>) {
        Ok(
            (
                Self::extract(&view.0, ctx)?,
                Self::extract(&view.1, ctx)?,
                Self::extract(&view.2, ctx)?,
                Self::extract(&view.3, ctx)?,
                Self::extract(&view.4, ctx)?,
                Self::extract(&view.5, ctx)?,
            ),
        )
    }
}

/// A tuple of 7 views extracts to the tuple of its elements' outputs,
/// failing with the first element's error.
impl<
    V1: crate::view::View,
    V2: crate::view::View,
    V3: crate::view::View,
    V4: crate::view::View,
    V5: crate::view::View,
    V6: crate::view::View,
    V7: crate::view::View,
> ViewExtractor<(V1, V2, V3, V4, V5, V6, V7)> for MockBackend where Self: ViewExtractor<V1> + ViewExtractor<V2> + ViewExtractor<V3> + ViewExtractor<V4> + ViewExtractor<V5> + ViewExtractor<V6> + ViewExtractor<V7> {
    type Output = (
        <Self as ViewExtractor<V1>>::Output,
        <Self as ViewExtractor<V2>>::Output,
        <Self as ViewExtractor<V3>>::Output,
        <Self as ViewExtractor<V4>>::Output,
        <Self as ViewExtractor<V5>>::Output,
        <Self as ViewExtractor<V6>>::Output,
        <Self as ViewExtractor<V7>>::Output,
    );

    open spec fn spec_extract(view: (V1, V2, V3, V4, V5, V6, V7), ctx: RenderContext) -> ExtractionResult<
        <Self::Output as DeepView>::V,
    > {
        let r1 = <Self as ViewExtractor<V1>>::spec_extract(view.0, ctx);
        let r2 = <Self as ViewExtractor<V2>>::spec_extract(view.1, ctx);
        let r3 = <Self as ViewExtractor<V3>>::spec_extract(view.2, ctx);
        let r4 = <Self as ViewExtractor<V4>>::spec_extract(view.3, ctx);
        let r5 = <Self as ViewExtractor<V5>>::spec_extract(view.4, ctx);
        let r6 = <Self as ViewExtractor<V6>>::spec_extract(view.5, ctx);
        let r7 = <Self as ViewExtractor<V7>>::spec_extract(view.6, ctx);
        if r1 is Err {
            Err(r1->Err_0)
        } else if r2 is Err {
            Err(r2->Err_0)
        } else if r3 is Err {
            Err(r3->Err_0)
        } else if r4 is Err {
            Err(r4->Err_0)
        } else if r5 is Err {
            Err(r5->Err_0)
        } else if r6 is Err {
            Err(r6->Err_0)
        } else if r7 is Err {
            Err(r7->Err_0)
        } else {
            Ok((r1->Ok_0, r2->Ok_0, r3->Ok_0, r4->Ok_0, r5->Ok_0, r6->Ok_0, r7->Ok_0))
        }
    }

    fn extract(view: &(V1, V2, V3, V4, V5, V6, V7), ctx: &RenderContext) -> (r: ExtractionResult<Self::Output>) {
        Ok(
            (
                Self::extract(&view.0, ctx)?,
                Self::extract(&view.1, ctx)?,
                Self::extract(&view.2, ctx)?,
                Self::extract(&view.3, ctx)?,
                Self::extract(&view.4, ctx)?,
                Self::extract(&view.5, ctx)?,
                Self::extract(&view.6, ctx)?,
            ),
        )
    }
}

/// A tuple of 8 views extracts to the tuple of its elements' outputs,
/// failing with the first element's error.
impl<
    V1: crate::view::View,
    V2: crate::view::View,
    V3: crate::view::View,
    V4: crate::view::View,
    V5: crate::view::View,
    V6: crate::view::View,
    V7: crate::view::View,
    V8: crate::view::View,
> ViewExtractor<(V1, V2, V3, V4, V5, V6, V7, V8)> for MockBackend where Self: ViewExtractor<V1> + ViewExtractor<V2> + ViewExtractor<V3> + ViewExtractor<V4> + ViewExtractor<V5> + ViewExtractor<V6> + ViewExtractor<V7> + ViewExtractor<V8> {
    type Output = (
        <Self as ViewExtractor<V1>>::Output,
        <Self as ViewExtractor<V2>>::Output,
        <Self as ViewExtractor<V3>>::Output,
        <Self as ViewExtractor<V4>>::Output,
        <Self as ViewExtractor<V5>>::Output,
        <Self as ViewExtractor<V6>>::Output,
        <Self as ViewExtractor<V7>>::Output,
        <Self as ViewExtractor<V8>>::Output,
    );

    open spec fn spec_extract(view: (V1, V2, V3, V4, V5, V6, V7, V8), ctx: RenderContext) -> ExtractionResult<
        <Self::Output as DeepView>::V,
    > {
        let r1 = <Self as ViewExtractor<V1>>::spec_extract(view.0, ctx);
        let r2 = <Self as ViewExtractor<V2>>::spec_extract(view.1, ctx);
        let r3 = <Self as ViewExtractor<V3>>::spec_extract(view.2, ctx);
        let r4 = <Self as ViewExtractor<V4>>::spec_extract(view.3, ctx);
        let r5 = <Self as ViewExtractor<V5>>::spec_extract(view.4, ctx);
        let r6 = <Self as ViewExtractor<V6>>::spec_extract(view.5, ctx);
        let r7 = <Self as ViewExtractor<V7>>::spec_extract(view.6, ctx);
        let r8 = <Self as ViewExtractor<V8>>::spec_extract(view.7, ctx);
        if r1 is Err {
            Err(r1->Err_0)
        } else if r2 is Err {
            Err(r2->Err_0)
        } else if r3 is Err {
            Err(r3->Err_0)
        } else if r4 is Err {
            Err(r4->Err_0)
        } else if r5 is Err {
            Err(r5->Err_0)
        } else if r6 is Err {
            Err(r6->Err_0)
        } else if r7 is Err {
            Err(r7->Err_0)
        } else if r8 is Err {
            Err(r8->Err_0)
        } else {
            Ok((r1->Ok_0, r2->Ok_0, r3->Ok_0, r4->Ok_0, r5->Ok_0, r6->Ok_0, r7->Ok_0, r8->Ok_0))
        }
    }

    fn extract(view: &(V1, V2, V3, V4, V5, V6, V7, V8), ctx: &RenderContext) -> (r: ExtractionResult<Self::Output>) {
        Ok(
            (
                Self::extract(&view.0, ctx)?,
                Self::extract(&view.1, ctx)?,
                Self::extract(&view.2, ctx)?,
                Self::extract(&view.3, ctx)?,
                Self::extract(&view.4, ctx)?,
                Self::extract(&view.5, ctx)?,
                Self::extract(&view.6, ctx)?,
                Self::extract(&view.7, ctx)?,
            ),
        )
    }
}

/// A tuple of 9 views extracts to the tuple of its elements' outputs,
/// failing with the first element's error.
impl<
    V1: crate::view::View,
    V2: crate::view::View,
    V3: crate::view::View,
    V4: crate::view::View,
    V5: crate::view::View,
    V6: crate::view::View,
    V7: crate::view::View,
    V8: crate::view::View,
    V9: crate::view::View,
> ViewExtractor<(V1, V2, V3, V4, V5, V6, V7, V8, V9)> for MockBackend where Self: ViewExtractor<V1> + ViewExtractor<V2> + ViewExtractor<V3> + ViewExtractor<V4> + ViewExtractor<V5> + ViewExtractor<V6> + ViewExtractor<V7> + ViewExtractor<V8> + ViewExtractor<V9> {
    type Output = (
        <Self as ViewExtractor<V1>>::Output,
        <Self as ViewExtractor<V2>>::Output,
        <Self as ViewExtractor<V3>>::Output,
        <Self as ViewExtractor<V4>>::Output,
        <Self as ViewExtractor<V5>>::Output,
        <Self as ViewExtractor<V6>>::Output,
        <Self as ViewExtractor<V7>>::Output,
        <Self as ViewExtractor<V8>>::Output,
        <Self as ViewExtractor<V9>>::Output,
    );

    open spec fn spec_extract(view: (V1, V2, V3, V4, V5, V6, V7, V8, V9), ctx: RenderContext) -> ExtractionResult<
        <Self::Output as DeepView>::V,
    > {
        let r1 = <Self as ViewExtractor<V1>>::spec_extract(view.0, ctx);
        let r2 = <Self as ViewExtractor<V2>>::spec_extract(view.1, ctx);
        let r3 = <Self as ViewExtractor<V3>>::spec_extract(view.2, ctx);
        let r4 = <Self as ViewExtractor<V4>>::spec_extract(view.3, ctx);
        let r5 = <Self as ViewExtractor<V5>>::spec_extract(view.4, ctx);
        let r6 = <Self as ViewExtractor<V6>>::spec_extract(view.5, ctx);
        let r7 = <Self as ViewExtractor<V7>>::spec_extract(view.6, ctx);
        let r8 = <Self as ViewExtractor<V8>>::spec_extract(view.7, ctx);
        let r9 = <Self as ViewExtractor<V9>>::spec_extract(view.8, ctx);
        if r1 is Err {
            Err(r1->Err_0)
        } else if r2 is Err {
            Err(r2->Err_0)
        } else if r3 is Err {
            Err(r3->Err_0)
        } else if r4 is Err {
            Err(r4->Err_0)
        } else if r5 is Err {
            Err(r5->Err_0)
        } else if r6 is Err {
            Err(r6->Err_0)
        } else if r7 is Err {
            Err(r7->Err_0)
        } else if r8 is Err {
            Err(r8->Err_0)
        } else if r9 is Err {
            Err(r9->Err_0)
        } else {
            Ok((r1->Ok_0, r2->Ok_0, r3->Ok_0, r4->Ok_0, r5->Ok_0, r6->Ok_0, r7->Ok_0, r8->Ok_0, r9->Ok_0))
        }
    }

    fn extract(view: &(V1, V2, V3, V4, V5, V6, V7, V8, V9), ctx: &RenderContext) -> (r: ExtractionResult<Self::Output>) {
        Ok(
            (
                Self::extract(&view.0, ctx)?,
                Self::extract(&view.1, ctx)?,
                Self::extract(&view.2, ctx)?,
                Self::extract(&view.3, ctx)?,
                Self::extract(&view.4, ctx)?,
                Self::extract(&view.5, ctx)?,
                Self::extract(&view.6, ctx)?,
                Self::extract(&view.7, ctx)?,
                Self::extract(&view.8, ctx)?,
            ),
        )
    }
}

/// A tuple of 10 views extracts to the tuple of its elements' outputs,
/// failing with the first element's error.
impl<
    V1: crate::view::View,
    V2: crate::view::View,
    V3: crate::view::View,
    V4: crate::view::View,
    V5: crate::view::View,
    V6: crate::view::View,
    V7: crate::view::View,
    V8: crate::view::View,
    V9: crate::view::View,
    V10: crate::view::View,
> ViewExtractor<(V1, V2, V3, V4, V5, V6, V7, V8, V9, V10)> for MockBackend where Self: ViewExtractor<V1> + ViewExtractor<V2> + ViewExtractor<V3> + ViewExtractor<V4> + ViewExtractor<V5> + ViewExtractor<V6> + ViewExtractor<V7> + ViewExtractor<V8> + ViewExtractor<V9> + ViewExtractor<V10> {
    type Output = (
        <Self as ViewExtractor<V1>>::Output,
        <Self as ViewExtractor<V2>>::Output,
        <Self as ViewExtractor<V3>>::Output,
        <Self as ViewExtractor<V4>>::Output,
        <Self as ViewExtractor<V5>>::Output,
        <Self as ViewExtractor<V6>>::Output,
        <Self as ViewExtractor<V7>>::Output,
        <Self as ViewExtractor<V8>>::Output,
        <Self as ViewExtractor<V9>>::Output,
        <Self as ViewExtractor<V10>>::Output,
    );

    open spec fn spec_extract(view: (V1, V2, V3, V4, V5, V6, V7, V8, V9, V10), ctx: RenderContext) -> ExtractionResult<
        <Self::Output as DeepView>::V,
    > {
        let r1 = <Self as ViewExtractor<V1>>::spec_extract(view.0, ctx);
        let r2 = <Self as ViewExtractor<V2>>::spec_extract(view.1, ctx);
        let r3 = <Self as ViewExtractor<V3>>::spec_extract(view.2, ctx);
        let r4 = <Self as ViewExtractor<V4>>::spec_extract(view.3, ctx);
        let r5 = <Self as ViewExtractor<V5>>::spec_extract(view.4, ctx);
        let r6 = <Self as ViewExtractor<V6>>::spec_extract(view.5, ctx);
        let r7 = <Self as ViewExtractor<V7>>::spec_extract(view.6, ctx);
        let r8 = <Self as ViewExtractor<V8>>::spec_extract(view.7, ctx);
        let r9 = <Self as ViewExtractor<V9>>::spec_extract(view.8, ctx);
        let r10 = <Self as ViewExtractor<V10>>::spec_extract(view.9, ctx);
        if r1 is Err {
            Err(r1->Err_0)
        } else if r2 is Err {
            Err(r2->Err_0)
        } else if r3 is Err {
            Err(r3->Err_0)
        } else if r4 is Err {
            Err(r4->Err_0)
        } else if r5 is Err {
            Err(r5->Err_0)
        } else if r6 is Err {
            Err(r6->Err_0)
        } else if r7 is Err {
            Err(r7->Err_0)
        } else if r8 is Err {
            Err(r8->Err_0)
        } else if r9 is Err {
            Err(r9->Err_0)
        } else if r10 is Err {
            Err(r10->Err_0)
        } else {
            Ok((r1->Ok_0, r2->Ok_0, r3->Ok_0, r4->Ok_0, r5->Ok_0, r6->Ok_0, r7->Ok_0, r8->Ok_0, r9->Ok_0, r10->Ok_0))
        }
    }

    fn extract(view: &(V1, V2, V3, V4, V5, V6, V7, V8, V9, V10), ctx: &RenderContext) -> (r: ExtractionResult<Self::Output>) {
        Ok(
            (
                Self::extract(&view.0, ctx)?,
                Self::extract(&view.1, ctx)?,
                Self::extract(&view.2, ctx)?,
                Self::extract(&view.3, ctx)?,
                Self::extract(&view.4, ctx)?,
                Self::extract(&view.5, ctx)?,
                Self::extract(&view.6, ctx)?,
                Self::extract(&view.7, ctx)?,
                Self::extract(&view.8, ctx)?,
                Self::extract(&view.9, ctx)?,
            ),
        )
    }
}

/// A tuple of 11 views extracts to the tuple of its elements' outputs,
/// failing with the first element's error.
impl<
    V1: crate::view::View,
    V2: crate::view::View,
    V3: crate::view::View,
    V4: crate::view::View,
    V5: crate::view::View,
    V6: crate::view::View,
    V7: crate::view::View,
    V8: crate::view::View,
    V9: crate::view::View,
    V10: crate::view::View,
    V11: crate::view::View,
> ViewExtractor<(V1, V2, V3, V4, V5, V6, V7, V8, V9, V10, V11)> for MockBackend where Self: ViewExtractor<V1> + ViewExtractor<V2> + ViewExtractor<V3> + ViewExtractor<V4> + ViewExtractor<V5> + ViewExtractor<V6> + ViewExtractor<V7> + ViewExtractor<V8> + ViewExtractor<V9> + ViewExtractor<V10> + ViewExtractor<V11> {
    type Output = (
        <Self as ViewExtractor<V1>>::Output,
        <Self as ViewExtractor<V2>>::Output,
        <Self as ViewExtractor<V3>>::Output,
        <Self as ViewExtractor<V4>>::Output,
        <Self as ViewExtractor<V5>>::Output,
        <Self as ViewExtractor<V6>>::Output,
        <Self as ViewExtractor<V7>>::Output,
        <Self as ViewExtractor<V8>>::Output,
        <Self as ViewExtractor<V9>>::Output,
        <Self as ViewExtractor<V10>>::Output,
        <Self as ViewExtractor<V11>>::Output,
    );

    open spec fn spec_extract(view: (V1, V2, V3, V4, V5, V6, V7, V8, V9, V10, V11), ctx: RenderContext) -> ExtractionResult<
        <Self::Output as DeepView>::V,
    > {
        let r1 = <Self as ViewExtractor<V1>>::spec_extract(view.0, ctx);
        let r2 = <Self as ViewExtractor<V2>>::spec_extract(view.1, ctx);
        let r3 = <Self as ViewExtractor<V3>>::spec_extract(view.2, ctx);
        let r4 = <Self as ViewExtractor<V4>>::spec_extract(view.3, ctx);
        let r5 = <Self as ViewExtractor<V5>>::spec_extract(view.4, ctx);
        let r6 = <Self as ViewExtractor<V6>>::spec_extract(view.5, ctx);
        let r7 = <Self as ViewExtractor<V7>>::spec_extract(view.6, ctx);
        let r8 = <Self as ViewExtractor<V8>>::spec_extract(view.7, ctx);
        let r9 = <Self as ViewExtractor<V9>>::spec_extract(view.8, ctx);
        let r10 = <Self as ViewExtractor<V10>>::spec_extract(view.9, ctx);
        let r11 = <Self as ViewExtractor<V11>>::spec_extract(view.10, ctx);
        if r1 is Err {
            Err(r1->Err_0)
        } else if r2 is Err {
            Err(r2->Err_0)
        } else if r3 is Err {
            Err(r3->Err_0)
        } else if r4 is Err {
            Err(r4->Err_0)
        } else if r5 is Err {
            Err(r5->Err_0)
        } else if r6 is Err {
            Err(r6->Err_0)
        } else if r7 is Err {
            Err(r7->Err_0)
        } else if r8 is Err {
            Err(r8->Err_0)
        } else if r9 is Err {
            Err(r9->Err_0)
        } else if r10 is Err {
            Err(r10->Err_0)
        } else if r11 is Err {
            Err(r11->Err_0)
        } else {
            Ok((r1->Ok_0, r2->Ok_0, r3->Ok_0, r4->Ok_0, r5->Ok_0, r6->Ok_0, r7->Ok_0, r8->Ok_0, r9->Ok_0, r10->Ok_0, r11->Ok_0))
        }
    }

    fn extract(view: &(V1, V2, V3, V4, V5, V6, V7, V8, V9, V10, V11), ctx: &RenderContext) -> (r: ExtractionResult<Self::Output>) {
        Ok(
            (
                Self::extract(&view.0, ctx)?,
                Self::extract(&view.1, ctx)?,
                Self::extract(&view.2, ctx)?,
                Self::extract(&view.3, ctx)?,
                Self::extract(&view.4, ctx)?,
                Self::extract(&view.5, ctx)?,
                Self::extract(&view.6, ctx)?,
                Self::extract(&view.7, ctx)?,
                Self::extract(&view.8, ctx)?,
                Self::extract(&view.9, ctx)?,
                Self::extract(&view.10, ctx)?,
            ),
        )
    }
}

/// A tuple of 12 views extracts to the tuple of its elements' outputs,
/// failing with the first element's error.
impl<
    V1: crate::view::View,
    V2: crate::view::View,
    V3: crate::view::View,
    V4: crate::view::View,
    V5: crate::view::View,
    V6: crate::view::View,
    V7: crate::view::View,
    V8: crate::view::View,
    V9: crate::view::View,
    V10: crate::view::View,
    V11: crate::view::View,
    V12: crate::view::View,
> ViewExtractor<(V1, V2, V3, V4, V5, V6, V7, V8, V9, V10, V11, V12)> for MockBackend where Self: ViewExtractor<V1> + ViewExtractor<V2> + ViewExtractor<V3> + ViewExtractor<V4> + ViewExtractor<V5> + ViewExtractor<V6> + ViewExtractor<V7> + ViewExtractor<V8> + ViewExtractor<V9> + ViewExtractor<V10> + ViewExtractor<V11> + ViewExtractor<V12> {
    type Output = (
        <Self as ViewExtractor<V1>>::Output,
        <Self as ViewExtractor<V2>>::Output,
        <Self as ViewExtractor<V3>>::Output,
        <Self as ViewExtractor<V4>>::Output,
        <Self as ViewExtractor<V5>>::Output,
        <Self as ViewExtractor<V6>>::Output,
        <Self as ViewExtractor<V7>>::Output,
        <Self as ViewExtractor<V8>>::Output,
        <Self as ViewExtractor<V9>>::Output,
        <Self as ViewExtractor<V10>>::Output,
        <Self as ViewExtractor<V11>>::Output,
        <Self as ViewExtractor<V12>>::Output,
    );

    open spec fn spec_extract(view: (V1, V2, V3, V4, V5, V6, V7, V8, V9, V10, V11, V12), ctx: RenderContext) -> ExtractionResult<
        <Self::Output as DeepView>::V,
    > {
        let r1 = <Self as ViewExtractor<V1>>::spec_extract(view.0, ctx);
        let r2 = <Self as ViewExtractor<V2>>::spec_extract(view.1, ctx);
        let r3 = <Self as ViewExtractor<V3>>::spec_extract(view.2, ctx);
        let r4 = <Self as ViewExtractor<V4>>::spec_extract(view.3, ctx);
        let r5 = <Self as ViewExtractor<V5>>::spec_extract(view.4, ctx);
        let r6 = <Self as ViewExtractor<V6>>::spec_extract(view.5, ctx);
        let r7 = <Self as ViewExtractor<V7>>::spec_extract(view.6, ctx);
        let r8 = <Self as ViewExtractor<V8>>::spec_extract(view.7, ctx);
        let r9 = <Self as ViewExtractor<V9>>::spec_extract(view.8, ctx);
        let r10 = <Self as ViewExtractor<V10>>::spec_extract(view.9, ctx);
        let r11 = <Self as ViewExtractor<V11>>::spec_extract(view.10, ctx);
        let r12 = <Self as ViewExtractor<V12>>::spec_extract(view.11, ctx);
        if r1 is Err {
            Err(r1->Err_0)
        } else if r2 is Err {
            Err(r2->Err_0)
        } else if r3 is Err {
            Err(r3->Err_0)
        } else if r4 is Err {
            Err(r4->Err_0)
        } else if r5 is Err {
            Err(r5->Err_0)
        } else if r6 is Err {
            Err(r6->Err_0)
        } else if r7 is Err {
            Err(r7->Err_0)
        } else if r8 is Err {
            Err(r8->Err_0)
        } else if r9 is Err {
            Err(r9->Err_0)
        } else if r10 is Err {
            Err(r10->Err_0)
        } else if r11 is Err {
            Err(r11->Err_0)
        } else if r12 is Err {
            Err(r12->Err_0)
        } else {
            Ok((r1->Ok_0, r2->Ok_0, r3->Ok_0, r4->Ok_0, r5->Ok_0, r6->Ok_0, r7->Ok_0, r8->Ok_0, r9->Ok_0, r10->Ok_0, r11->Ok_0, r12->Ok_0))
        }
    }

    fn extract(view: &(V1, V2, V3, V4, V5, V6, V7, V8, V9, V10, V11, V12), ctx: &RenderContext) -> (r: ExtractionResult<Self::Output>) {
        Ok(
            (
                Self::extract(&view.0, ctx)?,
                Self::extract(&view.1, ctx)?,
                Self::extract(&view.2, ctx)?,
                Self::extract(&view.3, ctx)?,
                Self::extract(&view.4, ctx)?,
                Self::extract(&view.5, ctx)?,
                Self::extract(&view.6, ctx)?,
                Self::extract(&view.7, ctx)?,
                Self::extract(&view.8, ctx)?,
                Self::extract(&view.9, ctx)?,
                Self::extract(&view.10, ctx)?,
                Self::extract(&view.11, ctx)?,
            ),
        )
    }
}

/// The keys of the view types the mock backend registers, each with an
/// extractor and a converter.
pub open spec fn mock_keys() -> Set<TypeKey> {
    set![TEXT_KEY, BUTTON_VIEW_KEY, SPACER_KEY, DYNAMIC_VSTACK_KEY, DYNAMIC_HSTACK_KEY]
}

/// What the mock backend makes of a view met in a dynamic tree: the empty
/// view is not registered; leaves give their extracted output, and dynamic
/// stacks the outputs of their children, in order, or the first child's
/// error.
pub open spec fn spec_mock_child(view: AnyView, ctx: RenderContext) -> ExtractionResult<
    DynamicChildModel,
>
    decreases view, 1nat,
{
    match view {
        AnyView::Empty => Err(
            ExtractionError::UnregisteredType { type_label: view.spec_type_label(), type_id: EMPTY_KEY },
        ),
        AnyView::Text(t) => Ok(DynamicChildModel::Text(spec_mock_text(t))),
        AnyView::Button(b) => Ok(DynamicChildModel::Button(spec_mock_button(b))),
        AnyView::Spacer(s) => Ok(DynamicChildModel::Spacer(MockSpacer { min_size: s.min_size })),
        AnyView::VStack(s) => match spec_mock_children(s.content@, ctx) {
            Ok(cs) => Ok(
                DynamicChildModel::VStack(
                    MockVStack { content: cs, alignment: s.alignment, spacing: s.spacing },
                ),
            ),
            Err(e) => Err(e),
        },
        AnyView::HStack(s) => match spec_mock_children(s.content@, ctx) {
            Ok(cs) => Ok(
                DynamicChildModel::HStack(
                    MockHStack { content: cs, alignment: s.alignment, spacing: s.spacing },
                ),
            ),
            Err(e) => Err(e),
        },
    }
}

/// What the mock backend makes of the children of a dynamic container: each
/// child's output in order, or the first error.
pub open spec fn spec_mock_children(views: Seq<AnyView>, ctx: RenderContext) -> ExtractionResult<
    Seq<DynamicChildModel>,
>
    decreases views, 0nat,
{
    if views.len() == 0 {
        Ok(Seq::empty())
    } else {
        match spec_mock_children(views.subrange(0, views.len() - 1), ctx) {
            Ok(cs) => match spec_mock_child(views[views.len() - 1], ctx) {
                Ok(c) => Ok(cs.push(c)),
                Err(e) => Err(e),
            },
            Err(e) => Err(e),
        }
    }
}

/// Extracts a view met in a dynamic tree the way a freshly built mock
/// backend does, whatever registry the caller uses.
fn extract_child_directly(view: &AnyView, ctx: &RenderContext) -> (r: ExtractionResult<
    MockDynamicChild,
>)
    ensures
        result_model(r) == spec_mock_child(*view, *ctx),
    decreases *view, 1nat,
{
    match view {
        AnyView::Empty => Err(
            ExtractionError::UnregisteredType { type_label: view.type_label(), type_id: EMPTY_KEY },
        ),
        AnyView::Text(t) => {
            let o = <MockBackend as ViewExtractor<Text>>::extract(t, ctx)?;
            Ok(MockDynamicChild::Text(o))
        },
        AnyView::Button(b) => {
            let o = <MockBackend as ViewExtractor<ButtonView>>::extract(b, ctx)?;
            Ok(MockDynamicChild::Button(o))
        },
        AnyView::Spacer(s) => {
            let o = <MockBackend as ViewExtractor<Spacer>>::extract(s, ctx)?;
            Ok(MockDynamicChild::Spacer(o))
        },
        AnyView::VStack(s) => {
            let content = extract_children_directly(view, &s.content, ctx)?;
            proof {
                lemma_children_model(content@);
                assert(children_model(content@) =~= content.deep_view());
            }
            Ok(
                MockDynamicChild::VStack(
                    MockVStack { content, alignment: s.alignment, spacing: s.spacing },
                ),
            )
        },
        AnyView::HStack(s) => {
            let content = extract_children_directly(view, &s.content, ctx)?;
            proof {
                lemma_children_model(content@);
                assert(children_model(content@) =~= content.deep_view());
            }
            Ok(
                MockDynamicChild::HStack(
                    MockHStack { content, alignment: s.alignment, spacing: s.spacing },
                ),
            )
        },
    }
}

/// Extracts the children of the dynamic container `parent` the way a
/// freshly built mock backend does, in order, stopping at the first error.
fn extract_children_directly(
    parent: &AnyView,
    content: &Vec<AnyView>,
    ctx: &RenderContext,
) -> (r: ExtractionResult<Vec<MockDynamicChild>>)
    requires
        parent.spec_children() == content@,
        parent is VStack || parent is HStack,
    ensures
        result_model(r) == spec_mock_children(content@, *ctx),
    decreases *parent, 0nat,
{
    let mut out: Vec<MockDynamicChild> = Vec::new();
    let mut i: usize = 0;
    proof {
        assert(out.deep_view() =~= Seq::empty());
        assert(content@.subrange(0, 0) =~= Seq::<AnyView>::empty());
    }
    while i < content.len()
        invariant
            0 <= i <= content.len(),
            parent.spec_children() == content@,
            parent is VStack || parent is HStack,
            spec_mock_children(content@.subrange(0, i as int), *ctx) == Ok::<_, ExtractionError>(
                out.deep_view(),
            ),
        decreases content.len() - i,
    {
        proof {
            assert(decreases_to!(*parent => content@[i as int]));
        }
        let c = extract_child_directly(&content[i], ctx);
        let ghost prefix = content@.subrange(0, i as int + 1);
        proof {
            assert(prefix.subrange(0, i as int) =~= content@.subrange(0, i as int));
            assert(prefix[i as int] == content@[i as int]);
        }
        match c {
            Ok(c) => {
                let ghost before = out.deep_view();
                out.push(c);
                proof {
                    assert(out.deep_view() =~= before.push(c.deep_view()));
                }
                i = i + 1;
            },
            Err(e) => {
                proof {
                    lemma_mock_children_error_prefix(content@, i as int + 1, *ctx);
                }
                return Err(e);
            },
        }
    }
    proof {
        assert(content@.subrange(0, content@.len() as int) =~= content@);
    }
    Ok(out)
}

impl DynamicExtractor for MockBackend {
    type Erased = MockOutput;

    /// Leaves are extracted by their static extractors; a dynamic stack's
    /// children are extracted as a freshly built mock backend extracts them,
    /// whatever the calling registry holds.
    open spec fn spec_extract_erased(key: TypeKey, view: AnyView, ctx: RenderContext) -> ExtractionResult<
        MockOutputModel,
    > {
        if key == TEXT_KEY {
            match view {
                AnyView::Text(t) => match <MockBackend as ViewExtractor<Text>>::spec_extract(t, ctx) {
                    Ok(o) => Ok(MockOutputModel::Text(o)),
                    Err(e) => Err(e),
                },
                _ => Err(
                    ExtractionError::DowncastFailed {
                        expected_type: <Text as DynamicView>::spec_type_label(),
                        actual_type_id: view.spec_type_key(),
                    },
                ),
            }
        } else if key == BUTTON_VIEW_KEY {
            match view {
                AnyView::Button(b) => match <MockBackend as ViewExtractor<ButtonView>>::spec_extract(
                    b,
                    ctx,
                ) {
                    Ok(o) => Ok(MockOutputModel::Button(o)),
                    Err(e) => Err(e),
                },
                _ => Err(
                    ExtractionError::DowncastFailed {
                        expected_type: <ButtonView as DynamicView>::spec_type_label(),
                        actual_type_id: view.spec_type_key(),
                    },
                ),
            }
        } else if key == SPACER_KEY {
            match view {
                AnyView::Spacer(s) => match <MockBackend as ViewExtractor<Spacer>>::spec_extract(s, ctx) {
                    Ok(o) => Ok(MockOutputModel::Spacer(o)),
                    Err(e) => Err(e),
                },
                _ => Err(
                    ExtractionError::DowncastFailed {
                        expected_type: <Spacer as DynamicView>::spec_type_label(),
                        actual_type_id: view.spec_type_key(),
                    },
                ),
            }
        } else if key == DYNAMIC_VSTACK_KEY {
            match view {
                AnyView::VStack(s) => match <MockBackend as ViewExtractor<
                    VStack<Vec<AnyView>>,
                >>::spec_extract(s, ctx) {
                    Ok(o) => Ok(MockOutputModel::VStack(o)),
                    Err(e) => Err(e),
                },
                _ => Err(
                    ExtractionError::DowncastFailed {
                        expected_type: <VStack<Vec<AnyView>> as DynamicView>::spec_type_label(),
                        actual_type_id: view.spec_type_key(),
                    },
                ),
            }
        } else if key == DYNAMIC_HSTACK_KEY {
            match view {
                AnyView::HStack(s) => match <MockBackend as ViewExtractor<
                    HStack<Vec<AnyView>>,
                >>::spec_extract(s, ctx) {
                    Ok(o) => Ok(MockOutputModel::HStack(o)),
                    Err(e) => Err(e),
                },
                _ => Err(
                    ExtractionError::DowncastFailed {
                        expected_type: <HStack<Vec<AnyView>> as DynamicView>::spec_type_label(),
                        actual_type_id: view.spec_type_key(),
                    },
                ),
            }
        } else {
            Err(ExtractionError::UnregisteredType { type_label: view.spec_type_label(), type_id: key })
        }
    }

    fn extract_erased(key: TypeKey, view: &AnyView, ctx: &RenderContext) -> (r: ExtractionResult<
        MockOutput,
    >) {
        if key == TEXT_KEY {
            match <Text as DynamicView>::downcast_ref(view) {
                Some(t) => {
                    let o = <MockBackend as ViewExtractor<Text>>::extract(t, ctx)?;
                    Ok(MockOutput::Text(o))
                },
                None => Err(
                    ExtractionError::DowncastFailed {
                        expected_type: <Text as DynamicView>::type_label(),
                        actual_type_id: view.type_key(),
                    },
                ),
            }
        } else if key == BUTTON_VIEW_KEY {
            match <ButtonView as DynamicView>::downcast_ref(view) {
                Some(b) => {
                    let o = <MockBackend as ViewExtractor<ButtonView>>::extract(b, ctx)?;
                    Ok(MockOutput::Button(o))
                },
                None => Err(
                    ExtractionError::DowncastFailed {
                        expected_type: <ButtonView as DynamicView>::type_label(),
                        actual_type_id: view.type_key(),
                    },
                ),
            }
        } else if key == SPACER_KEY {
            match <Spacer as DynamicView>::downcast_ref(view) {
                Some(s) => {
                    let o = <MockBackend as ViewExtractor<Spacer>>::extract(s, ctx)?;
                    Ok(MockOutput::Spacer(o))
                },
                None => Err(
                    ExtractionError::DowncastFailed {
                        expected_type: <Spacer as DynamicView>::type_label(),
                        actual_type_id: view.type_key(),
                    },
                ),
            }
        } else if key == DYNAMIC_VSTACK_KEY {
            match <VStack<Vec<AnyView>> as DynamicView>::downcast_ref(view) {
                Some(s) => {
                    proof {
                        law_mock_children_fail_only_on_unregistered(s.content@, *ctx);
                    }
                    let content = extract_children_directly(view, &s.content, ctx)?;
                    Ok(MockOutput::VStack(MockVStack { content, alignment: s.alignment, spacing: s.spacing }))
                },
                None => Err(
                    ExtractionError::DowncastFailed {
                        expected_type: <VStack<Vec<AnyView>> as DynamicView>::type_label(),
                        actual_type_id: view.type_key(),
                    },
                ),
            }
        } else if key == DYNAMIC_HSTACK_KEY {
            match <HStack<Vec<AnyView>> as DynamicView>::downcast_ref(view) {
                Some(s) => {
                    proof {
                        law_mock_children_fail_only_on_unregistered(s.content@, *ctx);
                    }
                    let content = extract_children_directly(view, &s.content, ctx)?;
                    Ok(MockOutput::HStack(MockHStack { content, alignment: s.alignment, spacing: s.spacing }))
                },
                None => Err(
                    ExtractionError::DowncastFailed {
                        expected_type: <HStack<Vec<AnyView>> as DynamicView>::type_label(),
                        actual_type_id: view.type_key(),
                    },
                ),
            }
        } else {
            Err(ExtractionError::UnregisteredType { type_label: view.type_label(), type_id: key })
        }
    }

    open spec fn spec_convert_erased(key: TypeKey, output: MockOutputModel) -> ExtractionResult<
        MockOutputModel,
    > {
        if key == TEXT_KEY {
            match output {
                MockOutputModel::Text(t) => Ok(MockOutputModel::Child(DynamicChildModel::Text(t))),
                _ => Err(ExtractionError::OutputDowncastFailed { expected_type: "MockText" }),
            }
        } else if key == BUTTON_VIEW_KEY {
            match output {
                MockOutputModel::Button(b) => Ok(MockOutputModel::Child(DynamicChildModel::Button(b))),
                _ => Err(ExtractionError::OutputDowncastFailed { expected_type: "MockButton" }),
            }
        } else if key == SPACER_KEY {
            match output {
                MockOutputModel::Spacer(s) => Ok(MockOutputModel::Child(DynamicChildModel::Spacer(s))),
                _ => Err(ExtractionError::OutputDowncastFailed { expected_type: "MockSpacer" }),
            }
        } else if key == DYNAMIC_VSTACK_KEY {
            match output {
                MockOutputModel::VStack(s) => Ok(MockOutputModel::Child(DynamicChildModel::VStack(s))),
                _ => Err(
                    ExtractionError::OutputDowncastFailed {
                        expected_type: "MockVStack<Vec<MockDynamicChild>>",
                    },
                ),
            }
        } else if key == DYNAMIC_HSTACK_KEY {
            match output {
                MockOutputModel::HStack(s) => Ok(MockOutputModel::Child(DynamicChildModel::HStack(s))),
                _ => Err(
                    ExtractionError::OutputDowncastFailed {
                        expected_type: "MockHStack<Vec<MockDynamicChild>>",
                    },
                ),
            }
        } else {
            Ok(output)
        }
    }

    fn convert_erased(key: TypeKey, output: MockOutput) -> (r: ExtractionResult<MockOutput>) {
        if key == TEXT_KEY {
            match output {
                MockOutput::Text(t) => Ok(MockOutput::Child(MockDynamicChild::Text(t))),
                _ => Err(ExtractionError::OutputDowncastFailed { expected_type: "MockText" }),
            }
        } else if key == BUTTON_VIEW_KEY {
            match output {
                MockOutput::Button(b) => Ok(MockOutput::Child(MockDynamicChild::Button(b))),
                _ => Err(ExtractionError::OutputDowncastFailed { expected_type: "MockButton" }),
            }
        } else if key == SPACER_KEY {
            match output {
                MockOutput::Spacer(s) => Ok(MockOutput::Child(MockDynamicChild::Spacer(s))),
                _ => Err(ExtractionError::OutputDowncastFailed { expected_type: "MockSpacer" }),
            }
        } else if key == DYNAMIC_VSTACK_KEY {
            match output {
                MockOutput::VStack(s) => {
                    proof {
                        lemma_children_model(s.content@);
                        assert(children_model(s.content@) =~= s.content.deep_view());
                    }
                    Ok(MockOutput::Child(MockDynamicChild::VStack(s)))
                },
                _ => Err(
                    ExtractionError::OutputDowncastFailed {
                        expected_type: "MockVStack<Vec<MockDynamicChild>>",
                    },
                ),
            }
        } else if key == DYNAMIC_HSTACK_KEY {
            match output {
                MockOutput::HStack(s) => {
                    proof {
                        lemma_children_model(s.content@);
                        assert(children_model(s.content@) =~= s.content.deep_view());
                    }
                    Ok(MockOutput::Child(MockDynamicChild::HStack(s)))
                },
                _ => Err(
                    ExtractionError::OutputDowncastFailed {
                        expected_type: "MockHStack<Vec<MockDynamicChild>>",
                    },
                ),
            }
        } else {
            Ok(output)
        }
    }
}

/// A dynamic child's result, as the registry sees it once converted.
pub open spec fn lift_child(r: ExtractionResult<DynamicChildModel>) -> ExtractionResult<
    MockOutputModel,
> {
    match r {
        Ok(c) => Ok(MockOutputModel::Child(c)),
        Err(e) => Err(e),
    }
}

/// Through the mock backend's registry, extracting and converting a view
/// gives exactly `spec_mock_child`.
proof fn lemma_mock_child(view: AnyView, ctx: RenderContext)
    ensures
        spec_extract_and_convert::<MockBackend>(mock_keys(), mock_keys(), view, ctx) == lift_child(
            spec_mock_child(view, ctx),
        ),
{
}

/// Once a prefix of the children fails, the children fail with that error.
proof fn lemma_mock_children_error_prefix(views: Seq<AnyView>, n: int, ctx: RenderContext)
    requires
        0 <= n <= views.len(),
        spec_mock_children(views.subrange(0, n), ctx) is Err,
    ensures
        spec_mock_children(views, ctx) == spec_mock_children(views.subrange(0, n), ctx),
    decreases views.len() - n,
{
    if n == views.len() {
        assert(views.subrange(0, n) =~= views);
    } else {
        let prefix = views.subrange(0, views.len() - 1);
        assert(prefix.subrange(0, n) =~= views.subrange(0, n));
        lemma_mock_children_error_prefix(prefix, n, ctx);
    }
}

impl MockBackend {
    /// The registry holds an extractor and a converter for each of the mock
    /// backend's view types, and nothing else.
    #[verifier::type_invariant]
    spec fn inv(self) -> bool {
        &&& self.registry.registered() == mock_keys()
        &&& self.registry.converted() == mock_keys()
    }

    /// The keys of the view types with a registered extractor.
    pub closed spec fn registered(self) -> Set<TypeKey> {
        self.registry.registered()
    }

    /// The keys of the view types with a registered converter.
    pub closed spec fn converted(self) -> Set<TypeKey> {
        self.registry.converted()
    }

    /// A mock backend whose registry holds an extractor and a converter into
    /// `MockDynamicChild` for text, buttons, spacers and dynamic stacks.
    pub fn new() -> (b: MockBackend)
        ensures
            b.registered() == mock_keys(),
            b.converted() == mock_keys(),
    {
        let mut registry = ViewRegistry::new();
        registry.register::<Text, MockBackend>();
        registry.register::<ButtonView, MockBackend>();
        registry.register::<Spacer, MockBackend>();
        registry.register::<VStack<Vec<AnyView>>, MockBackend>();
        registry.register::<HStack<Vec<AnyView>>, MockBackend>();
        registry.register_converter::<Text>();
        registry.register_converter::<ButtonView>();
        registry.register_converter::<Spacer>();
        registry.register_converter::<VStack<Vec<AnyView>>>();
        registry.register_converter::<HStack<Vec<AnyView>>>();
        proof {
            assert(registry.registered() =~= mock_keys());
            assert(registry.converted() =~= mock_keys());
        }
        MockBackend { registry }
    }

    /// Extracts `view`, whose type is known only at run time, through the
    /// registry, and takes the converted output as a `MockDynamicChild`.
    pub fn extract_dynamic(&self, view: &AnyView, ctx: &RenderContext) -> (r: ExtractionResult<
        MockDynamicChild,
    >)
        ensures
            result_model(r) == spec_mock_child(*view, *ctx),
    {
        proof {
            use_type_invariant(self);
            lemma_mock_child(*view, *ctx);
        }
        let converted = self.registry.extract_and_convert::<MockBackend>(view, ctx)?;
        match converted {
            MockOutput::Child(c) => Ok(c),
            _ => Err(ExtractionError::OutputDowncastFailed { expected_type: "MockDynamicChild" }),
        }
    }
}

impl Default for MockBackend {
    fn default() -> (b: MockBackend)
        ensures
            b.registered() == mock_keys(),
            b.converted() == mock_keys(),
    {
        MockBackend::new()
    }
}

impl MockDynamicChild {
    /// Extracts `view` into a `MockDynamicChild` with `backend`'s registry.
    pub fn extract_from_view_with_backend(
        view: &AnyView,
        context: &RenderContext,
        backend: &MockBackend,
    ) -> (r: ExtractionResult<MockDynamicChild>)
        ensures
            result_model(r) == spec_mock_child(*view, *context),
    {
        backend.extract_dynamic(view, context)
    }
}

/// Extracts each of `children` with `backend`, in order, stopping at the
/// first error.
fn extract_dynamic_children(
    backend: &MockBackend,
    children: &Vec<AnyView>,
    ctx: &RenderContext,
) -> (r: ExtractionResult<Vec<MockDynamicChild>>)
    ensures
        result_model(r) == spec_mock_children(children@, *ctx),
{
    let mut out: Vec<MockDynamicChild> = Vec::new();
    let mut i: usize = 0;
    proof {
        assert(out.deep_view() =~= Seq::empty());
        assert(children@.subrange(0, 0) =~= Seq::<AnyView>::empty());
    }
    while i < children.len()
        invariant
            0 <= i <= children.len(),
            spec_mock_children(children@.subrange(0, i as int), *ctx) == Ok::<_, ExtractionError>(
                out.deep_view(),
            ),
        decreases children.len() - i,
    {
        let c = MockDynamicChild::extract_from_view_with_backend(&children[i], ctx, backend);
        let ghost prefix = children@.subrange(0, i as int + 1);
        proof {
            assert(prefix.subrange(0, i as int) =~= children@.subrange(0, i as int));
            assert(prefix[i as int] == children@[i as int]);
        }
        match c {
            Ok(c) => {
                let ghost before = out.deep_view();
                out.push(c);
                proof {
                    assert(out.deep_view() =~= before.push(c.deep_view()));
                }
                i = i + 1;
            },
            Err(e) => {
                proof {
                    lemma_mock_children_error_prefix(children@, i as int + 1, *ctx);
                }
                return Err(e);
            },
        }
    }
    proof {
        assert(children@.subrange(0, children@.len() as int) =~= children@);
    }
    Ok(out)
}

/// A dynamic column extracts each child through a fresh mock backend's
/// registry, in order, failing on the first child's error, and copies
/// alignment and spacing.
impl ViewExtractor<VStack<Vec<AnyView>>> for MockBackend {
    type Output = MockVStack<Vec<MockDynamicChild>>;

    open spec fn spec_extract(view: VStack<Vec<AnyView>>, ctx: RenderContext) -> ExtractionResult<
        MockVStack<Seq<DynamicChildModel>>,
    > {
        match spec_mock_children(view.content@, ctx) {
            Ok(cs) => Ok(MockVStack { content: cs, alignment: view.alignment, spacing: view.spacing }),
            Err(e) => Err(e),
        }
    }

    fn extract(view: &VStack<Vec<AnyView>>, ctx: &RenderContext) -> (r: ExtractionResult<
        MockVStack<Vec<MockDynamicChild>>,
    >) {
        let backend = MockBackend::new();
        let content = extract_dynamic_children(&backend, &view.content, ctx)?;
        Ok(MockVStack { content, alignment: view.alignment, spacing: view.spacing })
    }
}

/// A dynamic row extracts each child through a fresh mock backend's
/// registry, in order, failing on the first child's error, and copies
/// alignment and spacing.
impl ViewExtractor<HStack<Vec<AnyView>>> for MockBackend {
    type Output = MockHStack<Vec<MockDynamicChild>>;

    open spec fn spec_extract(view: HStack<Vec<AnyView>>, ctx: RenderContext) -> ExtractionResult<
        MockHStack<Seq<DynamicChildModel>>,
    > {
        match spec_mock_children(view.content@, ctx) {
            Ok(cs) => Ok(MockHStack { content: cs, alignment: view.alignment, spacing: view.spacing }),
            Err(e) => Err(e),
        }
    }

    fn extract(view: &HStack<Vec<AnyView>>, ctx: &RenderContext) -> (r: ExtractionResult<
        MockHStack<Vec<MockDynamicChild>>,
    >) {
        let backend = MockBackend::new();
        let content = extract_dynamic_children(&backend, &view.content, ctx)?;
        Ok(MockHStack { content, alignment: view.alignment, spacing: view.spacing })
    }
}

/// Dynamic extraction agrees with static extraction for leaves: through any
/// registry that registers text, buttons and spacers, the raw output of
/// extracting one of them dynamically is what the static extractor gives.
pub proof fn law_dynamic_matches_static_leaves(
    registered: Set<TypeKey>,
    text: Text,
    button: ButtonView,
    spacer: Spacer,
    ctx: RenderContext,
)
    requires
        registered.contains(TEXT_KEY),
        registered.contains(BUTTON_VIEW_KEY),
        registered.contains(SPACER_KEY),
    ensures
        spec_extract_dynamic::<MockBackend>(registered, AnyView::Text(text), ctx) == Ok::<
            MockOutputModel,
            ExtractionError,
        >(MockOutputModel::Text(<MockBackend as ViewExtractor<Text>>::spec_extract(text, ctx)->Ok_0)),
        <MockBackend as ViewExtractor<Text>>::spec_extract(text, ctx) is Ok,
        spec_extract_dynamic::<MockBackend>(registered, AnyView::Button(button), ctx)
            == Ok::<MockOutputModel, ExtractionError>(
            MockOutputModel::Button(
                <MockBackend as ViewExtractor<ButtonView>>::spec_extract(button, ctx)->Ok_0,
            ),
        ),
        <MockBackend as ViewExtractor<ButtonView>>::spec_extract(button, ctx) is Ok,
        spec_extract_dynamic::<MockBackend>(registered, AnyView::Spacer(spacer), ctx)
            == Ok::<MockOutputModel, ExtractionError>(
            MockOutputModel::Spacer(
                <MockBackend as ViewExtractor<Spacer>>::spec_extract(spacer, ctx)->Ok_0,
            ),
        ),
        <MockBackend as ViewExtractor<Spacer>>::spec_extract(spacer, ctx) is Ok,
{
}

/// Dynamic extraction agrees with static extraction for dynamic stacks:
/// through any registry that registers dynamic columns and rows, whatever
/// else it holds and whether or not converters are registered, extracting a
/// dynamic column or row dynamically gives, as its raw output, what its
/// static extractor gives.
pub proof fn law_dynamic_matches_static_stacks(
    registered: Set<TypeKey>,
    column: VStack<Vec<AnyView>>,
    row: HStack<Vec<AnyView>>,
    ctx: RenderContext,
)
    requires
        registered.contains(DYNAMIC_VSTACK_KEY),
        registered.contains(DYNAMIC_HSTACK_KEY),
    ensures
        spec_extract_dynamic::<MockBackend>(registered, AnyView::VStack(column), ctx)
            == match <MockBackend as ViewExtractor<VStack<Vec<AnyView>>>>::spec_extract(
            column,
            ctx,
        ) {
            Ok(o) => Ok(MockOutputModel::VStack(o)),
            Err(e) => Err(e),
        },
        spec_extract_dynamic::<MockBackend>(registered, AnyView::HStack(row), ctx)
            == match <MockBackend as ViewExtractor<HStack<Vec<AnyView>>>>::spec_extract(row, ctx) {
            Ok(o) => Ok(MockOutputModel::HStack(o)),
            Err(e) => Err(e),
        },
{
}

/// Dynamic containers keep the shape and order of their children, however
/// many: the children extract without error exactly when each child does,
/// and then there is one output per child, the i-th being the i-th child's.
pub proof fn law_children_keep_shape_and_order(views: Seq<AnyView>, ctx: RenderContext)
    ensures
        spec_mock_children(views, ctx) is Ok <==> forall|i: int|
            0 <= i < views.len() ==> #[trigger] spec_mock_child(views[i], ctx) is Ok,
        spec_mock_children(views, ctx) matches Ok(cs) ==> {
            &&& cs.len() == views.len()
            &&& forall|i: int|
                0 <= i < views.len() ==> #[trigger] spec_mock_child(views[i], ctx) == Ok::<
                    DynamicChildModel,
                    ExtractionError,
                >(cs[i])
        },
    decreases views.len(),
{
    if views.len() > 0 {
        let n = views.len() - 1;
        let prefix = views.subrange(0, n);
        law_children_keep_shape_and_order(prefix, ctx);
        assert forall|i: int| 0 <= i < n implies prefix[i] == views[i] by {}
        if (forall|i: int| 0 <= i < views.len() ==> #[trigger] spec_mock_child(views[i], ctx) is Ok) {
            assert forall|i: int| 0 <= i < prefix.len() implies #[trigger] spec_mock_child(
                prefix[i],
                ctx,
            ) is Ok by {
                assert(spec_mock_child(views[i], ctx) is Ok);
            }
        }
        if let Ok(cs) = spec_mock_children(prefix, ctx) {
            if let Ok(c) = spec_mock_child(views[n], ctx) {
                let all = cs.push(c);
                assert forall|i: int| 0 <= i < views.len() implies #[trigger] spec_mock_child(
                    views[i],
                    ctx,
                ) == Ok::<DynamicChildModel, ExtractionError>(all[i]) by {
                    if i < n {
                        assert(spec_mock_child(prefix[i], ctx) == Ok::<DynamicChildModel, ExtractionError>(cs[i]));
                    }
                }
            }
        } else {
            let j = choose|j: int| 0 <= j < prefix.len() && !(#[trigger] spec_mock_child(prefix[j], ctx) is Ok);
            assert(!(spec_mock_child(views[j], ctx) is Ok));
        }
    }
}

/// With the mock backend's registrations, the only way a dynamic tree fails
/// is an unregistered empty view somewhere in it: the errors that signal
/// broken registry bookkeeping (`DowncastFailed`, `OutputDowncastFailed`)
/// never occur.
pub proof fn law_mock_fails_only_on_unregistered(view: AnyView, ctx: RenderContext)
    ensures
        spec_mock_child(view, ctx) matches Err(e) ==> e == (ExtractionError::UnregisteredType {
            type_label: "()",
            type_id: EMPTY_KEY,
        }),
    decreases view, 1nat,
{
    match view {
        AnyView::VStack(s) => law_mock_children_fail_only_on_unregistered(s.content@, ctx),
        AnyView::HStack(s) => law_mock_children_fail_only_on_unregistered(s.content@, ctx),
        _ => {},
    }
}

/// The children of a dynamic container fail only on an unregistered empty
/// view.
pub proof fn law_mock_children_fail_only_on_unregistered(views: Seq<AnyView>, ctx: RenderContext)
    ensures
        spec_mock_children(views, ctx) matches Err(e) ==> e == (ExtractionError::UnregisteredType {
            type_label: "()",
            type_id: EMPTY_KEY,
        }),
    decreases views, 0nat,
{
    if views.len() > 0 {
        law_mock_children_fail_only_on_unregistered(views.subrange(0, views.len() - 1), ctx);
        law_mock_fails_only_on_unregistered(views[views.len() - 1], ctx);
    }
}

} // verus!
