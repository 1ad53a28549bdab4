//! Layout containers and spacers. They only describe layout intent
//! (alignment and spacing); backends decide what it means.

use vstd::prelude::*;

use crate::view::AnyView;

verus! {

/// How children are aligned within their container.
#[derive(Clone, Copy, PartialEq, Eq, Debug, Structural)]
pub enum Alignment {
    /// The leading edge (left in left-to-right text, top in a column).
    Leading,
    /// The center.
    Center,
    /// The trailing edge.
    Trailing,
}

impl Default for Alignment {
    fn default() -> (a: Alignment)
        ensures
            a == Alignment::Leading,
    {
        Alignment::Leading
    }
}

/// Flexible space that pushes its neighbours apart.
#[derive(Clone, Copy, PartialEq, Eq, Debug, Structural)]
pub struct Spacer {
    /// The least space it takes, in logical pixels.
    pub min_size: u32,
}

impl Spacer {
    /// A spacer with no minimum size.
    pub fn new() -> (s: Spacer)
        ensures
            s.min_size == 0,
    {
        Spacer { min_size: 0 }
    }

    /// A spacer that takes at least `min_size` logical pixels.
    pub fn min_size(min_size: u32) -> (s: Spacer)
        ensures
            s.min_size == min_size,
    {
        Spacer { min_size }
    }
}

impl Default for Spacer {
    fn default() -> (s: Spacer)
        ensures
            s.min_size == 0,
    {
        Spacer::new()
    }
}

impl crate::view::View for Spacer {}

/// A column of children. With a tuple as content its shape is fixed by its
/// type; with a `Vec<AnyView>` (see `VStack::dynamic`) it is built at run
/// time.
#[derive(Clone, Debug, PartialEq)]
pub struct VStack<T> {
    /// The children.
    pub content: T,
    /// Horizontal alignment of the children.
    pub alignment: Alignment,
    /// Space between children, in logical pixels.
    pub spacing: u32,
}

impl<T: crate::view::View> VStack<T> {
    /// A column holding `content`, leading-aligned and without spacing.
    pub fn new(content: T) -> (s: VStack<T>)
        ensures
            s == (VStack { content, alignment: Alignment::Leading, spacing: 0 }),
    {
        VStack { content, alignment: Alignment::default(), spacing: 0 }
    }

    /// This column with the given spacing.
    pub fn spacing(self, spacing: u32) -> (s: VStack<T>)
        ensures
            s == (VStack { spacing, ..self }),
    {
        VStack { spacing, ..self }
    }

    /// This column with the given alignment.
    pub fn alignment(self, alignment: Alignment) -> (s: VStack<T>)
        ensures
            s == (VStack { alignment, ..self }),
    {
        VStack { alignment, ..self }
    }
}

impl<T: crate::view::View> crate::view::View for VStack<T> {}

/// A row of children. With a tuple as content its shape is fixed by its type;
/// with a `Vec<AnyView>` (see `HStack::dynamic`) it is built at run time.
#[derive(Clone, Debug, PartialEq)]
pub struct HStack<T> {
    /// The children.
    pub content: T,
    /// Vertical alignment of the children.
    pub alignment: Alignment,
    /// Space between children, in logical pixels.
    pub spacing: u32,
}

impl<T: crate::view::View> HStack<T> {
    /// A row holding `content`, leading-aligned and without spacing.
    pub fn new(content: T) -> (s: HStack<T>)
        ensures
            s == (HStack { content, alignment: Alignment::Leading, spacing: 0 }),
    {
        HStack { content, alignment: Alignment::default(), spacing: 0 }
    }

    /// This row with the given spacing.
    pub fn spacing(self, spacing: u32) -> (s: HStack<T>)
        ensures
            s == (HStack { spacing, ..self }),
    {
        HStack { spacing, ..self }
    }

    /// This row with the given alignment.
    pub fn alignment(self, alignment: Alignment) -> (s: HStack<T>)
        ensures
            s == (HStack { alignment, ..self }),
    {
        HStack { alignment, ..self }
    }
}

impl<T: crate::view::View> crate::view::View for HStack<T> {}

impl VStack<Vec<AnyView>> {
    /// An empty column whose children are added at run time.
    pub fn dynamic() -> (s: VStack<Vec<AnyView>>)
        ensures
            s.content@ == Seq::<AnyView>::empty(),
            s.alignment == Alignment::Leading,
            s.spacing == 0,
    {
        VStack { content: Vec::new(), alignment: Alignment::Leading, spacing: 0 }
    }

    /// This column with `children` in place of its children.
    pub fn children(self, children: Vec<AnyView>) -> (s: VStack<Vec<AnyView>>)
        ensures
            s.content@ == children@,
            s.alignment == self.alignment,
            s.spacing == self.spacing,
    {
        VStack { content: children, ..self }
    }

    /// This column with `child` added after its children.
    pub fn child(self, child: AnyView) -> (s: VStack<Vec<AnyView>>)
        ensures
            s.content@ == self.content@.push(child),
            s.alignment == self.alignment,
            s.spacing == self.spacing,
    {
        let mut s = self;
        s.content.push(child);
        s
    }

    /// This column with `children` added after its children when `condition`
    /// holds, and unchanged otherwise.
    pub fn conditional_children(self, condition: bool, children: Vec<AnyView>) -> (s: VStack<
        Vec<AnyView>,
    >)
        ensures
            s.content@ == if condition {
                self.content@ + children@
            } else {
                self.content@
            },
            s.alignment == self.alignment,
            s.spacing == self.spacing,
    {
        let mut s = self;
        if condition {
            let mut children = children;
            s.content.append(&mut children);
        }
        s
    }

    /// A column holding `children`, leading-aligned and without spacing.
    pub fn from_children(children: Vec<AnyView>) -> (s: VStack<Vec<AnyView>>)
        ensures
            s.content@ == children@,
            s.alignment == Alignment::Leading,
            s.spacing == 0,
    {
        VStack::dynamic().children(children)
    }
}

impl HStack<Vec<AnyView>> {
    /// An empty row whose children are added at run time.
    pub fn dynamic() -> (s: HStack<Vec<AnyView>>)
        ensures
            s.content@ == Seq::<AnyView>::empty(),
            s.alignment == Alignment::Leading,
            s.spacing == 0,
    {
        HStack { content: Vec::new(), alignment: Alignment::Leading, spacing: 0 }
    }

    /// This row with `children` in place of its children.
    pub fn children(self, children: Vec<AnyView>) -> (s: HStack<Vec<AnyView>>)
        ensures
            s.content@ == children@,
            s.alignment == self.alignment,
            s.spacing == self.spacing,
    {
        HStack { content: children, ..self }
    }

    /// This row with `child` added after its children.
    pub fn child(self, child: AnyView) -> (s: HStack<Vec<AnyView>>)
        ensures
            s.content@ == self.content@.push(child),
            s.alignment == self.alignment,
            s.spacing == self.spacing,
    {
        let mut s = self;
        s.content.push(child);
        s
    }

    /// This row with `children` added after its children when `condition`
    /// holds, and unchanged otherwise.
    pub fn conditional_children(self, condition: bool, children: Vec<AnyView>) -> (s: HStack<
        Vec<AnyView>,
    >)
        ensures
            s.content@ == if condition {
                self.content@ + children@
            } else {
                self.content@
            },
            s.alignment == self.alignment,
            s.spacing == self.spacing,
    {
        let mut s = self;
        if condition {
            let mut children = children;
            s.content.append(&mut children);
        }
        s
    }

    /// A row holding `children`, leading-aligned and without spacing.
    pub fn from_children(children: Vec<AnyView>) -> (s: HStack<Vec<AnyView>>)
        ensures
            s.content@ == children@,
            s.alignment == Alignment::Leading,
            s.spacing == 0,
    {
        HStack::dynamic().children(children)
    }
}

} // verus!
