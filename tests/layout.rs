use ironwood::backends::mock::{MockBackend, MockDynamicChild};
use ironwood::{
    Alignment, AnyView, Button, Component, DynamicView, HStack, RenderContext, Spacer, Text,
    VStack, ViewExtractor,
};

#[test]
fn container_configuration_and_extraction() {
    let ctx = RenderContext::new();

    let spacer = Spacer::min_size(100);
    assert_eq!(spacer.min_size, 100);

    let vstack = VStack::new(Text::new("Test")).spacing(5);
    let extracted = MockBackend::extract(&vstack, &ctx).unwrap();
    assert_eq!(extracted.spacing, 5);

    // Spacing is carried through verbatim, whatever its value.
    let wide_spacing = VStack::new(Text::new("Test")).spacing(u32::MAX);
    let extracted = MockBackend::extract(&wide_spacing, &ctx).unwrap();
    assert_eq!(extracted.spacing, u32::MAX);
}

#[test]
fn dynamic_container_patterns() {
    let ctx = RenderContext::new();

    let stack = VStack::dynamic()
        .child(Text::new("Title").into_any())
        .child(Button::new("Action").view().into_any())
        .spacing(12)
        .alignment(Alignment::Center);

    assert_eq!(stack.spacing, 12);
    assert_eq!(stack.alignment, Alignment::Center);

    let extracted = MockBackend::extract(&stack, &ctx).unwrap();
    assert_eq!(extracted.spacing, 12);
    assert_eq!(extracted.alignment, Alignment::Center);

    if let MockDynamicChild::Text(text) = &extracted.content[0] {
        assert_eq!(text.content, "Title");
    }
}

#[test]
fn conditional_and_nested_patterns() {
    let ctx = RenderContext::new();

    let conditional_stack = VStack::dynamic()
        .child(Text::new("Always").into_any())
        .conditional_children(true, vec![Text::new("Shown").into_any()])
        .conditional_children(false, vec![Text::new("Hidden").into_any()]);

    assert_eq!(conditional_stack.content.len(), 2);

    let inner = HStack::dynamic()
        .child(Button::new("Cancel").view().into_any())
        .child(Button::new("OK").view().into_any())
        .spacing(8);

    let form = VStack::dynamic()
        .child(Text::new("Form").into_any())
        .child(inner.into_any())
        .spacing(16);

    let extracted = MockBackend::extract(&form, &ctx).unwrap();
    assert_eq!(extracted.spacing, 16);

    if let MockDynamicChild::HStack(inner) = &extracted.content[1] {
        assert_eq!(inner.spacing, 8);
    }
}

#[test]
fn dynamic_container_edge_cases() {
    let ctx = RenderContext::new();

    let empty_vstack = VStack::dynamic();
    let extracted = MockBackend::extract(&empty_vstack, &ctx).unwrap();
    assert_eq!(extracted.content.len(), 0);

    let mut large_stack = VStack::dynamic();
    for i in 0..1000 {
        large_stack = large_stack.child(Text::new(&format!("Item {}", i)).into_any());
    }
    assert_eq!(large_stack.content.len(), 1000);

    let extracted = MockBackend::extract(&large_stack, &ctx).unwrap();
    assert_eq!(extracted.content.len(), 1000);
}

#[test]
fn mixed_static_dynamic_integration() {
    let ctx = RenderContext::new();

    let dynamic_body = VStack::dynamic()
        .child(Text::new("Header").into_any())
        .child(Text::new("Subtitle").into_any())
        .child(Button::new("Action").view().into_any())
        .spacing(16);

    let extracted = MockBackend::extract(&dynamic_body, &ctx).unwrap();
    assert_eq!(extracted.spacing, 16);

    if let MockDynamicChild::Text(header) = &extracted.content[0] {
        assert_eq!(header.content, "Header");
    }
    if let MockDynamicChild::Text(subtitle) = &extracted.content[1] {
        assert_eq!(subtitle.content, "Subtitle");
    }
}

#[test]
fn container_memory_safety() {
    let create_dynamic_content = || -> Vec<AnyView> {
        vec![
            Text::new("Dynamic").into_any(),
            Button::new("Test").view().into_any(),
        ]
    };

    let stack = VStack::dynamic()
        .children(create_dynamic_content())
        .spacing(8);

    assert_eq!(stack.content.len(), 2);

    let moved_stack = stack;
    assert_eq!(moved_stack.content.len(), 2);
    assert_eq!(moved_stack.spacing, 8);
}

#[test]
fn dynamic_builders_keep_order() {
    let row = HStack::from_children(vec![
        Text::new("a").into_any(),
        Text::new("b").into_any(),
    ])
    .child(Text::new("c").into_any())
    .conditional_children(true, vec![Spacer::new().into_any(), Text::new("d").into_any()]);
    assert_eq!(row.alignment, Alignment::Leading);
    assert_eq!(row.spacing, 0);
    assert_eq!(row.content.len(), 5);
    assert_eq!(row.content[2], Text::new("c").into_any());
    assert_eq!(row.content[3], AnyView::Spacer(Spacer::new()));

    let column = VStack::from_children(vec![Text::new("x").into_any()])
        .children(vec![Text::new("y").into_any(), Text::new("z").into_any()]);
    assert_eq!(column.content.len(), 2);
    assert_eq!(column.content[0], Text::new("y").into_any());
}

#[test]
fn alignment_and_spacer_defaults() {
    assert_eq!(Alignment::default(), Alignment::Leading);
    assert_eq!(Spacer::default().min_size, 0);
    let stack = HStack::new(Text::new("t"));
    assert_eq!(stack.alignment, Alignment::Leading);
    assert_eq!(stack.spacing, 0);
}
