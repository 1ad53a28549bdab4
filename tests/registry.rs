use ironwood::backends::mock::{MockBackend, MockDynamicChild, MockOutput, MockText};
use ironwood::view::{BUTTON_VIEW_KEY, EMPTY_KEY, SPACER_KEY, TEXT_KEY};
use ironwood::{
    AnyView, Button, ButtonView, Color, Component, DynamicExtractor, DynamicView,
    ExtractionError, HStack, RenderContext, Spacer, Text, VStack, ViewExtractor, ViewRegistry,
};

#[test]
fn registration_makes_type_known() {
    let mut registry = ViewRegistry::new();
    assert!(registry.is_empty());
    assert_eq!(registry.len(), 0);
    assert!(!registry.is_registered::<Text>());

    registry.register::<Text, MockBackend>();
    assert!(registry.is_registered::<Text>());
    assert!(!registry.is_registered::<ButtonView>());
    assert_eq!(registry.len(), 1);
    assert!(!registry.is_empty());

    // Registering again replaces the entry rather than adding one.
    registry.register::<Text, MockBackend>();
    assert_eq!(registry.len(), 1);

    registry.register::<ButtonView, MockBackend>();
    registry.register_converter::<Text>();
    assert_eq!(registry.len(), 2);
}

#[test]
fn unregistered_type_fails_without_panic() {
    let registry = ViewRegistry::new();
    let ctx = RenderContext::new();
    let view = Text::new("Nobody registered me").into_any();
    let result = registry.extract_dynamic::<MockBackend>(&view, &ctx);
    assert_eq!(
        result.unwrap_err(),
        ExtractionError::UnregisteredType { type_label: "Text", type_id: TEXT_KEY }
    );

    let converted = registry.extract_and_convert::<MockBackend>(&view, &ctx);
    assert!(matches!(
        converted,
        Err(ExtractionError::UnregisteredType { type_id: TEXT_KEY, .. })
    ));
}

#[test]
fn mock_backend_rejects_the_empty_view() {
    let backend = MockBackend::new();
    let ctx = RenderContext::new();
    let result = backend.extract_dynamic(&().into_any(), &ctx);
    assert_eq!(
        result.unwrap_err(),
        ExtractionError::UnregisteredType { type_label: "()", type_id: EMPTY_KEY }
    );
}

#[test]
fn unregistered_child_fails_the_whole_container() {
    let ctx = RenderContext::new();
    let stack = VStack::dynamic()
        .child(Text::new("fine").into_any())
        .child(HStack::dynamic().child(AnyView::Empty).into_any())
        .child(Text::new("never reached").into_any());
    let result = MockBackend::extract(&stack, &ctx);
    assert_eq!(
        result.unwrap_err(),
        ExtractionError::UnregisteredType { type_label: "()", type_id: EMPTY_KEY }
    );
}

#[test]
fn raw_output_passes_through_without_converter() {
    let mut registry = ViewRegistry::new();
    registry.register::<Text, MockBackend>();
    let ctx = RenderContext::new();
    let view = Text::new("raw").font_size(30).into_any();

    let raw = registry.extract_dynamic::<MockBackend>(&view, &ctx).unwrap();
    let passed = registry.extract_and_convert::<MockBackend>(&view, &ctx).unwrap();
    let expected = MockText { content: "raw".to_string(), font_size: 30, color: Color::black() };
    assert_eq!(raw, MockOutput::Text(expected.clone()));
    assert_eq!(passed, MockOutput::Text(expected.clone()));

    registry.register_converter::<Text>();
    let converted = registry.extract_and_convert::<MockBackend>(&view, &ctx).unwrap();
    assert_eq!(converted, MockOutput::Child(MockDynamicChild::Text(expected)));
}

#[test]
fn dynamic_matches_static_extraction() {
    let backend_registry = {
        let mut r = ViewRegistry::new();
        r.register::<Text, MockBackend>();
        r.register::<ButtonView, MockBackend>();
        r.register::<Spacer, MockBackend>();
        r
    };
    let ctx = RenderContext::new();

    let text = Text::new("same").font_size(12).color(Color::blue());
    let dynamic = backend_registry.extract_dynamic::<MockBackend>(&text.clone().into_any(), &ctx);
    let statically = MockBackend::extract(&text, &ctx).unwrap();
    assert_eq!(dynamic.unwrap(), MockOutput::Text(statically));

    let button = Button::new("same").background_color(Color::red()).view();
    let dynamic = backend_registry.extract_dynamic::<MockBackend>(&button.clone().into_any(), &ctx);
    let statically = MockBackend::extract(&button, &ctx).unwrap();
    assert_eq!(dynamic.unwrap(), MockOutput::Button(statically));

    let spacer = Spacer::min_size(7);
    let dynamic = backend_registry.extract_dynamic::<MockBackend>(&spacer.into_any(), &ctx);
    let statically = MockBackend::extract(&spacer, &ctx).unwrap();
    assert_eq!(dynamic.unwrap(), MockOutput::Spacer(statically));
}

#[test]
fn dynamic_stack_matches_static_extraction() {
    let mut registry = ViewRegistry::new();
    registry.register::<Text, MockBackend>();
    registry.register::<VStack<Vec<AnyView>>, MockBackend>();
    registry.register_converter::<Text>();
    let ctx = RenderContext::new();

    let make = || VStack::dynamic().child(Text::new("a").into_any()).child(Text::new("b").into_any()).spacing(3);
    let dynamic = registry.extract_dynamic::<MockBackend>(&make().into_any(), &ctx).unwrap();
    let statically = MockBackend::extract(&make(), &ctx).unwrap();
    assert_eq!(dynamic, MockOutput::VStack(statically));
}

#[test]
fn stack_children_do_not_depend_on_the_calling_registry() {
    // Only the dynamic column is registered, with no converters: its children
    // are still extracted as a fully configured mock backend extracts them.
    let mut registry = ViewRegistry::new();
    registry.register::<VStack<Vec<AnyView>>, MockBackend>();
    let ctx = RenderContext::new();
    let make = || VStack::dynamic().child(Text::new("raw child").into_any()).spacing(2);
    let result = registry.extract_dynamic::<MockBackend>(&make().into_any(), &ctx).unwrap();
    let statically = MockBackend::extract(&make(), &ctx).unwrap();
    assert_eq!(result, MockOutput::VStack(statically));
    match result {
        MockOutput::VStack(column) => {
            assert_eq!(column.content.len(), 1);
            assert!(matches!(&column.content[0], MockDynamicChild::Text(t) if t.content == "raw child"));
        },
        other => panic!("expected a column, got {:?}", other),
    }
}

#[test]
fn converters_do_not_change_extraction() {
    let mut registry = ViewRegistry::new();
    registry.register::<Text, MockBackend>();
    registry.register::<VStack<Vec<AnyView>>, MockBackend>();
    let ctx = RenderContext::new();
    let column = || VStack::dynamic().child(Text::new("child").into_any()).into_any();
    let before = registry.extract_dynamic::<MockBackend>(&column(), &ctx);
    assert!(before.is_ok());
    registry.register_converter::<Text>();
    registry.register_converter::<VStack<Vec<AnyView>>>();
    assert_eq!(registry.len(), 2);
    let after = registry.extract_dynamic::<MockBackend>(&column(), &ctx);
    assert_eq!(before, after);
    // The converter applies to the outer view only, in extract_and_convert.
    let converted = registry.extract_and_convert::<MockBackend>(&column(), &ctx).unwrap();
    assert!(matches!(converted, MockOutput::Child(MockDynamicChild::VStack(_))));
}

#[test]
fn mismatched_entry_fails_the_downcast() {
    let ctx = RenderContext::new();
    let spacer = Spacer::new().into_any();
    let result = MockBackend::extract_erased(TEXT_KEY, &spacer, &ctx);
    assert_eq!(
        result.unwrap_err(),
        ExtractionError::DowncastFailed { expected_type: "Text", actual_type_id: SPACER_KEY }
    );

    let text = Text::new("t").into_any();
    let result = MockBackend::extract_erased(BUTTON_VIEW_KEY, &text, &ctx);
    assert_eq!(
        result.unwrap_err(),
        ExtractionError::DowncastFailed { expected_type: "ButtonView", actual_type_id: TEXT_KEY }
    );
}

#[test]
fn mismatched_converter_fails_the_output_downcast() {
    let result = MockBackend::convert_erased(TEXT_KEY, MockOutput::Spacer(ironwood::backends::mock::MockSpacer { min_size: 1 }));
    assert_eq!(
        result.unwrap_err(),
        ExtractionError::OutputDowncastFailed { expected_type: "MockText" }
    );
}

#[test]
fn extraction_is_deterministic() {
    let ctx = RenderContext::new();
    let text = Text::new("Hello").font_size(16).color(Color::black());
    assert_eq!(MockBackend::extract(&text, &ctx), MockBackend::extract(&text, &ctx));

    let backend = MockBackend::new();
    let tree = || {
        VStack::dynamic()
            .child(Text::new("Header").into_any())
            .child(HStack::dynamic().child(Spacer::min_size(2).into_any()).into_any())
            .into_any()
    };
    assert_eq!(backend.extract_dynamic(&tree(), &ctx), backend.extract_dynamic(&tree(), &ctx));
}

#[test]
fn tuples_of_every_arity_keep_their_elements() {
    let ctx = RenderContext::new();
    let t = |s: &str| Text::new(s);
    let two = MockBackend::extract(&(t("1"), t("2")), &ctx).unwrap();
    assert_eq!((two.0.content.as_str(), two.1.content.as_str()), ("1", "2"));

    let twelve = MockBackend::extract(
        &(
            t("1"), t("2"), t("3"), t("4"), t("5"), t("6"), t("7"), t("8"), t("9"), t("10"),
            t("11"), Spacer::min_size(12),
        ),
        &ctx,
    )
    .unwrap();
    assert_eq!(twelve.0.content, "1");
    assert_eq!(twelve.5.content, "6");
    assert_eq!(twelve.10.content, "11");
    assert_eq!(twelve.11.min_size, 12);

    let seven = MockBackend::extract(&(t("a"), t("b"), t("c"), t("d"), t("e"), t("f"), Some(t("g"))), &ctx).unwrap();
    assert_eq!(seven.6.unwrap().content, "g");
}

#[test]
fn failing_element_fails_the_tuple() {
    let ctx = RenderContext::new();
    let stack = VStack::dynamic().child(AnyView::Empty);
    let result = MockBackend::extract(&(Text::new("ok"), stack), &ctx);
    assert!(matches!(result, Err(ExtractionError::UnregisteredType { type_id: EMPTY_KEY, .. })));
}

#[test]
fn nested_dynamic_scenario_keeps_shape_and_order() {
    let ctx = RenderContext::new();
    let stack = VStack::dynamic()
        .child(Text::new("Header").into_any())
        .child(
            HStack::dynamic()
                .child(Text::new("Left").into_any())
                .child(Text::new("Right").into_any())
                .into_any(),
        )
        .child(Button::new("Footer").view().into_any());
    let out = MockBackend::extract(&stack, &ctx).unwrap();
    assert_eq!(out.content.len(), 3);
    assert!(matches!(&out.content[0], MockDynamicChild::Text(t) if t.content == "Header"));
    match &out.content[1] {
        MockDynamicChild::HStack(row) => {
            assert_eq!(row.content.len(), 2);
            assert!(matches!(&row.content[0], MockDynamicChild::Text(t) if t.content == "Left"));
            assert!(matches!(&row.content[1], MockDynamicChild::Text(t) if t.content == "Right"));
        },
        other => panic!("expected a row, got {:?}", other),
    }
    assert!(matches!(&out.content[2], MockDynamicChild::Button(b) if b.text == "Footer"));
}

#[test]
fn thousand_children_keep_their_order() {
    let ctx = RenderContext::new();
    let mut stack = HStack::dynamic();
    for i in 0..1000 {
        stack = stack.child(Text::new(&format!("Item {}", i)).into_any());
    }
    let out = MockBackend::extract(&stack, &ctx).unwrap();
    assert_eq!(out.content.len(), 1000);
    for (i, child) in out.content.iter().enumerate() {
        match child {
            MockDynamicChild::Text(t) => assert_eq!(t.content, format!("Item {}", i)),
            other => panic!("expected text, got {:?}", other),
        }
    }
}

#[test]
fn type_keys_and_labels() {
    assert_eq!(AnyView::Empty.type_key(), EMPTY_KEY);
    assert_eq!(Spacer::new().into_any().type_label(), "Spacer");
    assert_eq!(<VStack<Vec<AnyView>>>::type_label(), "VStack<Vec<AnyView>>");
    assert_eq!(<HStack<Vec<AnyView>>>::type_key(), 5);
    assert!(VStack::dynamic().into_any().children().unwrap().is_empty());
    assert!(Text::new("leaf").into_any().children().is_none());
}
