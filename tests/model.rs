use ironwood::backends::mock::MockBackend;
use ironwood::{Component, Message, Model, RenderContext, Text, ViewExtractor};

#[test]
fn model_trait_pattern() {
    #[derive(Debug, Clone)]
    struct TestModel {
        value: i32,
    }

    #[derive(Debug, Clone)]
    enum TestMessage {
        SetValue(i32),
        Reset,
    }

    impl Message for TestMessage {}

    impl Model for TestModel {
        type Message = TestMessage;

        fn update(self, message: Self::Message) -> Self {
            match message {
                TestMessage::SetValue(value) => Self { value },
                TestMessage::Reset => Self { value: 0 },
            }
        }
    }

    impl Component for TestModel {
        type View = Text;

        fn view(&self) -> Self::View {
            Text::new(&format!("Value: {}", self.value))
        }
    }

    let model = TestModel { value: 5 };
    let updated = model.update(TestMessage::SetValue(10));
    assert_eq!(updated.value, 10);

    let reset = updated.update(TestMessage::Reset);
    assert_eq!(reset.value, 0);

    let _debug_str = format!("{:?}", reset);
    assert_eq!(reset.view().content, "Value: 0");
}

#[test]
fn model_immutability() {
    #[derive(Debug, Clone, PartialEq)]
    struct TestModel {
        data: String,
    }

    #[derive(Debug, Clone)]
    enum TestMessage {
        UpdateData(String),
    }

    impl Message for TestMessage {}

    impl Model for TestModel {
        type Message = TestMessage;

        fn update(self, message: Self::Message) -> Self {
            match message {
                TestMessage::UpdateData(data) => Self { data },
            }
        }
    }

    impl Component for TestModel {
        type View = Text;

        fn view(&self) -> Self::View {
            Text::new(&format!("Data: {}", self.data))
        }
    }

    let original = TestModel {
        data: "original".to_string(),
    };
    let original_data = original.data.clone();

    let updated = original
        .clone()
        .update(TestMessage::UpdateData("updated".to_string()));

    assert_eq!(original.data, original_data);
    assert_eq!(updated.data, "updated");
    assert_ne!(original, updated);
}

#[test]
fn basic_extraction() {
    let text = Text::new("Hello");
    let ctx = RenderContext::new();
    let result = MockBackend::extract(&text, &ctx).unwrap();
    assert_eq!(result.content, "Hello");
}
