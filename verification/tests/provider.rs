use canvas::data_provider::DataProvider;
use canvas::textinput::provider::TextInputProvider;

#[test]
fn strips_newlines_from_initial_text() {
    let provider = TextInputProvider::from_text("hello\nworld");
    assert_eq!(provider.field_value(0), "hello");
}

#[test]
fn strips_newlines_on_assignment() {
    let mut provider = TextInputProvider::default();
    provider.set_field_value(0, "abc\r\ndef".to_string());
    assert_eq!(provider.field_value(0), "abc");
}

#[test]
fn provider_text_round_trip_and_fields() {
    let mut provider = TextInputProvider::from_text("one");
    assert_eq!(provider.to_text(), "one");
    provider.set_text("two\rthree");
    assert_eq!(provider.to_text(), "two");
    assert_eq!(provider.field_count(), 1);
    assert_eq!(provider.field_name(0), "Input");
    assert_eq!(provider.field_value(1), "");
    provider.set_field_value(1, "ignored".to_string());
    assert_eq!(provider.capture_content(), vec!["two".to_string()]);
}
