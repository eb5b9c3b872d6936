use yudian_ai_tool::modbus::registers::{is_supported_model, model_name};
use yudian_ai_tool::text::{hex4, integer_decimal};

#[test]
fn maps_known_and_unknown_models() {
    assert_eq!(model_name(5160), "AI-516");
    assert_eq!(model_name(5167), "AI-516P");
    assert_eq!(model_name(5180), "AI-518");
    assert_eq!(model_name(5187), "AI-518P");
    assert_eq!(model_name(9999), "未知型号(0x270F)");
}

#[test]
fn only_the_four_known_models_are_supported() {
    for code in [5160, 5167, 5180, 5187] {
        assert!(is_supported_model(code));
    }
    for code in [0, 5161, 5181, 9999, 65535] {
        assert!(!is_supported_model(code));
    }
    assert_eq!(model_name(0), "未知型号(0x0000)");
    assert_eq!(model_name(65535), "未知型号(0xFFFF)");
}

#[test]
fn renders_numbers_like_the_formatter() {
    for value in [0i64, 7, 10, 99, 100, 32000, -1, -200, -32768, i64::MAX, i64::MIN] {
        assert_eq!(integer_decimal(value), value.to_string());
    }
    for value in [0u16, 0x0A, 0x270F, 0xBEEF, u16::MAX] {
        assert_eq!(hex4(value), format!("{value:04X}"));
    }
}
