use rimecmd::input_translator::InputTranslator;
use rimecmd::terminal_interface::Input;

#[test]
fn input_translator_test_translate_unsupported_character() {
    let input_translator = InputTranslator::new();
    assert!(input_translator.translate_input(Input::Char('天')).is_none())
}

#[test]
fn input_translator_test_translate_alpha() {
    let input_translator = InputTranslator::new();
    let result = input_translator.translate_input(Input::Char('a')).unwrap();
    assert_eq!(result.keycode, 0x61);
    assert_eq!(result.mask, 0);
}

#[test]
fn input_translator_test_translate_digit() {
    let input_translator = InputTranslator::new();
    let result = input_translator.translate_input(Input::Char('1')).unwrap();
    assert_eq!(result.keycode, 0x31);
    assert_eq!(result.mask, 0);
}

#[test]
fn input_translator_test_translate_punct() {
    let input_translator = InputTranslator::new();
    let result = input_translator.translate_input(Input::Char('!')).unwrap();
    assert_eq!(result.keycode, 0x21);
    assert_eq!(result.mask, 0);
}

#[test]
fn input_translator_test_translate_del() {
    let input_translator = InputTranslator::new();
    let result = input_translator.translate_input(Input::Del).unwrap();
    // del is the ascii code sent by the backspace key.
    assert_eq!(result.keycode, 0xff08);
    assert_eq!(result.mask, 0);
}

#[test]
fn test_translate_cr() {
    let input_translator = InputTranslator::new();
    let result = input_translator.translate_input(Input::Cr).unwrap();
    assert_eq!(result.keycode, 0xff0d);
    assert_eq!(result.mask, 0);
}

#[test]
fn test_input_translator_test_translate_unsupported_character() {
    let input_translator = InputTranslator::new();
    assert!(input_translator.translate_input(Input::Char('天')).is_none())
}

#[test]
fn test_input_translator_test_translate_alpha() {
    let input_translator = InputTranslator::new();
    let result = input_translator.translate_input(Input::Char('a')).unwrap();
    assert_eq!(result.keycode, 0x61);
    assert_eq!(result.mask, 0);
}

#[test]
fn test_input_translator_test_translate_digit() {
    let input_translator = InputTranslator::new();
    let result = input_translator.translate_input(Input::Char('1')).unwrap();
    assert_eq!(result.keycode, 0x31);
    assert_eq!(result.mask, 0);
}

#[test]
fn test_input_translator_test_translate_punct() {
    let input_translator = InputTranslator::new();
    let result = input_translator.translate_input(Input::Char('!')).unwrap();
    assert_eq!(result.keycode, 0x21);
    assert_eq!(result.mask, 0);
}

#[test]
fn translate_nul_is_control_grave() {
    let input_translator = InputTranslator::new();
    // NUL stands for Ctrl-`, the schema-menu toggle
    let result = input_translator.translate_input(Input::Nul).unwrap();
    assert_eq!(result.keycode, 0x60);
    assert_eq!(result.mask, 1 << 2);
}

#[test]
fn translate_named_keys() {
    let input_translator = InputTranslator::new();
    assert_eq!(
        input_translator.translate_input(Input::Up).unwrap().keycode,
        0xff52
    );
    assert_eq!(
        input_translator.translate_input(Input::Down).unwrap().keycode,
        0xff54
    );
    assert_eq!(
        input_translator.translate_input(Input::Left).unwrap().keycode,
        0xff51
    );
    assert_eq!(
        input_translator.translate_input(Input::Right).unwrap().keycode,
        0xff53
    );
    assert_eq!(
        input_translator.translate_input(Input::PageUp).unwrap().keycode,
        0xff55
    );
    assert_eq!(
        input_translator.translate_input(Input::PageDown).unwrap().keycode,
        0xff56
    );
}
