use linkrouter::{decode, ConfigValue, DecodeError, NumberValue, ValueKind, WireValue};

#[test]
fn scalar_signature_decodes() {
    let args = vec![
        ConfigValue::Bool(true),
        ConfigValue::Number(NumberValue::Unsigned(42)),
        ConfigValue::Str(String::from("hi")),
    ];
    let r = decode("bus", &args).unwrap();
    assert_eq!(
        r,
        vec![
            WireValue::Bool(true),
            WireValue::U32(42),
            WireValue::Str(String::from("hi")),
        ]
    );
}

#[test]
fn decoding_twice_yields_identical_sequences() {
    let args = vec![
        ConfigValue::Str(String::from("a")),
        ConfigValue::Bool(false),
        ConfigValue::Number(NumberValue::Unsigned(7)),
    ];
    let first = decode("sbu", &args);
    let second = decode("sbu", &args);
    assert_eq!(first, second);
    assert!(first.is_ok());
}

#[test]
fn string_where_number_expected_is_a_mismatch() {
    let args = vec![ConfigValue::Str(String::from("not a number"))];
    let r = decode("u", &args);
    assert_eq!(
        r,
        Err(DecodeError::TypeMismatch {
            index: 0,
            expected_tag: 'u',
            actual_kind: ValueKind::Str,
        })
    );
}

#[test]
fn unsigned_just_inside_and_outside_the_32_bit_range() {
    let fits = vec![ConfigValue::Number(NumberValue::Unsigned(4294967295))];
    assert_eq!(decode("u", &fits), Ok(vec![WireValue::U32(4294967295)]));
    let too_big = vec![ConfigValue::Number(NumberValue::Unsigned(4294967296))];
    assert_eq!(
        decode("u", &too_big),
        Err(DecodeError::TypeMismatch {
            index: 0,
            expected_tag: 'u',
            actual_kind: ValueKind::Number,
        })
    );
}

#[test]
fn negative_and_inexact_numbers_do_not_fit_an_unsigned_tag() {
    let negative = vec![ConfigValue::Number(NumberValue::Signed(-1))];
    assert_eq!(
        decode("u", &negative),
        Err(DecodeError::TypeMismatch {
            index: 0,
            expected_tag: 'u',
            actual_kind: ValueKind::Number,
        })
    );
    let inexact = vec![ConfigValue::Number(NumberValue::Inexact)];
    assert_eq!(
        decode("u", &inexact),
        Err(DecodeError::TypeMismatch {
            index: 0,
            expected_tag: 'u',
            actual_kind: ValueKind::Number,
        })
    );
}

#[test]
fn null_where_boolean_expected_is_a_mismatch() {
    let args = vec![ConfigValue::Null];
    assert_eq!(
        decode("b", &args),
        Err(DecodeError::TypeMismatch {
            index: 0,
            expected_tag: 'b',
            actual_kind: ValueKind::Null,
        })
    );
}

#[test]
fn recognized_but_uncarried_tags_fail_explicitly() {
    let seq_arg = vec![ConfigValue::Sequence(vec![ConfigValue::Bool(true)])];
    assert_eq!(
        decode("a", &seq_arg),
        Err(DecodeError::UnsupportedTag { tag: 'a' })
    );
    let one_bool = vec![ConfigValue::Bool(true)];
    for tag in ["y", "n", "q", "i", "x", "t", "d", "h", "o", "g", "(", "{", "v"] {
        let r = decode(tag, &one_bool);
        assert_eq!(
            r,
            Err(DecodeError::UnsupportedTag {
                tag: tag.chars().next().unwrap(),
            })
        );
    }
}

#[test]
fn a_character_outside_the_grammar_is_a_syntax_error() {
    assert_eq!(
        decode("z", &vec![ConfigValue::Bool(true)]),
        Err(DecodeError::SignatureSyntax { position: 0 })
    );
    assert_eq!(
        decode(")", &vec![]),
        Err(DecodeError::SignatureSyntax { position: 0 })
    );
    assert_eq!(
        decode("b}", &vec![ConfigValue::Bool(true), ConfigValue::Bool(true)]),
        Err(DecodeError::SignatureSyntax { position: 1 })
    );
}

#[test]
fn the_first_offending_position_decides_the_error() {
    // A mismatch at index 0 is reported even though index 1 holds an
    // unsupported tag.
    let args = vec![ConfigValue::Str(String::from("x")), ConfigValue::Null];
    assert_eq!(
        decode("ba", &args),
        Err(DecodeError::TypeMismatch {
            index: 0,
            expected_tag: 'b',
            actual_kind: ValueKind::Str,
        })
    );
}

#[test]
fn too_few_arguments_for_the_signature() {
    let args = vec![ConfigValue::Bool(true)];
    assert_eq!(
        decode("bb", &args),
        Err(DecodeError::MissingArgument { index: 1 })
    );
    assert_eq!(decode("b", &vec![]), Err(DecodeError::MissingArgument { index: 0 }));
}

#[test]
fn too_many_arguments_for_the_signature() {
    let args = vec![ConfigValue::Bool(true), ConfigValue::Bool(false)];
    assert_eq!(
        decode("b", &args),
        Err(DecodeError::ExtraArguments { expected: 1, given: 2 })
    );
    assert_eq!(
        decode("", &vec![ConfigValue::Null]),
        Err(DecodeError::ExtraArguments { expected: 0, given: 1 })
    );
}

#[test]
fn an_empty_signature_with_no_arguments_decodes_to_nothing() {
    assert_eq!(decode("", &vec![]), Ok(vec![]));
}
