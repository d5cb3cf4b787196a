use yapbc::util::{capitalize_first, pascal_to_snake, snake_to_pascal};

#[test]
fn pascal_to_snake_splits_words() {
    assert_eq!(pascal_to_snake("HelloWorld"), "hello_world");
    assert_eq!(pascal_to_snake("helloWorld"), "hello_world");
    assert_eq!(pascal_to_snake("XMLParser"), "xml_parser");
    assert_eq!(pascal_to_snake("K8SStack"), "k8s_stack");
    assert_eq!(pascal_to_snake("lower"), "lower");
    assert_eq!(pascal_to_snake(""), "");
}

#[test]
fn pascal_to_snake_lowercases_unicode() {
    assert_eq!(pascal_to_snake("ÉcoleNormale"), "école_normale");
}

#[test]
fn snake_to_pascal_joins_words() {
    assert_eq!(snake_to_pascal("hello_world"), "HelloWorld");
    assert_eq!(snake_to_pascal("__a__b_"), "AB");
    assert_eq!(snake_to_pascal("already"), "Already");
    assert_eq!(snake_to_pascal("x1_y2"), "X1Y2");
    assert_eq!(snake_to_pascal(""), "");
    assert_eq!(snake_to_pascal("ß_x"), "SSX");
}

#[test]
fn capitalize_first_uppercases_only_the_first() {
    assert_eq!(capitalize_first("true"), "True");
    assert_eq!(capitalize_first("false"), "False");
    assert_eq!(capitalize_first("fILE_x"), "FILE_x");
    assert_eq!(capitalize_first(""), "");
    assert_eq!(capitalize_first("ßa"), "SSa");
}
