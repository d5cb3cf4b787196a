use yapbc::ast::comments::Comments;
use yapbc::ast::compile_go::import_field;
use yapbc::ast::field::Field;
use yapbc::ast::message::Messages;
use yapbc::ast::ptype::PType;
use yapbc::util::{capitalize_first, pascal_to_snake, snake_to_pascal};

fn parse(data: &str, file: &str) -> Messages {
    Messages::parse(data.to_string(), file.to_string()).unwrap()
}

#[test]
fn type_name_round_trip() {
    for w in ["int32", "string", "Person", "pkg.Thing", "oneof"] {
        assert_eq!(PType::parse(w).to_string(), w);
        assert!(!PType::parse(w).is_repeated());
    }
}

#[test]
fn repeated_form_keeps_name_and_kind() {
    for t in [PType::Int32, PType::PString, PType::Custom("Person".to_string())] {
        let r = t.repeat();
        assert_eq!(r.to_string(), t.to_string());
        assert_eq!(r.is_nested(), t.is_nested());
        assert!(r.is_repeated());
    }
}

#[test]
fn objects_numbered_in_declaration_order() {
    let m = parse(
        "syntax = \"proto3\";\nenum A {\n  X = 0;\n}\nmessage B {\n}\nenum C {\n  Y = 0;\n}\nmessage D {\n  int32 n = 1;\n}\n",
        "order.proto",
    );
    let enum_indices: Vec<usize> = m.penums.iter().map(|e| e.index).collect();
    let message_indices: Vec<usize> = m.messages.iter().map(|e| e.index).collect();
    assert_eq!(enum_indices, vec![0, 2]);
    assert_eq!(message_indices, vec![1, 3]);
}

#[test]
fn parsed_schema_compiles_to_python() {
    let m = parse(
        "syntax = \"proto3\";\npackage p;\nmessage M {\n  oneof pick {\n    int32 a = 1;\n    string b = 2;\n  }\n}\n",
        "m.proto",
    );
    let code = m.compile_python();
    assert!(code.contains("class M(betterproto2.Message):"));
}

#[test]
fn import_against_module_without_messages_changes_nothing() {
    let module = parse("syntax = \"proto3\";\nenum E {\n  A = 0;\n}\n", "lib/e.proto");
    let mut f = Field {
        name: "e".to_string(),
        ptype: PType::Custom("E".to_string()),
        comments: Comments { comments: vec!["kept".to_string()] },
        repeated: false,
        index: 4,
        default: Some("A".to_string()),
        maybe_types: None,
    };
    import_field(&mut f, &"e.proto".to_string(), &"lib".to_string(), &module);
    assert_eq!(f.ptype, PType::Custom("E".to_string()));
    assert_eq!(f.name, "e");
    assert_eq!(f.index, 4);
    assert_eq!(f.default, Some("A".to_string()));
    assert_eq!(f.comments.comments, vec!["kept".to_string()]);
}

#[test]
fn go_dependency_entries_point_at_declared_objects() {
    let mut m = parse(
        "syntax = \"proto3\";\npackage demo;\nenum Color {\n  RED = 0;\n}\nmessage Person {\n  Color color = 1;\n}\n",
        "demo.proto",
    );
    let out = m.compile_go(
        "demo.proto".to_string(),
        "".to_string(),
        "demo".to_string(),
        Some("example.com/mod".to_string()),
        &vec![],
    );
    assert!(out.code.contains("    0, // 0: Person.color:type_name -> Color\n"));
}

#[test]
fn snake_and_pascal_round_trips() {
    for s in ["user_id", "k8s_stack", "a", "ab_c", "name"] {
        assert_eq!(pascal_to_snake(&snake_to_pascal(s)), s);
    }
    for x in ["UserId", "K8sStack", "Person", "A", "1a"] {
        assert_eq!(snake_to_pascal(&pascal_to_snake(x)), x);
    }
}

#[test]
fn pascal_case_joins_capitalized_words() {
    for s in ["__user__id_", "user_id", "", "_", "x_y_z", "é_ß"] {
        let joined: String = s.split('_').filter(|w| !w.is_empty()).map(capitalize_first).collect();
        assert_eq!(snake_to_pascal(s), joined);
    }
    assert_eq!(snake_to_pascal("__user__id_"), "UserId");
}

#[test]
fn resolving_an_import_twice_is_resolving_it_once() {
    let module = parse("syntax = \"proto3\";\nmessage Known {\n  int32 id = 1;\n}\n", "lib/known.proto");
    let mut f = Field {
        name: "k".to_string(),
        ptype: PType::RepeatedCustom("Known".to_string()),
        comments: Comments { comments: vec![] },
        repeated: true,
        index: 1,
        default: None,
        maybe_types: None,
    };
    import_field(&mut f, &"known.proto".to_string(), &"lib".to_string(), &module);
    assert_eq!(f.ptype, PType::RepeatedCustom("lib.Known".to_string()));
    import_field(&mut f, &"known.proto".to_string(), &"lib".to_string(), &module);
    assert_eq!(f.ptype, PType::RepeatedCustom("lib.Known".to_string()));
}

#[test]
fn go_string_lines_continue_the_literal() {
    let m = parse("syntax = \"proto3\";\nmessage M {\n}\n", "m.proto");
    let bytes: Vec<u8> = (0u8..=255).chain([10, 10, 34, 92]).collect();
    let s = m.generate_go_string(&bytes, "raw");
    let mut lines = s.split('\n');
    assert_eq!(lines.next(), Some("const raw = \"\" +"));
    let mut count = 0;
    for line in lines {
        assert!(line.starts_with("    \""), "{line:?}");
        count += 1;
    }
    assert_eq!(count, 4);
}
