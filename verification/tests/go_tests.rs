use prost::Message as _;
use prost_types::FileDescriptorProto;
use yapbc::ast::compile_go::import_field;
use yapbc::ast::comments::Comments;
use yapbc::ast::descriptor::MessageDesc;
use yapbc::ast::field::Field;
use yapbc::ast::message::Messages;
use yapbc::ast::ptype::PType;

const DEMO: &str = "syntax = \"proto3\";
package demo;

// Colors
enum Color {
  RED = 0;
  BLUE = 1;
}

message Person {
  string name = 1;
  repeated int32 ids = 2;
  Color color = 3;
  oneof contact {
    string email = 4;
    int32 phone = 5;
  }
}
";

fn parse(data: &str, file: &str) -> Messages {
    Messages::parse(data.to_string(), file.to_string()).unwrap()
}

/// Reads back the bytes of the Go string constant named `name` in `code`.
fn go_constant_bytes(code: &str, name: &str) -> Vec<u8> {
    let start = format!("const {} = \"\" +\n    \"", name);
    let at = code.find(&start).expect("constant present") + start.len();
    let b = code.as_bytes();
    let mut i = at;
    let mut out = Vec::new();
    loop {
        match b[i] {
            b'\\' => {
                match b[i + 1] {
                    b'n' => out.push(b'\n'),
                    b't' => out.push(9),
                    b'b' => out.push(8),
                    b'\\' => out.push(b'\\'),
                    b'"' => out.push(b'"'),
                    b'x' => {
                        let hex = std::str::from_utf8(&b[i + 2..i + 4]).unwrap();
                        out.push(u8::from_str_radix(hex, 16).unwrap());
                        i += 2;
                    }
                    other => panic!("unexpected escape {}", other as char),
                }
                i += 2;
            }
            b'"' => {
                let joint = b"\" + \n    \"";
                if b[i..].starts_with(joint) {
                    i += joint.len();
                } else {
                    return out;
                }
            }
            c => {
                out.push(c);
                i += 1;
            }
        }
    }
}

#[test]
fn go_string_escapes_each_byte() {
    let m = parse(DEMO, "demo.proto");
    let s = m.generate_go_string(&[b'a', b'\n', b'\\', b'"', 9, 8, 0, 0x7f, 0xff, b' '], "v");
    assert_eq!(s, "const v = \"\" +\n    \"a\\n\" + \n    \"\\\\\\\"\\t\\b\\x00\\x7f\\xff \"");
}

#[test]
fn go_string_of_no_bytes() {
    let m = parse(DEMO, "demo.proto");
    assert_eq!(m.generate_go_string(&[], "empty"), "const empty = \"\" +\n    \"\"");
}

#[test]
fn ptype_go_types_and_defaults() {
    assert_eq!(PType::Int32.compile_go(), "int32");
    assert_eq!(PType::PString.compile_go(), "string");
    assert_eq!(PType::RepeatedInt32.compile_go(), "[]int32");
    assert_eq!(PType::RepeatedPString.compile_go(), "[]string");
    assert_eq!(PType::Custom("Person".to_string()).compile_go(), "*Person");
    assert_eq!(PType::RepeatedCustom("Person".to_string()).compile_go(), "[]*Person");
    assert_eq!(PType::Int32.default_go(), "0");
    assert_eq!(PType::PString.default_go(), "\"\"");
    assert_eq!(PType::RepeatedInt32.default_go(), "nil");
    assert_eq!(PType::Custom("Person".to_string()).default_go(), "nil");
}

#[test]
fn compile_go_writes_file_and_descriptor() {
    let mut m = parse(DEMO, ".\\Demo.proto");
    let out = m.compile_go(
        ".\\Demo.proto".to_string(),
        "\\sub".to_string(),
        "Demo".to_string(),
        Some("example.com/mod".to_string()),
        &vec![],
    );
    assert_eq!(out.dir, "sub");
    assert_eq!(out.file_name, "demo.pb.go");
    let code = out.code;
    assert!(code.starts_with("// Code generated by yapbc. DO NOT EDIT.\n// source: Demo.proto\n\npackage demo\n"));
    assert!(code.contains("type Color int32"));
    assert!(code.contains("type Person struct"));
    assert!(code.contains("file_demo_demo_proto_msgTypes[1].OneofWrappers = []any{"));
    assert!(code.contains("(*Person_Email)(nil),"));

    let raw = go_constant_bytes(&code, "file_demo_demo_proto_rawDesc");
    let desc = FileDescriptorProto::decode(raw.as_slice()).unwrap();
    assert_eq!(desc.name(), "Demo.proto");
    assert_eq!(desc.syntax(), "proto3");
    let options = desc.options.clone().unwrap();
    assert_eq!(options.go_package(), "example.com/mod/demo");
    assert_eq!(options.java_outer_classname(), "DemoProto");
    assert!(options.java_multiple_files());
    assert_eq!(desc.enum_type.len(), 1);
    assert_eq!(desc.enum_type[0].name(), "Color");
    let values: Vec<(String, i32)> =
        desc.enum_type[0].value.iter().map(|v| (v.name().to_string(), v.number())).collect();
    assert_eq!(values, vec![("RED".to_string(), 0), ("BLUE".to_string(), 1)]);
    assert_eq!(desc.message_type.len(), 1);
    let person = &desc.message_type[0];
    assert_eq!(person.name(), "Person");
    let fields: Vec<(String, i32, Option<i32>)> =
        person.field.iter().map(|f| (f.name().to_string(), f.number(), f.oneof_index)).collect();
    assert_eq!(
        fields,
        vec![
            ("name".to_string(), 1, None),
            ("ids".to_string(), 2, None),
            ("color".to_string(), 3, None),
            ("email".to_string(), 4, Some(0)),
            ("phone".to_string(), 5, Some(0)),
        ]
    );
    // Field 5 of a field descriptor (key byte 0x28) holds its kind: 14 for the enum
    // `Color`, 9 for a string.
    assert!(person.field[2].encode_to_vec().windows(2).any(|w| w == [0x28, 14]));
    assert!(person.field[0].encode_to_vec().windows(2).any(|w| w == [0x28, 9]));
    assert_eq!(person.oneof_decl.len(), 1);
    assert_eq!(person.oneof_decl[0].name(), "contact");
    // The descriptor round-trips through prost unchanged.
    assert_eq!(desc.encode_to_vec(), raw);
}

#[test]
fn compile_go_resolves_imports() {
    let base = parse(
        "syntax = \"proto3\";\npackage things;\nmessage Thing {\n  int32 id = 1;\n}\n",
        "other/dir/thing.proto",
    );
    let mut user = parse(
        "syntax = \"proto3\";\npackage app;\nimport \"other/dir/thing.proto\";\nmessage Holder {\n  Thing one = 1;\n  repeated Thing many = 2;\n  int32 n = 3;\n}\n",
        "app/holder.proto",
    );
    let all = vec![("other/dir/thing.proto".to_string(), base)];
    let out = user.compile_go(
        "app/holder.proto".to_string(),
        "app".to_string(),
        "holder".to_string(),
        Some("example.com/mod".to_string()),
        &all,
    );
    assert!(out.code.contains("    other/dir \"example.com/mod/other/dir\"\n"));
    assert_eq!(user.messages[0].fields[0].ptype, PType::Custom("other/dir.Thing".to_string()));
    assert_eq!(user.messages[0].fields[1].ptype, PType::RepeatedCustom("other/dir.Thing".to_string()));
    assert_eq!(user.messages[0].fields[2].ptype, PType::Int32);
}

fn plain(name: &str, ptype: PType) -> Field {
    Field {
        name: name.to_string(),
        repeated: ptype.is_repeated(),
        ptype,
        comments: Comments { comments: vec![] },
        index: 1,
        default: None,
        maybe_types: None,
    }
}

#[test]
fn import_field_requalifies_known_messages_only() {
    let module = parse(
        "syntax = \"proto3\";\npackage lib;\nmessage Known {\n  int32 id = 1;\n}\n",
        "lib/known.proto",
    );
    let mut known = plain("k", PType::Custom("Known".to_string()));
    import_field(&mut known, &"known.proto".to_string(), &"lib".to_string(), &module);
    assert_eq!(known.ptype, PType::Custom("lib.Known".to_string()));

    let mut unknown = plain("u", PType::Custom("Other".to_string()));
    import_field(&mut unknown, &"known.proto".to_string(), &"lib".to_string(), &module);
    assert_eq!(unknown.ptype, PType::Custom("Other".to_string()));

    let mut scalar = plain("s", PType::Int32);
    import_field(&mut scalar, &"known.proto".to_string(), &"lib".to_string(), &module);
    assert_eq!(scalar.ptype, PType::Int32);

    let mut group = Field {
        name: "g".to_string(),
        ptype: PType::Oneof,
        comments: Comments { comments: vec![] },
        repeated: false,
        index: 0,
        default: None,
        maybe_types: Some(vec![plain("a", PType::Custom("Known".to_string())), plain("b", PType::PString)]),
    };
    import_field(&mut group, &"known.proto".to_string(), &"lib".to_string(), &module);
    let alts = group.maybe_types.unwrap();
    assert_eq!(alts[0].ptype, PType::Custom("lib.Known".to_string()));
    assert_eq!(alts[1].ptype, PType::PString);
}

#[test]
fn enum_typed_fields_are_described_as_enums() {
    let enums = vec!["Color".to_string()];
    let mut desc = MessageDesc { name: "M".to_string(), field: vec![], oneof_decl: vec![] };
    plain("c", PType::Custom("Color".to_string())).compile_go("M".to_string(), &mut desc, &enums, None);
    plain("cs", PType::RepeatedCustom("Color".to_string())).compile_go("M".to_string(), &mut desc, &enums, None);
    plain("p", PType::Custom("Person".to_string())).compile_go("M".to_string(), &mut desc, &enums, None);
    plain("n", PType::Int32).compile_go("M".to_string(), &mut desc, &enums, None);
    let kinds: Vec<i32> = desc.field.iter().map(|f| f.kind).collect();
    assert_eq!(kinds, vec![14, 14, 11, 5]);
    assert_eq!(desc.field[0].type_ref, Some(".Color".to_string()));
    assert_eq!(desc.field[1].label, 3);
    assert_eq!(desc.field[3].type_ref, None);
}
