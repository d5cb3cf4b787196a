use prost::Message as _;
use prost_types::{
    DescriptorProto, EnumDescriptorProto, EnumValueDescriptorProto, FieldDescriptorProto,
    FileDescriptorProto, FileOptions, OneofDescriptorProto,
};
use yapbc::ast::descriptor::{
    EnumDesc, EnumValueDesc, FieldDesc, FileDesc, FileOptionsDesc, MessageDesc,
};

fn field(name: &str, number: i32, label: i32, kind: i32, type_ref: Option<&str>, oneof: Option<i32>) -> (FieldDesc, FieldDescriptorProto) {
    let ours = FieldDesc {
        name: name.to_string(),
        number,
        label,
        kind,
        type_ref: type_ref.map(|t| t.to_string()),
        oneof_index: oneof,
        json_name: name.to_string(),
    };
    let mut theirs = FieldDescriptorProto {
        name: Some(name.to_string()),
        number: Some(number),
        label: Some(label),
        oneof_index: oneof,
        json_name: Some(name.to_string()),
        ..Default::default()
    };
    // The kind (field 5) and the referenced type (field 6) are merged in from
    // their own wire records, so that prost places them in its canonical order.
    let mut extra: Vec<u8> = Vec::new();
    prost::encoding::int32::encode(5, &kind, &mut extra);
    if let Some(t) = type_ref {
        prost::encoding::string::encode(6, &t.to_string(), &mut extra);
    }
    theirs.merge(extra.as_slice()).unwrap();
    (ours, theirs)
}

#[test]
fn field_descriptor_bytes_match_prost() {
    for (ours, theirs) in [
        field("a", 1, 1, 5, None, None),
        field("naïve_ñame", 300, 3, 11, Some(".Thing"), Some(0)),
        field("neg", -7, 1, 9, None, Some(-1)),
    ] {
        assert_eq!(ours.encode(), theirs.encode_to_vec());
    }
}

#[test]
fn file_descriptor_bytes_match_prost() {
    let (f1, p1) = field("id", 1, 1, 5, None, None);
    let (f2, p2) = field("tags", 2, 3, 9, None, None);
    let (f3, p3) = field("who", 3, 1, 11, Some(".Person"), Some(0));
    let ours = FileDesc {
        name: "dir/demo.proto".to_string(),
        message_type: vec![
            MessageDesc { name: "Demo".to_string(), field: vec![f1, f2, f3], oneof_decl: vec!["pick".to_string()] },
            MessageDesc { name: "Empty".to_string(), field: vec![], oneof_decl: vec![] },
        ],
        enum_type: vec![EnumDesc {
            name: "Color".to_string(),
            value: vec![
                EnumValueDesc { name: "RED".to_string(), number: 0 },
                EnumValueDesc { name: "BLUE".to_string(), number: 200 },
            ],
        }],
        options: FileOptionsDesc {
            java_outer_classname: "DemoProto".to_string(),
            java_multiple_files: true,
            go_package: "example.com/mod/demo".to_string(),
        },
        syntax: "proto3".to_string(),
    };
    let theirs = FileDescriptorProto {
        name: Some("dir/demo.proto".to_string()),
        message_type: vec![
            DescriptorProto {
                name: Some("Demo".to_string()),
                field: vec![p1, p2, p3],
                oneof_decl: vec![OneofDescriptorProto { name: Some("pick".to_string()), options: None }],
                ..Default::default()
            },
            DescriptorProto { name: Some("Empty".to_string()), ..Default::default() },
        ],
        enum_type: vec![EnumDescriptorProto {
            name: Some("Color".to_string()),
            value: vec![
                EnumValueDescriptorProto { name: Some("RED".to_string()), number: Some(0), options: None },
                EnumValueDescriptorProto { name: Some("BLUE".to_string()), number: Some(200), options: None },
            ],
            ..Default::default()
        }],
        options: Some(FileOptions {
            go_package: Some("example.com/mod/demo".to_string()),
            java_multiple_files: Some(true),
            java_outer_classname: Some("DemoProto".to_string()),
            ..Default::default()
        }),
        syntax: Some("proto3".to_string()),
        ..Default::default()
    };
    assert_eq!(ours.encode(), theirs.encode_to_vec());
}
