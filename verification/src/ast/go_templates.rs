//! The fixed text of generated Go files, around the parts computed from a schema.
use vstd::prelude::*;

verus! {

/// The head of a generated Go file: the source it comes from, its package and imports.
pub open spec fn go_header(source_file: Seq<char>, package: Seq<char>, imports: Seq<char>) -> Seq<char> {
    "// Code generated by yapbc. DO NOT EDIT.\n// source: "@ + source_file + "\n\npackage "@ + package + "\n\nimport (\n"@ + imports + "    protoreflect \"google.golang.org/protobuf/reflect/protoreflect\"\n\tprotoimpl \"google.golang.org/protobuf/runtime/protoimpl\"\n\treflect \"reflect\"\n\tsync \"sync\"\n\tunsafe \"unsafe\"\n)\n\nconst (\n\t// Verify that this generated code is sufficiently up-to-date.\n\t_ = protoimpl.EnforceVersion(20 - protoimpl.MinVersion)\n\t// Verify that runtime/protoimpl is sufficiently up-to-date.\n\t_ = protoimpl.EnforceVersion(protoimpl.MaxVersion - 20)\n)"@
}

/// Writes the head of a generated Go file.
pub fn go_header_text(source_file: &str, package: &str, imports: &str) -> (t: String)
    ensures
        t@ == go_header(source_file@, package@, imports@),
{
    let mut t = String::from_str("// Code generated by yapbc. DO NOT EDIT.\n// source: ");
    t.append(source_file);
    t.append("\n\npackage ");
    t.append(package);
    t.append("\n\nimport (\n");
    t.append(imports);
    t.append("    protoreflect \"google.golang.org/protobuf/reflect/protoreflect\"\n\tprotoimpl \"google.golang.org/protobuf/runtime/protoimpl\"\n\treflect \"reflect\"\n\tsync \"sync\"\n\tunsafe \"unsafe\"\n)\n\nconst (\n\t// Verify that this generated code is sufficiently up-to-date.\n\t_ = protoimpl.EnforceVersion(20 - protoimpl.MinVersion)\n\t// Verify that runtime/protoimpl is sufficiently up-to-date.\n\t_ = protoimpl.EnforceVersion(protoimpl.MaxVersion - 20)\n)");
    t
}

/// The Go code of an enum: its type, constants, name maps and methods.
pub open spec fn go_enum_block(name: Seq<char>, const_values: Seq<char>, name_map: Seq<char>, value_map: Seq<char>, msg_types: Seq<char>, i: Seq<char>, penums: Seq<char>) -> Seq<char> {
    "\n\ntype "@ + name + " int32\n\nconst (\n"@ + const_values + ")\n\n// Enum value maps for "@ + name + "\nvar (\n    "@ + name + "_name = map[int32]string{\n"@ + name_map + "    }\n    "@ + name + "_value = map[string]int32{\n"@ + value_map + "    }\n)\n\nfunc (x "@ + name + ") Enum() *"@ + name + " {\n    p := new("@ + name + ")\n\t*p = x\n\treturn p\n}\n\nfunc (x "@ + name + ") String() string {\n\treturn protoimpl.X.EnumStringOf(x.Descriptor(), protoreflect.EnumNumber(x))\n}\n\nfunc ("@ + name + ") Descriptor() protoreflect.EnumDescriptor {\n\treturn "@ + msg_types + "_enumTypes["@ + i + "].Descriptor()\n}\n\nfunc ("@ + name + ") Type() protoreflect.EnumType {\n\treturn &"@ + msg_types + "_enumTypes["@ + i + "]\n}\n\nfunc (x "@ + name + ") Number() protoreflect.EnumNumber {\n\treturn protoreflect.EnumNumber(x)\n}\n\n// Deprecated: Use "@ + name + ".Descriptor instead.\nfunc ("@ + name + ") EnumDescriptor() ([]byte, []int) {\n\treturn "@ + msg_types + "_rawDescGZIP(), []int{"@ + i + "}\n}\n\nvar "@ + msg_types + "_enumTypes = make([]protoimpl.EnumInfo, "@ + penums + ")\n\n"@
}

/// Writes the Go code of an enum.
pub fn go_enum_block_text(name: &str, const_values: &str, name_map: &str, value_map: &str, msg_types: &str, i: &str, penums: &str) -> (t: String)
    ensures
        t@ == go_enum_block(name@, const_values@, name_map@, value_map@, msg_types@, i@, penums@),
{
    let mut t = String::from_str("\n\ntype ");
    t.append(name);
    t.append(" int32\n\nconst (\n");
    t.append(const_values);
    t.append(")\n\n// Enum value maps for ");
    t.append(name);
    t.append("\nvar (\n    ");
    t.append(name);
    t.append("_name = map[int32]string{\n");
    t.append(name_map);
    t.append("    }\n    ");
    t.append(name);
    t.append("_value = map[string]int32{\n");
    t.append(value_map);
    t.append("    }\n)\n\nfunc (x ");
    t.append(name);
    t.append(") Enum() *");
    t.append(name);
    t.append(" {\n    p := new(");
    t.append(name);
    t.append(")\n\t*p = x\n\treturn p\n}\n\nfunc (x ");
    t.append(name);
    t.append(") String() string {\n\treturn protoimpl.X.EnumStringOf(x.Descriptor(), protoreflect.EnumNumber(x))\n}\n\nfunc (");
    t.append(name);
    t.append(") Descriptor() protoreflect.EnumDescriptor {\n\treturn ");
    t.append(msg_types);
    t.append("_enumTypes[");
    t.append(i);
    t.append("].Descriptor()\n}\n\nfunc (");
    t.append(name);
    t.append(") Type() protoreflect.EnumType {\n\treturn &");
    t.append(msg_types);
    t.append("_enumTypes[");
    t.append(i);
    t.append("]\n}\n\nfunc (x ");
    t.append(name);
    t.append(") Number() protoreflect.EnumNumber {\n\treturn protoreflect.EnumNumber(x)\n}\n\n// Deprecated: Use ");
    t.append(name);
    t.append(".Descriptor instead.\nfunc (");
    t.append(name);
    t.append(") EnumDescriptor() ([]byte, []int) {\n\treturn ");
    t.append(msg_types);
    t.append("_rawDescGZIP(), []int{");
    t.append(i);
    t.append("}\n}\n\nvar ");
    t.append(msg_types);
    t.append("_enumTypes = make([]protoimpl.EnumInfo, ");
    t.append(penums);
    t.append(")\n\n");
    t
}

/// The methods of a generated Go message struct, followed by its getters.
pub open spec fn go_message_block(message_name: Seq<char>, msg_types: Seq<char>, i: Seq<char>, getters: Seq<char>) -> Seq<char> {
    "\nfunc (x *"@ + message_name + ") Reset() {\n    *x = "@ + message_name + "{}\n\tmi := &"@ + msg_types + "_msgTypes["@ + i + "]\n\tms := protoimpl.X.MessageStateOf(protoimpl.Pointer(x))\n\tms.StoreMessageInfo(mi)\n}\n\nfunc (x *"@ + message_name + ") String() string {\n\treturn protoimpl.X.MessageStringOf(x)\n}\n\nfunc (*"@ + message_name + ") ProtoMessage() {}\n\nfunc (x *"@ + message_name + ") ProtoReflect() protoreflect.Message {\n\tmi := &"@ + msg_types + "_msgTypes["@ + i + "]\n\tif x != nil {\n\t\tms := protoimpl.X.MessageStateOf(protoimpl.Pointer(x))\n\t\tif ms.LoadMessageInfo() == nil {\n\t\t\tms.StoreMessageInfo(mi)\n\t\t}\n\t\treturn ms\n\t}\n\treturn mi.MessageOf(x)\n}\n\n// Deprecated: Use "@ + message_name + ".ProtoReflect.Descriptor instead.\nfunc (*"@ + message_name + ") Descriptor() ([]byte, []int) {\n\treturn "@ + msg_types + "_rawDescGZIP(), []int{"@ + i + "}\n}\n"@ + getters + "\n"@
}

/// Writes the methods and getters of a Go message struct.
pub fn go_message_block_text(message_name: &str, msg_types: &str, i: &str, getters: &str) -> (t: String)
    ensures
        t@ == go_message_block(message_name@, msg_types@, i@, getters@),
{
    let mut t = String::from_str("\nfunc (x *");
    t.append(message_name);
    t.append(") Reset() {\n    *x = ");
    t.append(message_name);
    t.append("{}\n\tmi := &");
    t.append(msg_types);
    t.append("_msgTypes[");
    t.append(i);
    t.append("]\n\tms := protoimpl.X.MessageStateOf(protoimpl.Pointer(x))\n\tms.StoreMessageInfo(mi)\n}\n\nfunc (x *");
    t.append(message_name);
    t.append(") String() string {\n\treturn protoimpl.X.MessageStringOf(x)\n}\n\nfunc (*");
    t.append(message_name);
    t.append(") ProtoMessage() {}\n\nfunc (x *");
    t.append(message_name);
    t.append(") ProtoReflect() protoreflect.Message {\n\tmi := &");
    t.append(msg_types);
    t.append("_msgTypes[");
    t.append(i);
    t.append("]\n\tif x != nil {\n\t\tms := protoimpl.X.MessageStateOf(protoimpl.Pointer(x))\n\t\tif ms.LoadMessageInfo() == nil {\n\t\t\tms.StoreMessageInfo(mi)\n\t\t}\n\t\treturn ms\n\t}\n\treturn mi.MessageOf(x)\n}\n\n// Deprecated: Use ");
    t.append(message_name);
    t.append(".ProtoReflect.Descriptor instead.\nfunc (*");
    t.append(message_name);
    t.append(") Descriptor() ([]byte, []int) {\n\treturn ");
    t.append(msg_types);
    t.append("_rawDescGZIP(), []int{");
    t.append(i);
    t.append("}\n}\n");
    t.append(getters);
    t.append("\n");
    t
}

/// The tail of a generated Go file: the raw descriptor, the type tables and the initialisation.
pub open spec fn go_final_block(cap_msg_type: Seq<char>, go_code: Seq<char>, msg_types: Seq<char>, messages: Seq<char>, go_types: Seq<char>, dep_idxs_code: Seq<char>, oneof_wrappers: Seq<char>, penums: Seq<char>, enum_types: Seq<char>) -> Seq<char> {
    "var "@ + cap_msg_type + " protoreflect.FileDescriptor\n\n"@ + go_code + "\n\nvar (\n    "@ + msg_types + "_rawDescOnce sync.Once\n    "@ + msg_types + "_rawDescData []byte\n)\n\nfunc "@ + msg_types + "_rawDescGZIP() []byte {\n\t"@ + msg_types + "_rawDescOnce.Do(func() {\n\t\t"@ + msg_types + "_rawDescData = protoimpl.X.CompressGZIP(unsafe.Slice(unsafe.StringData("@ + msg_types + "_rawDesc), len("@ + msg_types + "_rawDesc)))\n\t})\n\treturn "@ + msg_types + "_rawDescData\n}\n\nvar "@ + msg_types + "_msgTypes = make([]protoimpl.MessageInfo, "@ + messages + ")\nvar "@ + msg_types + "_goTypes = []any{\n"@ + go_types + "}\nvar "@ + msg_types + "_depIdxs = []int32{"@ + dep_idxs_code + "}\n\nfunc init() { "@ + msg_types + "_init() }\nfunc "@ + msg_types + "_init() {\n\tif "@ + cap_msg_type + " != nil {\n\t\treturn\n\t}\n"@ + oneof_wrappers + "\ttype x struct{}\n\tout := protoimpl.TypeBuilder{\n\t\tFile: protoimpl.DescBuilder{\n\t\t\tGoPackagePath: reflect.TypeOf(x{}).PkgPath(),\n\t\t\tRawDescriptor: unsafe.Slice(unsafe.StringData("@ + msg_types + "_rawDesc), len("@ + msg_types + "_rawDesc)),\n\t\t\tNumEnums:      "@ + penums + ",\n\t\t\tNumMessages:   "@ + messages + ",\n\t\t\tNumExtensions: 0,\n\t\t\tNumServices:   0,\n\t\t},\n\t\tGoTypes:           "@ + msg_types + "_goTypes,\n\t\tDependencyIndexes: "@ + msg_types + "_depIdxs,\n\t\tMessageInfos:      "@ + msg_types + "_msgTypes,\n        EnumInfos:         "@ + enum_types + ",\n\t}.Build()\n\t"@ + cap_msg_type + " = out.File\n\t"@ + msg_types + "_goTypes = nil\n\t"@ + msg_types + "_depIdxs = nil\n}\n        "@
}

/// Writes the tail of a generated Go file.
pub fn go_final_block_text(cap_msg_type: &str, go_code: &str, msg_types: &str, messages: &str, go_types: &str, dep_idxs_code: &str, oneof_wrappers: &str, penums: &str, enum_types: &str) -> (t: String)
    ensures
        t@ == go_final_block(cap_msg_type@, go_code@, msg_types@, messages@, go_types@, dep_idxs_code@, oneof_wrappers@, penums@, enum_types@),
{
    let mut t = String::from_str("var ");
    t.append(cap_msg_type);
    t.append(" protoreflect.FileDescriptor\n\n");
    t.append(go_code);
    t.append("\n\nvar (\n    ");
    t.append(msg_types);
    t.append("_rawDescOnce sync.Once\n    ");
    t.append(msg_types);
    t.append("_rawDescData []byte\n)\n\nfunc ");
    t.append(msg_types);
    t.append("_rawDescGZIP() []byte {\n\t");
    t.append(msg_types);
    t.append("_rawDescOnce.Do(func() {\n\t\t");
    t.append(msg_types);
    t.append("_rawDescData = protoimpl.X.CompressGZIP(unsafe.Slice(unsafe.StringData(");
    t.append(msg_types);
    t.append("_rawDesc), len(");
    t.append(msg_types);
    t.append("_rawDesc)))\n\t})\n\treturn ");
    t.append(msg_types);
    t.append("_rawDescData\n}\n\nvar ");
    t.append(msg_types);
    t.append("_msgTypes = make([]protoimpl.MessageInfo, ");
    t.append(messages);
    t.append(")\nvar ");
    t.append(msg_types);
    t.append("_goTypes = []any{\n");
    t.append(go_types);
    t.append("}\nvar ");
    t.append(msg_types);
    t.append("_depIdxs = []int32{");
    t.append(dep_idxs_code);
    t.append("}\n\nfunc init() { ");
    t.append(msg_types);
    t.append("_init() }\nfunc ");
    t.append(msg_types);
    t.append("_init() {\n\tif ");
    t.append(cap_msg_type);
    t.append(" != nil {\n\t\treturn\n\t}\n");
    t.append(oneof_wrappers);
    t.append("\ttype x struct{}\n\tout := protoimpl.TypeBuilder{\n\t\tFile: protoimpl.DescBuilder{\n\t\t\tGoPackagePath: reflect.TypeOf(x{}).PkgPath(),\n\t\t\tRawDescriptor: unsafe.Slice(unsafe.StringData(");
    t.append(msg_types);
    t.append("_rawDesc), len(");
    t.append(msg_types);
    t.append("_rawDesc)),\n\t\t\tNumEnums:      ");
    t.append(penums);
    t.append(",\n\t\t\tNumMessages:   ");
    t.append(messages);
    t.append(",\n\t\t\tNumExtensions: 0,\n\t\t\tNumServices:   0,\n\t\t},\n\t\tGoTypes:           ");
    t.append(msg_types);
    t.append("_goTypes,\n\t\tDependencyIndexes: ");
    t.append(msg_types);
    t.append("_depIdxs,\n\t\tMessageInfos:      ");
    t.append(msg_types);
    t.append("_msgTypes,\n        EnumInfos:         ");
    t.append(enum_types);
    t.append(",\n\t}.Build()\n\t");
    t.append(cap_msg_type);
    t.append(" = out.File\n\t");
    t.append(msg_types);
    t.append("_goTypes = nil\n\t");
    t.append(msg_types);
    t.append("_depIdxs = nil\n}\n        ");
    t
}

} // verus!
