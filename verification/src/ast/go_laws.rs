//! Properties of the generated Go code: which table rows a message's methods use, what
//! the zero values of the field types are, and which directories the import block names.
use crate::ast::compile_go::{
    alt_descs,
    alt_wrappers,
    field_wrappers,
    file_desc_of,
    go_code,
    go_dep_idxs,
    go_field,
    go_msg_types,
    go_oneof_wrappers,
    go_string_const,
    go_default,
    go_message_state,
    go_enum_code,
    go_enum_consts,
    go_enum_names,
    go_enum_values,
    go_enums_state,
    go_import_state,
    go_message,
    go_messages_state,
    go_type,
    import_dir,
    names_enum,
    proto_type_number,
};
use crate::ast::go_templates::{go_enum_block, go_final_block, go_header, go_message_block};
use crate::ast::descriptor::{FieldDescView, FileDescView, file_desc_bytes};
use crate::ast::field::FieldView;
use crate::ast::message::{MessageView, MessagesView};
use crate::ast::penum::PEnumView;
use crate::ast::ptype::{PTypeView, ptype_is_nested, ptype_is_repeated, ptype_name};
use crate::util::pascal_case;
use crate::text::{decimal, trimmed_start};
use vstd::prelude::*;
use vstd::seq_lib::lemma_concat_associative;

verus! {

/// Whether `p` occurs in `t`.
pub open spec fn holds_text(t: Seq<char>, p: Seq<char>) -> bool {
    exists|i: int| 0 <= i && i + p.len() <= t.len() && #[trigger] t.subrange(i, i + p.len()) == p
}



pub(crate) proof fn lemma_holds_text_end(a: Seq<char>, p: Seq<char>)
    ensures
        holds_text(a + p, p),
{
    assert((a + p).subrange(a.len() as int, (a.len() + p.len()) as int) =~= p);
}

pub(crate) proof fn lemma_holds_text_extend(x: Seq<char>, y: Seq<char>, p: Seq<char>)
    requires
        holds_text(x, p),
    ensures
        holds_text(x + y, p),
{
    let j = choose|j: int| 0 <= j && j + p.len() <= x.len() && #[trigger] x.subrange(j, j + p.len()) == p;
    assert((x + y).subrange(j, j + p.len()) =~= p);
}

/// The `Reset` method of the Go message `name` from its name on, where it takes row `i`
/// of the message-info table `msg_types`.
pub open spec fn reset_row(name: Seq<char>, msg_types: Seq<char>, i: Seq<char>) -> Seq<char> {
    ") Reset() {\n    *x = "@ + name + "{}\n\tmi := &"@ + msg_types + "_msgTypes["@ + i
        + "]\n\tms := protoimpl.X.MessageStateOf(protoimpl.Pointer(x))\n\tms.StoreMessageInfo(mi)\n}\n\nfunc (x *"@
}

/// The head of the `ProtoReflect` method of a Go message, where it takes row `i` of the
/// message-info table `msg_types`.
pub open spec fn reflect_row(msg_types: Seq<char>, i: Seq<char>) -> Seq<char> {
    ") ProtoReflect() protoreflect.Message {\n\tmi := &"@ + msg_types + "_msgTypes["@ + i
        + "]\n\tif x != nil {\n\t\tms := protoimpl.X.MessageStateOf(protoimpl.Pointer(x))\n\t\tif ms.LoadMessageInfo() == nil {\n\t\t\tms.StoreMessageInfo(mi)\n\t\t}\n\t\treturn ms\n\t}\n\treturn mi.MessageOf(x)\n}\n\n// Deprecated: Use "@
}

/// The `Descriptor` method of a Go message, which returns its path `[]int{i}` in the
/// file descriptor.
pub open spec fn descriptor_path(msg_types: Seq<char>, i: Seq<char>) -> Seq<char> {
    ") Descriptor() ([]byte, []int) {\n\treturn "@ + msg_types + "_rawDescGZIP(), []int{"@ + i
        + "}\n}\n"@
}


proof fn lemma_message_block_rows(message_name: Seq<char>, msg_types: Seq<char>, i: Seq<char>, getters: Seq<char>)
    ensures
        holds_text(go_message_block(message_name, msg_types, i, getters), reset_row(message_name, msg_types, i)),
        holds_text(go_message_block(message_name, msg_types, i, getters), reflect_row(msg_types, i)),
        holds_text(go_message_block(message_name, msg_types, i, getters), descriptor_path(msg_types, i)),
{
    assert(holds_text(go_message_block(message_name, msg_types, i, getters), reset_row(message_name, msg_types, i))) by {
        lemma_concat_associative("\nfunc (x *"@ + message_name, ") Reset() {\n    *x = "@, message_name);
        lemma_concat_associative("\nfunc (x *"@ + message_name, ") Reset() {\n    *x = "@ + message_name, "{}\n\tmi := &"@);
        lemma_concat_associative("\nfunc (x *"@ + message_name, ") Reset() {\n    *x = "@ + message_name + "{}\n\tmi := &"@, msg_types);
        lemma_concat_associative("\nfunc (x *"@ + message_name, ") Reset() {\n    *x = "@ + message_name + "{}\n\tmi := &"@ + msg_types, "_msgTypes["@);
        lemma_concat_associative("\nfunc (x *"@ + message_name, ") Reset() {\n    *x = "@ + message_name + "{}\n\tmi := &"@ + msg_types + "_msgTypes["@, i);
        lemma_concat_associative("\nfunc (x *"@ + message_name, ") Reset() {\n    *x = "@ + message_name + "{}\n\tmi := &"@ + msg_types + "_msgTypes["@ + i, "]\n\tms := protoimpl.X.MessageStateOf(protoimpl.Pointer(x))\n\tms.StoreMessageInfo(mi)\n}\n\nfunc (x *"@);
        lemma_holds_text_end("\nfunc (x *"@ + message_name, ") Reset() {\n    *x = "@ + message_name + "{}\n\tmi := &"@ + msg_types + "_msgTypes["@ + i + "]\n\tms := protoimpl.X.MessageStateOf(protoimpl.Pointer(x))\n\tms.StoreMessageInfo(mi)\n}\n\nfunc (x *"@);
        lemma_holds_text_extend("\nfunc (x *"@ + message_name + ") Reset() {\n    *x = "@ + message_name + "{}\n\tmi := &"@ + msg_types + "_msgTypes["@ + i + "]\n\tms := protoimpl.X.MessageStateOf(protoimpl.Pointer(x))\n\tms.StoreMessageInfo(mi)\n}\n\nfunc (x *"@, message_name, ") Reset() {\n    *x = "@ + message_name + "{}\n\tmi := &"@ + msg_types + "_msgTypes["@ + i + "]\n\tms := protoimpl.X.MessageStateOf(protoimpl.Pointer(x))\n\tms.StoreMessageInfo(mi)\n}\n\nfunc (x *"@);
        lemma_holds_text_extend("\nfunc (x *"@ + message_name + ") Reset() {\n    *x = "@ + message_name + "{}\n\tmi := &"@ + msg_types + "_msgTypes["@ + i + "]\n\tms := protoimpl.X.MessageStateOf(protoimpl.Pointer(x))\n\tms.StoreMessageInfo(mi)\n}\n\nfunc (x *"@ + message_name, ") String() string {\n\treturn protoimpl.X.MessageStringOf(x)\n}\n\nfunc (*"@, ") Reset() {\n    *x = "@ + message_name + "{}\n\tmi := &"@ + msg_types + "_msgTypes["@ + i + "]\n\tms := protoimpl.X.MessageStateOf(protoimpl.Pointer(x))\n\tms.StoreMessageInfo(mi)\n}\n\nfunc (x *"@);
        lemma_holds_text_extend("\nfunc (x *"@ + message_name + ") Reset() {\n    *x = "@ + message_name + "{}\n\tmi := &"@ + msg_types + "_msgTypes["@ + i + "]\n\tms := protoimpl.X.MessageStateOf(protoimpl.Pointer(x))\n\tms.StoreMessageInfo(mi)\n}\n\nfunc (x *"@ + message_name + ") String() string {\n\treturn protoimpl.X.MessageStringOf(x)\n}\n\nfunc (*"@, message_name, ") Reset() {\n    *x = "@ + message_name + "{}\n\tmi := &"@ + msg_types + "_msgTypes["@ + i + "]\n\tms := protoimpl.X.MessageStateOf(protoimpl.Pointer(x))\n\tms.StoreMessageInfo(mi)\n}\n\nfunc (x *"@);
        lemma_holds_text_extend("\nfunc (x *"@ + message_name + ") Reset() {\n    *x = "@ + message_name + "{}\n\tmi := &"@ + msg_types + "_msgTypes["@ + i + "]\n\tms := protoimpl.X.MessageStateOf(protoimpl.Pointer(x))\n\tms.StoreMessageInfo(mi)\n}\n\nfunc (x *"@ + message_name + ") String() string {\n\treturn protoimpl.X.MessageStringOf(x)\n}\n\nfunc (*"@ + message_name, ") ProtoMessage() {}\n\nfunc (x *"@, ") Reset() {\n    *x = "@ + message_name + "{}\n\tmi := &"@ + msg_types + "_msgTypes["@ + i + "]\n\tms := protoimpl.X.MessageStateOf(protoimpl.Pointer(x))\n\tms.StoreMessageInfo(mi)\n}\n\nfunc (x *"@);
        lemma_holds_text_extend("\nfunc (x *"@ + message_name + ") Reset() {\n    *x = "@ + message_name + "{}\n\tmi := &"@ + msg_types + "_msgTypes["@ + i + "]\n\tms := protoimpl.X.MessageStateOf(protoimpl.Pointer(x))\n\tms.StoreMessageInfo(mi)\n}\n\nfunc (x *"@ + message_name + ") String() string {\n\treturn protoimpl.X.MessageStringOf(x)\n}\n\nfunc (*"@ + message_name + ") ProtoMessage() {}\n\nfunc (x *"@, message_name, ") Reset() {\n    *x = "@ + message_name + "{}\n\tmi := &"@ + msg_types + "_msgTypes["@ + i + "]\n\tms := protoimpl.X.MessageStateOf(protoimpl.Pointer(x))\n\tms.StoreMessageInfo(mi)\n}\n\nfunc (x *"@);
        lemma_holds_text_extend("\nfunc (x *"@ + message_name + ") Reset() {\n    *x = "@ + message_name + "{}\n\tmi := &"@ + msg_types + "_msgTypes["@ + i + "]\n\tms := protoimpl.X.MessageStateOf(protoimpl.Pointer(x))\n\tms.StoreMessageInfo(mi)\n}\n\nfunc (x *"@ + message_name + ") String() string {\n\treturn protoimpl.X.MessageStringOf(x)\n}\n\nfunc (*"@ + message_name + ") ProtoMessage() {}\n\nfunc (x *"@ + message_name, ") ProtoReflect() protoreflect.Message {\n\tmi := &"@, ") Reset() {\n    *x = "@ + message_name + "{}\n\tmi := &"@ + msg_types + "_msgTypes["@ + i + "]\n\tms := protoimpl.X.MessageStateOf(protoimpl.Pointer(x))\n\tms.StoreMessageInfo(mi)\n}\n\nfunc (x *"@);
        lemma_holds_text_extend("\nfunc (x *"@ + message_name + ") Reset() {\n    *x = "@ + message_name + "{}\n\tmi := &"@ + msg_types + "_msgTypes["@ + i + "]\n\tms := protoimpl.X.MessageStateOf(protoimpl.Pointer(x))\n\tms.StoreMessageInfo(mi)\n}\n\nfunc (x *"@ + message_name + ") String() string {\n\treturn protoimpl.X.MessageStringOf(x)\n}\n\nfunc (*"@ + message_name + ") ProtoMessage() {}\n\nfunc (x *"@ + message_name + ") ProtoReflect() protoreflect.Message {\n\tmi := &"@, msg_types, ") Reset() {\n    *x = "@ + message_name + "{}\n\tmi := &"@ + msg_types + "_msgTypes["@ + i + "]\n\tms := protoimpl.X.MessageStateOf(protoimpl.Pointer(x))\n\tms.StoreMessageInfo(mi)\n}\n\nfunc (x *"@);
        lemma_holds_text_extend("\nfunc (x *"@ + message_name + ") Reset() {\n    *x = "@ + message_name + "{}\n\tmi := &"@ + msg_types + "_msgTypes["@ + i + "]\n\tms := protoimpl.X.MessageStateOf(protoimpl.Pointer(x))\n\tms.StoreMessageInfo(mi)\n}\n\nfunc (x *"@ + message_name + ") String() string {\n\treturn protoimpl.X.MessageStringOf(x)\n}\n\nfunc (*"@ + message_name + ") ProtoMessage() {}\n\nfunc (x *"@ + message_name + ") ProtoReflect() protoreflect.Message {\n\tmi := &"@ + msg_types, "_msgTypes["@, ") Reset() {\n    *x = "@ + message_name + "{}\n\tmi := &"@ + msg_types + "_msgTypes["@ + i + "]\n\tms := protoimpl.X.MessageStateOf(protoimpl.Pointer(x))\n\tms.StoreMessageInfo(mi)\n}\n\nfunc (x *"@);
        lemma_holds_text_extend("\nfunc (x *"@ + message_name + ") Reset() {\n    *x = "@ + message_name + "{}\n\tmi := &"@ + msg_types + "_msgTypes["@ + i + "]\n\tms := protoimpl.X.MessageStateOf(protoimpl.Pointer(x))\n\tms.StoreMessageInfo(mi)\n}\n\nfunc (x *"@ + message_name + ") String() string {\n\treturn protoimpl.X.MessageStringOf(x)\n}\n\nfunc (*"@ + message_name + ") ProtoMessage() {}\n\nfunc (x *"@ + message_name + ") ProtoReflect() protoreflect.Message {\n\tmi := &"@ + msg_types + "_msgTypes["@, i, ") Reset() {\n    *x = "@ + message_name + "{}\n\tmi := &"@ + msg_types + "_msgTypes["@ + i + "]\n\tms := protoimpl.X.MessageStateOf(protoimpl.Pointer(x))\n\tms.StoreMessageInfo(mi)\n}\n\nfunc (x *"@);
        lemma_holds_text_extend("\nfunc (x *"@ + message_name + ") Reset() {\n    *x = "@ + message_name + "{}\n\tmi := &"@ + msg_types + "_msgTypes["@ + i + "]\n\tms := protoimpl.X.MessageStateOf(protoimpl.Pointer(x))\n\tms.StoreMessageInfo(mi)\n}\n\nfunc (x *"@ + message_name + ") String() string {\n\treturn protoimpl.X.MessageStringOf(x)\n}\n\nfunc (*"@ + message_name + ") ProtoMessage() {}\n\nfunc (x *"@ + message_name + ") ProtoReflect() protoreflect.Message {\n\tmi := &"@ + msg_types + "_msgTypes["@ + i, "]\n\tif x != nil {\n\t\tms := protoimpl.X.MessageStateOf(protoimpl.Pointer(x))\n\t\tif ms.LoadMessageInfo() == nil {\n\t\t\tms.StoreMessageInfo(mi)\n\t\t}\n\t\treturn ms\n\t}\n\treturn mi.MessageOf(x)\n}\n\n// Deprecated: Use "@, ") Reset() {\n    *x = "@ + message_name + "{}\n\tmi := &"@ + msg_types + "_msgTypes["@ + i + "]\n\tms := protoimpl.X.MessageStateOf(protoimpl.Pointer(x))\n\tms.StoreMessageInfo(mi)\n}\n\nfunc (x *"@);
        lemma_holds_text_extend("\nfunc (x *"@ + message_name + ") Reset() {\n    *x = "@ + message_name + "{}\n\tmi := &"@ + msg_types + "_msgTypes["@ + i + "]\n\tms := protoimpl.X.MessageStateOf(protoimpl.Pointer(x))\n\tms.StoreMessageInfo(mi)\n}\n\nfunc (x *"@ + message_name + ") String() string {\n\treturn protoimpl.X.MessageStringOf(x)\n}\n\nfunc (*"@ + message_name + ") ProtoMessage() {}\n\nfunc (x *"@ + message_name + ") ProtoReflect() protoreflect.Message {\n\tmi := &"@ + msg_types + "_msgTypes["@ + i + "]\n\tif x != nil {\n\t\tms := protoimpl.X.MessageStateOf(protoimpl.Pointer(x))\n\t\tif ms.LoadMessageInfo() == nil {\n\t\t\tms.StoreMessageInfo(mi)\n\t\t}\n\t\treturn ms\n\t}\n\treturn mi.MessageOf(x)\n}\n\n// Deprecated: Use "@, message_name, ") Reset() {\n    *x = "@ + message_name + "{}\n\tmi := &"@ + msg_types + "_msgTypes["@ + i + "]\n\tms := protoimpl.X.MessageStateOf(protoimpl.Pointer(x))\n\tms.StoreMessageInfo(mi)\n}\n\nfunc (x *"@);
        lemma_holds_text_extend("\nfunc (x *"@ + message_name + ") Reset() {\n    *x = "@ + message_name + "{}\n\tmi := &"@ + msg_types + "_msgTypes["@ + i + "]\n\tms := protoimpl.X.MessageStateOf(protoimpl.Pointer(x))\n\tms.StoreMessageInfo(mi)\n}\n\nfunc (x *"@ + message_name + ") String() string {\n\treturn protoimpl.X.MessageStringOf(x)\n}\n\nfunc (*"@ + message_name + ") ProtoMessage() {}\n\nfunc (x *"@ + message_name + ") ProtoReflect() protoreflect.Message {\n\tmi := &"@ + msg_types + "_msgTypes["@ + i + "]\n\tif x != nil {\n\t\tms := protoimpl.X.MessageStateOf(protoimpl.Pointer(x))\n\t\tif ms.LoadMessageInfo() == nil {\n\t\t\tms.StoreMessageInfo(mi)\n\t\t}\n\t\treturn ms\n\t}\n\treturn mi.MessageOf(x)\n}\n\n// Deprecated: Use "@ + message_name, ".ProtoReflect.Descriptor instead.\nfunc (*"@, ") Reset() {\n    *x = "@ + message_name + "{}\n\tmi := &"@ + msg_types + "_msgTypes["@ + i + "]\n\tms := protoimpl.X.MessageStateOf(protoimpl.Pointer(x))\n\tms.StoreMessageInfo(mi)\n}\n\nfunc (x *"@);
        lemma_holds_text_extend("\nfunc (x *"@ + message_name + ") Reset() {\n    *x = "@ + message_name + "{}\n\tmi := &"@ + msg_types + "_msgTypes["@ + i + "]\n\tms := protoimpl.X.MessageStateOf(protoimpl.Pointer(x))\n\tms.StoreMessageInfo(mi)\n}\n\nfunc (x *"@ + message_name + ") String() string {\n\treturn protoimpl.X.MessageStringOf(x)\n}\n\nfunc (*"@ + message_name + ") ProtoMessage() {}\n\nfunc (x *"@ + message_name + ") ProtoReflect() protoreflect.Message {\n\tmi := &"@ + msg_types + "_msgTypes["@ + i + "]\n\tif x != nil {\n\t\tms := protoimpl.X.MessageStateOf(protoimpl.Pointer(x))\n\t\tif ms.LoadMessageInfo() == nil {\n\t\t\tms.StoreMessageInfo(mi)\n\t\t}\n\t\treturn ms\n\t}\n\treturn mi.MessageOf(x)\n}\n\n// Deprecated: Use "@ + message_name + ".ProtoReflect.Descriptor instead.\nfunc (*"@, message_name, ") Reset() {\n    *x = "@ + message_name + "{}\n\tmi := &"@ + msg_types + "_msgTypes["@ + i + "]\n\tms := protoimpl.X.MessageStateOf(protoimpl.Pointer(x))\n\tms.StoreMessageInfo(mi)\n}\n\nfunc (x *"@);
        lemma_holds_text_extend("\nfunc (x *"@ + message_name + ") Reset() {\n    *x = "@ + message_name + "{}\n\tmi := &"@ + msg_types + "_msgTypes["@ + i + "]\n\tms := protoimpl.X.MessageStateOf(protoimpl.Pointer(x))\n\tms.StoreMessageInfo(mi)\n}\n\nfunc (x *"@ + message_name + ") String() string {\n\treturn protoimpl.X.MessageStringOf(x)\n}\n\nfunc (*"@ + message_name + ") ProtoMessage() {}\n\nfunc (x *"@ + message_name + ") ProtoReflect() protoreflect.Message {\n\tmi := &"@ + msg_types + "_msgTypes["@ + i + "]\n\tif x != nil {\n\t\tms := protoimpl.X.MessageStateOf(protoimpl.Pointer(x))\n\t\tif ms.LoadMessageInfo() == nil {\n\t\t\tms.StoreMessageInfo(mi)\n\t\t}\n\t\treturn ms\n\t}\n\treturn mi.MessageOf(x)\n}\n\n// Deprecated: Use "@ + message_name + ".ProtoReflect.Descriptor instead.\nfunc (*"@ + message_name, ") Descriptor() ([]byte, []int) {\n\treturn "@, ") Reset() {\n    *x = "@ + message_name + "{}\n\tmi := &"@ + msg_types + "_msgTypes["@ + i + "]\n\tms := protoimpl.X.MessageStateOf(protoimpl.Pointer(x))\n\tms.StoreMessageInfo(mi)\n}\n\nfunc (x *"@);
        lemma_holds_text_extend("\nfunc (x *"@ + message_name + ") Reset() {\n    *x = "@ + message_name + "{}\n\tmi := &"@ + msg_types + "_msgTypes["@ + i + "]\n\tms := protoimpl.X.MessageStateOf(protoimpl.Pointer(x))\n\tms.StoreMessageInfo(mi)\n}\n\nfunc (x *"@ + message_name + ") String() string {\n\treturn protoimpl.X.MessageStringOf(x)\n}\n\nfunc (*"@ + message_name + ") ProtoMessage() {}\n\nfunc (x *"@ + message_name + ") ProtoReflect() protoreflect.Message {\n\tmi := &"@ + msg_types + "_msgTypes["@ + i + "]\n\tif x != nil {\n\t\tms := protoimpl.X.MessageStateOf(protoimpl.Pointer(x))\n\t\tif ms.LoadMessageInfo() == nil {\n\t\t\tms.StoreMessageInfo(mi)\n\t\t}\n\t\treturn ms\n\t}\n\treturn mi.MessageOf(x)\n}\n\n// Deprecated: Use "@ + message_name + ".ProtoReflect.Descriptor instead.\nfunc (*"@ + message_name + ") Descriptor() ([]byte, []int) {\n\treturn "@, msg_types, ") Reset() {\n    *x = "@ + message_name + "{}\n\tmi := &"@ + msg_types + "_msgTypes["@ + i + "]\n\tms := protoimpl.X.MessageStateOf(protoimpl.Pointer(x))\n\tms.StoreMessageInfo(mi)\n}\n\nfunc (x *"@);
        lemma_holds_text_extend("\nfunc (x *"@ + message_name + ") Reset() {\n    *x = "@ + message_name + "{}\n\tmi := &"@ + msg_types + "_msgTypes["@ + i + "]\n\tms := protoimpl.X.MessageStateOf(protoimpl.Pointer(x))\n\tms.StoreMessageInfo(mi)\n}\n\nfunc (x *"@ + message_name + ") String() string {\n\treturn protoimpl.X.MessageStringOf(x)\n}\n\nfunc (*"@ + message_name + ") ProtoMessage() {}\n\nfunc (x *"@ + message_name + ") ProtoReflect() protoreflect.Message {\n\tmi := &"@ + msg_types + "_msgTypes["@ + i + "]\n\tif x != nil {\n\t\tms := protoimpl.X.MessageStateOf(protoimpl.Pointer(x))\n\t\tif ms.LoadMessageInfo() == nil {\n\t\t\tms.StoreMessageInfo(mi)\n\t\t}\n\t\treturn ms\n\t}\n\treturn mi.MessageOf(x)\n}\n\n// Deprecated: Use "@ + message_name + ".ProtoReflect.Descriptor instead.\nfunc (*"@ + message_name + ") Descriptor() ([]byte, []int) {\n\treturn "@ + msg_types, "_rawDescGZIP(), []int{"@, ") Reset() {\n    *x = "@ + message_name + "{}\n\tmi := &"@ + msg_types + "_msgTypes["@ + i + "]\n\tms := protoimpl.X.MessageStateOf(protoimpl.Pointer(x))\n\tms.StoreMessageInfo(mi)\n}\n\nfunc (x *"@);
        lemma_holds_text_extend("\nfunc (x *"@ + message_name + ") Reset() {\n    *x = "@ + message_name + "{}\n\tmi := &"@ + msg_types + "_msgTypes["@ + i + "]\n\tms := protoimpl.X.MessageStateOf(protoimpl.Pointer(x))\n\tms.StoreMessageInfo(mi)\n}\n\nfunc (x *"@ + message_name + ") String() string {\n\treturn protoimpl.X.MessageStringOf(x)\n}\n\nfunc (*"@ + message_name + ") ProtoMessage() {}\n\nfunc (x *"@ + message_name + ") ProtoReflect() protoreflect.Message {\n\tmi := &"@ + msg_types + "_msgTypes["@ + i + "]\n\tif x != nil {\n\t\tms := protoimpl.X.MessageStateOf(protoimpl.Pointer(x))\n\t\tif ms.LoadMessageInfo() == nil {\n\t\t\tms.StoreMessageInfo(mi)\n\t\t}\n\t\treturn ms\n\t}\n\treturn mi.MessageOf(x)\n}\n\n// Deprecated: Use "@ + message_name + ".ProtoReflect.Descriptor instead.\nfunc (*"@ + message_name + ") Descriptor() ([]byte, []int) {\n\treturn "@ + msg_types + "_rawDescGZIP(), []int{"@, i, ") Reset() {\n    *x = "@ + message_name + "{}\n\tmi := &"@ + msg_types + "_msgTypes["@ + i + "]\n\tms := protoimpl.X.MessageStateOf(protoimpl.Pointer(x))\n\tms.StoreMessageInfo(mi)\n}\n\nfunc (x *"@);
        lemma_holds_text_extend("\nfunc (x *"@ + message_name + ") Reset() {\n    *x = "@ + message_name + "{}\n\tmi := &"@ + msg_types + "_msgTypes["@ + i + "]\n\tms := protoimpl.X.MessageStateOf(protoimpl.Pointer(x))\n\tms.StoreMessageInfo(mi)\n}\n\nfunc (x *"@ + message_name + ") String() string {\n\treturn protoimpl.X.MessageStringOf(x)\n}\n\nfunc (*"@ + message_name + ") ProtoMessage() {}\n\nfunc (x *"@ + message_name + ") ProtoReflect() protoreflect.Message {\n\tmi := &"@ + msg_types + "_msgTypes["@ + i + "]\n\tif x != nil {\n\t\tms := protoimpl.X.MessageStateOf(protoimpl.Pointer(x))\n\t\tif ms.LoadMessageInfo() == nil {\n\t\t\tms.StoreMessageInfo(mi)\n\t\t}\n\t\treturn ms\n\t}\n\treturn mi.MessageOf(x)\n}\n\n// Deprecated: Use "@ + message_name + ".ProtoReflect.Descriptor instead.\nfunc (*"@ + message_name + ") Descriptor() ([]byte, []int) {\n\treturn "@ + msg_types + "_rawDescGZIP(), []int{"@ + i, "}\n}\n"@, ") Reset() {\n    *x = "@ + message_name + "{}\n\tmi := &"@ + msg_types + "_msgTypes["@ + i + "]\n\tms := protoimpl.X.MessageStateOf(protoimpl.Pointer(x))\n\tms.StoreMessageInfo(mi)\n}\n\nfunc (x *"@);
        lemma_holds_text_extend("\nfunc (x *"@ + message_name + ") Reset() {\n    *x = "@ + message_name + "{}\n\tmi := &"@ + msg_types + "_msgTypes["@ + i + "]\n\tms := protoimpl.X.MessageStateOf(protoimpl.Pointer(x))\n\tms.StoreMessageInfo(mi)\n}\n\nfunc (x *"@ + message_name + ") String() string {\n\treturn protoimpl.X.MessageStringOf(x)\n}\n\nfunc (*"@ + message_name + ") ProtoMessage() {}\n\nfunc (x *"@ + message_name + ") ProtoReflect() protoreflect.Message {\n\tmi := &"@ + msg_types + "_msgTypes["@ + i + "]\n\tif x != nil {\n\t\tms := protoimpl.X.MessageStateOf(protoimpl.Pointer(x))\n\t\tif ms.LoadMessageInfo() == nil {\n\t\t\tms.StoreMessageInfo(mi)\n\t\t}\n\t\treturn ms\n\t}\n\treturn mi.MessageOf(x)\n}\n\n// Deprecated: Use "@ + message_name + ".ProtoReflect.Descriptor instead.\nfunc (*"@ + message_name + ") Descriptor() ([]byte, []int) {\n\treturn "@ + msg_types + "_rawDescGZIP(), []int{"@ + i + "}\n}\n"@, getters, ") Reset() {\n    *x = "@ + message_name + "{}\n\tmi := &"@ + msg_types + "_msgTypes["@ + i + "]\n\tms := protoimpl.X.MessageStateOf(protoimpl.Pointer(x))\n\tms.StoreMessageInfo(mi)\n}\n\nfunc (x *"@);
        lemma_holds_text_extend("\nfunc (x *"@ + message_name + ") Reset() {\n    *x = "@ + message_name + "{}\n\tmi := &"@ + msg_types + "_msgTypes["@ + i + "]\n\tms := protoimpl.X.MessageStateOf(protoimpl.Pointer(x))\n\tms.StoreMessageInfo(mi)\n}\n\nfunc (x *"@ + message_name + ") String() string {\n\treturn protoimpl.X.MessageStringOf(x)\n}\n\nfunc (*"@ + message_name + ") ProtoMessage() {}\n\nfunc (x *"@ + message_name + ") ProtoReflect() protoreflect.Message {\n\tmi := &"@ + msg_types + "_msgTypes["@ + i + "]\n\tif x != nil {\n\t\tms := protoimpl.X.MessageStateOf(protoimpl.Pointer(x))\n\t\tif ms.LoadMessageInfo() == nil {\n\t\t\tms.StoreMessageInfo(mi)\n\t\t}\n\t\treturn ms\n\t}\n\treturn mi.MessageOf(x)\n}\n\n// Deprecated: Use "@ + message_name + ".ProtoReflect.Descriptor instead.\nfunc (*"@ + message_name + ") Descriptor() ([]byte, []int) {\n\treturn "@ + msg_types + "_rawDescGZIP(), []int{"@ + i + "}\n}\n"@ + getters, "\n"@, ") Reset() {\n    *x = "@ + message_name + "{}\n\tmi := &"@ + msg_types + "_msgTypes["@ + i + "]\n\tms := protoimpl.X.MessageStateOf(protoimpl.Pointer(x))\n\tms.StoreMessageInfo(mi)\n}\n\nfunc (x *"@);
    }
    assert(holds_text(go_message_block(message_name, msg_types, i, getters), reflect_row(msg_types, i))) by {
        lemma_concat_associative("\nfunc (x *"@ + message_name + ") Reset() {\n    *x = "@ + message_name + "{}\n\tmi := &"@ + msg_types + "_msgTypes["@ + i + "]\n\tms := protoimpl.X.MessageStateOf(protoimpl.Pointer(x))\n\tms.StoreMessageInfo(mi)\n}\n\nfunc (x *"@ + message_name + ") String() string {\n\treturn protoimpl.X.MessageStringOf(x)\n}\n\nfunc (*"@ + message_name + ") ProtoMessage() {}\n\nfunc (x *"@ + message_name, ") ProtoReflect() protoreflect.Message {\n\tmi := &"@, msg_types);
        lemma_concat_associative("\nfunc (x *"@ + message_name + ") Reset() {\n    *x = "@ + message_name + "{}\n\tmi := &"@ + msg_types + "_msgTypes["@ + i + "]\n\tms := protoimpl.X.MessageStateOf(protoimpl.Pointer(x))\n\tms.StoreMessageInfo(mi)\n}\n\nfunc (x *"@ + message_name + ") String() string {\n\treturn protoimpl.X.MessageStringOf(x)\n}\n\nfunc (*"@ + message_name + ") ProtoMessage() {}\n\nfunc (x *"@ + message_name, ") ProtoReflect() protoreflect.Message {\n\tmi := &"@ + msg_types, "_msgTypes["@);
        lemma_concat_associative("\nfunc (x *"@ + message_name + ") Reset() {\n    *x = "@ + message_name + "{}\n\tmi := &"@ + msg_types + "_msgTypes["@ + i + "]\n\tms := protoimpl.X.MessageStateOf(protoimpl.Pointer(x))\n\tms.StoreMessageInfo(mi)\n}\n\nfunc (x *"@ + message_name + ") String() string {\n\treturn protoimpl.X.MessageStringOf(x)\n}\n\nfunc (*"@ + message_name + ") ProtoMessage() {}\n\nfunc (x *"@ + message_name, ") ProtoReflect() protoreflect.Message {\n\tmi := &"@ + msg_types + "_msgTypes["@, i);
        lemma_concat_associative("\nfunc (x *"@ + message_name + ") Reset() {\n    *x = "@ + message_name + "{}\n\tmi := &"@ + msg_types + "_msgTypes["@ + i + "]\n\tms := protoimpl.X.MessageStateOf(protoimpl.Pointer(x))\n\tms.StoreMessageInfo(mi)\n}\n\nfunc (x *"@ + message_name + ") String() string {\n\treturn protoimpl.X.MessageStringOf(x)\n}\n\nfunc (*"@ + message_name + ") ProtoMessage() {}\n\nfunc (x *"@ + message_name, ") ProtoReflect() protoreflect.Message {\n\tmi := &"@ + msg_types + "_msgTypes["@ + i, "]\n\tif x != nil {\n\t\tms := protoimpl.X.MessageStateOf(protoimpl.Pointer(x))\n\t\tif ms.LoadMessageInfo() == nil {\n\t\t\tms.StoreMessageInfo(mi)\n\t\t}\n\t\treturn ms\n\t}\n\treturn mi.MessageOf(x)\n}\n\n// Deprecated: Use "@);
        lemma_holds_text_end("\nfunc (x *"@ + message_name + ") Reset() {\n    *x = "@ + message_name + "{}\n\tmi := &"@ + msg_types + "_msgTypes["@ + i + "]\n\tms := protoimpl.X.MessageStateOf(protoimpl.Pointer(x))\n\tms.StoreMessageInfo(mi)\n}\n\nfunc (x *"@ + message_name + ") String() string {\n\treturn protoimpl.X.MessageStringOf(x)\n}\n\nfunc (*"@ + message_name + ") ProtoMessage() {}\n\nfunc (x *"@ + message_name, ") ProtoReflect() protoreflect.Message {\n\tmi := &"@ + msg_types + "_msgTypes["@ + i + "]\n\tif x != nil {\n\t\tms := protoimpl.X.MessageStateOf(protoimpl.Pointer(x))\n\t\tif ms.LoadMessageInfo() == nil {\n\t\t\tms.StoreMessageInfo(mi)\n\t\t}\n\t\treturn ms\n\t}\n\treturn mi.MessageOf(x)\n}\n\n// Deprecated: Use "@);
        lemma_holds_text_extend("\nfunc (x *"@ + message_name + ") Reset() {\n    *x = "@ + message_name + "{}\n\tmi := &"@ + msg_types + "_msgTypes["@ + i + "]\n\tms := protoimpl.X.MessageStateOf(protoimpl.Pointer(x))\n\tms.StoreMessageInfo(mi)\n}\n\nfunc (x *"@ + message_name + ") String() string {\n\treturn protoimpl.X.MessageStringOf(x)\n}\n\nfunc (*"@ + message_name + ") ProtoMessage() {}\n\nfunc (x *"@ + message_name + ") ProtoReflect() protoreflect.Message {\n\tmi := &"@ + msg_types + "_msgTypes["@ + i + "]\n\tif x != nil {\n\t\tms := protoimpl.X.MessageStateOf(protoimpl.Pointer(x))\n\t\tif ms.LoadMessageInfo() == nil {\n\t\t\tms.StoreMessageInfo(mi)\n\t\t}\n\t\treturn ms\n\t}\n\treturn mi.MessageOf(x)\n}\n\n// Deprecated: Use "@, message_name, ") ProtoReflect() protoreflect.Message {\n\tmi := &"@ + msg_types + "_msgTypes["@ + i + "]\n\tif x != nil {\n\t\tms := protoimpl.X.MessageStateOf(protoimpl.Pointer(x))\n\t\tif ms.LoadMessageInfo() == nil {\n\t\t\tms.StoreMessageInfo(mi)\n\t\t}\n\t\treturn ms\n\t}\n\treturn mi.MessageOf(x)\n}\n\n// Deprecated: Use "@);
        lemma_holds_text_extend("\nfunc (x *"@ + message_name + ") Reset() {\n    *x = "@ + message_name + "{}\n\tmi := &"@ + msg_types + "_msgTypes["@ + i + "]\n\tms := protoimpl.X.MessageStateOf(protoimpl.Pointer(x))\n\tms.StoreMessageInfo(mi)\n}\n\nfunc (x *"@ + message_name + ") String() string {\n\treturn protoimpl.X.MessageStringOf(x)\n}\n\nfunc (*"@ + message_name + ") ProtoMessage() {}\n\nfunc (x *"@ + message_name + ") ProtoReflect() protoreflect.Message {\n\tmi := &"@ + msg_types + "_msgTypes["@ + i + "]\n\tif x != nil {\n\t\tms := protoimpl.X.MessageStateOf(protoimpl.Pointer(x))\n\t\tif ms.LoadMessageInfo() == nil {\n\t\t\tms.StoreMessageInfo(mi)\n\t\t}\n\t\treturn ms\n\t}\n\treturn mi.MessageOf(x)\n}\n\n// Deprecated: Use "@ + message_name, ".ProtoReflect.Descriptor instead.\nfunc (*"@, ") ProtoReflect() protoreflect.Message {\n\tmi := &"@ + msg_types + "_msgTypes["@ + i + "]\n\tif x != nil {\n\t\tms := protoimpl.X.MessageStateOf(protoimpl.Pointer(x))\n\t\tif ms.LoadMessageInfo() == nil {\n\t\t\tms.StoreMessageInfo(mi)\n\t\t}\n\t\treturn ms\n\t}\n\treturn mi.MessageOf(x)\n}\n\n// Deprecated: Use "@);
        lemma_holds_text_extend("\nfunc (x *"@ + message_name + ") Reset() {\n    *x = "@ + message_name + "{}\n\tmi := &"@ + msg_types + "_msgTypes["@ + i + "]\n\tms := protoimpl.X.MessageStateOf(protoimpl.Pointer(x))\n\tms.StoreMessageInfo(mi)\n}\n\nfunc (x *"@ + message_name + ") String() string {\n\treturn protoimpl.X.MessageStringOf(x)\n}\n\nfunc (*"@ + message_name + ") ProtoMessage() {}\n\nfunc (x *"@ + message_name + ") ProtoReflect() protoreflect.Message {\n\tmi := &"@ + msg_types + "_msgTypes["@ + i + "]\n\tif x != nil {\n\t\tms := protoimpl.X.MessageStateOf(protoimpl.Pointer(x))\n\t\tif ms.LoadMessageInfo() == nil {\n\t\t\tms.StoreMessageInfo(mi)\n\t\t}\n\t\treturn ms\n\t}\n\treturn mi.MessageOf(x)\n}\n\n// Deprecated: Use "@ + message_name + ".ProtoReflect.Descriptor instead.\nfunc (*"@, message_name, ") ProtoReflect() protoreflect.Message {\n\tmi := &"@ + msg_types + "_msgTypes["@ + i + "]\n\tif x != nil {\n\t\tms := protoimpl.X.MessageStateOf(protoimpl.Pointer(x))\n\t\tif ms.LoadMessageInfo() == nil {\n\t\t\tms.StoreMessageInfo(mi)\n\t\t}\n\t\treturn ms\n\t}\n\treturn mi.MessageOf(x)\n}\n\n// Deprecated: Use "@);
        lemma_holds_text_extend("\nfunc (x *"@ + message_name + ") Reset() {\n    *x = "@ + message_name + "{}\n\tmi := &"@ + msg_types + "_msgTypes["@ + i + "]\n\tms := protoimpl.X.MessageStateOf(protoimpl.Pointer(x))\n\tms.StoreMessageInfo(mi)\n}\n\nfunc (x *"@ + message_name + ") String() string {\n\treturn protoimpl.X.MessageStringOf(x)\n}\n\nfunc (*"@ + message_name + ") ProtoMessage() {}\n\nfunc (x *"@ + message_name + ") ProtoReflect() protoreflect.Message {\n\tmi := &"@ + msg_types + "_msgTypes["@ + i + "]\n\tif x != nil {\n\t\tms := protoimpl.X.MessageStateOf(protoimpl.Pointer(x))\n\t\tif ms.LoadMessageInfo() == nil {\n\t\t\tms.StoreMessageInfo(mi)\n\t\t}\n\t\treturn ms\n\t}\n\treturn mi.MessageOf(x)\n}\n\n// Deprecated: Use "@ + message_name + ".ProtoReflect.Descriptor instead.\nfunc (*"@ + message_name, ") Descriptor() ([]byte, []int) {\n\treturn "@, ") ProtoReflect() protoreflect.Message {\n\tmi := &"@ + msg_types + "_msgTypes["@ + i + "]\n\tif x != nil {\n\t\tms := protoimpl.X.MessageStateOf(protoimpl.Pointer(x))\n\t\tif ms.LoadMessageInfo() == nil {\n\t\t\tms.StoreMessageInfo(mi)\n\t\t}\n\t\treturn ms\n\t}\n\treturn mi.MessageOf(x)\n}\n\n// Deprecated: Use "@);
        lemma_holds_text_extend("\nfunc (x *"@ + message_name + ") Reset() {\n    *x = "@ + message_name + "{}\n\tmi := &"@ + msg_types + "_msgTypes["@ + i + "]\n\tms := protoimpl.X.MessageStateOf(protoimpl.Pointer(x))\n\tms.StoreMessageInfo(mi)\n}\n\nfunc (x *"@ + message_name + ") String() string {\n\treturn protoimpl.X.MessageStringOf(x)\n}\n\nfunc (*"@ + message_name + ") ProtoMessage() {}\n\nfunc (x *"@ + message_name + ") ProtoReflect() protoreflect.Message {\n\tmi := &"@ + msg_types + "_msgTypes["@ + i + "]\n\tif x != nil {\n\t\tms := protoimpl.X.MessageStateOf(protoimpl.Pointer(x))\n\t\tif ms.LoadMessageInfo() == nil {\n\t\t\tms.StoreMessageInfo(mi)\n\t\t}\n\t\treturn ms\n\t}\n\treturn mi.MessageOf(x)\n}\n\n// Deprecated: Use "@ + message_name + ".ProtoReflect.Descriptor instead.\nfunc (*"@ + message_name + ") Descriptor() ([]byte, []int) {\n\treturn "@, msg_types, ") ProtoReflect() protoreflect.Message {\n\tmi := &"@ + msg_types + "_msgTypes["@ + i + "]\n\tif x != nil {\n\t\tms := protoimpl.X.MessageStateOf(protoimpl.Pointer(x))\n\t\tif ms.LoadMessageInfo() == nil {\n\t\t\tms.StoreMessageInfo(mi)\n\t\t}\n\t\treturn ms\n\t}\n\treturn mi.MessageOf(x)\n}\n\n// Deprecated: Use "@);
        lemma_holds_text_extend("\nfunc (x *"@ + message_name + ") Reset() {\n    *x = "@ + message_name + "{}\n\tmi := &"@ + msg_types + "_msgTypes["@ + i + "]\n\tms := protoimpl.X.MessageStateOf(protoimpl.Pointer(x))\n\tms.StoreMessageInfo(mi)\n}\n\nfunc (x *"@ + message_name + ") String() string {\n\treturn protoimpl.X.MessageStringOf(x)\n}\n\nfunc (*"@ + message_name + ") ProtoMessage() {}\n\nfunc (x *"@ + message_name + ") ProtoReflect() protoreflect.Message {\n\tmi := &"@ + msg_types + "_msgTypes["@ + i + "]\n\tif x != nil {\n\t\tms := protoimpl.X.MessageStateOf(protoimpl.Pointer(x))\n\t\tif ms.LoadMessageInfo() == nil {\n\t\t\tms.StoreMessageInfo(mi)\n\t\t}\n\t\treturn ms\n\t}\n\treturn mi.MessageOf(x)\n}\n\n// Deprecated: Use "@ + message_name + ".ProtoReflect.Descriptor instead.\nfunc (*"@ + message_name + ") Descriptor() ([]byte, []int) {\n\treturn "@ + msg_types, "_rawDescGZIP(), []int{"@, ") ProtoReflect() protoreflect.Message {\n\tmi := &"@ + msg_types + "_msgTypes["@ + i + "]\n\tif x != nil {\n\t\tms := protoimpl.X.MessageStateOf(protoimpl.Pointer(x))\n\t\tif ms.LoadMessageInfo() == nil {\n\t\t\tms.StoreMessageInfo(mi)\n\t\t}\n\t\treturn ms\n\t}\n\treturn mi.MessageOf(x)\n}\n\n// Deprecated: Use "@);
        lemma_holds_text_extend("\nfunc (x *"@ + message_name + ") Reset() {\n    *x = "@ + message_name + "{}\n\tmi := &"@ + msg_types + "_msgTypes["@ + i + "]\n\tms := protoimpl.X.MessageStateOf(protoimpl.Pointer(x))\n\tms.StoreMessageInfo(mi)\n}\n\nfunc (x *"@ + message_name + ") String() string {\n\treturn protoimpl.X.MessageStringOf(x)\n}\n\nfunc (*"@ + message_name + ") ProtoMessage() {}\n\nfunc (x *"@ + message_name + ") ProtoReflect() protoreflect.Message {\n\tmi := &"@ + msg_types + "_msgTypes["@ + i + "]\n\tif x != nil {\n\t\tms := protoimpl.X.MessageStateOf(protoimpl.Pointer(x))\n\t\tif ms.LoadMessageInfo() == nil {\n\t\t\tms.StoreMessageInfo(mi)\n\t\t}\n\t\treturn ms\n\t}\n\treturn mi.MessageOf(x)\n}\n\n// Deprecated: Use "@ + message_name + ".ProtoReflect.Descriptor instead.\nfunc (*"@ + message_name + ") Descriptor() ([]byte, []int) {\n\treturn "@ + msg_types + "_rawDescGZIP(), []int{"@, i, ") ProtoReflect() protoreflect.Message {\n\tmi := &"@ + msg_types + "_msgTypes["@ + i + "]\n\tif x != nil {\n\t\tms := protoimpl.X.MessageStateOf(protoimpl.Pointer(x))\n\t\tif ms.LoadMessageInfo() == nil {\n\t\t\tms.StoreMessageInfo(mi)\n\t\t}\n\t\treturn ms\n\t}\n\treturn mi.MessageOf(x)\n}\n\n// Deprecated: Use "@);
        lemma_holds_text_extend("\nfunc (x *"@ + message_name + ") Reset() {\n    *x = "@ + message_name + "{}\n\tmi := &"@ + msg_types + "_msgTypes["@ + i + "]\n\tms := protoimpl.X.MessageStateOf(protoimpl.Pointer(x))\n\tms.StoreMessageInfo(mi)\n}\n\nfunc (x *"@ + message_name + ") String() string {\n\treturn protoimpl.X.MessageStringOf(x)\n}\n\nfunc (*"@ + message_name + ") ProtoMessage() {}\n\nfunc (x *"@ + message_name + ") ProtoReflect() protoreflect.Message {\n\tmi := &"@ + msg_types + "_msgTypes["@ + i + "]\n\tif x != nil {\n\t\tms := protoimpl.X.MessageStateOf(protoimpl.Pointer(x))\n\t\tif ms.LoadMessageInfo() == nil {\n\t\t\tms.StoreMessageInfo(mi)\n\t\t}\n\t\treturn ms\n\t}\n\treturn mi.MessageOf(x)\n}\n\n// Deprecated: Use "@ + message_name + ".ProtoReflect.Descriptor instead.\nfunc (*"@ + message_name + ") Descriptor() ([]byte, []int) {\n\treturn "@ + msg_types + "_rawDescGZIP(), []int{"@ + i, "}\n}\n"@, ") ProtoReflect() protoreflect.Message {\n\tmi := &"@ + msg_types + "_msgTypes["@ + i + "]\n\tif x != nil {\n\t\tms := protoimpl.X.MessageStateOf(protoimpl.Pointer(x))\n\t\tif ms.LoadMessageInfo() == nil {\n\t\t\tms.StoreMessageInfo(mi)\n\t\t}\n\t\treturn ms\n\t}\n\treturn mi.MessageOf(x)\n}\n\n// Deprecated: Use "@);
        lemma_holds_text_extend("\nfunc (x *"@ + message_name + ") Reset() {\n    *x = "@ + message_name + "{}\n\tmi := &"@ + msg_types + "_msgTypes["@ + i + "]\n\tms := protoimpl.X.MessageStateOf(protoimpl.Pointer(x))\n\tms.StoreMessageInfo(mi)\n}\n\nfunc (x *"@ + message_name + ") String() string {\n\treturn protoimpl.X.MessageStringOf(x)\n}\n\nfunc (*"@ + message_name + ") ProtoMessage() {}\n\nfunc (x *"@ + message_name + ") ProtoReflect() protoreflect.Message {\n\tmi := &"@ + msg_types + "_msgTypes["@ + i + "]\n\tif x != nil {\n\t\tms := protoimpl.X.MessageStateOf(protoimpl.Pointer(x))\n\t\tif ms.LoadMessageInfo() == nil {\n\t\t\tms.StoreMessageInfo(mi)\n\t\t}\n\t\treturn ms\n\t}\n\treturn mi.MessageOf(x)\n}\n\n// Deprecated: Use "@ + message_name + ".ProtoReflect.Descriptor instead.\nfunc (*"@ + message_name + ") Descriptor() ([]byte, []int) {\n\treturn "@ + msg_types + "_rawDescGZIP(), []int{"@ + i + "}\n}\n"@, getters, ") ProtoReflect() protoreflect.Message {\n\tmi := &"@ + msg_types + "_msgTypes["@ + i + "]\n\tif x != nil {\n\t\tms := protoimpl.X.MessageStateOf(protoimpl.Pointer(x))\n\t\tif ms.LoadMessageInfo() == nil {\n\t\t\tms.StoreMessageInfo(mi)\n\t\t}\n\t\treturn ms\n\t}\n\treturn mi.MessageOf(x)\n}\n\n// Deprecated: Use "@);
        lemma_holds_text_extend("\nfunc (x *"@ + message_name + ") Reset() {\n    *x = "@ + message_name + "{}\n\tmi := &"@ + msg_types + "_msgTypes["@ + i + "]\n\tms := protoimpl.X.MessageStateOf(protoimpl.Pointer(x))\n\tms.StoreMessageInfo(mi)\n}\n\nfunc (x *"@ + message_name + ") String() string {\n\treturn protoimpl.X.MessageStringOf(x)\n}\n\nfunc (*"@ + message_name + ") ProtoMessage() {}\n\nfunc (x *"@ + message_name + ") ProtoReflect() protoreflect.Message {\n\tmi := &"@ + msg_types + "_msgTypes["@ + i + "]\n\tif x != nil {\n\t\tms := protoimpl.X.MessageStateOf(protoimpl.Pointer(x))\n\t\tif ms.LoadMessageInfo() == nil {\n\t\t\tms.StoreMessageInfo(mi)\n\t\t}\n\t\treturn ms\n\t}\n\treturn mi.MessageOf(x)\n}\n\n// Deprecated: Use "@ + message_name + ".ProtoReflect.Descriptor instead.\nfunc (*"@ + message_name + ") Descriptor() ([]byte, []int) {\n\treturn "@ + msg_types + "_rawDescGZIP(), []int{"@ + i + "}\n}\n"@ + getters, "\n"@, ") ProtoReflect() protoreflect.Message {\n\tmi := &"@ + msg_types + "_msgTypes["@ + i + "]\n\tif x != nil {\n\t\tms := protoimpl.X.MessageStateOf(protoimpl.Pointer(x))\n\t\tif ms.LoadMessageInfo() == nil {\n\t\t\tms.StoreMessageInfo(mi)\n\t\t}\n\t\treturn ms\n\t}\n\treturn mi.MessageOf(x)\n}\n\n// Deprecated: Use "@);
    }
    assert(holds_text(go_message_block(message_name, msg_types, i, getters), descriptor_path(msg_types, i))) by {
        lemma_concat_associative("\nfunc (x *"@ + message_name + ") Reset() {\n    *x = "@ + message_name + "{}\n\tmi := &"@ + msg_types + "_msgTypes["@ + i + "]\n\tms := protoimpl.X.MessageStateOf(protoimpl.Pointer(x))\n\tms.StoreMessageInfo(mi)\n}\n\nfunc (x *"@ + message_name + ") String() string {\n\treturn protoimpl.X.MessageStringOf(x)\n}\n\nfunc (*"@ + message_name + ") ProtoMessage() {}\n\nfunc (x *"@ + message_name + ") ProtoReflect() protoreflect.Message {\n\tmi := &"@ + msg_types + "_msgTypes["@ + i + "]\n\tif x != nil {\n\t\tms := protoimpl.X.MessageStateOf(protoimpl.Pointer(x))\n\t\tif ms.LoadMessageInfo() == nil {\n\t\t\tms.StoreMessageInfo(mi)\n\t\t}\n\t\treturn ms\n\t}\n\treturn mi.MessageOf(x)\n}\n\n// Deprecated: Use "@ + message_name + ".ProtoReflect.Descriptor instead.\nfunc (*"@ + message_name, ") Descriptor() ([]byte, []int) {\n\treturn "@, msg_types);
        lemma_concat_associative("\nfunc (x *"@ + message_name + ") Reset() {\n    *x = "@ + message_name + "{}\n\tmi := &"@ + msg_types + "_msgTypes["@ + i + "]\n\tms := protoimpl.X.MessageStateOf(protoimpl.Pointer(x))\n\tms.StoreMessageInfo(mi)\n}\n\nfunc (x *"@ + message_name + ") String() string {\n\treturn protoimpl.X.MessageStringOf(x)\n}\n\nfunc (*"@ + message_name + ") ProtoMessage() {}\n\nfunc (x *"@ + message_name + ") ProtoReflect() protoreflect.Message {\n\tmi := &"@ + msg_types + "_msgTypes["@ + i + "]\n\tif x != nil {\n\t\tms := protoimpl.X.MessageStateOf(protoimpl.Pointer(x))\n\t\tif ms.LoadMessageInfo() == nil {\n\t\t\tms.StoreMessageInfo(mi)\n\t\t}\n\t\treturn ms\n\t}\n\treturn mi.MessageOf(x)\n}\n\n// Deprecated: Use "@ + message_name + ".ProtoReflect.Descriptor instead.\nfunc (*"@ + message_name, ") Descriptor() ([]byte, []int) {\n\treturn "@ + msg_types, "_rawDescGZIP(), []int{"@);
        lemma_concat_associative("\nfunc (x *"@ + message_name + ") Reset() {\n    *x = "@ + message_name + "{}\n\tmi := &"@ + msg_types + "_msgTypes["@ + i + "]\n\tms := protoimpl.X.MessageStateOf(protoimpl.Pointer(x))\n\tms.StoreMessageInfo(mi)\n}\n\nfunc (x *"@ + message_name + ") String() string {\n\treturn protoimpl.X.MessageStringOf(x)\n}\n\nfunc (*"@ + message_name + ") ProtoMessage() {}\n\nfunc (x *"@ + message_name + ") ProtoReflect() protoreflect.Message {\n\tmi := &"@ + msg_types + "_msgTypes["@ + i + "]\n\tif x != nil {\n\t\tms := protoimpl.X.MessageStateOf(protoimpl.Pointer(x))\n\t\tif ms.LoadMessageInfo() == nil {\n\t\t\tms.StoreMessageInfo(mi)\n\t\t}\n\t\treturn ms\n\t}\n\treturn mi.MessageOf(x)\n}\n\n// Deprecated: Use "@ + message_name + ".ProtoReflect.Descriptor instead.\nfunc (*"@ + message_name, ") Descriptor() ([]byte, []int) {\n\treturn "@ + msg_types + "_rawDescGZIP(), []int{"@, i);
        lemma_concat_associative("\nfunc (x *"@ + message_name + ") Reset() {\n    *x = "@ + message_name + "{}\n\tmi := &"@ + msg_types + "_msgTypes["@ + i + "]\n\tms := protoimpl.X.MessageStateOf(protoimpl.Pointer(x))\n\tms.StoreMessageInfo(mi)\n}\n\nfunc (x *"@ + message_name + ") String() string {\n\treturn protoimpl.X.MessageStringOf(x)\n}\n\nfunc (*"@ + message_name + ") ProtoMessage() {}\n\nfunc (x *"@ + message_name + ") ProtoReflect() protoreflect.Message {\n\tmi := &"@ + msg_types + "_msgTypes["@ + i + "]\n\tif x != nil {\n\t\tms := protoimpl.X.MessageStateOf(protoimpl.Pointer(x))\n\t\tif ms.LoadMessageInfo() == nil {\n\t\t\tms.StoreMessageInfo(mi)\n\t\t}\n\t\treturn ms\n\t}\n\treturn mi.MessageOf(x)\n}\n\n// Deprecated: Use "@ + message_name + ".ProtoReflect.Descriptor instead.\nfunc (*"@ + message_name, ") Descriptor() ([]byte, []int) {\n\treturn "@ + msg_types + "_rawDescGZIP(), []int{"@ + i, "}\n}\n"@);
        lemma_holds_text_end("\nfunc (x *"@ + message_name + ") Reset() {\n    *x = "@ + message_name + "{}\n\tmi := &"@ + msg_types + "_msgTypes["@ + i + "]\n\tms := protoimpl.X.MessageStateOf(protoimpl.Pointer(x))\n\tms.StoreMessageInfo(mi)\n}\n\nfunc (x *"@ + message_name + ") String() string {\n\treturn protoimpl.X.MessageStringOf(x)\n}\n\nfunc (*"@ + message_name + ") ProtoMessage() {}\n\nfunc (x *"@ + message_name + ") ProtoReflect() protoreflect.Message {\n\tmi := &"@ + msg_types + "_msgTypes["@ + i + "]\n\tif x != nil {\n\t\tms := protoimpl.X.MessageStateOf(protoimpl.Pointer(x))\n\t\tif ms.LoadMessageInfo() == nil {\n\t\t\tms.StoreMessageInfo(mi)\n\t\t}\n\t\treturn ms\n\t}\n\treturn mi.MessageOf(x)\n}\n\n// Deprecated: Use "@ + message_name + ".ProtoReflect.Descriptor instead.\nfunc (*"@ + message_name, ") Descriptor() ([]byte, []int) {\n\treturn "@ + msg_types + "_rawDescGZIP(), []int{"@ + i + "}\n}\n"@);
        lemma_holds_text_extend("\nfunc (x *"@ + message_name + ") Reset() {\n    *x = "@ + message_name + "{}\n\tmi := &"@ + msg_types + "_msgTypes["@ + i + "]\n\tms := protoimpl.X.MessageStateOf(protoimpl.Pointer(x))\n\tms.StoreMessageInfo(mi)\n}\n\nfunc (x *"@ + message_name + ") String() string {\n\treturn protoimpl.X.MessageStringOf(x)\n}\n\nfunc (*"@ + message_name + ") ProtoMessage() {}\n\nfunc (x *"@ + message_name + ") ProtoReflect() protoreflect.Message {\n\tmi := &"@ + msg_types + "_msgTypes["@ + i + "]\n\tif x != nil {\n\t\tms := protoimpl.X.MessageStateOf(protoimpl.Pointer(x))\n\t\tif ms.LoadMessageInfo() == nil {\n\t\t\tms.StoreMessageInfo(mi)\n\t\t}\n\t\treturn ms\n\t}\n\treturn mi.MessageOf(x)\n}\n\n// Deprecated: Use "@ + message_name + ".ProtoReflect.Descriptor instead.\nfunc (*"@ + message_name + ") Descriptor() ([]byte, []int) {\n\treturn "@ + msg_types + "_rawDescGZIP(), []int{"@ + i + "}\n}\n"@, getters, ") Descriptor() ([]byte, []int) {\n\treturn "@ + msg_types + "_rawDescGZIP(), []int{"@ + i + "}\n}\n"@);
        lemma_holds_text_extend("\nfunc (x *"@ + message_name + ") Reset() {\n    *x = "@ + message_name + "{}\n\tmi := &"@ + msg_types + "_msgTypes["@ + i + "]\n\tms := protoimpl.X.MessageStateOf(protoimpl.Pointer(x))\n\tms.StoreMessageInfo(mi)\n}\n\nfunc (x *"@ + message_name + ") String() string {\n\treturn protoimpl.X.MessageStringOf(x)\n}\n\nfunc (*"@ + message_name + ") ProtoMessage() {}\n\nfunc (x *"@ + message_name + ") ProtoReflect() protoreflect.Message {\n\tmi := &"@ + msg_types + "_msgTypes["@ + i + "]\n\tif x != nil {\n\t\tms := protoimpl.X.MessageStateOf(protoimpl.Pointer(x))\n\t\tif ms.LoadMessageInfo() == nil {\n\t\t\tms.StoreMessageInfo(mi)\n\t\t}\n\t\treturn ms\n\t}\n\treturn mi.MessageOf(x)\n}\n\n// Deprecated: Use "@ + message_name + ".ProtoReflect.Descriptor instead.\nfunc (*"@ + message_name + ") Descriptor() ([]byte, []int) {\n\treturn "@ + msg_types + "_rawDescGZIP(), []int{"@ + i + "}\n}\n"@ + getters, "\n"@, ") Descriptor() ([]byte, []int) {\n\treturn "@ + msg_types + "_rawDescGZIP(), []int{"@ + i + "}\n}\n"@);
    }
}

/// In the Go code of a schema, the code of the `k`-th message, counting messages only,
/// follows the code of the messages before it and uses row `k` of the message-info table:
/// its `Reset` and `ProtoReflect` methods take `msgTypes[k]` and its `Descriptor` method
/// returns the path `[]int{k}`. So every such row is below the number of messages, which
/// is the length of that table.
pub proof fn lemma_go_message_rows(s: MessagesView, msg_types: Seq<char>, k: int)
    requires
        0 <= k < s.messages.len(),
    ensures
        ({
            let before = go_messages_state(s, msg_types, k).code;
            let after = go_messages_state(s, msg_types, k + 1).code;
            let own = after.skip(before.len() as int);
            let i = decimal(k as nat);
            &&& before.len() <= after.len()
            &&& after.take(before.len() as int) == before
            &&& holds_text(own, reset_row(s.messages[k].name, msg_types, i))
            &&& holds_text(own, reflect_row(msg_types, i))
            &&& holds_text(own, descriptor_path(msg_types, i))
        }),
{
    let before = go_messages_state(s, msg_types, k).code;
    let after = go_messages_state(s, msg_types, k + 1).code;
    let m = s.messages[k];
    let (struct_code, getters, desc, deps) = go_message(m, s.penums.map_values(|e: PEnumView| e.name));
    let block = go_message_block(m.name, msg_types, decimal(k as nat), getters);
    assert(after == before + struct_code + block);
    assert(after.skip(before.len() as int) =~= struct_code + block);
    assert(after.take(before.len() as int) =~= before);
    lemma_message_block_rows(m.name, msg_types, decimal(k as nat), getters);
    let own = struct_code + block;
    let i = decimal(k as nat);
    assert forall|p: Seq<char>| holds_text(block, p) implies holds_text(own, p) by {
        let j = choose|j: int| 0 <= j && j + p.len() <= block.len() && #[trigger] block.subrange(j, j + p.len()) == p;
        assert(own.subrange(struct_code.len() + j, struct_code.len() + j + p.len()) =~= p);
    }
    assert(holds_text(block, reset_row(m.name, msg_types, i)));
    assert(holds_text(block, reflect_row(msg_types, i)));
    assert(holds_text(block, descriptor_path(msg_types, i)));
}

/// The zero value of a Go type: `0` for `int32`, `""` for `string`, and `nil` for the
/// slices, pointers and interfaces that the other field types are.
pub open spec fn go_zero_value(g: Seq<char>) -> Seq<char> {
    if g == "int32"@ {
        "0"@
    } else if g == "string"@ {
        "\"\""@
    } else {
        "nil"@
    }
}

/// The value that a Go getter returns for an unset field is the zero value of the
/// field's Go type; in particular every repeated type is a slice, and its getter returns
/// `nil`.
pub proof fn lemma_go_default_is_zero(t: PTypeView)
    ensures
        go_default(t) == go_zero_value(go_type(t)),
        ptype_is_repeated(t) ==> go_type(t).len() >= 2 && go_type(t).take(2) == "[]"@ && go_default(t)
            == "nil"@,
{
    reveal_strlit("int32");
    reveal_strlit("string");
    reveal_strlit("[]int32");
    reveal_strlit("[]string");
    reveal_strlit("[]*");
    reveal_strlit("*");
    reveal_strlit("[]");
    match t {
        PTypeView::RepeatedInt32 => {
            assert(go_type(t)[0] != "int32"@[0]);
            assert(go_type(t)[0] != "string"@[0]);
            assert(go_type(t).take(2) =~= "[]"@);
        },
        PTypeView::RepeatedPString => {
            assert(go_type(t)[0] != "int32"@[0]);
            assert(go_type(t)[0] != "string"@[0]);
            assert(go_type(t).take(2) =~= "[]"@);
        },
        PTypeView::Custom(n) => {
            assert(go_type(t)[0] != "int32"@[0]);
            assert(go_type(t)[0] != "string"@[0]);
        },
        PTypeView::RepeatedCustom(n) => {
            assert(go_type(t)[0] != "int32"@[0]);
            assert(go_type(t)[0] != "string"@[0]);
            assert(go_type(t).take(2) =~= "[]"@);
        },
        PTypeView::Oneof => {
            assert(go_type(t).len() == 0);
        },
        _ => {
            assert("int32"@[0] != "string"@[0]);
        },
    }
}

/// The Go import line for the directory `dir` of the Go module `module`.
pub open spec fn import_line(dir: Seq<char>, module: Seq<char>) -> Seq<char> {
    "    "@ + dir + " \""@ + module + "/"@ + dir + "\"\n"@
}

/// The Go import lines for the directories `dirs`, in their order.
pub open spec fn import_lines(dirs: Seq<Seq<char>>, module: Seq<char>) -> Seq<char>
    decreases dirs.len(),
{
    if dirs.len() == 0 {
        seq![]
    } else {
        import_lines(dirs.drop_last(), module) + import_line(dirs.last(), module)
    }
}

/// The directory of the import `imp`.
pub open spec fn dir_of(imp: Seq<char>) -> Seq<char> {
    import_dir(imp)->0
}

/// Whether `dirs` are the directories of the first `n` imports of `s` other than `own`,
/// each once.
pub open spec fn imported_dirs(dirs: Seq<Seq<char>>, s: MessagesView, n: int, own: Seq<char>) -> bool {
    &&& dirs.no_duplicates()
    &&& forall|i: int|
        0 <= i < dirs.len() ==> #[trigger] dirs[i] != own && exists|j: int|
            0 <= j < n && dirs[i] == dir_of(#[trigger] s.imports[j])
    &&& forall|j: int| 0 <= j < n && dir_of(#[trigger] s.imports[j]) != own ==> dirs.contains(dir_of(s.imports[j]))
}

proof fn lemma_import_state_dirs(
    s: MessagesView,
    n: int,
    parent: Seq<char>,
    module: Seq<char>,
    all: Seq<(Seq<char>, MessagesView)>,
)
    requires
        0 <= n <= s.imports.len(),
    ensures
        ({
            let st = go_import_state(s, n, parent, module, all);
            &&& st.block == import_lines(st.used, module)
            &&& imported_dirs(st.used, s, n, trimmed_start(parent, "\\"@))
        }),
    decreases n,
{
    let own = trimmed_start(parent, "\\"@);
    if n == 0 {
        let st = go_import_state(s, n, parent, module, all);
        assert(st.used.len() == 0);
    } else {
        lemma_import_state_dirs(s, n - 1, parent, module, all);
        let prev = go_import_state(s, n - 1, parent, module, all);
        let st = go_import_state(s, n, parent, module, all);
        let imp = s.imports[n - 1];
        let tmp = import_dir(imp)->0;
        assert(tmp == dir_of(s.imports[n - 1]));
        let fresh = !prev.used.contains(tmp) && tmp != own;
        if fresh {
            assert(st.used == prev.used.push(tmp));
            assert(st.used.drop_last() =~= prev.used);
            assert(st.block == import_lines(st.used, module));
            assert forall|i: int| 0 <= i < st.used.len() implies #[trigger] st.used[i] != own
                && exists|j: int| 0 <= j < n && st.used[i] == dir_of(#[trigger] s.imports[j]) by {
                if i < prev.used.len() {
                    assert(st.used[i] == prev.used[i]);
                    let j0 = choose|j: int| 0 <= j < n - 1 && prev.used[i] == dir_of(#[trigger] s.imports[j]);
                    assert(0 <= j0 < n && st.used[i] == dir_of(s.imports[j0]));
                } else {
                    assert(st.used[i] == dir_of(s.imports[n - 1]));
                }
            }
            assert forall|j: int| 0 <= j < n && dir_of(#[trigger] s.imports[j]) != own implies st.used.contains(
                dir_of(s.imports[j]),
            ) by {
                if j < n - 1 {
                    let k = choose|k: int| 0 <= k < prev.used.len() && prev.used[k] == dir_of(s.imports[j]);
                    assert(st.used[k] == prev.used[k]);
                } else {
                    assert(st.used[prev.used.len() as int] == tmp);
                }
            }
            assert(st.used.no_duplicates()) by {
                assert forall|a: int, b: int| 0 <= a < st.used.len() && 0 <= b < st.used.len() && a != b
                    implies st.used[a] != st.used[b] by {
                    if a < prev.used.len() && b < prev.used.len() {
                        assert(st.used[a] == prev.used[a]);
                        assert(st.used[b] == prev.used[b]);
                    } else if a < prev.used.len() {
                        assert(st.used[a] == prev.used[a]);
                        assert(prev.used.contains(prev.used[a]));
                    } else {
                        assert(st.used[b] == prev.used[b]);
                        assert(prev.used.contains(prev.used[b]));
                    }
                }
            }
        } else {
            assert(st.used == prev.used);
            assert(st.block == prev.block);
            assert forall|i: int| 0 <= i < st.used.len() implies #[trigger] st.used[i] != own
                && exists|j: int| 0 <= j < n && st.used[i] == dir_of(#[trigger] s.imports[j]) by {
                let j0 = choose|j: int| 0 <= j < n - 1 && prev.used[i] == dir_of(#[trigger] s.imports[j]);
                assert(0 <= j0 < n && st.used[i] == dir_of(s.imports[j0]));
            }
            assert forall|j: int| 0 <= j < n && dir_of(#[trigger] s.imports[j]) != own implies st.used.contains(
                dir_of(s.imports[j]),
            ) by {
                if j == n - 1 {
                    assert(prev.used.contains(tmp));
                }
            }
        }
    }
}

/// The Go import block of a schema compiled in the directory `parent` holds one line per
/// imported directory: the directories of its imports other than its own, each named
/// once, however many imports share it.
pub proof fn lemma_go_import_block(
    s: MessagesView,
    parent: Seq<char>,
    module: Seq<char>,
    all: Seq<(Seq<char>, MessagesView)>,
)
    ensures
        exists|dirs: Seq<Seq<char>>|
            go_import_state(s, s.imports.len() as int, parent, module, all).block == import_lines(
                dirs,
                module,
            ) && #[trigger] imported_dirs(dirs, s, s.imports.len() as int, trimmed_start(parent, "\\"@)),
{
    lemma_import_state_dirs(s, s.imports.len() as int, parent, module, all);
    let st = go_import_state(s, s.imports.len() as int, parent, module, all);
    assert(imported_dirs(st.used, s, s.imports.len() as int, trimmed_start(parent, "\\"@)));
}

/// The `Descriptor` method of the Go enum type, which takes row `i` of the enum-info
/// table `msg_types`.
pub open spec fn enum_descriptor_row(msg_types: Seq<char>, i: Seq<char>) -> Seq<char> {
    ") Descriptor() protoreflect.EnumDescriptor {\n\treturn "@ + msg_types + "_enumTypes["@ + i + "].Descriptor()\n}\n\nfunc ("@
}

/// The `Type` method of the Go enum type, which takes row `i` of the enum-info table
/// `msg_types`.
pub open spec fn enum_type_row(msg_types: Seq<char>, i: Seq<char>) -> Seq<char> {
    ") Type() protoreflect.EnumType {\n\treturn &"@ + msg_types + "_enumTypes["@ + i + "]\n}\n\nfunc (x "@
}

/// The `EnumDescriptor` method of the Go enum type, which returns its path `[]int{i}` in
/// the file descriptor.
pub open spec fn enum_path(msg_types: Seq<char>, i: Seq<char>) -> Seq<char> {
    ") EnumDescriptor() ([]byte, []int) {\n\treturn "@ + msg_types + "_rawDescGZIP(), []int{"@ + i + "}\n}\n\nvar "@
}

proof fn lemma_enum_block_rows(
    name: Seq<char>,
    const_values: Seq<char>,
    name_map: Seq<char>,
    value_map: Seq<char>,
    msg_types: Seq<char>,
    i: Seq<char>,
    penums: Seq<char>,
)
    ensures
        holds_text(go_enum_block(name, const_values, name_map, value_map, msg_types, i, penums), enum_descriptor_row(msg_types, i)),
        holds_text(go_enum_block(name, const_values, name_map, value_map, msg_types, i, penums), enum_type_row(msg_types, i)),
        holds_text(go_enum_block(name, const_values, name_map, value_map, msg_types, i, penums), enum_path(msg_types, i)),
{
    assert(holds_text(go_enum_block(name, const_values, name_map, value_map, msg_types, i, penums), enum_descriptor_row(msg_types, i))) by {
        lemma_concat_associative("\n\ntype "@ + name + " int32\n\nconst (\n"@ + const_values + ")\n\n// Enum value maps for "@ + name + "\nvar (\n    "@ + name + "_name = map[int32]string{\n"@ + name_map + "    }\n    "@ + name + "_value = map[string]int32{\n"@ + value_map + "    }\n)\n\nfunc (x "@ + name + ") Enum() *"@ + name + " {\n    p := new("@ + name + ")\n\t*p = x\n\treturn p\n}\n\nfunc (x "@ + name + ") String() string {\n\treturn protoimpl.X.EnumStringOf(x.Descriptor(), protoreflect.EnumNumber(x))\n}\n\nfunc ("@ + name, ") Descriptor() protoreflect.EnumDescriptor {\n\treturn "@, msg_types);
        lemma_concat_associative("\n\ntype "@ + name + " int32\n\nconst (\n"@ + const_values + ")\n\n// Enum value maps for "@ + name + "\nvar (\n    "@ + name + "_name = map[int32]string{\n"@ + name_map + "    }\n    "@ + name + "_value = map[string]int32{\n"@ + value_map + "    }\n)\n\nfunc (x "@ + name + ") Enum() *"@ + name + " {\n    p := new("@ + name + ")\n\t*p = x\n\treturn p\n}\n\nfunc (x "@ + name + ") String() string {\n\treturn protoimpl.X.EnumStringOf(x.Descriptor(), protoreflect.EnumNumber(x))\n}\n\nfunc ("@ + name, ") Descriptor() protoreflect.EnumDescriptor {\n\treturn "@ + msg_types, "_enumTypes["@);
        lemma_concat_associative("\n\ntype "@ + name + " int32\n\nconst (\n"@ + const_values + ")\n\n// Enum value maps for "@ + name + "\nvar (\n    "@ + name + "_name = map[int32]string{\n"@ + name_map + "    }\n    "@ + name + "_value = map[string]int32{\n"@ + value_map + "    }\n)\n\nfunc (x "@ + name + ") Enum() *"@ + name + " {\n    p := new("@ + name + ")\n\t*p = x\n\treturn p\n}\n\nfunc (x "@ + name + ") String() string {\n\treturn protoimpl.X.EnumStringOf(x.Descriptor(), protoreflect.EnumNumber(x))\n}\n\nfunc ("@ + name, ") Descriptor() protoreflect.EnumDescriptor {\n\treturn "@ + msg_types + "_enumTypes["@, i);
        lemma_concat_associative("\n\ntype "@ + name + " int32\n\nconst (\n"@ + const_values + ")\n\n// Enum value maps for "@ + name + "\nvar (\n    "@ + name + "_name = map[int32]string{\n"@ + name_map + "    }\n    "@ + name + "_value = map[string]int32{\n"@ + value_map + "    }\n)\n\nfunc (x "@ + name + ") Enum() *"@ + name + " {\n    p := new("@ + name + ")\n\t*p = x\n\treturn p\n}\n\nfunc (x "@ + name + ") String() string {\n\treturn protoimpl.X.EnumStringOf(x.Descriptor(), protoreflect.EnumNumber(x))\n}\n\nfunc ("@ + name, ") Descriptor() protoreflect.EnumDescriptor {\n\treturn "@ + msg_types + "_enumTypes["@ + i, "].Descriptor()\n}\n\nfunc ("@);
        lemma_holds_text_end("\n\ntype "@ + name + " int32\n\nconst (\n"@ + const_values + ")\n\n// Enum value maps for "@ + name + "\nvar (\n    "@ + name + "_name = map[int32]string{\n"@ + name_map + "    }\n    "@ + name + "_value = map[string]int32{\n"@ + value_map + "    }\n)\n\nfunc (x "@ + name + ") Enum() *"@ + name + " {\n    p := new("@ + name + ")\n\t*p = x\n\treturn p\n}\n\nfunc (x "@ + name + ") String() string {\n\treturn protoimpl.X.EnumStringOf(x.Descriptor(), protoreflect.EnumNumber(x))\n}\n\nfunc ("@ + name, ") Descriptor() protoreflect.EnumDescriptor {\n\treturn "@ + msg_types + "_enumTypes["@ + i + "].Descriptor()\n}\n\nfunc ("@);
        lemma_holds_text_extend("\n\ntype "@ + name + " int32\n\nconst (\n"@ + const_values + ")\n\n// Enum value maps for "@ + name + "\nvar (\n    "@ + name + "_name = map[int32]string{\n"@ + name_map + "    }\n    "@ + name + "_value = map[string]int32{\n"@ + value_map + "    }\n)\n\nfunc (x "@ + name + ") Enum() *"@ + name + " {\n    p := new("@ + name + ")\n\t*p = x\n\treturn p\n}\n\nfunc (x "@ + name + ") String() string {\n\treturn protoimpl.X.EnumStringOf(x.Descriptor(), protoreflect.EnumNumber(x))\n}\n\nfunc ("@ + name + ") Descriptor() protoreflect.EnumDescriptor {\n\treturn "@ + msg_types + "_enumTypes["@ + i + "].Descriptor()\n}\n\nfunc ("@, name, ") Descriptor() protoreflect.EnumDescriptor {\n\treturn "@ + msg_types + "_enumTypes["@ + i + "].Descriptor()\n}\n\nfunc ("@);
        lemma_holds_text_extend("\n\ntype "@ + name + " int32\n\nconst (\n"@ + const_values + ")\n\n// Enum value maps for "@ + name + "\nvar (\n    "@ + name + "_name = map[int32]string{\n"@ + name_map + "    }\n    "@ + name + "_value = map[string]int32{\n"@ + value_map + "    }\n)\n\nfunc (x "@ + name + ") Enum() *"@ + name + " {\n    p := new("@ + name + ")\n\t*p = x\n\treturn p\n}\n\nfunc (x "@ + name + ") String() string {\n\treturn protoimpl.X.EnumStringOf(x.Descriptor(), protoreflect.EnumNumber(x))\n}\n\nfunc ("@ + name + ") Descriptor() protoreflect.EnumDescriptor {\n\treturn "@ + msg_types + "_enumTypes["@ + i + "].Descriptor()\n}\n\nfunc ("@ + name, ") Type() protoreflect.EnumType {\n\treturn &"@, ") Descriptor() protoreflect.EnumDescriptor {\n\treturn "@ + msg_types + "_enumTypes["@ + i + "].Descriptor()\n}\n\nfunc ("@);
        lemma_holds_text_extend("\n\ntype "@ + name + " int32\n\nconst (\n"@ + const_values + ")\n\n// Enum value maps for "@ + name + "\nvar (\n    "@ + name + "_name = map[int32]string{\n"@ + name_map + "    }\n    "@ + name + "_value = map[string]int32{\n"@ + value_map + "    }\n)\n\nfunc (x "@ + name + ") Enum() *"@ + name + " {\n    p := new("@ + name + ")\n\t*p = x\n\treturn p\n}\n\nfunc (x "@ + name + ") String() string {\n\treturn protoimpl.X.EnumStringOf(x.Descriptor(), protoreflect.EnumNumber(x))\n}\n\nfunc ("@ + name + ") Descriptor() protoreflect.EnumDescriptor {\n\treturn "@ + msg_types + "_enumTypes["@ + i + "].Descriptor()\n}\n\nfunc ("@ + name + ") Type() protoreflect.EnumType {\n\treturn &"@, msg_types, ") Descriptor() protoreflect.EnumDescriptor {\n\treturn "@ + msg_types + "_enumTypes["@ + i + "].Descriptor()\n}\n\nfunc ("@);
        lemma_holds_text_extend("\n\ntype "@ + name + " int32\n\nconst (\n"@ + const_values + ")\n\n// Enum value maps for "@ + name + "\nvar (\n    "@ + name + "_name = map[int32]string{\n"@ + name_map + "    }\n    "@ + name + "_value = map[string]int32{\n"@ + value_map + "    }\n)\n\nfunc (x "@ + name + ") Enum() *"@ + name + " {\n    p := new("@ + name + ")\n\t*p = x\n\treturn p\n}\n\nfunc (x "@ + name + ") String() string {\n\treturn protoimpl.X.EnumStringOf(x.Descriptor(), protoreflect.EnumNumber(x))\n}\n\nfunc ("@ + name + ") Descriptor() protoreflect.EnumDescriptor {\n\treturn "@ + msg_types + "_enumTypes["@ + i + "].Descriptor()\n}\n\nfunc ("@ + name + ") Type() protoreflect.EnumType {\n\treturn &"@ + msg_types, "_enumTypes["@, ") Descriptor() protoreflect.EnumDescriptor {\n\treturn "@ + msg_types + "_enumTypes["@ + i + "].Descriptor()\n}\n\nfunc ("@);
        lemma_holds_text_extend("\n\ntype "@ + name + " int32\n\nconst (\n"@ + const_values + ")\n\n// Enum value maps for "@ + name + "\nvar (\n    "@ + name + "_name = map[int32]string{\n"@ + name_map + "    }\n    "@ + name + "_value = map[string]int32{\n"@ + value_map + "    }\n)\n\nfunc (x "@ + name + ") Enum() *"@ + name + " {\n    p := new("@ + name + ")\n\t*p = x\n\treturn p\n}\n\nfunc (x "@ + name + ") String() string {\n\treturn protoimpl.X.EnumStringOf(x.Descriptor(), protoreflect.EnumNumber(x))\n}\n\nfunc ("@ + name + ") Descriptor() protoreflect.EnumDescriptor {\n\treturn "@ + msg_types + "_enumTypes["@ + i + "].Descriptor()\n}\n\nfunc ("@ + name + ") Type() protoreflect.EnumType {\n\treturn &"@ + msg_types + "_enumTypes["@, i, ") Descriptor() protoreflect.EnumDescriptor {\n\treturn "@ + msg_types + "_enumTypes["@ + i + "].Descriptor()\n}\n\nfunc ("@);
        lemma_holds_text_extend("\n\ntype "@ + name + " int32\n\nconst (\n"@ + const_values + ")\n\n// Enum value maps for "@ + name + "\nvar (\n    "@ + name + "_name = map[int32]string{\n"@ + name_map + "    }\n    "@ + name + "_value = map[string]int32{\n"@ + value_map + "    }\n)\n\nfunc (x "@ + name + ") Enum() *"@ + name + " {\n    p := new("@ + name + ")\n\t*p = x\n\treturn p\n}\n\nfunc (x "@ + name + ") String() string {\n\treturn protoimpl.X.EnumStringOf(x.Descriptor(), protoreflect.EnumNumber(x))\n}\n\nfunc ("@ + name + ") Descriptor() protoreflect.EnumDescriptor {\n\treturn "@ + msg_types + "_enumTypes["@ + i + "].Descriptor()\n}\n\nfunc ("@ + name + ") Type() protoreflect.EnumType {\n\treturn &"@ + msg_types + "_enumTypes["@ + i, "]\n}\n\nfunc (x "@, ") Descriptor() protoreflect.EnumDescriptor {\n\treturn "@ + msg_types + "_enumTypes["@ + i + "].Descriptor()\n}\n\nfunc ("@);
        lemma_holds_text_extend("\n\ntype "@ + name + " int32\n\nconst (\n"@ + const_values + ")\n\n// Enum value maps for "@ + name + "\nvar (\n    "@ + name + "_name = map[int32]string{\n"@ + name_map + "    }\n    "@ + name + "_value = map[string]int32{\n"@ + value_map + "    }\n)\n\nfunc (x "@ + name + ") Enum() *"@ + name + " {\n    p := new("@ + name + ")\n\t*p = x\n\treturn p\n}\n\nfunc (x "@ + name + ") String() string {\n\treturn protoimpl.X.EnumStringOf(x.Descriptor(), protoreflect.EnumNumber(x))\n}\n\nfunc ("@ + name + ") Descriptor() protoreflect.EnumDescriptor {\n\treturn "@ + msg_types + "_enumTypes["@ + i + "].Descriptor()\n}\n\nfunc ("@ + name + ") Type() protoreflect.EnumType {\n\treturn &"@ + msg_types + "_enumTypes["@ + i + "]\n}\n\nfunc (x "@, name, ") Descriptor() protoreflect.EnumDescriptor {\n\treturn "@ + msg_types + "_enumTypes["@ + i + "].Descriptor()\n}\n\nfunc ("@);
        lemma_holds_text_extend("\n\ntype "@ + name + " int32\n\nconst (\n"@ + const_values + ")\n\n// Enum value maps for "@ + name + "\nvar (\n    "@ + name + "_name = map[int32]string{\n"@ + name_map + "    }\n    "@ + name + "_value = map[string]int32{\n"@ + value_map + "    }\n)\n\nfunc (x "@ + name + ") Enum() *"@ + name + " {\n    p := new("@ + name + ")\n\t*p = x\n\treturn p\n}\n\nfunc (x "@ + name + ") String() string {\n\treturn protoimpl.X.EnumStringOf(x.Descriptor(), protoreflect.EnumNumber(x))\n}\n\nfunc ("@ + name + ") Descriptor() protoreflect.EnumDescriptor {\n\treturn "@ + msg_types + "_enumTypes["@ + i + "].Descriptor()\n}\n\nfunc ("@ + name + ") Type() protoreflect.EnumType {\n\treturn &"@ + msg_types + "_enumTypes["@ + i + "]\n}\n\nfunc (x "@ + name, ") Number() protoreflect.EnumNumber {\n\treturn protoreflect.EnumNumber(x)\n}\n\n// Deprecated: Use "@, ") Descriptor() protoreflect.EnumDescriptor {\n\treturn "@ + msg_types + "_enumTypes["@ + i + "].Descriptor()\n}\n\nfunc ("@);
        lemma_holds_text_extend("\n\ntype "@ + name + " int32\n\nconst (\n"@ + const_values + ")\n\n// Enum value maps for "@ + name + "\nvar (\n    "@ + name + "_name = map[int32]string{\n"@ + name_map + "    }\n    "@ + name + "_value = map[string]int32{\n"@ + value_map + "    }\n)\n\nfunc (x "@ + name + ") Enum() *"@ + name + " {\n    p := new("@ + name + ")\n\t*p = x\n\treturn p\n}\n\nfunc (x "@ + name + ") String() string {\n\treturn protoimpl.X.EnumStringOf(x.Descriptor(), protoreflect.EnumNumber(x))\n}\n\nfunc ("@ + name + ") Descriptor() protoreflect.EnumDescriptor {\n\treturn "@ + msg_types + "_enumTypes["@ + i + "].Descriptor()\n}\n\nfunc ("@ + name + ") Type() protoreflect.EnumType {\n\treturn &"@ + msg_types + "_enumTypes["@ + i + "]\n}\n\nfunc (x "@ + name + ") Number() protoreflect.EnumNumber {\n\treturn protoreflect.EnumNumber(x)\n}\n\n// Deprecated: Use "@, name, ") Descriptor() protoreflect.EnumDescriptor {\n\treturn "@ + msg_types + "_enumTypes["@ + i + "].Descriptor()\n}\n\nfunc ("@);
        lemma_holds_text_extend("\n\ntype "@ + name + " int32\n\nconst (\n"@ + const_values + ")\n\n// Enum value maps for "@ + name + "\nvar (\n    "@ + name + "_name = map[int32]string{\n"@ + name_map + "    }\n    "@ + name + "_value = map[string]int32{\n"@ + value_map + "    }\n)\n\nfunc (x "@ + name + ") Enum() *"@ + name + " {\n    p := new("@ + name + ")\n\t*p = x\n\treturn p\n}\n\nfunc (x "@ + name + ") String() string {\n\treturn protoimpl.X.EnumStringOf(x.Descriptor(), protoreflect.EnumNumber(x))\n}\n\nfunc ("@ + name + ") Descriptor() protoreflect.EnumDescriptor {\n\treturn "@ + msg_types + "_enumTypes["@ + i + "].Descriptor()\n}\n\nfunc ("@ + name + ") Type() protoreflect.EnumType {\n\treturn &"@ + msg_types + "_enumTypes["@ + i + "]\n}\n\nfunc (x "@ + name + ") Number() protoreflect.EnumNumber {\n\treturn protoreflect.EnumNumber(x)\n}\n\n// Deprecated: Use "@ + name, ".Descriptor instead.\nfunc ("@, ") Descriptor() protoreflect.EnumDescriptor {\n\treturn "@ + msg_types + "_enumTypes["@ + i + "].Descriptor()\n}\n\nfunc ("@);
        lemma_holds_text_extend("\n\ntype "@ + name + " int32\n\nconst (\n"@ + const_values + ")\n\n// Enum value maps for "@ + name + "\nvar (\n    "@ + name + "_name = map[int32]string{\n"@ + name_map + "    }\n    "@ + name + "_value = map[string]int32{\n"@ + value_map + "    }\n)\n\nfunc (x "@ + name + ") Enum() *"@ + name + " {\n    p := new("@ + name + ")\n\t*p = x\n\treturn p\n}\n\nfunc (x "@ + name + ") String() string {\n\treturn protoimpl.X.EnumStringOf(x.Descriptor(), protoreflect.EnumNumber(x))\n}\n\nfunc ("@ + name + ") Descriptor() protoreflect.EnumDescriptor {\n\treturn "@ + msg_types + "_enumTypes["@ + i + "].Descriptor()\n}\n\nfunc ("@ + name + ") Type() protoreflect.EnumType {\n\treturn &"@ + msg_types + "_enumTypes["@ + i + "]\n}\n\nfunc (x "@ + name + ") Number() protoreflect.EnumNumber {\n\treturn protoreflect.EnumNumber(x)\n}\n\n// Deprecated: Use "@ + name + ".Descriptor instead.\nfunc ("@, name, ") Descriptor() protoreflect.EnumDescriptor {\n\treturn "@ + msg_types + "_enumTypes["@ + i + "].Descriptor()\n}\n\nfunc ("@);
        lemma_holds_text_extend("\n\ntype "@ + name + " int32\n\nconst (\n"@ + const_values + ")\n\n// Enum value maps for "@ + name + "\nvar (\n    "@ + name + "_name = map[int32]string{\n"@ + name_map + "    }\n    "@ + name + "_value = map[string]int32{\n"@ + value_map + "    }\n)\n\nfunc (x "@ + name + ") Enum() *"@ + name + " {\n    p := new("@ + name + ")\n\t*p = x\n\treturn p\n}\n\nfunc (x "@ + name + ") String() string {\n\treturn protoimpl.X.EnumStringOf(x.Descriptor(), protoreflect.EnumNumber(x))\n}\n\nfunc ("@ + name + ") Descriptor() protoreflect.EnumDescriptor {\n\treturn "@ + msg_types + "_enumTypes["@ + i + "].Descriptor()\n}\n\nfunc ("@ + name + ") Type() protoreflect.EnumType {\n\treturn &"@ + msg_types + "_enumTypes["@ + i + "]\n}\n\nfunc (x "@ + name + ") Number() protoreflect.EnumNumber {\n\treturn protoreflect.EnumNumber(x)\n}\n\n// Deprecated: Use "@ + name + ".Descriptor instead.\nfunc ("@ + name, ") EnumDescriptor() ([]byte, []int) {\n\treturn "@, ") Descriptor() protoreflect.EnumDescriptor {\n\treturn "@ + msg_types + "_enumTypes["@ + i + "].Descriptor()\n}\n\nfunc ("@);
        lemma_holds_text_extend("\n\ntype "@ + name + " int32\n\nconst (\n"@ + const_values + ")\n\n// Enum value maps for "@ + name + "\nvar (\n    "@ + name + "_name = map[int32]string{\n"@ + name_map + "    }\n    "@ + name + "_value = map[string]int32{\n"@ + value_map + "    }\n)\n\nfunc (x "@ + name + ") Enum() *"@ + name + " {\n    p := new("@ + name + ")\n\t*p = x\n\treturn p\n}\n\nfunc (x "@ + name + ") String() string {\n\treturn protoimpl.X.EnumStringOf(x.Descriptor(), protoreflect.EnumNumber(x))\n}\n\nfunc ("@ + name + ") Descriptor() protoreflect.EnumDescriptor {\n\treturn "@ + msg_types + "_enumTypes["@ + i + "].Descriptor()\n}\n\nfunc ("@ + name + ") Type() protoreflect.EnumType {\n\treturn &"@ + msg_types + "_enumTypes["@ + i + "]\n}\n\nfunc (x "@ + name + ") Number() protoreflect.EnumNumber {\n\treturn protoreflect.EnumNumber(x)\n}\n\n// Deprecated: Use "@ + name + ".Descriptor instead.\nfunc ("@ + name + ") EnumDescriptor() ([]byte, []int) {\n\treturn "@, msg_types, ") Descriptor() protoreflect.EnumDescriptor {\n\treturn "@ + msg_types + "_enumTypes["@ + i + "].Descriptor()\n}\n\nfunc ("@);
        lemma_holds_text_extend("\n\ntype "@ + name + " int32\n\nconst (\n"@ + const_values + ")\n\n// Enum value maps for "@ + name + "\nvar (\n    "@ + name + "_name = map[int32]string{\n"@ + name_map + "    }\n    "@ + name + "_value = map[string]int32{\n"@ + value_map + "    }\n)\n\nfunc (x "@ + name + ") Enum() *"@ + name + " {\n    p := new("@ + name + ")\n\t*p = x\n\treturn p\n}\n\nfunc (x "@ + name + ") String() string {\n\treturn protoimpl.X.EnumStringOf(x.Descriptor(), protoreflect.EnumNumber(x))\n}\n\nfunc ("@ + name + ") Descriptor() protoreflect.EnumDescriptor {\n\treturn "@ + msg_types + "_enumTypes["@ + i + "].Descriptor()\n}\n\nfunc ("@ + name + ") Type() protoreflect.EnumType {\n\treturn &"@ + msg_types + "_enumTypes["@ + i + "]\n}\n\nfunc (x "@ + name + ") Number() protoreflect.EnumNumber {\n\treturn protoreflect.EnumNumber(x)\n}\n\n// Deprecated: Use "@ + name + ".Descriptor instead.\nfunc ("@ + name + ") EnumDescriptor() ([]byte, []int) {\n\treturn "@ + msg_types, "_rawDescGZIP(), []int{"@, ") Descriptor() protoreflect.EnumDescriptor {\n\treturn "@ + msg_types + "_enumTypes["@ + i + "].Descriptor()\n}\n\nfunc ("@);
        lemma_holds_text_extend("\n\ntype "@ + name + " int32\n\nconst (\n"@ + const_values + ")\n\n// Enum value maps for "@ + name + "\nvar (\n    "@ + name + "_name = map[int32]string{\n"@ + name_map + "    }\n    "@ + name + "_value = map[string]int32{\n"@ + value_map + "    }\n)\n\nfunc (x "@ + name + ") Enum() *"@ + name + " {\n    p := new("@ + name + ")\n\t*p = x\n\treturn p\n}\n\nfunc (x "@ + name + ") String() string {\n\treturn protoimpl.X.EnumStringOf(x.Descriptor(), protoreflect.EnumNumber(x))\n}\n\nfunc ("@ + name + ") Descriptor() protoreflect.EnumDescriptor {\n\treturn "@ + msg_types + "_enumTypes["@ + i + "].Descriptor()\n}\n\nfunc ("@ + name + ") Type() protoreflect.EnumType {\n\treturn &"@ + msg_types + "_enumTypes["@ + i + "]\n}\n\nfunc (x "@ + name + ") Number() protoreflect.EnumNumber {\n\treturn protoreflect.EnumNumber(x)\n}\n\n// Deprecated: Use "@ + name + ".Descriptor instead.\nfunc ("@ + name + ") EnumDescriptor() ([]byte, []int) {\n\treturn "@ + msg_types + "_rawDescGZIP(), []int{"@, i, ") Descriptor() protoreflect.EnumDescriptor {\n\treturn "@ + msg_types + "_enumTypes["@ + i + "].Descriptor()\n}\n\nfunc ("@);
        lemma_holds_text_extend("\n\ntype "@ + name + " int32\n\nconst (\n"@ + const_values + ")\n\n// Enum value maps for "@ + name + "\nvar (\n    "@ + name + "_name = map[int32]string{\n"@ + name_map + "    }\n    "@ + name + "_value = map[string]int32{\n"@ + value_map + "    }\n)\n\nfunc (x "@ + name + ") Enum() *"@ + name + " {\n    p := new("@ + name + ")\n\t*p = x\n\treturn p\n}\n\nfunc (x "@ + name + ") String() string {\n\treturn protoimpl.X.EnumStringOf(x.Descriptor(), protoreflect.EnumNumber(x))\n}\n\nfunc ("@ + name + ") Descriptor() protoreflect.EnumDescriptor {\n\treturn "@ + msg_types + "_enumTypes["@ + i + "].Descriptor()\n}\n\nfunc ("@ + name + ") Type() protoreflect.EnumType {\n\treturn &"@ + msg_types + "_enumTypes["@ + i + "]\n}\n\nfunc (x "@ + name + ") Number() protoreflect.EnumNumber {\n\treturn protoreflect.EnumNumber(x)\n}\n\n// Deprecated: Use "@ + name + ".Descriptor instead.\nfunc ("@ + name + ") EnumDescriptor() ([]byte, []int) {\n\treturn "@ + msg_types + "_rawDescGZIP(), []int{"@ + i, "}\n}\n\nvar "@, ") Descriptor() protoreflect.EnumDescriptor {\n\treturn "@ + msg_types + "_enumTypes["@ + i + "].Descriptor()\n}\n\nfunc ("@);
        lemma_holds_text_extend("\n\ntype "@ + name + " int32\n\nconst (\n"@ + const_values + ")\n\n// Enum value maps for "@ + name + "\nvar (\n    "@ + name + "_name = map[int32]string{\n"@ + name_map + "    }\n    "@ + name + "_value = map[string]int32{\n"@ + value_map + "    }\n)\n\nfunc (x "@ + name + ") Enum() *"@ + name + " {\n    p := new("@ + name + ")\n\t*p = x\n\treturn p\n}\n\nfunc (x "@ + name + ") String() string {\n\treturn protoimpl.X.EnumStringOf(x.Descriptor(), protoreflect.EnumNumber(x))\n}\n\nfunc ("@ + name + ") Descriptor() protoreflect.EnumDescriptor {\n\treturn "@ + msg_types + "_enumTypes["@ + i + "].Descriptor()\n}\n\nfunc ("@ + name + ") Type() protoreflect.EnumType {\n\treturn &"@ + msg_types + "_enumTypes["@ + i + "]\n}\n\nfunc (x "@ + name + ") Number() protoreflect.EnumNumber {\n\treturn protoreflect.EnumNumber(x)\n}\n\n// Deprecated: Use "@ + name + ".Descriptor instead.\nfunc ("@ + name + ") EnumDescriptor() ([]byte, []int) {\n\treturn "@ + msg_types + "_rawDescGZIP(), []int{"@ + i + "}\n}\n\nvar "@, msg_types, ") Descriptor() protoreflect.EnumDescriptor {\n\treturn "@ + msg_types + "_enumTypes["@ + i + "].Descriptor()\n}\n\nfunc ("@);
        lemma_holds_text_extend("\n\ntype "@ + name + " int32\n\nconst (\n"@ + const_values + ")\n\n// Enum value maps for "@ + name + "\nvar (\n    "@ + name + "_name = map[int32]string{\n"@ + name_map + "    }\n    "@ + name + "_value = map[string]int32{\n"@ + value_map + "    }\n)\n\nfunc (x "@ + name + ") Enum() *"@ + name + " {\n    p := new("@ + name + ")\n\t*p = x\n\treturn p\n}\n\nfunc (x "@ + name + ") String() string {\n\treturn protoimpl.X.EnumStringOf(x.Descriptor(), protoreflect.EnumNumber(x))\n}\n\nfunc ("@ + name + ") Descriptor() protoreflect.EnumDescriptor {\n\treturn "@ + msg_types + "_enumTypes["@ + i + "].Descriptor()\n}\n\nfunc ("@ + name + ") Type() protoreflect.EnumType {\n\treturn &"@ + msg_types + "_enumTypes["@ + i + "]\n}\n\nfunc (x "@ + name + ") Number() protoreflect.EnumNumber {\n\treturn protoreflect.EnumNumber(x)\n}\n\n// Deprecated: Use "@ + name + ".Descriptor instead.\nfunc ("@ + name + ") EnumDescriptor() ([]byte, []int) {\n\treturn "@ + msg_types + "_rawDescGZIP(), []int{"@ + i + "}\n}\n\nvar "@ + msg_types, "_enumTypes = make([]protoimpl.EnumInfo, "@, ") Descriptor() protoreflect.EnumDescriptor {\n\treturn "@ + msg_types + "_enumTypes["@ + i + "].Descriptor()\n}\n\nfunc ("@);
        lemma_holds_text_extend("\n\ntype "@ + name + " int32\n\nconst (\n"@ + const_values + ")\n\n// Enum value maps for "@ + name + "\nvar (\n    "@ + name + "_name = map[int32]string{\n"@ + name_map + "    }\n    "@ + name + "_value = map[string]int32{\n"@ + value_map + "    }\n)\n\nfunc (x "@ + name + ") Enum() *"@ + name + " {\n    p := new("@ + name + ")\n\t*p = x\n\treturn p\n}\n\nfunc (x "@ + name + ") String() string {\n\treturn protoimpl.X.EnumStringOf(x.Descriptor(), protoreflect.EnumNumber(x))\n}\n\nfunc ("@ + name + ") Descriptor() protoreflect.EnumDescriptor {\n\treturn "@ + msg_types + "_enumTypes["@ + i + "].Descriptor()\n}\n\nfunc ("@ + name + ") Type() protoreflect.EnumType {\n\treturn &"@ + msg_types + "_enumTypes["@ + i + "]\n}\n\nfunc (x "@ + name + ") Number() protoreflect.EnumNumber {\n\treturn protoreflect.EnumNumber(x)\n}\n\n// Deprecated: Use "@ + name + ".Descriptor instead.\nfunc ("@ + name + ") EnumDescriptor() ([]byte, []int) {\n\treturn "@ + msg_types + "_rawDescGZIP(), []int{"@ + i + "}\n}\n\nvar "@ + msg_types + "_enumTypes = make([]protoimpl.EnumInfo, "@, penums, ") Descriptor() protoreflect.EnumDescriptor {\n\treturn "@ + msg_types + "_enumTypes["@ + i + "].Descriptor()\n}\n\nfunc ("@);
        lemma_holds_text_extend("\n\ntype "@ + name + " int32\n\nconst (\n"@ + const_values + ")\n\n// Enum value maps for "@ + name + "\nvar (\n    "@ + name + "_name = map[int32]string{\n"@ + name_map + "    }\n    "@ + name + "_value = map[string]int32{\n"@ + value_map + "    }\n)\n\nfunc (x "@ + name + ") Enum() *"@ + name + " {\n    p := new("@ + name + ")\n\t*p = x\n\treturn p\n}\n\nfunc (x "@ + name + ") String() string {\n\treturn protoimpl.X.EnumStringOf(x.Descriptor(), protoreflect.EnumNumber(x))\n}\n\nfunc ("@ + name + ") Descriptor() protoreflect.EnumDescriptor {\n\treturn "@ + msg_types + "_enumTypes["@ + i + "].Descriptor()\n}\n\nfunc ("@ + name + ") Type() protoreflect.EnumType {\n\treturn &"@ + msg_types + "_enumTypes["@ + i + "]\n}\n\nfunc (x "@ + name + ") Number() protoreflect.EnumNumber {\n\treturn protoreflect.EnumNumber(x)\n}\n\n// Deprecated: Use "@ + name + ".Descriptor instead.\nfunc ("@ + name + ") EnumDescriptor() ([]byte, []int) {\n\treturn "@ + msg_types + "_rawDescGZIP(), []int{"@ + i + "}\n}\n\nvar "@ + msg_types + "_enumTypes = make([]protoimpl.EnumInfo, "@ + penums, ")\n\n"@, ") Descriptor() protoreflect.EnumDescriptor {\n\treturn "@ + msg_types + "_enumTypes["@ + i + "].Descriptor()\n}\n\nfunc ("@);
    }
    assert(holds_text(go_enum_block(name, const_values, name_map, value_map, msg_types, i, penums), enum_type_row(msg_types, i))) by {
        lemma_concat_associative("\n\ntype "@ + name + " int32\n\nconst (\n"@ + const_values + ")\n\n// Enum value maps for "@ + name + "\nvar (\n    "@ + name + "_name = map[int32]string{\n"@ + name_map + "    }\n    "@ + name + "_value = map[string]int32{\n"@ + value_map + "    }\n)\n\nfunc (x "@ + name + ") Enum() *"@ + name + " {\n    p := new("@ + name + ")\n\t*p = x\n\treturn p\n}\n\nfunc (x "@ + name + ") String() string {\n\treturn protoimpl.X.EnumStringOf(x.Descriptor(), protoreflect.EnumNumber(x))\n}\n\nfunc ("@ + name + ") Descriptor() protoreflect.EnumDescriptor {\n\treturn "@ + msg_types + "_enumTypes["@ + i + "].Descriptor()\n}\n\nfunc ("@ + name, ") Type() protoreflect.EnumType {\n\treturn &"@, msg_types);
        lemma_concat_associative("\n\ntype "@ + name + " int32\n\nconst (\n"@ + const_values + ")\n\n// Enum value maps for "@ + name + "\nvar (\n    "@ + name + "_name = map[int32]string{\n"@ + name_map + "    }\n    "@ + name + "_value = map[string]int32{\n"@ + value_map + "    }\n)\n\nfunc (x "@ + name + ") Enum() *"@ + name + " {\n    p := new("@ + name + ")\n\t*p = x\n\treturn p\n}\n\nfunc (x "@ + name + ") String() string {\n\treturn protoimpl.X.EnumStringOf(x.Descriptor(), protoreflect.EnumNumber(x))\n}\n\nfunc ("@ + name + ") Descriptor() protoreflect.EnumDescriptor {\n\treturn "@ + msg_types + "_enumTypes["@ + i + "].Descriptor()\n}\n\nfunc ("@ + name, ") Type() protoreflect.EnumType {\n\treturn &"@ + msg_types, "_enumTypes["@);
        lemma_concat_associative("\n\ntype "@ + name + " int32\n\nconst (\n"@ + const_values + ")\n\n// Enum value maps for "@ + name + "\nvar (\n    "@ + name + "_name = map[int32]string{\n"@ + name_map + "    }\n    "@ + name + "_value = map[string]int32{\n"@ + value_map + "    }\n)\n\nfunc (x "@ + name + ") Enum() *"@ + name + " {\n    p := new("@ + name + ")\n\t*p = x\n\treturn p\n}\n\nfunc (x "@ + name + ") String() string {\n\treturn protoimpl.X.EnumStringOf(x.Descriptor(), protoreflect.EnumNumber(x))\n}\n\nfunc ("@ + name + ") Descriptor() protoreflect.EnumDescriptor {\n\treturn "@ + msg_types + "_enumTypes["@ + i + "].Descriptor()\n}\n\nfunc ("@ + name, ") Type() protoreflect.EnumType {\n\treturn &"@ + msg_types + "_enumTypes["@, i);
        lemma_concat_associative("\n\ntype "@ + name + " int32\n\nconst (\n"@ + const_values + ")\n\n// Enum value maps for "@ + name + "\nvar (\n    "@ + name + "_name = map[int32]string{\n"@ + name_map + "    }\n    "@ + name + "_value = map[string]int32{\n"@ + value_map + "    }\n)\n\nfunc (x "@ + name + ") Enum() *"@ + name + " {\n    p := new("@ + name + ")\n\t*p = x\n\treturn p\n}\n\nfunc (x "@ + name + ") String() string {\n\treturn protoimpl.X.EnumStringOf(x.Descriptor(), protoreflect.EnumNumber(x))\n}\n\nfunc ("@ + name + ") Descriptor() protoreflect.EnumDescriptor {\n\treturn "@ + msg_types + "_enumTypes["@ + i + "].Descriptor()\n}\n\nfunc ("@ + name, ") Type() protoreflect.EnumType {\n\treturn &"@ + msg_types + "_enumTypes["@ + i, "]\n}\n\nfunc (x "@);
        lemma_holds_text_end("\n\ntype "@ + name + " int32\n\nconst (\n"@ + const_values + ")\n\n// Enum value maps for "@ + name + "\nvar (\n    "@ + name + "_name = map[int32]string{\n"@ + name_map + "    }\n    "@ + name + "_value = map[string]int32{\n"@ + value_map + "    }\n)\n\nfunc (x "@ + name + ") Enum() *"@ + name + " {\n    p := new("@ + name + ")\n\t*p = x\n\treturn p\n}\n\nfunc (x "@ + name + ") String() string {\n\treturn protoimpl.X.EnumStringOf(x.Descriptor(), protoreflect.EnumNumber(x))\n}\n\nfunc ("@ + name + ") Descriptor() protoreflect.EnumDescriptor {\n\treturn "@ + msg_types + "_enumTypes["@ + i + "].Descriptor()\n}\n\nfunc ("@ + name, ") Type() protoreflect.EnumType {\n\treturn &"@ + msg_types + "_enumTypes["@ + i + "]\n}\n\nfunc (x "@);
        lemma_holds_text_extend("\n\ntype "@ + name + " int32\n\nconst (\n"@ + const_values + ")\n\n// Enum value maps for "@ + name + "\nvar (\n    "@ + name + "_name = map[int32]string{\n"@ + name_map + "    }\n    "@ + name + "_value = map[string]int32{\n"@ + value_map + "    }\n)\n\nfunc (x "@ + name + ") Enum() *"@ + name + " {\n    p := new("@ + name + ")\n\t*p = x\n\treturn p\n}\n\nfunc (x "@ + name + ") String() string {\n\treturn protoimpl.X.EnumStringOf(x.Descriptor(), protoreflect.EnumNumber(x))\n}\n\nfunc ("@ + name + ") Descriptor() protoreflect.EnumDescriptor {\n\treturn "@ + msg_types + "_enumTypes["@ + i + "].Descriptor()\n}\n\nfunc ("@ + name + ") Type() protoreflect.EnumType {\n\treturn &"@ + msg_types + "_enumTypes["@ + i + "]\n}\n\nfunc (x "@, name, ") Type() protoreflect.EnumType {\n\treturn &"@ + msg_types + "_enumTypes["@ + i + "]\n}\n\nfunc (x "@);
        lemma_holds_text_extend("\n\ntype "@ + name + " int32\n\nconst (\n"@ + const_values + ")\n\n// Enum value maps for "@ + name + "\nvar (\n    "@ + name + "_name = map[int32]string{\n"@ + name_map + "    }\n    "@ + name + "_value = map[string]int32{\n"@ + value_map + "    }\n)\n\nfunc (x "@ + name + ") Enum() *"@ + name + " {\n    p := new("@ + name + ")\n\t*p = x\n\treturn p\n}\n\nfunc (x "@ + name + ") String() string {\n\treturn protoimpl.X.EnumStringOf(x.Descriptor(), protoreflect.EnumNumber(x))\n}\n\nfunc ("@ + name + ") Descriptor() protoreflect.EnumDescriptor {\n\treturn "@ + msg_types + "_enumTypes["@ + i + "].Descriptor()\n}\n\nfunc ("@ + name + ") Type() protoreflect.EnumType {\n\treturn &"@ + msg_types + "_enumTypes["@ + i + "]\n}\n\nfunc (x "@ + name, ") Number() protoreflect.EnumNumber {\n\treturn protoreflect.EnumNumber(x)\n}\n\n// Deprecated: Use "@, ") Type() protoreflect.EnumType {\n\treturn &"@ + msg_types + "_enumTypes["@ + i + "]\n}\n\nfunc (x "@);
        lemma_holds_text_extend("\n\ntype "@ + name + " int32\n\nconst (\n"@ + const_values + ")\n\n// Enum value maps for "@ + name + "\nvar (\n    "@ + name + "_name = map[int32]string{\n"@ + name_map + "    }\n    "@ + name + "_value = map[string]int32{\n"@ + value_map + "    }\n)\n\nfunc (x "@ + name + ") Enum() *"@ + name + " {\n    p := new("@ + name + ")\n\t*p = x\n\treturn p\n}\n\nfunc (x "@ + name + ") String() string {\n\treturn protoimpl.X.EnumStringOf(x.Descriptor(), protoreflect.EnumNumber(x))\n}\n\nfunc ("@ + name + ") Descriptor() protoreflect.EnumDescriptor {\n\treturn "@ + msg_types + "_enumTypes["@ + i + "].Descriptor()\n}\n\nfunc ("@ + name + ") Type() protoreflect.EnumType {\n\treturn &"@ + msg_types + "_enumTypes["@ + i + "]\n}\n\nfunc (x "@ + name + ") Number() protoreflect.EnumNumber {\n\treturn protoreflect.EnumNumber(x)\n}\n\n// Deprecated: Use "@, name, ") Type() protoreflect.EnumType {\n\treturn &"@ + msg_types + "_enumTypes["@ + i + "]\n}\n\nfunc (x "@);
        lemma_holds_text_extend("\n\ntype "@ + name + " int32\n\nconst (\n"@ + const_values + ")\n\n// Enum value maps for "@ + name + "\nvar (\n    "@ + name + "_name = map[int32]string{\n"@ + name_map + "    }\n    "@ + name + "_value = map[string]int32{\n"@ + value_map + "    }\n)\n\nfunc (x "@ + name + ") Enum() *"@ + name + " {\n    p := new("@ + name + ")\n\t*p = x\n\treturn p\n}\n\nfunc (x "@ + name + ") String() string {\n\treturn protoimpl.X.EnumStringOf(x.Descriptor(), protoreflect.EnumNumber(x))\n}\n\nfunc ("@ + name + ") Descriptor() protoreflect.EnumDescriptor {\n\treturn "@ + msg_types + "_enumTypes["@ + i + "].Descriptor()\n}\n\nfunc ("@ + name + ") Type() protoreflect.EnumType {\n\treturn &"@ + msg_types + "_enumTypes["@ + i + "]\n}\n\nfunc (x "@ + name + ") Number() protoreflect.EnumNumber {\n\treturn protoreflect.EnumNumber(x)\n}\n\n// Deprecated: Use "@ + name, ".Descriptor instead.\nfunc ("@, ") Type() protoreflect.EnumType {\n\treturn &"@ + msg_types + "_enumTypes["@ + i + "]\n}\n\nfunc (x "@);
        lemma_holds_text_extend("\n\ntype "@ + name + " int32\n\nconst (\n"@ + const_values + ")\n\n// Enum value maps for "@ + name + "\nvar (\n    "@ + name + "_name = map[int32]string{\n"@ + name_map + "    }\n    "@ + name + "_value = map[string]int32{\n"@ + value_map + "    }\n)\n\nfunc (x "@ + name + ") Enum() *"@ + name + " {\n    p := new("@ + name + ")\n\t*p = x\n\treturn p\n}\n\nfunc (x "@ + name + ") String() string {\n\treturn protoimpl.X.EnumStringOf(x.Descriptor(), protoreflect.EnumNumber(x))\n}\n\nfunc ("@ + name + ") Descriptor() protoreflect.EnumDescriptor {\n\treturn "@ + msg_types + "_enumTypes["@ + i + "].Descriptor()\n}\n\nfunc ("@ + name + ") Type() protoreflect.EnumType {\n\treturn &"@ + msg_types + "_enumTypes["@ + i + "]\n}\n\nfunc (x "@ + name + ") Number() protoreflect.EnumNumber {\n\treturn protoreflect.EnumNumber(x)\n}\n\n// Deprecated: Use "@ + name + ".Descriptor instead.\nfunc ("@, name, ") Type() protoreflect.EnumType {\n\treturn &"@ + msg_types + "_enumTypes["@ + i + "]\n}\n\nfunc (x "@);
        lemma_holds_text_extend("\n\ntype "@ + name + " int32\n\nconst (\n"@ + const_values + ")\n\n// Enum value maps for "@ + name + "\nvar (\n    "@ + name + "_name = map[int32]string{\n"@ + name_map + "    }\n    "@ + name + "_value = map[string]int32{\n"@ + value_map + "    }\n)\n\nfunc (x "@ + name + ") Enum() *"@ + name + " {\n    p := new("@ + name + ")\n\t*p = x\n\treturn p\n}\n\nfunc (x "@ + name + ") String() string {\n\treturn protoimpl.X.EnumStringOf(x.Descriptor(), protoreflect.EnumNumber(x))\n}\n\nfunc ("@ + name + ") Descriptor() protoreflect.EnumDescriptor {\n\treturn "@ + msg_types + "_enumTypes["@ + i + "].Descriptor()\n}\n\nfunc ("@ + name + ") Type() protoreflect.EnumType {\n\treturn &"@ + msg_types + "_enumTypes["@ + i + "]\n}\n\nfunc (x "@ + name + ") Number() protoreflect.EnumNumber {\n\treturn protoreflect.EnumNumber(x)\n}\n\n// Deprecated: Use "@ + name + ".Descriptor instead.\nfunc ("@ + name, ") EnumDescriptor() ([]byte, []int) {\n\treturn "@, ") Type() protoreflect.EnumType {\n\treturn &"@ + msg_types + "_enumTypes["@ + i + "]\n}\n\nfunc (x "@);
        lemma_holds_text_extend("\n\ntype "@ + name + " int32\n\nconst (\n"@ + const_values + ")\n\n// Enum value maps for "@ + name + "\nvar (\n    "@ + name + "_name = map[int32]string{\n"@ + name_map + "    }\n    "@ + name + "_value = map[string]int32{\n"@ + value_map + "    }\n)\n\nfunc (x "@ + name + ") Enum() *"@ + name + " {\n    p := new("@ + name + ")\n\t*p = x\n\treturn p\n}\n\nfunc (x "@ + name + ") String() string {\n\treturn protoimpl.X.EnumStringOf(x.Descriptor(), protoreflect.EnumNumber(x))\n}\n\nfunc ("@ + name + ") Descriptor() protoreflect.EnumDescriptor {\n\treturn "@ + msg_types + "_enumTypes["@ + i + "].Descriptor()\n}\n\nfunc ("@ + name + ") Type() protoreflect.EnumType {\n\treturn &"@ + msg_types + "_enumTypes["@ + i + "]\n}\n\nfunc (x "@ + name + ") Number() protoreflect.EnumNumber {\n\treturn protoreflect.EnumNumber(x)\n}\n\n// Deprecated: Use "@ + name + ".Descriptor instead.\nfunc ("@ + name + ") EnumDescriptor() ([]byte, []int) {\n\treturn "@, msg_types, ") Type() protoreflect.EnumType {\n\treturn &"@ + msg_types + "_enumTypes["@ + i + "]\n}\n\nfunc (x "@);
        lemma_holds_text_extend("\n\ntype "@ + name + " int32\n\nconst (\n"@ + const_values + ")\n\n// Enum value maps for "@ + name + "\nvar (\n    "@ + name + "_name = map[int32]string{\n"@ + name_map + "    }\n    "@ + name + "_value = map[string]int32{\n"@ + value_map + "    }\n)\n\nfunc (x "@ + name + ") Enum() *"@ + name + " {\n    p := new("@ + name + ")\n\t*p = x\n\treturn p\n}\n\nfunc (x "@ + name + ") String() string {\n\treturn protoimpl.X.EnumStringOf(x.Descriptor(), protoreflect.EnumNumber(x))\n}\n\nfunc ("@ + name + ") Descriptor() protoreflect.EnumDescriptor {\n\treturn "@ + msg_types + "_enumTypes["@ + i + "].Descriptor()\n}\n\nfunc ("@ + name + ") Type() protoreflect.EnumType {\n\treturn &"@ + msg_types + "_enumTypes["@ + i + "]\n}\n\nfunc (x "@ + name + ") Number() protoreflect.EnumNumber {\n\treturn protoreflect.EnumNumber(x)\n}\n\n// Deprecated: Use "@ + name + ".Descriptor instead.\nfunc ("@ + name + ") EnumDescriptor() ([]byte, []int) {\n\treturn "@ + msg_types, "_rawDescGZIP(), []int{"@, ") Type() protoreflect.EnumType {\n\treturn &"@ + msg_types + "_enumTypes["@ + i + "]\n}\n\nfunc (x "@);
        lemma_holds_text_extend("\n\ntype "@ + name + " int32\n\nconst (\n"@ + const_values + ")\n\n// Enum value maps for "@ + name + "\nvar (\n    "@ + name + "_name = map[int32]string{\n"@ + name_map + "    }\n    "@ + name + "_value = map[string]int32{\n"@ + value_map + "    }\n)\n\nfunc (x "@ + name + ") Enum() *"@ + name + " {\n    p := new("@ + name + ")\n\t*p = x\n\treturn p\n}\n\nfunc (x "@ + name + ") String() string {\n\treturn protoimpl.X.EnumStringOf(x.Descriptor(), protoreflect.EnumNumber(x))\n}\n\nfunc ("@ + name + ") Descriptor() protoreflect.EnumDescriptor {\n\treturn "@ + msg_types + "_enumTypes["@ + i + "].Descriptor()\n}\n\nfunc ("@ + name + ") Type() protoreflect.EnumType {\n\treturn &"@ + msg_types + "_enumTypes["@ + i + "]\n}\n\nfunc (x "@ + name + ") Number() protoreflect.EnumNumber {\n\treturn protoreflect.EnumNumber(x)\n}\n\n// Deprecated: Use "@ + name + ".Descriptor instead.\nfunc ("@ + name + ") EnumDescriptor() ([]byte, []int) {\n\treturn "@ + msg_types + "_rawDescGZIP(), []int{"@, i, ") Type() protoreflect.EnumType {\n\treturn &"@ + msg_types + "_enumTypes["@ + i + "]\n}\n\nfunc (x "@);
        lemma_holds_text_extend("\n\ntype "@ + name + " int32\n\nconst (\n"@ + const_values + ")\n\n// Enum value maps for "@ + name + "\nvar (\n    "@ + name + "_name = map[int32]string{\n"@ + name_map + "    }\n    "@ + name + "_value = map[string]int32{\n"@ + value_map + "    }\n)\n\nfunc (x "@ + name + ") Enum() *"@ + name + " {\n    p := new("@ + name + ")\n\t*p = x\n\treturn p\n}\n\nfunc (x "@ + name + ") String() string {\n\treturn protoimpl.X.EnumStringOf(x.Descriptor(), protoreflect.EnumNumber(x))\n}\n\nfunc ("@ + name + ") Descriptor() protoreflect.EnumDescriptor {\n\treturn "@ + msg_types + "_enumTypes["@ + i + "].Descriptor()\n}\n\nfunc ("@ + name + ") Type() protoreflect.EnumType {\n\treturn &"@ + msg_types + "_enumTypes["@ + i + "]\n}\n\nfunc (x "@ + name + ") Number() protoreflect.EnumNumber {\n\treturn protoreflect.EnumNumber(x)\n}\n\n// Deprecated: Use "@ + name + ".Descriptor instead.\nfunc ("@ + name + ") EnumDescriptor() ([]byte, []int) {\n\treturn "@ + msg_types + "_rawDescGZIP(), []int{"@ + i, "}\n}\n\nvar "@, ") Type() protoreflect.EnumType {\n\treturn &"@ + msg_types + "_enumTypes["@ + i + "]\n}\n\nfunc (x "@);
        lemma_holds_text_extend("\n\ntype "@ + name + " int32\n\nconst (\n"@ + const_values + ")\n\n// Enum value maps for "@ + name + "\nvar (\n    "@ + name + "_name = map[int32]string{\n"@ + name_map + "    }\n    "@ + name + "_value = map[string]int32{\n"@ + value_map + "    }\n)\n\nfunc (x "@ + name + ") Enum() *"@ + name + " {\n    p := new("@ + name + ")\n\t*p = x\n\treturn p\n}\n\nfunc (x "@ + name + ") String() string {\n\treturn protoimpl.X.EnumStringOf(x.Descriptor(), protoreflect.EnumNumber(x))\n}\n\nfunc ("@ + name + ") Descriptor() protoreflect.EnumDescriptor {\n\treturn "@ + msg_types + "_enumTypes["@ + i + "].Descriptor()\n}\n\nfunc ("@ + name + ") Type() protoreflect.EnumType {\n\treturn &"@ + msg_types + "_enumTypes["@ + i + "]\n}\n\nfunc (x "@ + name + ") Number() protoreflect.EnumNumber {\n\treturn protoreflect.EnumNumber(x)\n}\n\n// Deprecated: Use "@ + name + ".Descriptor instead.\nfunc ("@ + name + ") EnumDescriptor() ([]byte, []int) {\n\treturn "@ + msg_types + "_rawDescGZIP(), []int{"@ + i + "}\n}\n\nvar "@, msg_types, ") Type() protoreflect.EnumType {\n\treturn &"@ + msg_types + "_enumTypes["@ + i + "]\n}\n\nfunc (x "@);
        lemma_holds_text_extend("\n\ntype "@ + name + " int32\n\nconst (\n"@ + const_values + ")\n\n// Enum value maps for "@ + name + "\nvar (\n    "@ + name + "_name = map[int32]string{\n"@ + name_map + "    }\n    "@ + name + "_value = map[string]int32{\n"@ + value_map + "    }\n)\n\nfunc (x "@ + name + ") Enum() *"@ + name + " {\n    p := new("@ + name + ")\n\t*p = x\n\treturn p\n}\n\nfunc (x "@ + name + ") String() string {\n\treturn protoimpl.X.EnumStringOf(x.Descriptor(), protoreflect.EnumNumber(x))\n}\n\nfunc ("@ + name + ") Descriptor() protoreflect.EnumDescriptor {\n\treturn "@ + msg_types + "_enumTypes["@ + i + "].Descriptor()\n}\n\nfunc ("@ + name + ") Type() protoreflect.EnumType {\n\treturn &"@ + msg_types + "_enumTypes["@ + i + "]\n}\n\nfunc (x "@ + name + ") Number() protoreflect.EnumNumber {\n\treturn protoreflect.EnumNumber(x)\n}\n\n// Deprecated: Use "@ + name + ".Descriptor instead.\nfunc ("@ + name + ") EnumDescriptor() ([]byte, []int) {\n\treturn "@ + msg_types + "_rawDescGZIP(), []int{"@ + i + "}\n}\n\nvar "@ + msg_types, "_enumTypes = make([]protoimpl.EnumInfo, "@, ") Type() protoreflect.EnumType {\n\treturn &"@ + msg_types + "_enumTypes["@ + i + "]\n}\n\nfunc (x "@);
        lemma_holds_text_extend("\n\ntype "@ + name + " int32\n\nconst (\n"@ + const_values + ")\n\n// Enum value maps for "@ + name + "\nvar (\n    "@ + name + "_name = map[int32]string{\n"@ + name_map + "    }\n    "@ + name + "_value = map[string]int32{\n"@ + value_map + "    }\n)\n\nfunc (x "@ + name + ") Enum() *"@ + name + " {\n    p := new("@ + name + ")\n\t*p = x\n\treturn p\n}\n\nfunc (x "@ + name + ") String() string {\n\treturn protoimpl.X.EnumStringOf(x.Descriptor(), protoreflect.EnumNumber(x))\n}\n\nfunc ("@ + name + ") Descriptor() protoreflect.EnumDescriptor {\n\treturn "@ + msg_types + "_enumTypes["@ + i + "].Descriptor()\n}\n\nfunc ("@ + name + ") Type() protoreflect.EnumType {\n\treturn &"@ + msg_types + "_enumTypes["@ + i + "]\n}\n\nfunc (x "@ + name + ") Number() protoreflect.EnumNumber {\n\treturn protoreflect.EnumNumber(x)\n}\n\n// Deprecated: Use "@ + name + ".Descriptor instead.\nfunc ("@ + name + ") EnumDescriptor() ([]byte, []int) {\n\treturn "@ + msg_types + "_rawDescGZIP(), []int{"@ + i + "}\n}\n\nvar "@ + msg_types + "_enumTypes = make([]protoimpl.EnumInfo, "@, penums, ") Type() protoreflect.EnumType {\n\treturn &"@ + msg_types + "_enumTypes["@ + i + "]\n}\n\nfunc (x "@);
        lemma_holds_text_extend("\n\ntype "@ + name + " int32\n\nconst (\n"@ + const_values + ")\n\n// Enum value maps for "@ + name + "\nvar (\n    "@ + name + "_name = map[int32]string{\n"@ + name_map + "    }\n    "@ + name + "_value = map[string]int32{\n"@ + value_map + "    }\n)\n\nfunc (x "@ + name + ") Enum() *"@ + name + " {\n    p := new("@ + name + ")\n\t*p = x\n\treturn p\n}\n\nfunc (x "@ + name + ") String() string {\n\treturn protoimpl.X.EnumStringOf(x.Descriptor(), protoreflect.EnumNumber(x))\n}\n\nfunc ("@ + name + ") Descriptor() protoreflect.EnumDescriptor {\n\treturn "@ + msg_types + "_enumTypes["@ + i + "].Descriptor()\n}\n\nfunc ("@ + name + ") Type() protoreflect.EnumType {\n\treturn &"@ + msg_types + "_enumTypes["@ + i + "]\n}\n\nfunc (x "@ + name + ") Number() protoreflect.EnumNumber {\n\treturn protoreflect.EnumNumber(x)\n}\n\n// Deprecated: Use "@ + name + ".Descriptor instead.\nfunc ("@ + name + ") EnumDescriptor() ([]byte, []int) {\n\treturn "@ + msg_types + "_rawDescGZIP(), []int{"@ + i + "}\n}\n\nvar "@ + msg_types + "_enumTypes = make([]protoimpl.EnumInfo, "@ + penums, ")\n\n"@, ") Type() protoreflect.EnumType {\n\treturn &"@ + msg_types + "_enumTypes["@ + i + "]\n}\n\nfunc (x "@);
    }
    assert(holds_text(go_enum_block(name, const_values, name_map, value_map, msg_types, i, penums), enum_path(msg_types, i))) by {
        lemma_concat_associative("\n\ntype "@ + name + " int32\n\nconst (\n"@ + const_values + ")\n\n// Enum value maps for "@ + name + "\nvar (\n    "@ + name + "_name = map[int32]string{\n"@ + name_map + "    }\n    "@ + name + "_value = map[string]int32{\n"@ + value_map + "    }\n)\n\nfunc (x "@ + name + ") Enum() *"@ + name + " {\n    p := new("@ + name + ")\n\t*p = x\n\treturn p\n}\n\nfunc (x "@ + name + ") String() string {\n\treturn protoimpl.X.EnumStringOf(x.Descriptor(), protoreflect.EnumNumber(x))\n}\n\nfunc ("@ + name + ") Descriptor() protoreflect.EnumDescriptor {\n\treturn "@ + msg_types + "_enumTypes["@ + i + "].Descriptor()\n}\n\nfunc ("@ + name + ") Type() protoreflect.EnumType {\n\treturn &"@ + msg_types + "_enumTypes["@ + i + "]\n}\n\nfunc (x "@ + name + ") Number() protoreflect.EnumNumber {\n\treturn protoreflect.EnumNumber(x)\n}\n\n// Deprecated: Use "@ + name + ".Descriptor instead.\nfunc ("@ + name, ") EnumDescriptor() ([]byte, []int) {\n\treturn "@, msg_types);
        lemma_concat_associative("\n\ntype "@ + name + " int32\n\nconst (\n"@ + const_values + ")\n\n// Enum value maps for "@ + name + "\nvar (\n    "@ + name + "_name = map[int32]string{\n"@ + name_map + "    }\n    "@ + name + "_value = map[string]int32{\n"@ + value_map + "    }\n)\n\nfunc (x "@ + name + ") Enum() *"@ + name + " {\n    p := new("@ + name + ")\n\t*p = x\n\treturn p\n}\n\nfunc (x "@ + name + ") String() string {\n\treturn protoimpl.X.EnumStringOf(x.Descriptor(), protoreflect.EnumNumber(x))\n}\n\nfunc ("@ + name + ") Descriptor() protoreflect.EnumDescriptor {\n\treturn "@ + msg_types + "_enumTypes["@ + i + "].Descriptor()\n}\n\nfunc ("@ + name + ") Type() protoreflect.EnumType {\n\treturn &"@ + msg_types + "_enumTypes["@ + i + "]\n}\n\nfunc (x "@ + name + ") Number() protoreflect.EnumNumber {\n\treturn protoreflect.EnumNumber(x)\n}\n\n// Deprecated: Use "@ + name + ".Descriptor instead.\nfunc ("@ + name, ") EnumDescriptor() ([]byte, []int) {\n\treturn "@ + msg_types, "_rawDescGZIP(), []int{"@);
        lemma_concat_associative("\n\ntype "@ + name + " int32\n\nconst (\n"@ + const_values + ")\n\n// Enum value maps for "@ + name + "\nvar (\n    "@ + name + "_name = map[int32]string{\n"@ + name_map + "    }\n    "@ + name + "_value = map[string]int32{\n"@ + value_map + "    }\n)\n\nfunc (x "@ + name + ") Enum() *"@ + name + " {\n    p := new("@ + name + ")\n\t*p = x\n\treturn p\n}\n\nfunc (x "@ + name + ") String() string {\n\treturn protoimpl.X.EnumStringOf(x.Descriptor(), protoreflect.EnumNumber(x))\n}\n\nfunc ("@ + name + ") Descriptor() protoreflect.EnumDescriptor {\n\treturn "@ + msg_types + "_enumTypes["@ + i + "].Descriptor()\n}\n\nfunc ("@ + name + ") Type() protoreflect.EnumType {\n\treturn &"@ + msg_types + "_enumTypes["@ + i + "]\n}\n\nfunc (x "@ + name + ") Number() protoreflect.EnumNumber {\n\treturn protoreflect.EnumNumber(x)\n}\n\n// Deprecated: Use "@ + name + ".Descriptor instead.\nfunc ("@ + name, ") EnumDescriptor() ([]byte, []int) {\n\treturn "@ + msg_types + "_rawDescGZIP(), []int{"@, i);
        lemma_concat_associative("\n\ntype "@ + name + " int32\n\nconst (\n"@ + const_values + ")\n\n// Enum value maps for "@ + name + "\nvar (\n    "@ + name + "_name = map[int32]string{\n"@ + name_map + "    }\n    "@ + name + "_value = map[string]int32{\n"@ + value_map + "    }\n)\n\nfunc (x "@ + name + ") Enum() *"@ + name + " {\n    p := new("@ + name + ")\n\t*p = x\n\treturn p\n}\n\nfunc (x "@ + name + ") String() string {\n\treturn protoimpl.X.EnumStringOf(x.Descriptor(), protoreflect.EnumNumber(x))\n}\n\nfunc ("@ + name + ") Descriptor() protoreflect.EnumDescriptor {\n\treturn "@ + msg_types + "_enumTypes["@ + i + "].Descriptor()\n}\n\nfunc ("@ + name + ") Type() protoreflect.EnumType {\n\treturn &"@ + msg_types + "_enumTypes["@ + i + "]\n}\n\nfunc (x "@ + name + ") Number() protoreflect.EnumNumber {\n\treturn protoreflect.EnumNumber(x)\n}\n\n// Deprecated: Use "@ + name + ".Descriptor instead.\nfunc ("@ + name, ") EnumDescriptor() ([]byte, []int) {\n\treturn "@ + msg_types + "_rawDescGZIP(), []int{"@ + i, "}\n}\n\nvar "@);
        lemma_holds_text_end("\n\ntype "@ + name + " int32\n\nconst (\n"@ + const_values + ")\n\n// Enum value maps for "@ + name + "\nvar (\n    "@ + name + "_name = map[int32]string{\n"@ + name_map + "    }\n    "@ + name + "_value = map[string]int32{\n"@ + value_map + "    }\n)\n\nfunc (x "@ + name + ") Enum() *"@ + name + " {\n    p := new("@ + name + ")\n\t*p = x\n\treturn p\n}\n\nfunc (x "@ + name + ") String() string {\n\treturn protoimpl.X.EnumStringOf(x.Descriptor(), protoreflect.EnumNumber(x))\n}\n\nfunc ("@ + name + ") Descriptor() protoreflect.EnumDescriptor {\n\treturn "@ + msg_types + "_enumTypes["@ + i + "].Descriptor()\n}\n\nfunc ("@ + name + ") Type() protoreflect.EnumType {\n\treturn &"@ + msg_types + "_enumTypes["@ + i + "]\n}\n\nfunc (x "@ + name + ") Number() protoreflect.EnumNumber {\n\treturn protoreflect.EnumNumber(x)\n}\n\n// Deprecated: Use "@ + name + ".Descriptor instead.\nfunc ("@ + name, ") EnumDescriptor() ([]byte, []int) {\n\treturn "@ + msg_types + "_rawDescGZIP(), []int{"@ + i + "}\n}\n\nvar "@);
        lemma_holds_text_extend("\n\ntype "@ + name + " int32\n\nconst (\n"@ + const_values + ")\n\n// Enum value maps for "@ + name + "\nvar (\n    "@ + name + "_name = map[int32]string{\n"@ + name_map + "    }\n    "@ + name + "_value = map[string]int32{\n"@ + value_map + "    }\n)\n\nfunc (x "@ + name + ") Enum() *"@ + name + " {\n    p := new("@ + name + ")\n\t*p = x\n\treturn p\n}\n\nfunc (x "@ + name + ") String() string {\n\treturn protoimpl.X.EnumStringOf(x.Descriptor(), protoreflect.EnumNumber(x))\n}\n\nfunc ("@ + name + ") Descriptor() protoreflect.EnumDescriptor {\n\treturn "@ + msg_types + "_enumTypes["@ + i + "].Descriptor()\n}\n\nfunc ("@ + name + ") Type() protoreflect.EnumType {\n\treturn &"@ + msg_types + "_enumTypes["@ + i + "]\n}\n\nfunc (x "@ + name + ") Number() protoreflect.EnumNumber {\n\treturn protoreflect.EnumNumber(x)\n}\n\n// Deprecated: Use "@ + name + ".Descriptor instead.\nfunc ("@ + name + ") EnumDescriptor() ([]byte, []int) {\n\treturn "@ + msg_types + "_rawDescGZIP(), []int{"@ + i + "}\n}\n\nvar "@, msg_types, ") EnumDescriptor() ([]byte, []int) {\n\treturn "@ + msg_types + "_rawDescGZIP(), []int{"@ + i + "}\n}\n\nvar "@);
        lemma_holds_text_extend("\n\ntype "@ + name + " int32\n\nconst (\n"@ + const_values + ")\n\n// Enum value maps for "@ + name + "\nvar (\n    "@ + name + "_name = map[int32]string{\n"@ + name_map + "    }\n    "@ + name + "_value = map[string]int32{\n"@ + value_map + "    }\n)\n\nfunc (x "@ + name + ") Enum() *"@ + name + " {\n    p := new("@ + name + ")\n\t*p = x\n\treturn p\n}\n\nfunc (x "@ + name + ") String() string {\n\treturn protoimpl.X.EnumStringOf(x.Descriptor(), protoreflect.EnumNumber(x))\n}\n\nfunc ("@ + name + ") Descriptor() protoreflect.EnumDescriptor {\n\treturn "@ + msg_types + "_enumTypes["@ + i + "].Descriptor()\n}\n\nfunc ("@ + name + ") Type() protoreflect.EnumType {\n\treturn &"@ + msg_types + "_enumTypes["@ + i + "]\n}\n\nfunc (x "@ + name + ") Number() protoreflect.EnumNumber {\n\treturn protoreflect.EnumNumber(x)\n}\n\n// Deprecated: Use "@ + name + ".Descriptor instead.\nfunc ("@ + name + ") EnumDescriptor() ([]byte, []int) {\n\treturn "@ + msg_types + "_rawDescGZIP(), []int{"@ + i + "}\n}\n\nvar "@ + msg_types, "_enumTypes = make([]protoimpl.EnumInfo, "@, ") EnumDescriptor() ([]byte, []int) {\n\treturn "@ + msg_types + "_rawDescGZIP(), []int{"@ + i + "}\n}\n\nvar "@);
        lemma_holds_text_extend("\n\ntype "@ + name + " int32\n\nconst (\n"@ + const_values + ")\n\n// Enum value maps for "@ + name + "\nvar (\n    "@ + name + "_name = map[int32]string{\n"@ + name_map + "    }\n    "@ + name + "_value = map[string]int32{\n"@ + value_map + "    }\n)\n\nfunc (x "@ + name + ") Enum() *"@ + name + " {\n    p := new("@ + name + ")\n\t*p = x\n\treturn p\n}\n\nfunc (x "@ + name + ") String() string {\n\treturn protoimpl.X.EnumStringOf(x.Descriptor(), protoreflect.EnumNumber(x))\n}\n\nfunc ("@ + name + ") Descriptor() protoreflect.EnumDescriptor {\n\treturn "@ + msg_types + "_enumTypes["@ + i + "].Descriptor()\n}\n\nfunc ("@ + name + ") Type() protoreflect.EnumType {\n\treturn &"@ + msg_types + "_enumTypes["@ + i + "]\n}\n\nfunc (x "@ + name + ") Number() protoreflect.EnumNumber {\n\treturn protoreflect.EnumNumber(x)\n}\n\n// Deprecated: Use "@ + name + ".Descriptor instead.\nfunc ("@ + name + ") EnumDescriptor() ([]byte, []int) {\n\treturn "@ + msg_types + "_rawDescGZIP(), []int{"@ + i + "}\n}\n\nvar "@ + msg_types + "_enumTypes = make([]protoimpl.EnumInfo, "@, penums, ") EnumDescriptor() ([]byte, []int) {\n\treturn "@ + msg_types + "_rawDescGZIP(), []int{"@ + i + "}\n}\n\nvar "@);
        lemma_holds_text_extend("\n\ntype "@ + name + " int32\n\nconst (\n"@ + const_values + ")\n\n// Enum value maps for "@ + name + "\nvar (\n    "@ + name + "_name = map[int32]string{\n"@ + name_map + "    }\n    "@ + name + "_value = map[string]int32{\n"@ + value_map + "    }\n)\n\nfunc (x "@ + name + ") Enum() *"@ + name + " {\n    p := new("@ + name + ")\n\t*p = x\n\treturn p\n}\n\nfunc (x "@ + name + ") String() string {\n\treturn protoimpl.X.EnumStringOf(x.Descriptor(), protoreflect.EnumNumber(x))\n}\n\nfunc ("@ + name + ") Descriptor() protoreflect.EnumDescriptor {\n\treturn "@ + msg_types + "_enumTypes["@ + i + "].Descriptor()\n}\n\nfunc ("@ + name + ") Type() protoreflect.EnumType {\n\treturn &"@ + msg_types + "_enumTypes["@ + i + "]\n}\n\nfunc (x "@ + name + ") Number() protoreflect.EnumNumber {\n\treturn protoreflect.EnumNumber(x)\n}\n\n// Deprecated: Use "@ + name + ".Descriptor instead.\nfunc ("@ + name + ") EnumDescriptor() ([]byte, []int) {\n\treturn "@ + msg_types + "_rawDescGZIP(), []int{"@ + i + "}\n}\n\nvar "@ + msg_types + "_enumTypes = make([]protoimpl.EnumInfo, "@ + penums, ")\n\n"@, ") EnumDescriptor() ([]byte, []int) {\n\treturn "@ + msg_types + "_rawDescGZIP(), []int{"@ + i + "}\n}\n\nvar "@);
    }
}

/// In the Go code of a schema, the code of the `k`-th enum, counting enums only, follows
/// the code of the enums before it and uses row `k` of the enum-info table: its
/// `Descriptor` and `Type` methods take `enumTypes[k]` and its `EnumDescriptor` method
/// returns the path `[]int{k}`. So every such row is below the number of enums.
pub proof fn lemma_go_enum_rows(s: MessagesView, msg_types: Seq<char>, k: int)
    requires
        0 <= k < s.penums.len(),
    ensures
        ({
            let before = go_enums_state(s, msg_types, k).code;
            let after = go_enums_state(s, msg_types, k + 1).code;
            let own = after.skip(before.len() as int);
            let i = decimal(k as nat);
            &&& before.len() <= after.len()
            &&& after.take(before.len() as int) == before
            &&& holds_text(own, enum_descriptor_row(msg_types, i))
            &&& holds_text(own, enum_type_row(msg_types, i))
            &&& holds_text(own, enum_path(msg_types, i))
        }),
{
    let before = go_enums_state(s, msg_types, k).code;
    let after = go_enums_state(s, msg_types, k + 1).code;
    let e = s.penums[k];
    let own = go_enum_code(e, msg_types, k as nat, s.penums.len());
    assert(after == before + own);
    assert(after.skip(before.len() as int) =~= own);
    assert(after.take(before.len() as int) =~= before);
    lemma_enum_block_rows(
        e.name,
        go_enum_consts(e.name, e.fields, e.fields.len() as int),
        go_enum_names(e.fields, e.fields.len() as int),
        go_enum_values(e.fields, e.fields.len() as int),
        msg_types,
        decimal(k as nat),
        decimal(s.penums.len()),
    );
}

/// The fields that the descriptor of a message lists, in order: each plain field, and for
/// each `oneof` group its alternatives.
pub open spec fn described_fields(fs: Seq<FieldView>) -> Seq<FieldView>
    decreases fs.len(),
{
    if fs.len() == 0 {
        seq![]
    } else {
        described_fields(fs.drop_last()) + match fs.last().maybe_types {
            Some(alts) => alts,
            None => seq![fs.last()],
        }
    }
}

/// The names of the `oneof` groups among `fs`, in order.
pub open spec fn group_names(fs: Seq<FieldView>) -> Seq<Seq<char>>
    decreases fs.len(),
{
    if fs.len() == 0 {
        seq![]
    } else if fs.last().maybe_types is Some {
        group_names(fs.drop_last()).push(fs.last().name)
    } else {
        group_names(fs.drop_last())
    }
}

/// Whether the field descriptor `d` describes the field `f`: its name (also as JSON
/// name), its index as number, and label 3 when it is repeated, 1 otherwise.
pub open spec fn describes_field(d: FieldDescView, f: FieldView) -> bool {
    &&& d.name == f.name
    &&& d.json_name == f.name
    &&& d.number == f.index as i32
    &&& d.label == (if f.repeated {
        3i32
    } else {
        1i32
    })
}

proof fn lemma_alt_descs(alts: Seq<FieldView>, idx: i32, n: int)
    requires
        0 <= n <= alts.len(),
    ensures
        alt_descs(alts, idx, n).len() == n,
        forall|k: int| 0 <= k < n ==> describes_field(#[trigger] alt_descs(alts, idx, n)[k], alts[k]),
    decreases n,
{
    if n > 0 {
        lemma_alt_descs(alts, idx, n - 1);
        assert forall|k: int| 0 <= k < n implies describes_field(#[trigger] alt_descs(alts, idx, n)[k], alts[k]) by {
            if k < n - 1 {
                assert(alt_descs(alts, idx, n)[k] == alt_descs(alts, idx, n - 1)[k]);
            }
        }
    }
}

proof fn lemma_message_state_desc(m: MessageView, enums: Seq<Seq<char>>, n: int)
    requires
        0 <= n <= m.fields.len(),
    ensures
        ({
            let d = go_message_state(m, enums, n).desc;
            let df = described_fields(m.fields.take(n));
            &&& d.name == m.name
            &&& d.field.len() == df.len()
            &&& forall|j: int| 0 <= j < df.len() ==> describes_field(#[trigger] d.field[j], df[j])
            &&& d.oneof_decl == group_names(m.fields.take(n))
        }),
    decreases n,
{
    if n == 0 {
        assert(m.fields.take(0) =~= seq![]);
    } else {
        lemma_message_state_desc(m, enums, n - 1);
        let fs = m.fields.take(n);
        assert(fs.drop_last() =~= m.fields.take(n - 1));
        assert(fs.last() == m.fields[n - 1]);
        let st = go_message_state(m, enums, n - 1);
        let d = go_message_state(m, enums, n).desc;
        let prev = described_fields(m.fields.take(n - 1));
        let df = described_fields(fs);
        let f = m.fields[n - 1];
        match f.maybe_types {
            Some(alts) => {
                let idx = st.desc.oneof_decl.len() as i32;
                lemma_alt_descs(alts, idx, alts.len() as int);
                assert(df == prev + alts);
                assert(d.field == st.desc.field + alt_descs(alts, idx, alts.len() as int));
                assert forall|j: int| 0 <= j < df.len() implies describes_field(#[trigger] d.field[j], df[j]) by {
                    if j < prev.len() {
                        assert(d.field[j] == st.desc.field[j]);
                        assert(df[j] == prev[j]);
                    } else {
                        assert(d.field[j] == alt_descs(alts, idx, alts.len() as int)[j - prev.len()]);
                        assert(df[j] == alts[j - prev.len()]);
                    }
                }
            },
            None => {
                assert(df == prev + seq![f]);
                assert forall|j: int| 0 <= j < df.len() implies describes_field(#[trigger] d.field[j], df[j]) by {
                    if j < prev.len() {
                        assert(d.field[j] == st.desc.field[j]);
                        assert(df[j] == prev[j]);
                    }
                }
            },
        }
    }
}

/// The descriptor of a message names it, lists its plain fields and the alternatives of
/// its `oneof` groups in their order, each with its name, its index as number and its
/// label, and names its `oneof` groups in their order.
pub proof fn lemma_go_message_desc(m: MessageView, enums: Seq<Seq<char>>)
    ensures
        ({
            let d = go_message(m, enums).2;
            let df = described_fields(m.fields);
            &&& d.name == m.name
            &&& d.field.len() == df.len()
            &&& forall|j: int| 0 <= j < df.len() ==> describes_field(#[trigger] d.field[j], df[j])
            &&& d.oneof_decl == group_names(m.fields)
        }),
{
    lemma_message_state_desc(m, enums, m.fields.len() as int);
    assert(m.fields.take(m.fields.len() as int) =~= m.fields);
}

/// The enum descriptors of a schema's Go file describe its enums in their order: the
/// `k`-th names the `k`-th enum and lists its values in their order, each with its name
/// and its index as number.
pub proof fn lemma_go_enum_descs(s: MessagesView, msg_types: Seq<char>, n: int)
    requires
        0 <= n <= s.penums.len(),
    ensures
        ({
            let ds = go_enums_state(s, msg_types, n).descs;
            &&& ds.len() == n
            &&& forall|k: int|
                0 <= k < n ==> {
                    &&& (#[trigger] ds[k]).name == s.penums[k].name
                    &&& ds[k].value.len() == s.penums[k].fields.len()
                    &&& forall|j: int|
                        0 <= j < ds[k].value.len() ==> (#[trigger] ds[k].value[j]).name
                            == s.penums[k].fields[j].name && ds[k].value[j].number
                            == s.penums[k].fields[j].index as i32
                }
        }),
    decreases n,
{
    if n > 0 {
        lemma_go_enum_descs(s, msg_types, n - 1);
        let ds = go_enums_state(s, msg_types, n).descs;
        let prev = go_enums_state(s, msg_types, n - 1).descs;
        assert forall|k: int| 0 <= k < n - 1 implies ds[k] == prev[k] by {}
    }
}

/// The message descriptors of a schema's Go file are those of its messages in their
/// order: the `k`-th is the descriptor of the `k`-th message.
pub proof fn lemma_go_message_descs(s: MessagesView, msg_types: Seq<char>, n: int)
    requires
        0 <= n <= s.messages.len(),
    ensures
        ({
            let ds = go_messages_state(s, msg_types, n).descs;
            &&& ds.len() == n
            &&& forall|k: int|
                0 <= k < n ==> #[trigger] ds[k] == go_message(
                    s.messages[k],
                    s.penums.map_values(|e: PEnumView| e.name),
                ).2
        }),
    decreases n,
{
    if n > 0 {
        lemma_go_message_descs(s, msg_types, n - 1);
        let ds = go_messages_state(s, msg_types, n).descs;
        let prev = go_messages_state(s, msg_types, n - 1).descs;
        assert forall|k: int| 0 <= k < n - 1 implies ds[k] == prev[k] by {}
    }
}

/// The head of the message-info table of a Go file, with its length.
pub open spec fn message_table(msg_types: Seq<char>, messages: Seq<char>) -> Seq<char> {
    msg_types + "_msgTypes = make([]protoimpl.MessageInfo, "@ + messages + ")\nvar "@
}

/// The counts of enums and messages that a Go file declares to the runtime.
pub open spec fn declared_counts(msg_types: Seq<char>, penums: Seq<char>, messages: Seq<char>) -> Seq<char> {
    msg_types + "_rawDesc)),\n\t\t\tNumEnums:      "@ + penums + ",\n\t\t\tNumMessages:   "@ + messages + ",\n\t\t\tNumExtensions: 0,\n\t\t\tNumServices:   0,\n\t\t},\n\t\tGoTypes:           "@
}

/// The Go type table of a Go file, with its entries.
pub open spec fn type_table(msg_types: Seq<char>, go_types: Seq<char>) -> Seq<char> {
    msg_types + "_goTypes = []any{\n"@ + go_types + "}\nvar "@
}

proof fn lemma_final_block_parts(cap_msg_type: Seq<char>, go_code: Seq<char>, msg_types: Seq<char>, messages: Seq<char>, go_types: Seq<char>, dep_idxs_code: Seq<char>, oneof_wrappers: Seq<char>, penums: Seq<char>, enum_types: Seq<char>)
    ensures
        holds_text(go_final_block(cap_msg_type, go_code, msg_types, messages, go_types, dep_idxs_code, oneof_wrappers, penums, enum_types), go_code),
        holds_text(go_final_block(cap_msg_type, go_code, msg_types, messages, go_types, dep_idxs_code, oneof_wrappers, penums, enum_types), message_table(msg_types, messages)),
        holds_text(go_final_block(cap_msg_type, go_code, msg_types, messages, go_types, dep_idxs_code, oneof_wrappers, penums, enum_types), declared_counts(msg_types, penums, messages)),
        holds_text(go_final_block(cap_msg_type, go_code, msg_types, messages, go_types, dep_idxs_code, oneof_wrappers, penums, enum_types), type_table(msg_types, go_types)),
{
    assert(holds_text(go_final_block(cap_msg_type, go_code, msg_types, messages, go_types, dep_idxs_code, oneof_wrappers, penums, enum_types), go_code)) by {
        lemma_holds_text_end("var "@ + cap_msg_type + " protoreflect.FileDescriptor\n\n"@, go_code);
        lemma_holds_text_extend("var "@ + cap_msg_type + " protoreflect.FileDescriptor\n\n"@ + go_code, "\n\nvar (\n    "@, go_code);
        lemma_holds_text_extend("var "@ + cap_msg_type + " protoreflect.FileDescriptor\n\n"@ + go_code + "\n\nvar (\n    "@, msg_types, go_code);
        lemma_holds_text_extend("var "@ + cap_msg_type + " protoreflect.FileDescriptor\n\n"@ + go_code + "\n\nvar (\n    "@ + msg_types, "_rawDescOnce sync.Once\n    "@, go_code);
        lemma_holds_text_extend("var "@ + cap_msg_type + " protoreflect.FileDescriptor\n\n"@ + go_code + "\n\nvar (\n    "@ + msg_types + "_rawDescOnce sync.Once\n    "@, msg_types, go_code);
        lemma_holds_text_extend("var "@ + cap_msg_type + " protoreflect.FileDescriptor\n\n"@ + go_code + "\n\nvar (\n    "@ + msg_types + "_rawDescOnce sync.Once\n    "@ + msg_types, "_rawDescData []byte\n)\n\nfunc "@, go_code);
        lemma_holds_text_extend("var "@ + cap_msg_type + " protoreflect.FileDescriptor\n\n"@ + go_code + "\n\nvar (\n    "@ + msg_types + "_rawDescOnce sync.Once\n    "@ + msg_types + "_rawDescData []byte\n)\n\nfunc "@, msg_types, go_code);
        lemma_holds_text_extend("var "@ + cap_msg_type + " protoreflect.FileDescriptor\n\n"@ + go_code + "\n\nvar (\n    "@ + msg_types + "_rawDescOnce sync.Once\n    "@ + msg_types + "_rawDescData []byte\n)\n\nfunc "@ + msg_types, "_rawDescGZIP() []byte {\n\t"@, go_code);
        lemma_holds_text_extend("var "@ + cap_msg_type + " protoreflect.FileDescriptor\n\n"@ + go_code + "\n\nvar (\n    "@ + msg_types + "_rawDescOnce sync.Once\n    "@ + msg_types + "_rawDescData []byte\n)\n\nfunc "@ + msg_types + "_rawDescGZIP() []byte {\n\t"@, msg_types, go_code);
        lemma_holds_text_extend("var "@ + cap_msg_type + " protoreflect.FileDescriptor\n\n"@ + go_code + "\n\nvar (\n    "@ + msg_types + "_rawDescOnce sync.Once\n    "@ + msg_types + "_rawDescData []byte\n)\n\nfunc "@ + msg_types + "_rawDescGZIP() []byte {\n\t"@ + msg_types, "_rawDescOnce.Do(func() {\n\t\t"@, go_code);
        lemma_holds_text_extend("var "@ + cap_msg_type + " protoreflect.FileDescriptor\n\n"@ + go_code + "\n\nvar (\n    "@ + msg_types + "_rawDescOnce sync.Once\n    "@ + msg_types + "_rawDescData []byte\n)\n\nfunc "@ + msg_types + "_rawDescGZIP() []byte {\n\t"@ + msg_types + "_rawDescOnce.Do(func() {\n\t\t"@, msg_types, go_code);
        lemma_holds_text_extend("var "@ + cap_msg_type + " protoreflect.FileDescriptor\n\n"@ + go_code + "\n\nvar (\n    "@ + msg_types + "_rawDescOnce sync.Once\n    "@ + msg_types + "_rawDescData []byte\n)\n\nfunc "@ + msg_types + "_rawDescGZIP() []byte {\n\t"@ + msg_types + "_rawDescOnce.Do(func() {\n\t\t"@ + msg_types, "_rawDescData = protoimpl.X.CompressGZIP(unsafe.Slice(unsafe.StringData("@, go_code);
        lemma_holds_text_extend("var "@ + cap_msg_type + " protoreflect.FileDescriptor\n\n"@ + go_code + "\n\nvar (\n    "@ + msg_types + "_rawDescOnce sync.Once\n    "@ + msg_types + "_rawDescData []byte\n)\n\nfunc "@ + msg_types + "_rawDescGZIP() []byte {\n\t"@ + msg_types + "_rawDescOnce.Do(func() {\n\t\t"@ + msg_types + "_rawDescData = protoimpl.X.CompressGZIP(unsafe.Slice(unsafe.StringData("@, msg_types, go_code);
        lemma_holds_text_extend("var "@ + cap_msg_type + " protoreflect.FileDescriptor\n\n"@ + go_code + "\n\nvar (\n    "@ + msg_types + "_rawDescOnce sync.Once\n    "@ + msg_types + "_rawDescData []byte\n)\n\nfunc "@ + msg_types + "_rawDescGZIP() []byte {\n\t"@ + msg_types + "_rawDescOnce.Do(func() {\n\t\t"@ + msg_types + "_rawDescData = protoimpl.X.CompressGZIP(unsafe.Slice(unsafe.StringData("@ + msg_types, "_rawDesc), len("@, go_code);
        lemma_holds_text_extend("var "@ + cap_msg_type + " protoreflect.FileDescriptor\n\n"@ + go_code + "\n\nvar (\n    "@ + msg_types + "_rawDescOnce sync.Once\n    "@ + msg_types + "_rawDescData []byte\n)\n\nfunc "@ + msg_types + "_rawDescGZIP() []byte {\n\t"@ + msg_types + "_rawDescOnce.Do(func() {\n\t\t"@ + msg_types + "_rawDescData = protoimpl.X.CompressGZIP(unsafe.Slice(unsafe.StringData("@ + msg_types + "_rawDesc), len("@, msg_types, go_code);
        lemma_holds_text_extend("var "@ + cap_msg_type + " protoreflect.FileDescriptor\n\n"@ + go_code + "\n\nvar (\n    "@ + msg_types + "_rawDescOnce sync.Once\n    "@ + msg_types + "_rawDescData []byte\n)\n\nfunc "@ + msg_types + "_rawDescGZIP() []byte {\n\t"@ + msg_types + "_rawDescOnce.Do(func() {\n\t\t"@ + msg_types + "_rawDescData = protoimpl.X.CompressGZIP(unsafe.Slice(unsafe.StringData("@ + msg_types + "_rawDesc), len("@ + msg_types, "_rawDesc)))\n\t})\n\treturn "@, go_code);
        lemma_holds_text_extend("var "@ + cap_msg_type + " protoreflect.FileDescriptor\n\n"@ + go_code + "\n\nvar (\n    "@ + msg_types + "_rawDescOnce sync.Once\n    "@ + msg_types + "_rawDescData []byte\n)\n\nfunc "@ + msg_types + "_rawDescGZIP() []byte {\n\t"@ + msg_types + "_rawDescOnce.Do(func() {\n\t\t"@ + msg_types + "_rawDescData = protoimpl.X.CompressGZIP(unsafe.Slice(unsafe.StringData("@ + msg_types + "_rawDesc), len("@ + msg_types + "_rawDesc)))\n\t})\n\treturn "@, msg_types, go_code);
        lemma_holds_text_extend("var "@ + cap_msg_type + " protoreflect.FileDescriptor\n\n"@ + go_code + "\n\nvar (\n    "@ + msg_types + "_rawDescOnce sync.Once\n    "@ + msg_types + "_rawDescData []byte\n)\n\nfunc "@ + msg_types + "_rawDescGZIP() []byte {\n\t"@ + msg_types + "_rawDescOnce.Do(func() {\n\t\t"@ + msg_types + "_rawDescData = protoimpl.X.CompressGZIP(unsafe.Slice(unsafe.StringData("@ + msg_types + "_rawDesc), len("@ + msg_types + "_rawDesc)))\n\t})\n\treturn "@ + msg_types, "_rawDescData\n}\n\nvar "@, go_code);
        lemma_holds_text_extend("var "@ + cap_msg_type + " protoreflect.FileDescriptor\n\n"@ + go_code + "\n\nvar (\n    "@ + msg_types + "_rawDescOnce sync.Once\n    "@ + msg_types + "_rawDescData []byte\n)\n\nfunc "@ + msg_types + "_rawDescGZIP() []byte {\n\t"@ + msg_types + "_rawDescOnce.Do(func() {\n\t\t"@ + msg_types + "_rawDescData = protoimpl.X.CompressGZIP(unsafe.Slice(unsafe.StringData("@ + msg_types + "_rawDesc), len("@ + msg_types + "_rawDesc)))\n\t})\n\treturn "@ + msg_types + "_rawDescData\n}\n\nvar "@, msg_types, go_code);
        lemma_holds_text_extend("var "@ + cap_msg_type + " protoreflect.FileDescriptor\n\n"@ + go_code + "\n\nvar (\n    "@ + msg_types + "_rawDescOnce sync.Once\n    "@ + msg_types + "_rawDescData []byte\n)\n\nfunc "@ + msg_types + "_rawDescGZIP() []byte {\n\t"@ + msg_types + "_rawDescOnce.Do(func() {\n\t\t"@ + msg_types + "_rawDescData = protoimpl.X.CompressGZIP(unsafe.Slice(unsafe.StringData("@ + msg_types + "_rawDesc), len("@ + msg_types + "_rawDesc)))\n\t})\n\treturn "@ + msg_types + "_rawDescData\n}\n\nvar "@ + msg_types, "_msgTypes = make([]protoimpl.MessageInfo, "@, go_code);
        lemma_holds_text_extend("var "@ + cap_msg_type + " protoreflect.FileDescriptor\n\n"@ + go_code + "\n\nvar (\n    "@ + msg_types + "_rawDescOnce sync.Once\n    "@ + msg_types + "_rawDescData []byte\n)\n\nfunc "@ + msg_types + "_rawDescGZIP() []byte {\n\t"@ + msg_types + "_rawDescOnce.Do(func() {\n\t\t"@ + msg_types + "_rawDescData = protoimpl.X.CompressGZIP(unsafe.Slice(unsafe.StringData("@ + msg_types + "_rawDesc), len("@ + msg_types + "_rawDesc)))\n\t})\n\treturn "@ + msg_types + "_rawDescData\n}\n\nvar "@ + msg_types + "_msgTypes = make([]protoimpl.MessageInfo, "@, messages, go_code);
        lemma_holds_text_extend("var "@ + cap_msg_type + " protoreflect.FileDescriptor\n\n"@ + go_code + "\n\nvar (\n    "@ + msg_types + "_rawDescOnce sync.Once\n    "@ + msg_types + "_rawDescData []byte\n)\n\nfunc "@ + msg_types + "_rawDescGZIP() []byte {\n\t"@ + msg_types + "_rawDescOnce.Do(func() {\n\t\t"@ + msg_types + "_rawDescData = protoimpl.X.CompressGZIP(unsafe.Slice(unsafe.StringData("@ + msg_types + "_rawDesc), len("@ + msg_types + "_rawDesc)))\n\t})\n\treturn "@ + msg_types + "_rawDescData\n}\n\nvar "@ + msg_types + "_msgTypes = make([]protoimpl.MessageInfo, "@ + messages, ")\nvar "@, go_code);
        lemma_holds_text_extend("var "@ + cap_msg_type + " protoreflect.FileDescriptor\n\n"@ + go_code + "\n\nvar (\n    "@ + msg_types + "_rawDescOnce sync.Once\n    "@ + msg_types + "_rawDescData []byte\n)\n\nfunc "@ + msg_types + "_rawDescGZIP() []byte {\n\t"@ + msg_types + "_rawDescOnce.Do(func() {\n\t\t"@ + msg_types + "_rawDescData = protoimpl.X.CompressGZIP(unsafe.Slice(unsafe.StringData("@ + msg_types + "_rawDesc), len("@ + msg_types + "_rawDesc)))\n\t})\n\treturn "@ + msg_types + "_rawDescData\n}\n\nvar "@ + msg_types + "_msgTypes = make([]protoimpl.MessageInfo, "@ + messages + ")\nvar "@, msg_types, go_code);
        lemma_holds_text_extend("var "@ + cap_msg_type + " protoreflect.FileDescriptor\n\n"@ + go_code + "\n\nvar (\n    "@ + msg_types + "_rawDescOnce sync.Once\n    "@ + msg_types + "_rawDescData []byte\n)\n\nfunc "@ + msg_types + "_rawDescGZIP() []byte {\n\t"@ + msg_types + "_rawDescOnce.Do(func() {\n\t\t"@ + msg_types + "_rawDescData = protoimpl.X.CompressGZIP(unsafe.Slice(unsafe.StringData("@ + msg_types + "_rawDesc), len("@ + msg_types + "_rawDesc)))\n\t})\n\treturn "@ + msg_types + "_rawDescData\n}\n\nvar "@ + msg_types + "_msgTypes = make([]protoimpl.MessageInfo, "@ + messages + ")\nvar "@ + msg_types, "_goTypes = []any{\n"@, go_code);
        lemma_holds_text_extend("var "@ + cap_msg_type + " protoreflect.FileDescriptor\n\n"@ + go_code + "\n\nvar (\n    "@ + msg_types + "_rawDescOnce sync.Once\n    "@ + msg_types + "_rawDescData []byte\n)\n\nfunc "@ + msg_types + "_rawDescGZIP() []byte {\n\t"@ + msg_types + "_rawDescOnce.Do(func() {\n\t\t"@ + msg_types + "_rawDescData = protoimpl.X.CompressGZIP(unsafe.Slice(unsafe.StringData("@ + msg_types + "_rawDesc), len("@ + msg_types + "_rawDesc)))\n\t})\n\treturn "@ + msg_types + "_rawDescData\n}\n\nvar "@ + msg_types + "_msgTypes = make([]protoimpl.MessageInfo, "@ + messages + ")\nvar "@ + msg_types + "_goTypes = []any{\n"@, go_types, go_code);
        lemma_holds_text_extend("var "@ + cap_msg_type + " protoreflect.FileDescriptor\n\n"@ + go_code + "\n\nvar (\n    "@ + msg_types + "_rawDescOnce sync.Once\n    "@ + msg_types + "_rawDescData []byte\n)\n\nfunc "@ + msg_types + "_rawDescGZIP() []byte {\n\t"@ + msg_types + "_rawDescOnce.Do(func() {\n\t\t"@ + msg_types + "_rawDescData = protoimpl.X.CompressGZIP(unsafe.Slice(unsafe.StringData("@ + msg_types + "_rawDesc), len("@ + msg_types + "_rawDesc)))\n\t})\n\treturn "@ + msg_types + "_rawDescData\n}\n\nvar "@ + msg_types + "_msgTypes = make([]protoimpl.MessageInfo, "@ + messages + ")\nvar "@ + msg_types + "_goTypes = []any{\n"@ + go_types, "}\nvar "@, go_code);
        lemma_holds_text_extend("var "@ + cap_msg_type + " protoreflect.FileDescriptor\n\n"@ + go_code + "\n\nvar (\n    "@ + msg_types + "_rawDescOnce sync.Once\n    "@ + msg_types + "_rawDescData []byte\n)\n\nfunc "@ + msg_types + "_rawDescGZIP() []byte {\n\t"@ + msg_types + "_rawDescOnce.Do(func() {\n\t\t"@ + msg_types + "_rawDescData = protoimpl.X.CompressGZIP(unsafe.Slice(unsafe.StringData("@ + msg_types + "_rawDesc), len("@ + msg_types + "_rawDesc)))\n\t})\n\treturn "@ + msg_types + "_rawDescData\n}\n\nvar "@ + msg_types + "_msgTypes = make([]protoimpl.MessageInfo, "@ + messages + ")\nvar "@ + msg_types + "_goTypes = []any{\n"@ + go_types + "}\nvar "@, msg_types, go_code);
        lemma_holds_text_extend("var "@ + cap_msg_type + " protoreflect.FileDescriptor\n\n"@ + go_code + "\n\nvar (\n    "@ + msg_types + "_rawDescOnce sync.Once\n    "@ + msg_types + "_rawDescData []byte\n)\n\nfunc "@ + msg_types + "_rawDescGZIP() []byte {\n\t"@ + msg_types + "_rawDescOnce.Do(func() {\n\t\t"@ + msg_types + "_rawDescData = protoimpl.X.CompressGZIP(unsafe.Slice(unsafe.StringData("@ + msg_types + "_rawDesc), len("@ + msg_types + "_rawDesc)))\n\t})\n\treturn "@ + msg_types + "_rawDescData\n}\n\nvar "@ + msg_types + "_msgTypes = make([]protoimpl.MessageInfo, "@ + messages + ")\nvar "@ + msg_types + "_goTypes = []any{\n"@ + go_types + "}\nvar "@ + msg_types, "_depIdxs = []int32{"@, go_code);
        lemma_holds_text_extend("var "@ + cap_msg_type + " protoreflect.FileDescriptor\n\n"@ + go_code + "\n\nvar (\n    "@ + msg_types + "_rawDescOnce sync.Once\n    "@ + msg_types + "_rawDescData []byte\n)\n\nfunc "@ + msg_types + "_rawDescGZIP() []byte {\n\t"@ + msg_types + "_rawDescOnce.Do(func() {\n\t\t"@ + msg_types + "_rawDescData = protoimpl.X.CompressGZIP(unsafe.Slice(unsafe.StringData("@ + msg_types + "_rawDesc), len("@ + msg_types + "_rawDesc)))\n\t})\n\treturn "@ + msg_types + "_rawDescData\n}\n\nvar "@ + msg_types + "_msgTypes = make([]protoimpl.MessageInfo, "@ + messages + ")\nvar "@ + msg_types + "_goTypes = []any{\n"@ + go_types + "}\nvar "@ + msg_types + "_depIdxs = []int32{"@, dep_idxs_code, go_code);
        lemma_holds_text_extend("var "@ + cap_msg_type + " protoreflect.FileDescriptor\n\n"@ + go_code + "\n\nvar (\n    "@ + msg_types + "_rawDescOnce sync.Once\n    "@ + msg_types + "_rawDescData []byte\n)\n\nfunc "@ + msg_types + "_rawDescGZIP() []byte {\n\t"@ + msg_types + "_rawDescOnce.Do(func() {\n\t\t"@ + msg_types + "_rawDescData = protoimpl.X.CompressGZIP(unsafe.Slice(unsafe.StringData("@ + msg_types + "_rawDesc), len("@ + msg_types + "_rawDesc)))\n\t})\n\treturn "@ + msg_types + "_rawDescData\n}\n\nvar "@ + msg_types + "_msgTypes = make([]protoimpl.MessageInfo, "@ + messages + ")\nvar "@ + msg_types + "_goTypes = []any{\n"@ + go_types + "}\nvar "@ + msg_types + "_depIdxs = []int32{"@ + dep_idxs_code, "}\n\nfunc init() { "@, go_code);
        lemma_holds_text_extend("var "@ + cap_msg_type + " protoreflect.FileDescriptor\n\n"@ + go_code + "\n\nvar (\n    "@ + msg_types + "_rawDescOnce sync.Once\n    "@ + msg_types + "_rawDescData []byte\n)\n\nfunc "@ + msg_types + "_rawDescGZIP() []byte {\n\t"@ + msg_types + "_rawDescOnce.Do(func() {\n\t\t"@ + msg_types + "_rawDescData = protoimpl.X.CompressGZIP(unsafe.Slice(unsafe.StringData("@ + msg_types + "_rawDesc), len("@ + msg_types + "_rawDesc)))\n\t})\n\treturn "@ + msg_types + "_rawDescData\n}\n\nvar "@ + msg_types + "_msgTypes = make([]protoimpl.MessageInfo, "@ + messages + ")\nvar "@ + msg_types + "_goTypes = []any{\n"@ + go_types + "}\nvar "@ + msg_types + "_depIdxs = []int32{"@ + dep_idxs_code + "}\n\nfunc init() { "@, msg_types, go_code);
        lemma_holds_text_extend("var "@ + cap_msg_type + " protoreflect.FileDescriptor\n\n"@ + go_code + "\n\nvar (\n    "@ + msg_types + "_rawDescOnce sync.Once\n    "@ + msg_types + "_rawDescData []byte\n)\n\nfunc "@ + msg_types + "_rawDescGZIP() []byte {\n\t"@ + msg_types + "_rawDescOnce.Do(func() {\n\t\t"@ + msg_types + "_rawDescData = protoimpl.X.CompressGZIP(unsafe.Slice(unsafe.StringData("@ + msg_types + "_rawDesc), len("@ + msg_types + "_rawDesc)))\n\t})\n\treturn "@ + msg_types + "_rawDescData\n}\n\nvar "@ + msg_types + "_msgTypes = make([]protoimpl.MessageInfo, "@ + messages + ")\nvar "@ + msg_types + "_goTypes = []any{\n"@ + go_types + "}\nvar "@ + msg_types + "_depIdxs = []int32{"@ + dep_idxs_code + "}\n\nfunc init() { "@ + msg_types, "_init() }\nfunc "@, go_code);
        lemma_holds_text_extend("var "@ + cap_msg_type + " protoreflect.FileDescriptor\n\n"@ + go_code + "\n\nvar (\n    "@ + msg_types + "_rawDescOnce sync.Once\n    "@ + msg_types + "_rawDescData []byte\n)\n\nfunc "@ + msg_types + "_rawDescGZIP() []byte {\n\t"@ + msg_types + "_rawDescOnce.Do(func() {\n\t\t"@ + msg_types + "_rawDescData = protoimpl.X.CompressGZIP(unsafe.Slice(unsafe.StringData("@ + msg_types + "_rawDesc), len("@ + msg_types + "_rawDesc)))\n\t})\n\treturn "@ + msg_types + "_rawDescData\n}\n\nvar "@ + msg_types + "_msgTypes = make([]protoimpl.MessageInfo, "@ + messages + ")\nvar "@ + msg_types + "_goTypes = []any{\n"@ + go_types + "}\nvar "@ + msg_types + "_depIdxs = []int32{"@ + dep_idxs_code + "}\n\nfunc init() { "@ + msg_types + "_init() }\nfunc "@, msg_types, go_code);
        lemma_holds_text_extend("var "@ + cap_msg_type + " protoreflect.FileDescriptor\n\n"@ + go_code + "\n\nvar (\n    "@ + msg_types + "_rawDescOnce sync.Once\n    "@ + msg_types + "_rawDescData []byte\n)\n\nfunc "@ + msg_types + "_rawDescGZIP() []byte {\n\t"@ + msg_types + "_rawDescOnce.Do(func() {\n\t\t"@ + msg_types + "_rawDescData = protoimpl.X.CompressGZIP(unsafe.Slice(unsafe.StringData("@ + msg_types + "_rawDesc), len("@ + msg_types + "_rawDesc)))\n\t})\n\treturn "@ + msg_types + "_rawDescData\n}\n\nvar "@ + msg_types + "_msgTypes = make([]protoimpl.MessageInfo, "@ + messages + ")\nvar "@ + msg_types + "_goTypes = []any{\n"@ + go_types + "}\nvar "@ + msg_types + "_depIdxs = []int32{"@ + dep_idxs_code + "}\n\nfunc init() { "@ + msg_types + "_init() }\nfunc "@ + msg_types, "_init() {\n\tif "@, go_code);
        lemma_holds_text_extend("var "@ + cap_msg_type + " protoreflect.FileDescriptor\n\n"@ + go_code + "\n\nvar (\n    "@ + msg_types + "_rawDescOnce sync.Once\n    "@ + msg_types + "_rawDescData []byte\n)\n\nfunc "@ + msg_types + "_rawDescGZIP() []byte {\n\t"@ + msg_types + "_rawDescOnce.Do(func() {\n\t\t"@ + msg_types + "_rawDescData = protoimpl.X.CompressGZIP(unsafe.Slice(unsafe.StringData("@ + msg_types + "_rawDesc), len("@ + msg_types + "_rawDesc)))\n\t})\n\treturn "@ + msg_types + "_rawDescData\n}\n\nvar "@ + msg_types + "_msgTypes = make([]protoimpl.MessageInfo, "@ + messages + ")\nvar "@ + msg_types + "_goTypes = []any{\n"@ + go_types + "}\nvar "@ + msg_types + "_depIdxs = []int32{"@ + dep_idxs_code + "}\n\nfunc init() { "@ + msg_types + "_init() }\nfunc "@ + msg_types + "_init() {\n\tif "@, cap_msg_type, go_code);
        lemma_holds_text_extend("var "@ + cap_msg_type + " protoreflect.FileDescriptor\n\n"@ + go_code + "\n\nvar (\n    "@ + msg_types + "_rawDescOnce sync.Once\n    "@ + msg_types + "_rawDescData []byte\n)\n\nfunc "@ + msg_types + "_rawDescGZIP() []byte {\n\t"@ + msg_types + "_rawDescOnce.Do(func() {\n\t\t"@ + msg_types + "_rawDescData = protoimpl.X.CompressGZIP(unsafe.Slice(unsafe.StringData("@ + msg_types + "_rawDesc), len("@ + msg_types + "_rawDesc)))\n\t})\n\treturn "@ + msg_types + "_rawDescData\n}\n\nvar "@ + msg_types + "_msgTypes = make([]protoimpl.MessageInfo, "@ + messages + ")\nvar "@ + msg_types + "_goTypes = []any{\n"@ + go_types + "}\nvar "@ + msg_types + "_depIdxs = []int32{"@ + dep_idxs_code + "}\n\nfunc init() { "@ + msg_types + "_init() }\nfunc "@ + msg_types + "_init() {\n\tif "@ + cap_msg_type, " != nil {\n\t\treturn\n\t}\n"@, go_code);
        lemma_holds_text_extend("var "@ + cap_msg_type + " protoreflect.FileDescriptor\n\n"@ + go_code + "\n\nvar (\n    "@ + msg_types + "_rawDescOnce sync.Once\n    "@ + msg_types + "_rawDescData []byte\n)\n\nfunc "@ + msg_types + "_rawDescGZIP() []byte {\n\t"@ + msg_types + "_rawDescOnce.Do(func() {\n\t\t"@ + msg_types + "_rawDescData = protoimpl.X.CompressGZIP(unsafe.Slice(unsafe.StringData("@ + msg_types + "_rawDesc), len("@ + msg_types + "_rawDesc)))\n\t})\n\treturn "@ + msg_types + "_rawDescData\n}\n\nvar "@ + msg_types + "_msgTypes = make([]protoimpl.MessageInfo, "@ + messages + ")\nvar "@ + msg_types + "_goTypes = []any{\n"@ + go_types + "}\nvar "@ + msg_types + "_depIdxs = []int32{"@ + dep_idxs_code + "}\n\nfunc init() { "@ + msg_types + "_init() }\nfunc "@ + msg_types + "_init() {\n\tif "@ + cap_msg_type + " != nil {\n\t\treturn\n\t}\n"@, oneof_wrappers, go_code);
        lemma_holds_text_extend("var "@ + cap_msg_type + " protoreflect.FileDescriptor\n\n"@ + go_code + "\n\nvar (\n    "@ + msg_types + "_rawDescOnce sync.Once\n    "@ + msg_types + "_rawDescData []byte\n)\n\nfunc "@ + msg_types + "_rawDescGZIP() []byte {\n\t"@ + msg_types + "_rawDescOnce.Do(func() {\n\t\t"@ + msg_types + "_rawDescData = protoimpl.X.CompressGZIP(unsafe.Slice(unsafe.StringData("@ + msg_types + "_rawDesc), len("@ + msg_types + "_rawDesc)))\n\t})\n\treturn "@ + msg_types + "_rawDescData\n}\n\nvar "@ + msg_types + "_msgTypes = make([]protoimpl.MessageInfo, "@ + messages + ")\nvar "@ + msg_types + "_goTypes = []any{\n"@ + go_types + "}\nvar "@ + msg_types + "_depIdxs = []int32{"@ + dep_idxs_code + "}\n\nfunc init() { "@ + msg_types + "_init() }\nfunc "@ + msg_types + "_init() {\n\tif "@ + cap_msg_type + " != nil {\n\t\treturn\n\t}\n"@ + oneof_wrappers, "\ttype x struct{}\n\tout := protoimpl.TypeBuilder{\n\t\tFile: protoimpl.DescBuilder{\n\t\t\tGoPackagePath: reflect.TypeOf(x{}).PkgPath(),\n\t\t\tRawDescriptor: unsafe.Slice(unsafe.StringData("@, go_code);
        lemma_holds_text_extend("var "@ + cap_msg_type + " protoreflect.FileDescriptor\n\n"@ + go_code + "\n\nvar (\n    "@ + msg_types + "_rawDescOnce sync.Once\n    "@ + msg_types + "_rawDescData []byte\n)\n\nfunc "@ + msg_types + "_rawDescGZIP() []byte {\n\t"@ + msg_types + "_rawDescOnce.Do(func() {\n\t\t"@ + msg_types + "_rawDescData = protoimpl.X.CompressGZIP(unsafe.Slice(unsafe.StringData("@ + msg_types + "_rawDesc), len("@ + msg_types + "_rawDesc)))\n\t})\n\treturn "@ + msg_types + "_rawDescData\n}\n\nvar "@ + msg_types + "_msgTypes = make([]protoimpl.MessageInfo, "@ + messages + ")\nvar "@ + msg_types + "_goTypes = []any{\n"@ + go_types + "}\nvar "@ + msg_types + "_depIdxs = []int32{"@ + dep_idxs_code + "}\n\nfunc init() { "@ + msg_types + "_init() }\nfunc "@ + msg_types + "_init() {\n\tif "@ + cap_msg_type + " != nil {\n\t\treturn\n\t}\n"@ + oneof_wrappers + "\ttype x struct{}\n\tout := protoimpl.TypeBuilder{\n\t\tFile: protoimpl.DescBuilder{\n\t\t\tGoPackagePath: reflect.TypeOf(x{}).PkgPath(),\n\t\t\tRawDescriptor: unsafe.Slice(unsafe.StringData("@, msg_types, go_code);
        lemma_holds_text_extend("var "@ + cap_msg_type + " protoreflect.FileDescriptor\n\n"@ + go_code + "\n\nvar (\n    "@ + msg_types + "_rawDescOnce sync.Once\n    "@ + msg_types + "_rawDescData []byte\n)\n\nfunc "@ + msg_types + "_rawDescGZIP() []byte {\n\t"@ + msg_types + "_rawDescOnce.Do(func() {\n\t\t"@ + msg_types + "_rawDescData = protoimpl.X.CompressGZIP(unsafe.Slice(unsafe.StringData("@ + msg_types + "_rawDesc), len("@ + msg_types + "_rawDesc)))\n\t})\n\treturn "@ + msg_types + "_rawDescData\n}\n\nvar "@ + msg_types + "_msgTypes = make([]protoimpl.MessageInfo, "@ + messages + ")\nvar "@ + msg_types + "_goTypes = []any{\n"@ + go_types + "}\nvar "@ + msg_types + "_depIdxs = []int32{"@ + dep_idxs_code + "}\n\nfunc init() { "@ + msg_types + "_init() }\nfunc "@ + msg_types + "_init() {\n\tif "@ + cap_msg_type + " != nil {\n\t\treturn\n\t}\n"@ + oneof_wrappers + "\ttype x struct{}\n\tout := protoimpl.TypeBuilder{\n\t\tFile: protoimpl.DescBuilder{\n\t\t\tGoPackagePath: reflect.TypeOf(x{}).PkgPath(),\n\t\t\tRawDescriptor: unsafe.Slice(unsafe.StringData("@ + msg_types, "_rawDesc), len("@, go_code);
        lemma_holds_text_extend("var "@ + cap_msg_type + " protoreflect.FileDescriptor\n\n"@ + go_code + "\n\nvar (\n    "@ + msg_types + "_rawDescOnce sync.Once\n    "@ + msg_types + "_rawDescData []byte\n)\n\nfunc "@ + msg_types + "_rawDescGZIP() []byte {\n\t"@ + msg_types + "_rawDescOnce.Do(func() {\n\t\t"@ + msg_types + "_rawDescData = protoimpl.X.CompressGZIP(unsafe.Slice(unsafe.StringData("@ + msg_types + "_rawDesc), len("@ + msg_types + "_rawDesc)))\n\t})\n\treturn "@ + msg_types + "_rawDescData\n}\n\nvar "@ + msg_types + "_msgTypes = make([]protoimpl.MessageInfo, "@ + messages + ")\nvar "@ + msg_types + "_goTypes = []any{\n"@ + go_types + "}\nvar "@ + msg_types + "_depIdxs = []int32{"@ + dep_idxs_code + "}\n\nfunc init() { "@ + msg_types + "_init() }\nfunc "@ + msg_types + "_init() {\n\tif "@ + cap_msg_type + " != nil {\n\t\treturn\n\t}\n"@ + oneof_wrappers + "\ttype x struct{}\n\tout := protoimpl.TypeBuilder{\n\t\tFile: protoimpl.DescBuilder{\n\t\t\tGoPackagePath: reflect.TypeOf(x{}).PkgPath(),\n\t\t\tRawDescriptor: unsafe.Slice(unsafe.StringData("@ + msg_types + "_rawDesc), len("@, msg_types, go_code);
        lemma_holds_text_extend("var "@ + cap_msg_type + " protoreflect.FileDescriptor\n\n"@ + go_code + "\n\nvar (\n    "@ + msg_types + "_rawDescOnce sync.Once\n    "@ + msg_types + "_rawDescData []byte\n)\n\nfunc "@ + msg_types + "_rawDescGZIP() []byte {\n\t"@ + msg_types + "_rawDescOnce.Do(func() {\n\t\t"@ + msg_types + "_rawDescData = protoimpl.X.CompressGZIP(unsafe.Slice(unsafe.StringData("@ + msg_types + "_rawDesc), len("@ + msg_types + "_rawDesc)))\n\t})\n\treturn "@ + msg_types + "_rawDescData\n}\n\nvar "@ + msg_types + "_msgTypes = make([]protoimpl.MessageInfo, "@ + messages + ")\nvar "@ + msg_types + "_goTypes = []any{\n"@ + go_types + "}\nvar "@ + msg_types + "_depIdxs = []int32{"@ + dep_idxs_code + "}\n\nfunc init() { "@ + msg_types + "_init() }\nfunc "@ + msg_types + "_init() {\n\tif "@ + cap_msg_type + " != nil {\n\t\treturn\n\t}\n"@ + oneof_wrappers + "\ttype x struct{}\n\tout := protoimpl.TypeBuilder{\n\t\tFile: protoimpl.DescBuilder{\n\t\t\tGoPackagePath: reflect.TypeOf(x{}).PkgPath(),\n\t\t\tRawDescriptor: unsafe.Slice(unsafe.StringData("@ + msg_types + "_rawDesc), len("@ + msg_types, "_rawDesc)),\n\t\t\tNumEnums:      "@, go_code);
        lemma_holds_text_extend("var "@ + cap_msg_type + " protoreflect.FileDescriptor\n\n"@ + go_code + "\n\nvar (\n    "@ + msg_types + "_rawDescOnce sync.Once\n    "@ + msg_types + "_rawDescData []byte\n)\n\nfunc "@ + msg_types + "_rawDescGZIP() []byte {\n\t"@ + msg_types + "_rawDescOnce.Do(func() {\n\t\t"@ + msg_types + "_rawDescData = protoimpl.X.CompressGZIP(unsafe.Slice(unsafe.StringData("@ + msg_types + "_rawDesc), len("@ + msg_types + "_rawDesc)))\n\t})\n\treturn "@ + msg_types + "_rawDescData\n}\n\nvar "@ + msg_types + "_msgTypes = make([]protoimpl.MessageInfo, "@ + messages + ")\nvar "@ + msg_types + "_goTypes = []any{\n"@ + go_types + "}\nvar "@ + msg_types + "_depIdxs = []int32{"@ + dep_idxs_code + "}\n\nfunc init() { "@ + msg_types + "_init() }\nfunc "@ + msg_types + "_init() {\n\tif "@ + cap_msg_type + " != nil {\n\t\treturn\n\t}\n"@ + oneof_wrappers + "\ttype x struct{}\n\tout := protoimpl.TypeBuilder{\n\t\tFile: protoimpl.DescBuilder{\n\t\t\tGoPackagePath: reflect.TypeOf(x{}).PkgPath(),\n\t\t\tRawDescriptor: unsafe.Slice(unsafe.StringData("@ + msg_types + "_rawDesc), len("@ + msg_types + "_rawDesc)),\n\t\t\tNumEnums:      "@, penums, go_code);
        lemma_holds_text_extend("var "@ + cap_msg_type + " protoreflect.FileDescriptor\n\n"@ + go_code + "\n\nvar (\n    "@ + msg_types + "_rawDescOnce sync.Once\n    "@ + msg_types + "_rawDescData []byte\n)\n\nfunc "@ + msg_types + "_rawDescGZIP() []byte {\n\t"@ + msg_types + "_rawDescOnce.Do(func() {\n\t\t"@ + msg_types + "_rawDescData = protoimpl.X.CompressGZIP(unsafe.Slice(unsafe.StringData("@ + msg_types + "_rawDesc), len("@ + msg_types + "_rawDesc)))\n\t})\n\treturn "@ + msg_types + "_rawDescData\n}\n\nvar "@ + msg_types + "_msgTypes = make([]protoimpl.MessageInfo, "@ + messages + ")\nvar "@ + msg_types + "_goTypes = []any{\n"@ + go_types + "}\nvar "@ + msg_types + "_depIdxs = []int32{"@ + dep_idxs_code + "}\n\nfunc init() { "@ + msg_types + "_init() }\nfunc "@ + msg_types + "_init() {\n\tif "@ + cap_msg_type + " != nil {\n\t\treturn\n\t}\n"@ + oneof_wrappers + "\ttype x struct{}\n\tout := protoimpl.TypeBuilder{\n\t\tFile: protoimpl.DescBuilder{\n\t\t\tGoPackagePath: reflect.TypeOf(x{}).PkgPath(),\n\t\t\tRawDescriptor: unsafe.Slice(unsafe.StringData("@ + msg_types + "_rawDesc), len("@ + msg_types + "_rawDesc)),\n\t\t\tNumEnums:      "@ + penums, ",\n\t\t\tNumMessages:   "@, go_code);
        lemma_holds_text_extend("var "@ + cap_msg_type + " protoreflect.FileDescriptor\n\n"@ + go_code + "\n\nvar (\n    "@ + msg_types + "_rawDescOnce sync.Once\n    "@ + msg_types + "_rawDescData []byte\n)\n\nfunc "@ + msg_types + "_rawDescGZIP() []byte {\n\t"@ + msg_types + "_rawDescOnce.Do(func() {\n\t\t"@ + msg_types + "_rawDescData = protoimpl.X.CompressGZIP(unsafe.Slice(unsafe.StringData("@ + msg_types + "_rawDesc), len("@ + msg_types + "_rawDesc)))\n\t})\n\treturn "@ + msg_types + "_rawDescData\n}\n\nvar "@ + msg_types + "_msgTypes = make([]protoimpl.MessageInfo, "@ + messages + ")\nvar "@ + msg_types + "_goTypes = []any{\n"@ + go_types + "}\nvar "@ + msg_types + "_depIdxs = []int32{"@ + dep_idxs_code + "}\n\nfunc init() { "@ + msg_types + "_init() }\nfunc "@ + msg_types + "_init() {\n\tif "@ + cap_msg_type + " != nil {\n\t\treturn\n\t}\n"@ + oneof_wrappers + "\ttype x struct{}\n\tout := protoimpl.TypeBuilder{\n\t\tFile: protoimpl.DescBuilder{\n\t\t\tGoPackagePath: reflect.TypeOf(x{}).PkgPath(),\n\t\t\tRawDescriptor: unsafe.Slice(unsafe.StringData("@ + msg_types + "_rawDesc), len("@ + msg_types + "_rawDesc)),\n\t\t\tNumEnums:      "@ + penums + ",\n\t\t\tNumMessages:   "@, messages, go_code);
        lemma_holds_text_extend("var "@ + cap_msg_type + " protoreflect.FileDescriptor\n\n"@ + go_code + "\n\nvar (\n    "@ + msg_types + "_rawDescOnce sync.Once\n    "@ + msg_types + "_rawDescData []byte\n)\n\nfunc "@ + msg_types + "_rawDescGZIP() []byte {\n\t"@ + msg_types + "_rawDescOnce.Do(func() {\n\t\t"@ + msg_types + "_rawDescData = protoimpl.X.CompressGZIP(unsafe.Slice(unsafe.StringData("@ + msg_types + "_rawDesc), len("@ + msg_types + "_rawDesc)))\n\t})\n\treturn "@ + msg_types + "_rawDescData\n}\n\nvar "@ + msg_types + "_msgTypes = make([]protoimpl.MessageInfo, "@ + messages + ")\nvar "@ + msg_types + "_goTypes = []any{\n"@ + go_types + "}\nvar "@ + msg_types + "_depIdxs = []int32{"@ + dep_idxs_code + "}\n\nfunc init() { "@ + msg_types + "_init() }\nfunc "@ + msg_types + "_init() {\n\tif "@ + cap_msg_type + " != nil {\n\t\treturn\n\t}\n"@ + oneof_wrappers + "\ttype x struct{}\n\tout := protoimpl.TypeBuilder{\n\t\tFile: protoimpl.DescBuilder{\n\t\t\tGoPackagePath: reflect.TypeOf(x{}).PkgPath(),\n\t\t\tRawDescriptor: unsafe.Slice(unsafe.StringData("@ + msg_types + "_rawDesc), len("@ + msg_types + "_rawDesc)),\n\t\t\tNumEnums:      "@ + penums + ",\n\t\t\tNumMessages:   "@ + messages, ",\n\t\t\tNumExtensions: 0,\n\t\t\tNumServices:   0,\n\t\t},\n\t\tGoTypes:           "@, go_code);
        lemma_holds_text_extend("var "@ + cap_msg_type + " protoreflect.FileDescriptor\n\n"@ + go_code + "\n\nvar (\n    "@ + msg_types + "_rawDescOnce sync.Once\n    "@ + msg_types + "_rawDescData []byte\n)\n\nfunc "@ + msg_types + "_rawDescGZIP() []byte {\n\t"@ + msg_types + "_rawDescOnce.Do(func() {\n\t\t"@ + msg_types + "_rawDescData = protoimpl.X.CompressGZIP(unsafe.Slice(unsafe.StringData("@ + msg_types + "_rawDesc), len("@ + msg_types + "_rawDesc)))\n\t})\n\treturn "@ + msg_types + "_rawDescData\n}\n\nvar "@ + msg_types + "_msgTypes = make([]protoimpl.MessageInfo, "@ + messages + ")\nvar "@ + msg_types + "_goTypes = []any{\n"@ + go_types + "}\nvar "@ + msg_types + "_depIdxs = []int32{"@ + dep_idxs_code + "}\n\nfunc init() { "@ + msg_types + "_init() }\nfunc "@ + msg_types + "_init() {\n\tif "@ + cap_msg_type + " != nil {\n\t\treturn\n\t}\n"@ + oneof_wrappers + "\ttype x struct{}\n\tout := protoimpl.TypeBuilder{\n\t\tFile: protoimpl.DescBuilder{\n\t\t\tGoPackagePath: reflect.TypeOf(x{}).PkgPath(),\n\t\t\tRawDescriptor: unsafe.Slice(unsafe.StringData("@ + msg_types + "_rawDesc), len("@ + msg_types + "_rawDesc)),\n\t\t\tNumEnums:      "@ + penums + ",\n\t\t\tNumMessages:   "@ + messages + ",\n\t\t\tNumExtensions: 0,\n\t\t\tNumServices:   0,\n\t\t},\n\t\tGoTypes:           "@, msg_types, go_code);
        lemma_holds_text_extend("var "@ + cap_msg_type + " protoreflect.FileDescriptor\n\n"@ + go_code + "\n\nvar (\n    "@ + msg_types + "_rawDescOnce sync.Once\n    "@ + msg_types + "_rawDescData []byte\n)\n\nfunc "@ + msg_types + "_rawDescGZIP() []byte {\n\t"@ + msg_types + "_rawDescOnce.Do(func() {\n\t\t"@ + msg_types + "_rawDescData = protoimpl.X.CompressGZIP(unsafe.Slice(unsafe.StringData("@ + msg_types + "_rawDesc), len("@ + msg_types + "_rawDesc)))\n\t})\n\treturn "@ + msg_types + "_rawDescData\n}\n\nvar "@ + msg_types + "_msgTypes = make([]protoimpl.MessageInfo, "@ + messages + ")\nvar "@ + msg_types + "_goTypes = []any{\n"@ + go_types + "}\nvar "@ + msg_types + "_depIdxs = []int32{"@ + dep_idxs_code + "}\n\nfunc init() { "@ + msg_types + "_init() }\nfunc "@ + msg_types + "_init() {\n\tif "@ + cap_msg_type + " != nil {\n\t\treturn\n\t}\n"@ + oneof_wrappers + "\ttype x struct{}\n\tout := protoimpl.TypeBuilder{\n\t\tFile: protoimpl.DescBuilder{\n\t\t\tGoPackagePath: reflect.TypeOf(x{}).PkgPath(),\n\t\t\tRawDescriptor: unsafe.Slice(unsafe.StringData("@ + msg_types + "_rawDesc), len("@ + msg_types + "_rawDesc)),\n\t\t\tNumEnums:      "@ + penums + ",\n\t\t\tNumMessages:   "@ + messages + ",\n\t\t\tNumExtensions: 0,\n\t\t\tNumServices:   0,\n\t\t},\n\t\tGoTypes:           "@ + msg_types, "_goTypes,\n\t\tDependencyIndexes: "@, go_code);
        lemma_holds_text_extend("var "@ + cap_msg_type + " protoreflect.FileDescriptor\n\n"@ + go_code + "\n\nvar (\n    "@ + msg_types + "_rawDescOnce sync.Once\n    "@ + msg_types + "_rawDescData []byte\n)\n\nfunc "@ + msg_types + "_rawDescGZIP() []byte {\n\t"@ + msg_types + "_rawDescOnce.Do(func() {\n\t\t"@ + msg_types + "_rawDescData = protoimpl.X.CompressGZIP(unsafe.Slice(unsafe.StringData("@ + msg_types + "_rawDesc), len("@ + msg_types + "_rawDesc)))\n\t})\n\treturn "@ + msg_types + "_rawDescData\n}\n\nvar "@ + msg_types + "_msgTypes = make([]protoimpl.MessageInfo, "@ + messages + ")\nvar "@ + msg_types + "_goTypes = []any{\n"@ + go_types + "}\nvar "@ + msg_types + "_depIdxs = []int32{"@ + dep_idxs_code + "}\n\nfunc init() { "@ + msg_types + "_init() }\nfunc "@ + msg_types + "_init() {\n\tif "@ + cap_msg_type + " != nil {\n\t\treturn\n\t}\n"@ + oneof_wrappers + "\ttype x struct{}\n\tout := protoimpl.TypeBuilder{\n\t\tFile: protoimpl.DescBuilder{\n\t\t\tGoPackagePath: reflect.TypeOf(x{}).PkgPath(),\n\t\t\tRawDescriptor: unsafe.Slice(unsafe.StringData("@ + msg_types + "_rawDesc), len("@ + msg_types + "_rawDesc)),\n\t\t\tNumEnums:      "@ + penums + ",\n\t\t\tNumMessages:   "@ + messages + ",\n\t\t\tNumExtensions: 0,\n\t\t\tNumServices:   0,\n\t\t},\n\t\tGoTypes:           "@ + msg_types + "_goTypes,\n\t\tDependencyIndexes: "@, msg_types, go_code);
        lemma_holds_text_extend("var "@ + cap_msg_type + " protoreflect.FileDescriptor\n\n"@ + go_code + "\n\nvar (\n    "@ + msg_types + "_rawDescOnce sync.Once\n    "@ + msg_types + "_rawDescData []byte\n)\n\nfunc "@ + msg_types + "_rawDescGZIP() []byte {\n\t"@ + msg_types + "_rawDescOnce.Do(func() {\n\t\t"@ + msg_types + "_rawDescData = protoimpl.X.CompressGZIP(unsafe.Slice(unsafe.StringData("@ + msg_types + "_rawDesc), len("@ + msg_types + "_rawDesc)))\n\t})\n\treturn "@ + msg_types + "_rawDescData\n}\n\nvar "@ + msg_types + "_msgTypes = make([]protoimpl.MessageInfo, "@ + messages + ")\nvar "@ + msg_types + "_goTypes = []any{\n"@ + go_types + "}\nvar "@ + msg_types + "_depIdxs = []int32{"@ + dep_idxs_code + "}\n\nfunc init() { "@ + msg_types + "_init() }\nfunc "@ + msg_types + "_init() {\n\tif "@ + cap_msg_type + " != nil {\n\t\treturn\n\t}\n"@ + oneof_wrappers + "\ttype x struct{}\n\tout := protoimpl.TypeBuilder{\n\t\tFile: protoimpl.DescBuilder{\n\t\t\tGoPackagePath: reflect.TypeOf(x{}).PkgPath(),\n\t\t\tRawDescriptor: unsafe.Slice(unsafe.StringData("@ + msg_types + "_rawDesc), len("@ + msg_types + "_rawDesc)),\n\t\t\tNumEnums:      "@ + penums + ",\n\t\t\tNumMessages:   "@ + messages + ",\n\t\t\tNumExtensions: 0,\n\t\t\tNumServices:   0,\n\t\t},\n\t\tGoTypes:           "@ + msg_types + "_goTypes,\n\t\tDependencyIndexes: "@ + msg_types, "_depIdxs,\n\t\tMessageInfos:      "@, go_code);
        lemma_holds_text_extend("var "@ + cap_msg_type + " protoreflect.FileDescriptor\n\n"@ + go_code + "\n\nvar (\n    "@ + msg_types + "_rawDescOnce sync.Once\n    "@ + msg_types + "_rawDescData []byte\n)\n\nfunc "@ + msg_types + "_rawDescGZIP() []byte {\n\t"@ + msg_types + "_rawDescOnce.Do(func() {\n\t\t"@ + msg_types + "_rawDescData = protoimpl.X.CompressGZIP(unsafe.Slice(unsafe.StringData("@ + msg_types + "_rawDesc), len("@ + msg_types + "_rawDesc)))\n\t})\n\treturn "@ + msg_types + "_rawDescData\n}\n\nvar "@ + msg_types + "_msgTypes = make([]protoimpl.MessageInfo, "@ + messages + ")\nvar "@ + msg_types + "_goTypes = []any{\n"@ + go_types + "}\nvar "@ + msg_types + "_depIdxs = []int32{"@ + dep_idxs_code + "}\n\nfunc init() { "@ + msg_types + "_init() }\nfunc "@ + msg_types + "_init() {\n\tif "@ + cap_msg_type + " != nil {\n\t\treturn\n\t}\n"@ + oneof_wrappers + "\ttype x struct{}\n\tout := protoimpl.TypeBuilder{\n\t\tFile: protoimpl.DescBuilder{\n\t\t\tGoPackagePath: reflect.TypeOf(x{}).PkgPath(),\n\t\t\tRawDescriptor: unsafe.Slice(unsafe.StringData("@ + msg_types + "_rawDesc), len("@ + msg_types + "_rawDesc)),\n\t\t\tNumEnums:      "@ + penums + ",\n\t\t\tNumMessages:   "@ + messages + ",\n\t\t\tNumExtensions: 0,\n\t\t\tNumServices:   0,\n\t\t},\n\t\tGoTypes:           "@ + msg_types + "_goTypes,\n\t\tDependencyIndexes: "@ + msg_types + "_depIdxs,\n\t\tMessageInfos:      "@, msg_types, go_code);
        lemma_holds_text_extend("var "@ + cap_msg_type + " protoreflect.FileDescriptor\n\n"@ + go_code + "\n\nvar (\n    "@ + msg_types + "_rawDescOnce sync.Once\n    "@ + msg_types + "_rawDescData []byte\n)\n\nfunc "@ + msg_types + "_rawDescGZIP() []byte {\n\t"@ + msg_types + "_rawDescOnce.Do(func() {\n\t\t"@ + msg_types + "_rawDescData = protoimpl.X.CompressGZIP(unsafe.Slice(unsafe.StringData("@ + msg_types + "_rawDesc), len("@ + msg_types + "_rawDesc)))\n\t})\n\treturn "@ + msg_types + "_rawDescData\n}\n\nvar "@ + msg_types + "_msgTypes = make([]protoimpl.MessageInfo, "@ + messages + ")\nvar "@ + msg_types + "_goTypes = []any{\n"@ + go_types + "}\nvar "@ + msg_types + "_depIdxs = []int32{"@ + dep_idxs_code + "}\n\nfunc init() { "@ + msg_types + "_init() }\nfunc "@ + msg_types + "_init() {\n\tif "@ + cap_msg_type + " != nil {\n\t\treturn\n\t}\n"@ + oneof_wrappers + "\ttype x struct{}\n\tout := protoimpl.TypeBuilder{\n\t\tFile: protoimpl.DescBuilder{\n\t\t\tGoPackagePath: reflect.TypeOf(x{}).PkgPath(),\n\t\t\tRawDescriptor: unsafe.Slice(unsafe.StringData("@ + msg_types + "_rawDesc), len("@ + msg_types + "_rawDesc)),\n\t\t\tNumEnums:      "@ + penums + ",\n\t\t\tNumMessages:   "@ + messages + ",\n\t\t\tNumExtensions: 0,\n\t\t\tNumServices:   0,\n\t\t},\n\t\tGoTypes:           "@ + msg_types + "_goTypes,\n\t\tDependencyIndexes: "@ + msg_types + "_depIdxs,\n\t\tMessageInfos:      "@ + msg_types, "_msgTypes,\n        EnumInfos:         "@, go_code);
        lemma_holds_text_extend("var "@ + cap_msg_type + " protoreflect.FileDescriptor\n\n"@ + go_code + "\n\nvar (\n    "@ + msg_types + "_rawDescOnce sync.Once\n    "@ + msg_types + "_rawDescData []byte\n)\n\nfunc "@ + msg_types + "_rawDescGZIP() []byte {\n\t"@ + msg_types + "_rawDescOnce.Do(func() {\n\t\t"@ + msg_types + "_rawDescData = protoimpl.X.CompressGZIP(unsafe.Slice(unsafe.StringData("@ + msg_types + "_rawDesc), len("@ + msg_types + "_rawDesc)))\n\t})\n\treturn "@ + msg_types + "_rawDescData\n}\n\nvar "@ + msg_types + "_msgTypes = make([]protoimpl.MessageInfo, "@ + messages + ")\nvar "@ + msg_types + "_goTypes = []any{\n"@ + go_types + "}\nvar "@ + msg_types + "_depIdxs = []int32{"@ + dep_idxs_code + "}\n\nfunc init() { "@ + msg_types + "_init() }\nfunc "@ + msg_types + "_init() {\n\tif "@ + cap_msg_type + " != nil {\n\t\treturn\n\t}\n"@ + oneof_wrappers + "\ttype x struct{}\n\tout := protoimpl.TypeBuilder{\n\t\tFile: protoimpl.DescBuilder{\n\t\t\tGoPackagePath: reflect.TypeOf(x{}).PkgPath(),\n\t\t\tRawDescriptor: unsafe.Slice(unsafe.StringData("@ + msg_types + "_rawDesc), len("@ + msg_types + "_rawDesc)),\n\t\t\tNumEnums:      "@ + penums + ",\n\t\t\tNumMessages:   "@ + messages + ",\n\t\t\tNumExtensions: 0,\n\t\t\tNumServices:   0,\n\t\t},\n\t\tGoTypes:           "@ + msg_types + "_goTypes,\n\t\tDependencyIndexes: "@ + msg_types + "_depIdxs,\n\t\tMessageInfos:      "@ + msg_types + "_msgTypes,\n        EnumInfos:         "@, enum_types, go_code);
        lemma_holds_text_extend("var "@ + cap_msg_type + " protoreflect.FileDescriptor\n\n"@ + go_code + "\n\nvar (\n    "@ + msg_types + "_rawDescOnce sync.Once\n    "@ + msg_types + "_rawDescData []byte\n)\n\nfunc "@ + msg_types + "_rawDescGZIP() []byte {\n\t"@ + msg_types + "_rawDescOnce.Do(func() {\n\t\t"@ + msg_types + "_rawDescData = protoimpl.X.CompressGZIP(unsafe.Slice(unsafe.StringData("@ + msg_types + "_rawDesc), len("@ + msg_types + "_rawDesc)))\n\t})\n\treturn "@ + msg_types + "_rawDescData\n}\n\nvar "@ + msg_types + "_msgTypes = make([]protoimpl.MessageInfo, "@ + messages + ")\nvar "@ + msg_types + "_goTypes = []any{\n"@ + go_types + "}\nvar "@ + msg_types + "_depIdxs = []int32{"@ + dep_idxs_code + "}\n\nfunc init() { "@ + msg_types + "_init() }\nfunc "@ + msg_types + "_init() {\n\tif "@ + cap_msg_type + " != nil {\n\t\treturn\n\t}\n"@ + oneof_wrappers + "\ttype x struct{}\n\tout := protoimpl.TypeBuilder{\n\t\tFile: protoimpl.DescBuilder{\n\t\t\tGoPackagePath: reflect.TypeOf(x{}).PkgPath(),\n\t\t\tRawDescriptor: unsafe.Slice(unsafe.StringData("@ + msg_types + "_rawDesc), len("@ + msg_types + "_rawDesc)),\n\t\t\tNumEnums:      "@ + penums + ",\n\t\t\tNumMessages:   "@ + messages + ",\n\t\t\tNumExtensions: 0,\n\t\t\tNumServices:   0,\n\t\t},\n\t\tGoTypes:           "@ + msg_types + "_goTypes,\n\t\tDependencyIndexes: "@ + msg_types + "_depIdxs,\n\t\tMessageInfos:      "@ + msg_types + "_msgTypes,\n        EnumInfos:         "@ + enum_types, ",\n\t}.Build()\n\t"@, go_code);
        lemma_holds_text_extend("var "@ + cap_msg_type + " protoreflect.FileDescriptor\n\n"@ + go_code + "\n\nvar (\n    "@ + msg_types + "_rawDescOnce sync.Once\n    "@ + msg_types + "_rawDescData []byte\n)\n\nfunc "@ + msg_types + "_rawDescGZIP() []byte {\n\t"@ + msg_types + "_rawDescOnce.Do(func() {\n\t\t"@ + msg_types + "_rawDescData = protoimpl.X.CompressGZIP(unsafe.Slice(unsafe.StringData("@ + msg_types + "_rawDesc), len("@ + msg_types + "_rawDesc)))\n\t})\n\treturn "@ + msg_types + "_rawDescData\n}\n\nvar "@ + msg_types + "_msgTypes = make([]protoimpl.MessageInfo, "@ + messages + ")\nvar "@ + msg_types + "_goTypes = []any{\n"@ + go_types + "}\nvar "@ + msg_types + "_depIdxs = []int32{"@ + dep_idxs_code + "}\n\nfunc init() { "@ + msg_types + "_init() }\nfunc "@ + msg_types + "_init() {\n\tif "@ + cap_msg_type + " != nil {\n\t\treturn\n\t}\n"@ + oneof_wrappers + "\ttype x struct{}\n\tout := protoimpl.TypeBuilder{\n\t\tFile: protoimpl.DescBuilder{\n\t\t\tGoPackagePath: reflect.TypeOf(x{}).PkgPath(),\n\t\t\tRawDescriptor: unsafe.Slice(unsafe.StringData("@ + msg_types + "_rawDesc), len("@ + msg_types + "_rawDesc)),\n\t\t\tNumEnums:      "@ + penums + ",\n\t\t\tNumMessages:   "@ + messages + ",\n\t\t\tNumExtensions: 0,\n\t\t\tNumServices:   0,\n\t\t},\n\t\tGoTypes:           "@ + msg_types + "_goTypes,\n\t\tDependencyIndexes: "@ + msg_types + "_depIdxs,\n\t\tMessageInfos:      "@ + msg_types + "_msgTypes,\n        EnumInfos:         "@ + enum_types + ",\n\t}.Build()\n\t"@, cap_msg_type, go_code);
        lemma_holds_text_extend("var "@ + cap_msg_type + " protoreflect.FileDescriptor\n\n"@ + go_code + "\n\nvar (\n    "@ + msg_types + "_rawDescOnce sync.Once\n    "@ + msg_types + "_rawDescData []byte\n)\n\nfunc "@ + msg_types + "_rawDescGZIP() []byte {\n\t"@ + msg_types + "_rawDescOnce.Do(func() {\n\t\t"@ + msg_types + "_rawDescData = protoimpl.X.CompressGZIP(unsafe.Slice(unsafe.StringData("@ + msg_types + "_rawDesc), len("@ + msg_types + "_rawDesc)))\n\t})\n\treturn "@ + msg_types + "_rawDescData\n}\n\nvar "@ + msg_types + "_msgTypes = make([]protoimpl.MessageInfo, "@ + messages + ")\nvar "@ + msg_types + "_goTypes = []any{\n"@ + go_types + "}\nvar "@ + msg_types + "_depIdxs = []int32{"@ + dep_idxs_code + "}\n\nfunc init() { "@ + msg_types + "_init() }\nfunc "@ + msg_types + "_init() {\n\tif "@ + cap_msg_type + " != nil {\n\t\treturn\n\t}\n"@ + oneof_wrappers + "\ttype x struct{}\n\tout := protoimpl.TypeBuilder{\n\t\tFile: protoimpl.DescBuilder{\n\t\t\tGoPackagePath: reflect.TypeOf(x{}).PkgPath(),\n\t\t\tRawDescriptor: unsafe.Slice(unsafe.StringData("@ + msg_types + "_rawDesc), len("@ + msg_types + "_rawDesc)),\n\t\t\tNumEnums:      "@ + penums + ",\n\t\t\tNumMessages:   "@ + messages + ",\n\t\t\tNumExtensions: 0,\n\t\t\tNumServices:   0,\n\t\t},\n\t\tGoTypes:           "@ + msg_types + "_goTypes,\n\t\tDependencyIndexes: "@ + msg_types + "_depIdxs,\n\t\tMessageInfos:      "@ + msg_types + "_msgTypes,\n        EnumInfos:         "@ + enum_types + ",\n\t}.Build()\n\t"@ + cap_msg_type, " = out.File\n\t"@, go_code);
        lemma_holds_text_extend("var "@ + cap_msg_type + " protoreflect.FileDescriptor\n\n"@ + go_code + "\n\nvar (\n    "@ + msg_types + "_rawDescOnce sync.Once\n    "@ + msg_types + "_rawDescData []byte\n)\n\nfunc "@ + msg_types + "_rawDescGZIP() []byte {\n\t"@ + msg_types + "_rawDescOnce.Do(func() {\n\t\t"@ + msg_types + "_rawDescData = protoimpl.X.CompressGZIP(unsafe.Slice(unsafe.StringData("@ + msg_types + "_rawDesc), len("@ + msg_types + "_rawDesc)))\n\t})\n\treturn "@ + msg_types + "_rawDescData\n}\n\nvar "@ + msg_types + "_msgTypes = make([]protoimpl.MessageInfo, "@ + messages + ")\nvar "@ + msg_types + "_goTypes = []any{\n"@ + go_types + "}\nvar "@ + msg_types + "_depIdxs = []int32{"@ + dep_idxs_code + "}\n\nfunc init() { "@ + msg_types + "_init() }\nfunc "@ + msg_types + "_init() {\n\tif "@ + cap_msg_type + " != nil {\n\t\treturn\n\t}\n"@ + oneof_wrappers + "\ttype x struct{}\n\tout := protoimpl.TypeBuilder{\n\t\tFile: protoimpl.DescBuilder{\n\t\t\tGoPackagePath: reflect.TypeOf(x{}).PkgPath(),\n\t\t\tRawDescriptor: unsafe.Slice(unsafe.StringData("@ + msg_types + "_rawDesc), len("@ + msg_types + "_rawDesc)),\n\t\t\tNumEnums:      "@ + penums + ",\n\t\t\tNumMessages:   "@ + messages + ",\n\t\t\tNumExtensions: 0,\n\t\t\tNumServices:   0,\n\t\t},\n\t\tGoTypes:           "@ + msg_types + "_goTypes,\n\t\tDependencyIndexes: "@ + msg_types + "_depIdxs,\n\t\tMessageInfos:      "@ + msg_types + "_msgTypes,\n        EnumInfos:         "@ + enum_types + ",\n\t}.Build()\n\t"@ + cap_msg_type + " = out.File\n\t"@, msg_types, go_code);
        lemma_holds_text_extend("var "@ + cap_msg_type + " protoreflect.FileDescriptor\n\n"@ + go_code + "\n\nvar (\n    "@ + msg_types + "_rawDescOnce sync.Once\n    "@ + msg_types + "_rawDescData []byte\n)\n\nfunc "@ + msg_types + "_rawDescGZIP() []byte {\n\t"@ + msg_types + "_rawDescOnce.Do(func() {\n\t\t"@ + msg_types + "_rawDescData = protoimpl.X.CompressGZIP(unsafe.Slice(unsafe.StringData("@ + msg_types + "_rawDesc), len("@ + msg_types + "_rawDesc)))\n\t})\n\treturn "@ + msg_types + "_rawDescData\n}\n\nvar "@ + msg_types + "_msgTypes = make([]protoimpl.MessageInfo, "@ + messages + ")\nvar "@ + msg_types + "_goTypes = []any{\n"@ + go_types + "}\nvar "@ + msg_types + "_depIdxs = []int32{"@ + dep_idxs_code + "}\n\nfunc init() { "@ + msg_types + "_init() }\nfunc "@ + msg_types + "_init() {\n\tif "@ + cap_msg_type + " != nil {\n\t\treturn\n\t}\n"@ + oneof_wrappers + "\ttype x struct{}\n\tout := protoimpl.TypeBuilder{\n\t\tFile: protoimpl.DescBuilder{\n\t\t\tGoPackagePath: reflect.TypeOf(x{}).PkgPath(),\n\t\t\tRawDescriptor: unsafe.Slice(unsafe.StringData("@ + msg_types + "_rawDesc), len("@ + msg_types + "_rawDesc)),\n\t\t\tNumEnums:      "@ + penums + ",\n\t\t\tNumMessages:   "@ + messages + ",\n\t\t\tNumExtensions: 0,\n\t\t\tNumServices:   0,\n\t\t},\n\t\tGoTypes:           "@ + msg_types + "_goTypes,\n\t\tDependencyIndexes: "@ + msg_types + "_depIdxs,\n\t\tMessageInfos:      "@ + msg_types + "_msgTypes,\n        EnumInfos:         "@ + enum_types + ",\n\t}.Build()\n\t"@ + cap_msg_type + " = out.File\n\t"@ + msg_types, "_goTypes = nil\n\t"@, go_code);
        lemma_holds_text_extend("var "@ + cap_msg_type + " protoreflect.FileDescriptor\n\n"@ + go_code + "\n\nvar (\n    "@ + msg_types + "_rawDescOnce sync.Once\n    "@ + msg_types + "_rawDescData []byte\n)\n\nfunc "@ + msg_types + "_rawDescGZIP() []byte {\n\t"@ + msg_types + "_rawDescOnce.Do(func() {\n\t\t"@ + msg_types + "_rawDescData = protoimpl.X.CompressGZIP(unsafe.Slice(unsafe.StringData("@ + msg_types + "_rawDesc), len("@ + msg_types + "_rawDesc)))\n\t})\n\treturn "@ + msg_types + "_rawDescData\n}\n\nvar "@ + msg_types + "_msgTypes = make([]protoimpl.MessageInfo, "@ + messages + ")\nvar "@ + msg_types + "_goTypes = []any{\n"@ + go_types + "}\nvar "@ + msg_types + "_depIdxs = []int32{"@ + dep_idxs_code + "}\n\nfunc init() { "@ + msg_types + "_init() }\nfunc "@ + msg_types + "_init() {\n\tif "@ + cap_msg_type + " != nil {\n\t\treturn\n\t}\n"@ + oneof_wrappers + "\ttype x struct{}\n\tout := protoimpl.TypeBuilder{\n\t\tFile: protoimpl.DescBuilder{\n\t\t\tGoPackagePath: reflect.TypeOf(x{}).PkgPath(),\n\t\t\tRawDescriptor: unsafe.Slice(unsafe.StringData("@ + msg_types + "_rawDesc), len("@ + msg_types + "_rawDesc)),\n\t\t\tNumEnums:      "@ + penums + ",\n\t\t\tNumMessages:   "@ + messages + ",\n\t\t\tNumExtensions: 0,\n\t\t\tNumServices:   0,\n\t\t},\n\t\tGoTypes:           "@ + msg_types + "_goTypes,\n\t\tDependencyIndexes: "@ + msg_types + "_depIdxs,\n\t\tMessageInfos:      "@ + msg_types + "_msgTypes,\n        EnumInfos:         "@ + enum_types + ",\n\t}.Build()\n\t"@ + cap_msg_type + " = out.File\n\t"@ + msg_types + "_goTypes = nil\n\t"@, msg_types, go_code);
        lemma_holds_text_extend("var "@ + cap_msg_type + " protoreflect.FileDescriptor\n\n"@ + go_code + "\n\nvar (\n    "@ + msg_types + "_rawDescOnce sync.Once\n    "@ + msg_types + "_rawDescData []byte\n)\n\nfunc "@ + msg_types + "_rawDescGZIP() []byte {\n\t"@ + msg_types + "_rawDescOnce.Do(func() {\n\t\t"@ + msg_types + "_rawDescData = protoimpl.X.CompressGZIP(unsafe.Slice(unsafe.StringData("@ + msg_types + "_rawDesc), len("@ + msg_types + "_rawDesc)))\n\t})\n\treturn "@ + msg_types + "_rawDescData\n}\n\nvar "@ + msg_types + "_msgTypes = make([]protoimpl.MessageInfo, "@ + messages + ")\nvar "@ + msg_types + "_goTypes = []any{\n"@ + go_types + "}\nvar "@ + msg_types + "_depIdxs = []int32{"@ + dep_idxs_code + "}\n\nfunc init() { "@ + msg_types + "_init() }\nfunc "@ + msg_types + "_init() {\n\tif "@ + cap_msg_type + " != nil {\n\t\treturn\n\t}\n"@ + oneof_wrappers + "\ttype x struct{}\n\tout := protoimpl.TypeBuilder{\n\t\tFile: protoimpl.DescBuilder{\n\t\t\tGoPackagePath: reflect.TypeOf(x{}).PkgPath(),\n\t\t\tRawDescriptor: unsafe.Slice(unsafe.StringData("@ + msg_types + "_rawDesc), len("@ + msg_types + "_rawDesc)),\n\t\t\tNumEnums:      "@ + penums + ",\n\t\t\tNumMessages:   "@ + messages + ",\n\t\t\tNumExtensions: 0,\n\t\t\tNumServices:   0,\n\t\t},\n\t\tGoTypes:           "@ + msg_types + "_goTypes,\n\t\tDependencyIndexes: "@ + msg_types + "_depIdxs,\n\t\tMessageInfos:      "@ + msg_types + "_msgTypes,\n        EnumInfos:         "@ + enum_types + ",\n\t}.Build()\n\t"@ + cap_msg_type + " = out.File\n\t"@ + msg_types + "_goTypes = nil\n\t"@ + msg_types, "_depIdxs = nil\n}\n        "@, go_code);
    }
    assert(holds_text(go_final_block(cap_msg_type, go_code, msg_types, messages, go_types, dep_idxs_code, oneof_wrappers, penums, enum_types), message_table(msg_types, messages))) by {
        lemma_concat_associative("var "@ + cap_msg_type + " protoreflect.FileDescriptor\n\n"@ + go_code + "\n\nvar (\n    "@ + msg_types + "_rawDescOnce sync.Once\n    "@ + msg_types + "_rawDescData []byte\n)\n\nfunc "@ + msg_types + "_rawDescGZIP() []byte {\n\t"@ + msg_types + "_rawDescOnce.Do(func() {\n\t\t"@ + msg_types + "_rawDescData = protoimpl.X.CompressGZIP(unsafe.Slice(unsafe.StringData("@ + msg_types + "_rawDesc), len("@ + msg_types + "_rawDesc)))\n\t})\n\treturn "@ + msg_types + "_rawDescData\n}\n\nvar "@, msg_types, "_msgTypes = make([]protoimpl.MessageInfo, "@);
        lemma_concat_associative("var "@ + cap_msg_type + " protoreflect.FileDescriptor\n\n"@ + go_code + "\n\nvar (\n    "@ + msg_types + "_rawDescOnce sync.Once\n    "@ + msg_types + "_rawDescData []byte\n)\n\nfunc "@ + msg_types + "_rawDescGZIP() []byte {\n\t"@ + msg_types + "_rawDescOnce.Do(func() {\n\t\t"@ + msg_types + "_rawDescData = protoimpl.X.CompressGZIP(unsafe.Slice(unsafe.StringData("@ + msg_types + "_rawDesc), len("@ + msg_types + "_rawDesc)))\n\t})\n\treturn "@ + msg_types + "_rawDescData\n}\n\nvar "@, msg_types + "_msgTypes = make([]protoimpl.MessageInfo, "@, messages);
        lemma_concat_associative("var "@ + cap_msg_type + " protoreflect.FileDescriptor\n\n"@ + go_code + "\n\nvar (\n    "@ + msg_types + "_rawDescOnce sync.Once\n    "@ + msg_types + "_rawDescData []byte\n)\n\nfunc "@ + msg_types + "_rawDescGZIP() []byte {\n\t"@ + msg_types + "_rawDescOnce.Do(func() {\n\t\t"@ + msg_types + "_rawDescData = protoimpl.X.CompressGZIP(unsafe.Slice(unsafe.StringData("@ + msg_types + "_rawDesc), len("@ + msg_types + "_rawDesc)))\n\t})\n\treturn "@ + msg_types + "_rawDescData\n}\n\nvar "@, msg_types + "_msgTypes = make([]protoimpl.MessageInfo, "@ + messages, ")\nvar "@);
        lemma_holds_text_end("var "@ + cap_msg_type + " protoreflect.FileDescriptor\n\n"@ + go_code + "\n\nvar (\n    "@ + msg_types + "_rawDescOnce sync.Once\n    "@ + msg_types + "_rawDescData []byte\n)\n\nfunc "@ + msg_types + "_rawDescGZIP() []byte {\n\t"@ + msg_types + "_rawDescOnce.Do(func() {\n\t\t"@ + msg_types + "_rawDescData = protoimpl.X.CompressGZIP(unsafe.Slice(unsafe.StringData("@ + msg_types + "_rawDesc), len("@ + msg_types + "_rawDesc)))\n\t})\n\treturn "@ + msg_types + "_rawDescData\n}\n\nvar "@, msg_types + "_msgTypes = make([]protoimpl.MessageInfo, "@ + messages + ")\nvar "@);
        lemma_holds_text_extend("var "@ + cap_msg_type + " protoreflect.FileDescriptor\n\n"@ + go_code + "\n\nvar (\n    "@ + msg_types + "_rawDescOnce sync.Once\n    "@ + msg_types + "_rawDescData []byte\n)\n\nfunc "@ + msg_types + "_rawDescGZIP() []byte {\n\t"@ + msg_types + "_rawDescOnce.Do(func() {\n\t\t"@ + msg_types + "_rawDescData = protoimpl.X.CompressGZIP(unsafe.Slice(unsafe.StringData("@ + msg_types + "_rawDesc), len("@ + msg_types + "_rawDesc)))\n\t})\n\treturn "@ + msg_types + "_rawDescData\n}\n\nvar "@ + msg_types + "_msgTypes = make([]protoimpl.MessageInfo, "@ + messages + ")\nvar "@, msg_types, msg_types + "_msgTypes = make([]protoimpl.MessageInfo, "@ + messages + ")\nvar "@);
        lemma_holds_text_extend("var "@ + cap_msg_type + " protoreflect.FileDescriptor\n\n"@ + go_code + "\n\nvar (\n    "@ + msg_types + "_rawDescOnce sync.Once\n    "@ + msg_types + "_rawDescData []byte\n)\n\nfunc "@ + msg_types + "_rawDescGZIP() []byte {\n\t"@ + msg_types + "_rawDescOnce.Do(func() {\n\t\t"@ + msg_types + "_rawDescData = protoimpl.X.CompressGZIP(unsafe.Slice(unsafe.StringData("@ + msg_types + "_rawDesc), len("@ + msg_types + "_rawDesc)))\n\t})\n\treturn "@ + msg_types + "_rawDescData\n}\n\nvar "@ + msg_types + "_msgTypes = make([]protoimpl.MessageInfo, "@ + messages + ")\nvar "@ + msg_types, "_goTypes = []any{\n"@, msg_types + "_msgTypes = make([]protoimpl.MessageInfo, "@ + messages + ")\nvar "@);
        lemma_holds_text_extend("var "@ + cap_msg_type + " protoreflect.FileDescriptor\n\n"@ + go_code + "\n\nvar (\n    "@ + msg_types + "_rawDescOnce sync.Once\n    "@ + msg_types + "_rawDescData []byte\n)\n\nfunc "@ + msg_types + "_rawDescGZIP() []byte {\n\t"@ + msg_types + "_rawDescOnce.Do(func() {\n\t\t"@ + msg_types + "_rawDescData = protoimpl.X.CompressGZIP(unsafe.Slice(unsafe.StringData("@ + msg_types + "_rawDesc), len("@ + msg_types + "_rawDesc)))\n\t})\n\treturn "@ + msg_types + "_rawDescData\n}\n\nvar "@ + msg_types + "_msgTypes = make([]protoimpl.MessageInfo, "@ + messages + ")\nvar "@ + msg_types + "_goTypes = []any{\n"@, go_types, msg_types + "_msgTypes = make([]protoimpl.MessageInfo, "@ + messages + ")\nvar "@);
        lemma_holds_text_extend("var "@ + cap_msg_type + " protoreflect.FileDescriptor\n\n"@ + go_code + "\n\nvar (\n    "@ + msg_types + "_rawDescOnce sync.Once\n    "@ + msg_types + "_rawDescData []byte\n)\n\nfunc "@ + msg_types + "_rawDescGZIP() []byte {\n\t"@ + msg_types + "_rawDescOnce.Do(func() {\n\t\t"@ + msg_types + "_rawDescData = protoimpl.X.CompressGZIP(unsafe.Slice(unsafe.StringData("@ + msg_types + "_rawDesc), len("@ + msg_types + "_rawDesc)))\n\t})\n\treturn "@ + msg_types + "_rawDescData\n}\n\nvar "@ + msg_types + "_msgTypes = make([]protoimpl.MessageInfo, "@ + messages + ")\nvar "@ + msg_types + "_goTypes = []any{\n"@ + go_types, "}\nvar "@, msg_types + "_msgTypes = make([]protoimpl.MessageInfo, "@ + messages + ")\nvar "@);
        lemma_holds_text_extend("var "@ + cap_msg_type + " protoreflect.FileDescriptor\n\n"@ + go_code + "\n\nvar (\n    "@ + msg_types + "_rawDescOnce sync.Once\n    "@ + msg_types + "_rawDescData []byte\n)\n\nfunc "@ + msg_types + "_rawDescGZIP() []byte {\n\t"@ + msg_types + "_rawDescOnce.Do(func() {\n\t\t"@ + msg_types + "_rawDescData = protoimpl.X.CompressGZIP(unsafe.Slice(unsafe.StringData("@ + msg_types + "_rawDesc), len("@ + msg_types + "_rawDesc)))\n\t})\n\treturn "@ + msg_types + "_rawDescData\n}\n\nvar "@ + msg_types + "_msgTypes = make([]protoimpl.MessageInfo, "@ + messages + ")\nvar "@ + msg_types + "_goTypes = []any{\n"@ + go_types + "}\nvar "@, msg_types, msg_types + "_msgTypes = make([]protoimpl.MessageInfo, "@ + messages + ")\nvar "@);
        lemma_holds_text_extend("var "@ + cap_msg_type + " protoreflect.FileDescriptor\n\n"@ + go_code + "\n\nvar (\n    "@ + msg_types + "_rawDescOnce sync.Once\n    "@ + msg_types + "_rawDescData []byte\n)\n\nfunc "@ + msg_types + "_rawDescGZIP() []byte {\n\t"@ + msg_types + "_rawDescOnce.Do(func() {\n\t\t"@ + msg_types + "_rawDescData = protoimpl.X.CompressGZIP(unsafe.Slice(unsafe.StringData("@ + msg_types + "_rawDesc), len("@ + msg_types + "_rawDesc)))\n\t})\n\treturn "@ + msg_types + "_rawDescData\n}\n\nvar "@ + msg_types + "_msgTypes = make([]protoimpl.MessageInfo, "@ + messages + ")\nvar "@ + msg_types + "_goTypes = []any{\n"@ + go_types + "}\nvar "@ + msg_types, "_depIdxs = []int32{"@, msg_types + "_msgTypes = make([]protoimpl.MessageInfo, "@ + messages + ")\nvar "@);
        lemma_holds_text_extend("var "@ + cap_msg_type + " protoreflect.FileDescriptor\n\n"@ + go_code + "\n\nvar (\n    "@ + msg_types + "_rawDescOnce sync.Once\n    "@ + msg_types + "_rawDescData []byte\n)\n\nfunc "@ + msg_types + "_rawDescGZIP() []byte {\n\t"@ + msg_types + "_rawDescOnce.Do(func() {\n\t\t"@ + msg_types + "_rawDescData = protoimpl.X.CompressGZIP(unsafe.Slice(unsafe.StringData("@ + msg_types + "_rawDesc), len("@ + msg_types + "_rawDesc)))\n\t})\n\treturn "@ + msg_types + "_rawDescData\n}\n\nvar "@ + msg_types + "_msgTypes = make([]protoimpl.MessageInfo, "@ + messages + ")\nvar "@ + msg_types + "_goTypes = []any{\n"@ + go_types + "}\nvar "@ + msg_types + "_depIdxs = []int32{"@, dep_idxs_code, msg_types + "_msgTypes = make([]protoimpl.MessageInfo, "@ + messages + ")\nvar "@);
        lemma_holds_text_extend("var "@ + cap_msg_type + " protoreflect.FileDescriptor\n\n"@ + go_code + "\n\nvar (\n    "@ + msg_types + "_rawDescOnce sync.Once\n    "@ + msg_types + "_rawDescData []byte\n)\n\nfunc "@ + msg_types + "_rawDescGZIP() []byte {\n\t"@ + msg_types + "_rawDescOnce.Do(func() {\n\t\t"@ + msg_types + "_rawDescData = protoimpl.X.CompressGZIP(unsafe.Slice(unsafe.StringData("@ + msg_types + "_rawDesc), len("@ + msg_types + "_rawDesc)))\n\t})\n\treturn "@ + msg_types + "_rawDescData\n}\n\nvar "@ + msg_types + "_msgTypes = make([]protoimpl.MessageInfo, "@ + messages + ")\nvar "@ + msg_types + "_goTypes = []any{\n"@ + go_types + "}\nvar "@ + msg_types + "_depIdxs = []int32{"@ + dep_idxs_code, "}\n\nfunc init() { "@, msg_types + "_msgTypes = make([]protoimpl.MessageInfo, "@ + messages + ")\nvar "@);
        lemma_holds_text_extend("var "@ + cap_msg_type + " protoreflect.FileDescriptor\n\n"@ + go_code + "\n\nvar (\n    "@ + msg_types + "_rawDescOnce sync.Once\n    "@ + msg_types + "_rawDescData []byte\n)\n\nfunc "@ + msg_types + "_rawDescGZIP() []byte {\n\t"@ + msg_types + "_rawDescOnce.Do(func() {\n\t\t"@ + msg_types + "_rawDescData = protoimpl.X.CompressGZIP(unsafe.Slice(unsafe.StringData("@ + msg_types + "_rawDesc), len("@ + msg_types + "_rawDesc)))\n\t})\n\treturn "@ + msg_types + "_rawDescData\n}\n\nvar "@ + msg_types + "_msgTypes = make([]protoimpl.MessageInfo, "@ + messages + ")\nvar "@ + msg_types + "_goTypes = []any{\n"@ + go_types + "}\nvar "@ + msg_types + "_depIdxs = []int32{"@ + dep_idxs_code + "}\n\nfunc init() { "@, msg_types, msg_types + "_msgTypes = make([]protoimpl.MessageInfo, "@ + messages + ")\nvar "@);
        lemma_holds_text_extend("var "@ + cap_msg_type + " protoreflect.FileDescriptor\n\n"@ + go_code + "\n\nvar (\n    "@ + msg_types + "_rawDescOnce sync.Once\n    "@ + msg_types + "_rawDescData []byte\n)\n\nfunc "@ + msg_types + "_rawDescGZIP() []byte {\n\t"@ + msg_types + "_rawDescOnce.Do(func() {\n\t\t"@ + msg_types + "_rawDescData = protoimpl.X.CompressGZIP(unsafe.Slice(unsafe.StringData("@ + msg_types + "_rawDesc), len("@ + msg_types + "_rawDesc)))\n\t})\n\treturn "@ + msg_types + "_rawDescData\n}\n\nvar "@ + msg_types + "_msgTypes = make([]protoimpl.MessageInfo, "@ + messages + ")\nvar "@ + msg_types + "_goTypes = []any{\n"@ + go_types + "}\nvar "@ + msg_types + "_depIdxs = []int32{"@ + dep_idxs_code + "}\n\nfunc init() { "@ + msg_types, "_init() }\nfunc "@, msg_types + "_msgTypes = make([]protoimpl.MessageInfo, "@ + messages + ")\nvar "@);
        lemma_holds_text_extend("var "@ + cap_msg_type + " protoreflect.FileDescriptor\n\n"@ + go_code + "\n\nvar (\n    "@ + msg_types + "_rawDescOnce sync.Once\n    "@ + msg_types + "_rawDescData []byte\n)\n\nfunc "@ + msg_types + "_rawDescGZIP() []byte {\n\t"@ + msg_types + "_rawDescOnce.Do(func() {\n\t\t"@ + msg_types + "_rawDescData = protoimpl.X.CompressGZIP(unsafe.Slice(unsafe.StringData("@ + msg_types + "_rawDesc), len("@ + msg_types + "_rawDesc)))\n\t})\n\treturn "@ + msg_types + "_rawDescData\n}\n\nvar "@ + msg_types + "_msgTypes = make([]protoimpl.MessageInfo, "@ + messages + ")\nvar "@ + msg_types + "_goTypes = []any{\n"@ + go_types + "}\nvar "@ + msg_types + "_depIdxs = []int32{"@ + dep_idxs_code + "}\n\nfunc init() { "@ + msg_types + "_init() }\nfunc "@, msg_types, msg_types + "_msgTypes = make([]protoimpl.MessageInfo, "@ + messages + ")\nvar "@);
        lemma_holds_text_extend("var "@ + cap_msg_type + " protoreflect.FileDescriptor\n\n"@ + go_code + "\n\nvar (\n    "@ + msg_types + "_rawDescOnce sync.Once\n    "@ + msg_types + "_rawDescData []byte\n)\n\nfunc "@ + msg_types + "_rawDescGZIP() []byte {\n\t"@ + msg_types + "_rawDescOnce.Do(func() {\n\t\t"@ + msg_types + "_rawDescData = protoimpl.X.CompressGZIP(unsafe.Slice(unsafe.StringData("@ + msg_types + "_rawDesc), len("@ + msg_types + "_rawDesc)))\n\t})\n\treturn "@ + msg_types + "_rawDescData\n}\n\nvar "@ + msg_types + "_msgTypes = make([]protoimpl.MessageInfo, "@ + messages + ")\nvar "@ + msg_types + "_goTypes = []any{\n"@ + go_types + "}\nvar "@ + msg_types + "_depIdxs = []int32{"@ + dep_idxs_code + "}\n\nfunc init() { "@ + msg_types + "_init() }\nfunc "@ + msg_types, "_init() {\n\tif "@, msg_types + "_msgTypes = make([]protoimpl.MessageInfo, "@ + messages + ")\nvar "@);
        lemma_holds_text_extend("var "@ + cap_msg_type + " protoreflect.FileDescriptor\n\n"@ + go_code + "\n\nvar (\n    "@ + msg_types + "_rawDescOnce sync.Once\n    "@ + msg_types + "_rawDescData []byte\n)\n\nfunc "@ + msg_types + "_rawDescGZIP() []byte {\n\t"@ + msg_types + "_rawDescOnce.Do(func() {\n\t\t"@ + msg_types + "_rawDescData = protoimpl.X.CompressGZIP(unsafe.Slice(unsafe.StringData("@ + msg_types + "_rawDesc), len("@ + msg_types + "_rawDesc)))\n\t})\n\treturn "@ + msg_types + "_rawDescData\n}\n\nvar "@ + msg_types + "_msgTypes = make([]protoimpl.MessageInfo, "@ + messages + ")\nvar "@ + msg_types + "_goTypes = []any{\n"@ + go_types + "}\nvar "@ + msg_types + "_depIdxs = []int32{"@ + dep_idxs_code + "}\n\nfunc init() { "@ + msg_types + "_init() }\nfunc "@ + msg_types + "_init() {\n\tif "@, cap_msg_type, msg_types + "_msgTypes = make([]protoimpl.MessageInfo, "@ + messages + ")\nvar "@);
        lemma_holds_text_extend("var "@ + cap_msg_type + " protoreflect.FileDescriptor\n\n"@ + go_code + "\n\nvar (\n    "@ + msg_types + "_rawDescOnce sync.Once\n    "@ + msg_types + "_rawDescData []byte\n)\n\nfunc "@ + msg_types + "_rawDescGZIP() []byte {\n\t"@ + msg_types + "_rawDescOnce.Do(func() {\n\t\t"@ + msg_types + "_rawDescData = protoimpl.X.CompressGZIP(unsafe.Slice(unsafe.StringData("@ + msg_types + "_rawDesc), len("@ + msg_types + "_rawDesc)))\n\t})\n\treturn "@ + msg_types + "_rawDescData\n}\n\nvar "@ + msg_types + "_msgTypes = make([]protoimpl.MessageInfo, "@ + messages + ")\nvar "@ + msg_types + "_goTypes = []any{\n"@ + go_types + "}\nvar "@ + msg_types + "_depIdxs = []int32{"@ + dep_idxs_code + "}\n\nfunc init() { "@ + msg_types + "_init() }\nfunc "@ + msg_types + "_init() {\n\tif "@ + cap_msg_type, " != nil {\n\t\treturn\n\t}\n"@, msg_types + "_msgTypes = make([]protoimpl.MessageInfo, "@ + messages + ")\nvar "@);
        lemma_holds_text_extend("var "@ + cap_msg_type + " protoreflect.FileDescriptor\n\n"@ + go_code + "\n\nvar (\n    "@ + msg_types + "_rawDescOnce sync.Once\n    "@ + msg_types + "_rawDescData []byte\n)\n\nfunc "@ + msg_types + "_rawDescGZIP() []byte {\n\t"@ + msg_types + "_rawDescOnce.Do(func() {\n\t\t"@ + msg_types + "_rawDescData = protoimpl.X.CompressGZIP(unsafe.Slice(unsafe.StringData("@ + msg_types + "_rawDesc), len("@ + msg_types + "_rawDesc)))\n\t})\n\treturn "@ + msg_types + "_rawDescData\n}\n\nvar "@ + msg_types + "_msgTypes = make([]protoimpl.MessageInfo, "@ + messages + ")\nvar "@ + msg_types + "_goTypes = []any{\n"@ + go_types + "}\nvar "@ + msg_types + "_depIdxs = []int32{"@ + dep_idxs_code + "}\n\nfunc init() { "@ + msg_types + "_init() }\nfunc "@ + msg_types + "_init() {\n\tif "@ + cap_msg_type + " != nil {\n\t\treturn\n\t}\n"@, oneof_wrappers, msg_types + "_msgTypes = make([]protoimpl.MessageInfo, "@ + messages + ")\nvar "@);
        lemma_holds_text_extend("var "@ + cap_msg_type + " protoreflect.FileDescriptor\n\n"@ + go_code + "\n\nvar (\n    "@ + msg_types + "_rawDescOnce sync.Once\n    "@ + msg_types + "_rawDescData []byte\n)\n\nfunc "@ + msg_types + "_rawDescGZIP() []byte {\n\t"@ + msg_types + "_rawDescOnce.Do(func() {\n\t\t"@ + msg_types + "_rawDescData = protoimpl.X.CompressGZIP(unsafe.Slice(unsafe.StringData("@ + msg_types + "_rawDesc), len("@ + msg_types + "_rawDesc)))\n\t})\n\treturn "@ + msg_types + "_rawDescData\n}\n\nvar "@ + msg_types + "_msgTypes = make([]protoimpl.MessageInfo, "@ + messages + ")\nvar "@ + msg_types + "_goTypes = []any{\n"@ + go_types + "}\nvar "@ + msg_types + "_depIdxs = []int32{"@ + dep_idxs_code + "}\n\nfunc init() { "@ + msg_types + "_init() }\nfunc "@ + msg_types + "_init() {\n\tif "@ + cap_msg_type + " != nil {\n\t\treturn\n\t}\n"@ + oneof_wrappers, "\ttype x struct{}\n\tout := protoimpl.TypeBuilder{\n\t\tFile: protoimpl.DescBuilder{\n\t\t\tGoPackagePath: reflect.TypeOf(x{}).PkgPath(),\n\t\t\tRawDescriptor: unsafe.Slice(unsafe.StringData("@, msg_types + "_msgTypes = make([]protoimpl.MessageInfo, "@ + messages + ")\nvar "@);
        lemma_holds_text_extend("var "@ + cap_msg_type + " protoreflect.FileDescriptor\n\n"@ + go_code + "\n\nvar (\n    "@ + msg_types + "_rawDescOnce sync.Once\n    "@ + msg_types + "_rawDescData []byte\n)\n\nfunc "@ + msg_types + "_rawDescGZIP() []byte {\n\t"@ + msg_types + "_rawDescOnce.Do(func() {\n\t\t"@ + msg_types + "_rawDescData = protoimpl.X.CompressGZIP(unsafe.Slice(unsafe.StringData("@ + msg_types + "_rawDesc), len("@ + msg_types + "_rawDesc)))\n\t})\n\treturn "@ + msg_types + "_rawDescData\n}\n\nvar "@ + msg_types + "_msgTypes = make([]protoimpl.MessageInfo, "@ + messages + ")\nvar "@ + msg_types + "_goTypes = []any{\n"@ + go_types + "}\nvar "@ + msg_types + "_depIdxs = []int32{"@ + dep_idxs_code + "}\n\nfunc init() { "@ + msg_types + "_init() }\nfunc "@ + msg_types + "_init() {\n\tif "@ + cap_msg_type + " != nil {\n\t\treturn\n\t}\n"@ + oneof_wrappers + "\ttype x struct{}\n\tout := protoimpl.TypeBuilder{\n\t\tFile: protoimpl.DescBuilder{\n\t\t\tGoPackagePath: reflect.TypeOf(x{}).PkgPath(),\n\t\t\tRawDescriptor: unsafe.Slice(unsafe.StringData("@, msg_types, msg_types + "_msgTypes = make([]protoimpl.MessageInfo, "@ + messages + ")\nvar "@);
        lemma_holds_text_extend("var "@ + cap_msg_type + " protoreflect.FileDescriptor\n\n"@ + go_code + "\n\nvar (\n    "@ + msg_types + "_rawDescOnce sync.Once\n    "@ + msg_types + "_rawDescData []byte\n)\n\nfunc "@ + msg_types + "_rawDescGZIP() []byte {\n\t"@ + msg_types + "_rawDescOnce.Do(func() {\n\t\t"@ + msg_types + "_rawDescData = protoimpl.X.CompressGZIP(unsafe.Slice(unsafe.StringData("@ + msg_types + "_rawDesc), len("@ + msg_types + "_rawDesc)))\n\t})\n\treturn "@ + msg_types + "_rawDescData\n}\n\nvar "@ + msg_types + "_msgTypes = make([]protoimpl.MessageInfo, "@ + messages + ")\nvar "@ + msg_types + "_goTypes = []any{\n"@ + go_types + "}\nvar "@ + msg_types + "_depIdxs = []int32{"@ + dep_idxs_code + "}\n\nfunc init() { "@ + msg_types + "_init() }\nfunc "@ + msg_types + "_init() {\n\tif "@ + cap_msg_type + " != nil {\n\t\treturn\n\t}\n"@ + oneof_wrappers + "\ttype x struct{}\n\tout := protoimpl.TypeBuilder{\n\t\tFile: protoimpl.DescBuilder{\n\t\t\tGoPackagePath: reflect.TypeOf(x{}).PkgPath(),\n\t\t\tRawDescriptor: unsafe.Slice(unsafe.StringData("@ + msg_types, "_rawDesc), len("@, msg_types + "_msgTypes = make([]protoimpl.MessageInfo, "@ + messages + ")\nvar "@);
        lemma_holds_text_extend("var "@ + cap_msg_type + " protoreflect.FileDescriptor\n\n"@ + go_code + "\n\nvar (\n    "@ + msg_types + "_rawDescOnce sync.Once\n    "@ + msg_types + "_rawDescData []byte\n)\n\nfunc "@ + msg_types + "_rawDescGZIP() []byte {\n\t"@ + msg_types + "_rawDescOnce.Do(func() {\n\t\t"@ + msg_types + "_rawDescData = protoimpl.X.CompressGZIP(unsafe.Slice(unsafe.StringData("@ + msg_types + "_rawDesc), len("@ + msg_types + "_rawDesc)))\n\t})\n\treturn "@ + msg_types + "_rawDescData\n}\n\nvar "@ + msg_types + "_msgTypes = make([]protoimpl.MessageInfo, "@ + messages + ")\nvar "@ + msg_types + "_goTypes = []any{\n"@ + go_types + "}\nvar "@ + msg_types + "_depIdxs = []int32{"@ + dep_idxs_code + "}\n\nfunc init() { "@ + msg_types + "_init() }\nfunc "@ + msg_types + "_init() {\n\tif "@ + cap_msg_type + " != nil {\n\t\treturn\n\t}\n"@ + oneof_wrappers + "\ttype x struct{}\n\tout := protoimpl.TypeBuilder{\n\t\tFile: protoimpl.DescBuilder{\n\t\t\tGoPackagePath: reflect.TypeOf(x{}).PkgPath(),\n\t\t\tRawDescriptor: unsafe.Slice(unsafe.StringData("@ + msg_types + "_rawDesc), len("@, msg_types, msg_types + "_msgTypes = make([]protoimpl.MessageInfo, "@ + messages + ")\nvar "@);
        lemma_holds_text_extend("var "@ + cap_msg_type + " protoreflect.FileDescriptor\n\n"@ + go_code + "\n\nvar (\n    "@ + msg_types + "_rawDescOnce sync.Once\n    "@ + msg_types + "_rawDescData []byte\n)\n\nfunc "@ + msg_types + "_rawDescGZIP() []byte {\n\t"@ + msg_types + "_rawDescOnce.Do(func() {\n\t\t"@ + msg_types + "_rawDescData = protoimpl.X.CompressGZIP(unsafe.Slice(unsafe.StringData("@ + msg_types + "_rawDesc), len("@ + msg_types + "_rawDesc)))\n\t})\n\treturn "@ + msg_types + "_rawDescData\n}\n\nvar "@ + msg_types + "_msgTypes = make([]protoimpl.MessageInfo, "@ + messages + ")\nvar "@ + msg_types + "_goTypes = []any{\n"@ + go_types + "}\nvar "@ + msg_types + "_depIdxs = []int32{"@ + dep_idxs_code + "}\n\nfunc init() { "@ + msg_types + "_init() }\nfunc "@ + msg_types + "_init() {\n\tif "@ + cap_msg_type + " != nil {\n\t\treturn\n\t}\n"@ + oneof_wrappers + "\ttype x struct{}\n\tout := protoimpl.TypeBuilder{\n\t\tFile: protoimpl.DescBuilder{\n\t\t\tGoPackagePath: reflect.TypeOf(x{}).PkgPath(),\n\t\t\tRawDescriptor: unsafe.Slice(unsafe.StringData("@ + msg_types + "_rawDesc), len("@ + msg_types, "_rawDesc)),\n\t\t\tNumEnums:      "@, msg_types + "_msgTypes = make([]protoimpl.MessageInfo, "@ + messages + ")\nvar "@);
        lemma_holds_text_extend("var "@ + cap_msg_type + " protoreflect.FileDescriptor\n\n"@ + go_code + "\n\nvar (\n    "@ + msg_types + "_rawDescOnce sync.Once\n    "@ + msg_types + "_rawDescData []byte\n)\n\nfunc "@ + msg_types + "_rawDescGZIP() []byte {\n\t"@ + msg_types + "_rawDescOnce.Do(func() {\n\t\t"@ + msg_types + "_rawDescData = protoimpl.X.CompressGZIP(unsafe.Slice(unsafe.StringData("@ + msg_types + "_rawDesc), len("@ + msg_types + "_rawDesc)))\n\t})\n\treturn "@ + msg_types + "_rawDescData\n}\n\nvar "@ + msg_types + "_msgTypes = make([]protoimpl.MessageInfo, "@ + messages + ")\nvar "@ + msg_types + "_goTypes = []any{\n"@ + go_types + "}\nvar "@ + msg_types + "_depIdxs = []int32{"@ + dep_idxs_code + "}\n\nfunc init() { "@ + msg_types + "_init() }\nfunc "@ + msg_types + "_init() {\n\tif "@ + cap_msg_type + " != nil {\n\t\treturn\n\t}\n"@ + oneof_wrappers + "\ttype x struct{}\n\tout := protoimpl.TypeBuilder{\n\t\tFile: protoimpl.DescBuilder{\n\t\t\tGoPackagePath: reflect.TypeOf(x{}).PkgPath(),\n\t\t\tRawDescriptor: unsafe.Slice(unsafe.StringData("@ + msg_types + "_rawDesc), len("@ + msg_types + "_rawDesc)),\n\t\t\tNumEnums:      "@, penums, msg_types + "_msgTypes = make([]protoimpl.MessageInfo, "@ + messages + ")\nvar "@);
        lemma_holds_text_extend("var "@ + cap_msg_type + " protoreflect.FileDescriptor\n\n"@ + go_code + "\n\nvar (\n    "@ + msg_types + "_rawDescOnce sync.Once\n    "@ + msg_types + "_rawDescData []byte\n)\n\nfunc "@ + msg_types + "_rawDescGZIP() []byte {\n\t"@ + msg_types + "_rawDescOnce.Do(func() {\n\t\t"@ + msg_types + "_rawDescData = protoimpl.X.CompressGZIP(unsafe.Slice(unsafe.StringData("@ + msg_types + "_rawDesc), len("@ + msg_types + "_rawDesc)))\n\t})\n\treturn "@ + msg_types + "_rawDescData\n}\n\nvar "@ + msg_types + "_msgTypes = make([]protoimpl.MessageInfo, "@ + messages + ")\nvar "@ + msg_types + "_goTypes = []any{\n"@ + go_types + "}\nvar "@ + msg_types + "_depIdxs = []int32{"@ + dep_idxs_code + "}\n\nfunc init() { "@ + msg_types + "_init() }\nfunc "@ + msg_types + "_init() {\n\tif "@ + cap_msg_type + " != nil {\n\t\treturn\n\t}\n"@ + oneof_wrappers + "\ttype x struct{}\n\tout := protoimpl.TypeBuilder{\n\t\tFile: protoimpl.DescBuilder{\n\t\t\tGoPackagePath: reflect.TypeOf(x{}).PkgPath(),\n\t\t\tRawDescriptor: unsafe.Slice(unsafe.StringData("@ + msg_types + "_rawDesc), len("@ + msg_types + "_rawDesc)),\n\t\t\tNumEnums:      "@ + penums, ",\n\t\t\tNumMessages:   "@, msg_types + "_msgTypes = make([]protoimpl.MessageInfo, "@ + messages + ")\nvar "@);
        lemma_holds_text_extend("var "@ + cap_msg_type + " protoreflect.FileDescriptor\n\n"@ + go_code + "\n\nvar (\n    "@ + msg_types + "_rawDescOnce sync.Once\n    "@ + msg_types + "_rawDescData []byte\n)\n\nfunc "@ + msg_types + "_rawDescGZIP() []byte {\n\t"@ + msg_types + "_rawDescOnce.Do(func() {\n\t\t"@ + msg_types + "_rawDescData = protoimpl.X.CompressGZIP(unsafe.Slice(unsafe.StringData("@ + msg_types + "_rawDesc), len("@ + msg_types + "_rawDesc)))\n\t})\n\treturn "@ + msg_types + "_rawDescData\n}\n\nvar "@ + msg_types + "_msgTypes = make([]protoimpl.MessageInfo, "@ + messages + ")\nvar "@ + msg_types + "_goTypes = []any{\n"@ + go_types + "}\nvar "@ + msg_types + "_depIdxs = []int32{"@ + dep_idxs_code + "}\n\nfunc init() { "@ + msg_types + "_init() }\nfunc "@ + msg_types + "_init() {\n\tif "@ + cap_msg_type + " != nil {\n\t\treturn\n\t}\n"@ + oneof_wrappers + "\ttype x struct{}\n\tout := protoimpl.TypeBuilder{\n\t\tFile: protoimpl.DescBuilder{\n\t\t\tGoPackagePath: reflect.TypeOf(x{}).PkgPath(),\n\t\t\tRawDescriptor: unsafe.Slice(unsafe.StringData("@ + msg_types + "_rawDesc), len("@ + msg_types + "_rawDesc)),\n\t\t\tNumEnums:      "@ + penums + ",\n\t\t\tNumMessages:   "@, messages, msg_types + "_msgTypes = make([]protoimpl.MessageInfo, "@ + messages + ")\nvar "@);
        lemma_holds_text_extend("var "@ + cap_msg_type + " protoreflect.FileDescriptor\n\n"@ + go_code + "\n\nvar (\n    "@ + msg_types + "_rawDescOnce sync.Once\n    "@ + msg_types + "_rawDescData []byte\n)\n\nfunc "@ + msg_types + "_rawDescGZIP() []byte {\n\t"@ + msg_types + "_rawDescOnce.Do(func() {\n\t\t"@ + msg_types + "_rawDescData = protoimpl.X.CompressGZIP(unsafe.Slice(unsafe.StringData("@ + msg_types + "_rawDesc), len("@ + msg_types + "_rawDesc)))\n\t})\n\treturn "@ + msg_types + "_rawDescData\n}\n\nvar "@ + msg_types + "_msgTypes = make([]protoimpl.MessageInfo, "@ + messages + ")\nvar "@ + msg_types + "_goTypes = []any{\n"@ + go_types + "}\nvar "@ + msg_types + "_depIdxs = []int32{"@ + dep_idxs_code + "}\n\nfunc init() { "@ + msg_types + "_init() }\nfunc "@ + msg_types + "_init() {\n\tif "@ + cap_msg_type + " != nil {\n\t\treturn\n\t}\n"@ + oneof_wrappers + "\ttype x struct{}\n\tout := protoimpl.TypeBuilder{\n\t\tFile: protoimpl.DescBuilder{\n\t\t\tGoPackagePath: reflect.TypeOf(x{}).PkgPath(),\n\t\t\tRawDescriptor: unsafe.Slice(unsafe.StringData("@ + msg_types + "_rawDesc), len("@ + msg_types + "_rawDesc)),\n\t\t\tNumEnums:      "@ + penums + ",\n\t\t\tNumMessages:   "@ + messages, ",\n\t\t\tNumExtensions: 0,\n\t\t\tNumServices:   0,\n\t\t},\n\t\tGoTypes:           "@, msg_types + "_msgTypes = make([]protoimpl.MessageInfo, "@ + messages + ")\nvar "@);
        lemma_holds_text_extend("var "@ + cap_msg_type + " protoreflect.FileDescriptor\n\n"@ + go_code + "\n\nvar (\n    "@ + msg_types + "_rawDescOnce sync.Once\n    "@ + msg_types + "_rawDescData []byte\n)\n\nfunc "@ + msg_types + "_rawDescGZIP() []byte {\n\t"@ + msg_types + "_rawDescOnce.Do(func() {\n\t\t"@ + msg_types + "_rawDescData = protoimpl.X.CompressGZIP(unsafe.Slice(unsafe.StringData("@ + msg_types + "_rawDesc), len("@ + msg_types + "_rawDesc)))\n\t})\n\treturn "@ + msg_types + "_rawDescData\n}\n\nvar "@ + msg_types + "_msgTypes = make([]protoimpl.MessageInfo, "@ + messages + ")\nvar "@ + msg_types + "_goTypes = []any{\n"@ + go_types + "}\nvar "@ + msg_types + "_depIdxs = []int32{"@ + dep_idxs_code + "}\n\nfunc init() { "@ + msg_types + "_init() }\nfunc "@ + msg_types + "_init() {\n\tif "@ + cap_msg_type + " != nil {\n\t\treturn\n\t}\n"@ + oneof_wrappers + "\ttype x struct{}\n\tout := protoimpl.TypeBuilder{\n\t\tFile: protoimpl.DescBuilder{\n\t\t\tGoPackagePath: reflect.TypeOf(x{}).PkgPath(),\n\t\t\tRawDescriptor: unsafe.Slice(unsafe.StringData("@ + msg_types + "_rawDesc), len("@ + msg_types + "_rawDesc)),\n\t\t\tNumEnums:      "@ + penums + ",\n\t\t\tNumMessages:   "@ + messages + ",\n\t\t\tNumExtensions: 0,\n\t\t\tNumServices:   0,\n\t\t},\n\t\tGoTypes:           "@, msg_types, msg_types + "_msgTypes = make([]protoimpl.MessageInfo, "@ + messages + ")\nvar "@);
        lemma_holds_text_extend("var "@ + cap_msg_type + " protoreflect.FileDescriptor\n\n"@ + go_code + "\n\nvar (\n    "@ + msg_types + "_rawDescOnce sync.Once\n    "@ + msg_types + "_rawDescData []byte\n)\n\nfunc "@ + msg_types + "_rawDescGZIP() []byte {\n\t"@ + msg_types + "_rawDescOnce.Do(func() {\n\t\t"@ + msg_types + "_rawDescData = protoimpl.X.CompressGZIP(unsafe.Slice(unsafe.StringData("@ + msg_types + "_rawDesc), len("@ + msg_types + "_rawDesc)))\n\t})\n\treturn "@ + msg_types + "_rawDescData\n}\n\nvar "@ + msg_types + "_msgTypes = make([]protoimpl.MessageInfo, "@ + messages + ")\nvar "@ + msg_types + "_goTypes = []any{\n"@ + go_types + "}\nvar "@ + msg_types + "_depIdxs = []int32{"@ + dep_idxs_code + "}\n\nfunc init() { "@ + msg_types + "_init() }\nfunc "@ + msg_types + "_init() {\n\tif "@ + cap_msg_type + " != nil {\n\t\treturn\n\t}\n"@ + oneof_wrappers + "\ttype x struct{}\n\tout := protoimpl.TypeBuilder{\n\t\tFile: protoimpl.DescBuilder{\n\t\t\tGoPackagePath: reflect.TypeOf(x{}).PkgPath(),\n\t\t\tRawDescriptor: unsafe.Slice(unsafe.StringData("@ + msg_types + "_rawDesc), len("@ + msg_types + "_rawDesc)),\n\t\t\tNumEnums:      "@ + penums + ",\n\t\t\tNumMessages:   "@ + messages + ",\n\t\t\tNumExtensions: 0,\n\t\t\tNumServices:   0,\n\t\t},\n\t\tGoTypes:           "@ + msg_types, "_goTypes,\n\t\tDependencyIndexes: "@, msg_types + "_msgTypes = make([]protoimpl.MessageInfo, "@ + messages + ")\nvar "@);
        lemma_holds_text_extend("var "@ + cap_msg_type + " protoreflect.FileDescriptor\n\n"@ + go_code + "\n\nvar (\n    "@ + msg_types + "_rawDescOnce sync.Once\n    "@ + msg_types + "_rawDescData []byte\n)\n\nfunc "@ + msg_types + "_rawDescGZIP() []byte {\n\t"@ + msg_types + "_rawDescOnce.Do(func() {\n\t\t"@ + msg_types + "_rawDescData = protoimpl.X.CompressGZIP(unsafe.Slice(unsafe.StringData("@ + msg_types + "_rawDesc), len("@ + msg_types + "_rawDesc)))\n\t})\n\treturn "@ + msg_types + "_rawDescData\n}\n\nvar "@ + msg_types + "_msgTypes = make([]protoimpl.MessageInfo, "@ + messages + ")\nvar "@ + msg_types + "_goTypes = []any{\n"@ + go_types + "}\nvar "@ + msg_types + "_depIdxs = []int32{"@ + dep_idxs_code + "}\n\nfunc init() { "@ + msg_types + "_init() }\nfunc "@ + msg_types + "_init() {\n\tif "@ + cap_msg_type + " != nil {\n\t\treturn\n\t}\n"@ + oneof_wrappers + "\ttype x struct{}\n\tout := protoimpl.TypeBuilder{\n\t\tFile: protoimpl.DescBuilder{\n\t\t\tGoPackagePath: reflect.TypeOf(x{}).PkgPath(),\n\t\t\tRawDescriptor: unsafe.Slice(unsafe.StringData("@ + msg_types + "_rawDesc), len("@ + msg_types + "_rawDesc)),\n\t\t\tNumEnums:      "@ + penums + ",\n\t\t\tNumMessages:   "@ + messages + ",\n\t\t\tNumExtensions: 0,\n\t\t\tNumServices:   0,\n\t\t},\n\t\tGoTypes:           "@ + msg_types + "_goTypes,\n\t\tDependencyIndexes: "@, msg_types, msg_types + "_msgTypes = make([]protoimpl.MessageInfo, "@ + messages + ")\nvar "@);
        lemma_holds_text_extend("var "@ + cap_msg_type + " protoreflect.FileDescriptor\n\n"@ + go_code + "\n\nvar (\n    "@ + msg_types + "_rawDescOnce sync.Once\n    "@ + msg_types + "_rawDescData []byte\n)\n\nfunc "@ + msg_types + "_rawDescGZIP() []byte {\n\t"@ + msg_types + "_rawDescOnce.Do(func() {\n\t\t"@ + msg_types + "_rawDescData = protoimpl.X.CompressGZIP(unsafe.Slice(unsafe.StringData("@ + msg_types + "_rawDesc), len("@ + msg_types + "_rawDesc)))\n\t})\n\treturn "@ + msg_types + "_rawDescData\n}\n\nvar "@ + msg_types + "_msgTypes = make([]protoimpl.MessageInfo, "@ + messages + ")\nvar "@ + msg_types + "_goTypes = []any{\n"@ + go_types + "}\nvar "@ + msg_types + "_depIdxs = []int32{"@ + dep_idxs_code + "}\n\nfunc init() { "@ + msg_types + "_init() }\nfunc "@ + msg_types + "_init() {\n\tif "@ + cap_msg_type + " != nil {\n\t\treturn\n\t}\n"@ + oneof_wrappers + "\ttype x struct{}\n\tout := protoimpl.TypeBuilder{\n\t\tFile: protoimpl.DescBuilder{\n\t\t\tGoPackagePath: reflect.TypeOf(x{}).PkgPath(),\n\t\t\tRawDescriptor: unsafe.Slice(unsafe.StringData("@ + msg_types + "_rawDesc), len("@ + msg_types + "_rawDesc)),\n\t\t\tNumEnums:      "@ + penums + ",\n\t\t\tNumMessages:   "@ + messages + ",\n\t\t\tNumExtensions: 0,\n\t\t\tNumServices:   0,\n\t\t},\n\t\tGoTypes:           "@ + msg_types + "_goTypes,\n\t\tDependencyIndexes: "@ + msg_types, "_depIdxs,\n\t\tMessageInfos:      "@, msg_types + "_msgTypes = make([]protoimpl.MessageInfo, "@ + messages + ")\nvar "@);
        lemma_holds_text_extend("var "@ + cap_msg_type + " protoreflect.FileDescriptor\n\n"@ + go_code + "\n\nvar (\n    "@ + msg_types + "_rawDescOnce sync.Once\n    "@ + msg_types + "_rawDescData []byte\n)\n\nfunc "@ + msg_types + "_rawDescGZIP() []byte {\n\t"@ + msg_types + "_rawDescOnce.Do(func() {\n\t\t"@ + msg_types + "_rawDescData = protoimpl.X.CompressGZIP(unsafe.Slice(unsafe.StringData("@ + msg_types + "_rawDesc), len("@ + msg_types + "_rawDesc)))\n\t})\n\treturn "@ + msg_types + "_rawDescData\n}\n\nvar "@ + msg_types + "_msgTypes = make([]protoimpl.MessageInfo, "@ + messages + ")\nvar "@ + msg_types + "_goTypes = []any{\n"@ + go_types + "}\nvar "@ + msg_types + "_depIdxs = []int32{"@ + dep_idxs_code + "}\n\nfunc init() { "@ + msg_types + "_init() }\nfunc "@ + msg_types + "_init() {\n\tif "@ + cap_msg_type + " != nil {\n\t\treturn\n\t}\n"@ + oneof_wrappers + "\ttype x struct{}\n\tout := protoimpl.TypeBuilder{\n\t\tFile: protoimpl.DescBuilder{\n\t\t\tGoPackagePath: reflect.TypeOf(x{}).PkgPath(),\n\t\t\tRawDescriptor: unsafe.Slice(unsafe.StringData("@ + msg_types + "_rawDesc), len("@ + msg_types + "_rawDesc)),\n\t\t\tNumEnums:      "@ + penums + ",\n\t\t\tNumMessages:   "@ + messages + ",\n\t\t\tNumExtensions: 0,\n\t\t\tNumServices:   0,\n\t\t},\n\t\tGoTypes:           "@ + msg_types + "_goTypes,\n\t\tDependencyIndexes: "@ + msg_types + "_depIdxs,\n\t\tMessageInfos:      "@, msg_types, msg_types + "_msgTypes = make([]protoimpl.MessageInfo, "@ + messages + ")\nvar "@);
        lemma_holds_text_extend("var "@ + cap_msg_type + " protoreflect.FileDescriptor\n\n"@ + go_code + "\n\nvar (\n    "@ + msg_types + "_rawDescOnce sync.Once\n    "@ + msg_types + "_rawDescData []byte\n)\n\nfunc "@ + msg_types + "_rawDescGZIP() []byte {\n\t"@ + msg_types + "_rawDescOnce.Do(func() {\n\t\t"@ + msg_types + "_rawDescData = protoimpl.X.CompressGZIP(unsafe.Slice(unsafe.StringData("@ + msg_types + "_rawDesc), len("@ + msg_types + "_rawDesc)))\n\t})\n\treturn "@ + msg_types + "_rawDescData\n}\n\nvar "@ + msg_types + "_msgTypes = make([]protoimpl.MessageInfo, "@ + messages + ")\nvar "@ + msg_types + "_goTypes = []any{\n"@ + go_types + "}\nvar "@ + msg_types + "_depIdxs = []int32{"@ + dep_idxs_code + "}\n\nfunc init() { "@ + msg_types + "_init() }\nfunc "@ + msg_types + "_init() {\n\tif "@ + cap_msg_type + " != nil {\n\t\treturn\n\t}\n"@ + oneof_wrappers + "\ttype x struct{}\n\tout := protoimpl.TypeBuilder{\n\t\tFile: protoimpl.DescBuilder{\n\t\t\tGoPackagePath: reflect.TypeOf(x{}).PkgPath(),\n\t\t\tRawDescriptor: unsafe.Slice(unsafe.StringData("@ + msg_types + "_rawDesc), len("@ + msg_types + "_rawDesc)),\n\t\t\tNumEnums:      "@ + penums + ",\n\t\t\tNumMessages:   "@ + messages + ",\n\t\t\tNumExtensions: 0,\n\t\t\tNumServices:   0,\n\t\t},\n\t\tGoTypes:           "@ + msg_types + "_goTypes,\n\t\tDependencyIndexes: "@ + msg_types + "_depIdxs,\n\t\tMessageInfos:      "@ + msg_types, "_msgTypes,\n        EnumInfos:         "@, msg_types + "_msgTypes = make([]protoimpl.MessageInfo, "@ + messages + ")\nvar "@);
        lemma_holds_text_extend("var "@ + cap_msg_type + " protoreflect.FileDescriptor\n\n"@ + go_code + "\n\nvar (\n    "@ + msg_types + "_rawDescOnce sync.Once\n    "@ + msg_types + "_rawDescData []byte\n)\n\nfunc "@ + msg_types + "_rawDescGZIP() []byte {\n\t"@ + msg_types + "_rawDescOnce.Do(func() {\n\t\t"@ + msg_types + "_rawDescData = protoimpl.X.CompressGZIP(unsafe.Slice(unsafe.StringData("@ + msg_types + "_rawDesc), len("@ + msg_types + "_rawDesc)))\n\t})\n\treturn "@ + msg_types + "_rawDescData\n}\n\nvar "@ + msg_types + "_msgTypes = make([]protoimpl.MessageInfo, "@ + messages + ")\nvar "@ + msg_types + "_goTypes = []any{\n"@ + go_types + "}\nvar "@ + msg_types + "_depIdxs = []int32{"@ + dep_idxs_code + "}\n\nfunc init() { "@ + msg_types + "_init() }\nfunc "@ + msg_types + "_init() {\n\tif "@ + cap_msg_type + " != nil {\n\t\treturn\n\t}\n"@ + oneof_wrappers + "\ttype x struct{}\n\tout := protoimpl.TypeBuilder{\n\t\tFile: protoimpl.DescBuilder{\n\t\t\tGoPackagePath: reflect.TypeOf(x{}).PkgPath(),\n\t\t\tRawDescriptor: unsafe.Slice(unsafe.StringData("@ + msg_types + "_rawDesc), len("@ + msg_types + "_rawDesc)),\n\t\t\tNumEnums:      "@ + penums + ",\n\t\t\tNumMessages:   "@ + messages + ",\n\t\t\tNumExtensions: 0,\n\t\t\tNumServices:   0,\n\t\t},\n\t\tGoTypes:           "@ + msg_types + "_goTypes,\n\t\tDependencyIndexes: "@ + msg_types + "_depIdxs,\n\t\tMessageInfos:      "@ + msg_types + "_msgTypes,\n        EnumInfos:         "@, enum_types, msg_types + "_msgTypes = make([]protoimpl.MessageInfo, "@ + messages + ")\nvar "@);
        lemma_holds_text_extend("var "@ + cap_msg_type + " protoreflect.FileDescriptor\n\n"@ + go_code + "\n\nvar (\n    "@ + msg_types + "_rawDescOnce sync.Once\n    "@ + msg_types + "_rawDescData []byte\n)\n\nfunc "@ + msg_types + "_rawDescGZIP() []byte {\n\t"@ + msg_types + "_rawDescOnce.Do(func() {\n\t\t"@ + msg_types + "_rawDescData = protoimpl.X.CompressGZIP(unsafe.Slice(unsafe.StringData("@ + msg_types + "_rawDesc), len("@ + msg_types + "_rawDesc)))\n\t})\n\treturn "@ + msg_types + "_rawDescData\n}\n\nvar "@ + msg_types + "_msgTypes = make([]protoimpl.MessageInfo, "@ + messages + ")\nvar "@ + msg_types + "_goTypes = []any{\n"@ + go_types + "}\nvar "@ + msg_types + "_depIdxs = []int32{"@ + dep_idxs_code + "}\n\nfunc init() { "@ + msg_types + "_init() }\nfunc "@ + msg_types + "_init() {\n\tif "@ + cap_msg_type + " != nil {\n\t\treturn\n\t}\n"@ + oneof_wrappers + "\ttype x struct{}\n\tout := protoimpl.TypeBuilder{\n\t\tFile: protoimpl.DescBuilder{\n\t\t\tGoPackagePath: reflect.TypeOf(x{}).PkgPath(),\n\t\t\tRawDescriptor: unsafe.Slice(unsafe.StringData("@ + msg_types + "_rawDesc), len("@ + msg_types + "_rawDesc)),\n\t\t\tNumEnums:      "@ + penums + ",\n\t\t\tNumMessages:   "@ + messages + ",\n\t\t\tNumExtensions: 0,\n\t\t\tNumServices:   0,\n\t\t},\n\t\tGoTypes:           "@ + msg_types + "_goTypes,\n\t\tDependencyIndexes: "@ + msg_types + "_depIdxs,\n\t\tMessageInfos:      "@ + msg_types + "_msgTypes,\n        EnumInfos:         "@ + enum_types, ",\n\t}.Build()\n\t"@, msg_types + "_msgTypes = make([]protoimpl.MessageInfo, "@ + messages + ")\nvar "@);
        lemma_holds_text_extend("var "@ + cap_msg_type + " protoreflect.FileDescriptor\n\n"@ + go_code + "\n\nvar (\n    "@ + msg_types + "_rawDescOnce sync.Once\n    "@ + msg_types + "_rawDescData []byte\n)\n\nfunc "@ + msg_types + "_rawDescGZIP() []byte {\n\t"@ + msg_types + "_rawDescOnce.Do(func() {\n\t\t"@ + msg_types + "_rawDescData = protoimpl.X.CompressGZIP(unsafe.Slice(unsafe.StringData("@ + msg_types + "_rawDesc), len("@ + msg_types + "_rawDesc)))\n\t})\n\treturn "@ + msg_types + "_rawDescData\n}\n\nvar "@ + msg_types + "_msgTypes = make([]protoimpl.MessageInfo, "@ + messages + ")\nvar "@ + msg_types + "_goTypes = []any{\n"@ + go_types + "}\nvar "@ + msg_types + "_depIdxs = []int32{"@ + dep_idxs_code + "}\n\nfunc init() { "@ + msg_types + "_init() }\nfunc "@ + msg_types + "_init() {\n\tif "@ + cap_msg_type + " != nil {\n\t\treturn\n\t}\n"@ + oneof_wrappers + "\ttype x struct{}\n\tout := protoimpl.TypeBuilder{\n\t\tFile: protoimpl.DescBuilder{\n\t\t\tGoPackagePath: reflect.TypeOf(x{}).PkgPath(),\n\t\t\tRawDescriptor: unsafe.Slice(unsafe.StringData("@ + msg_types + "_rawDesc), len("@ + msg_types + "_rawDesc)),\n\t\t\tNumEnums:      "@ + penums + ",\n\t\t\tNumMessages:   "@ + messages + ",\n\t\t\tNumExtensions: 0,\n\t\t\tNumServices:   0,\n\t\t},\n\t\tGoTypes:           "@ + msg_types + "_goTypes,\n\t\tDependencyIndexes: "@ + msg_types + "_depIdxs,\n\t\tMessageInfos:      "@ + msg_types + "_msgTypes,\n        EnumInfos:         "@ + enum_types + ",\n\t}.Build()\n\t"@, cap_msg_type, msg_types + "_msgTypes = make([]protoimpl.MessageInfo, "@ + messages + ")\nvar "@);
        lemma_holds_text_extend("var "@ + cap_msg_type + " protoreflect.FileDescriptor\n\n"@ + go_code + "\n\nvar (\n    "@ + msg_types + "_rawDescOnce sync.Once\n    "@ + msg_types + "_rawDescData []byte\n)\n\nfunc "@ + msg_types + "_rawDescGZIP() []byte {\n\t"@ + msg_types + "_rawDescOnce.Do(func() {\n\t\t"@ + msg_types + "_rawDescData = protoimpl.X.CompressGZIP(unsafe.Slice(unsafe.StringData("@ + msg_types + "_rawDesc), len("@ + msg_types + "_rawDesc)))\n\t})\n\treturn "@ + msg_types + "_rawDescData\n}\n\nvar "@ + msg_types + "_msgTypes = make([]protoimpl.MessageInfo, "@ + messages + ")\nvar "@ + msg_types + "_goTypes = []any{\n"@ + go_types + "}\nvar "@ + msg_types + "_depIdxs = []int32{"@ + dep_idxs_code + "}\n\nfunc init() { "@ + msg_types + "_init() }\nfunc "@ + msg_types + "_init() {\n\tif "@ + cap_msg_type + " != nil {\n\t\treturn\n\t}\n"@ + oneof_wrappers + "\ttype x struct{}\n\tout := protoimpl.TypeBuilder{\n\t\tFile: protoimpl.DescBuilder{\n\t\t\tGoPackagePath: reflect.TypeOf(x{}).PkgPath(),\n\t\t\tRawDescriptor: unsafe.Slice(unsafe.StringData("@ + msg_types + "_rawDesc), len("@ + msg_types + "_rawDesc)),\n\t\t\tNumEnums:      "@ + penums + ",\n\t\t\tNumMessages:   "@ + messages + ",\n\t\t\tNumExtensions: 0,\n\t\t\tNumServices:   0,\n\t\t},\n\t\tGoTypes:           "@ + msg_types + "_goTypes,\n\t\tDependencyIndexes: "@ + msg_types + "_depIdxs,\n\t\tMessageInfos:      "@ + msg_types + "_msgTypes,\n        EnumInfos:         "@ + enum_types + ",\n\t}.Build()\n\t"@ + cap_msg_type, " = out.File\n\t"@, msg_types + "_msgTypes = make([]protoimpl.MessageInfo, "@ + messages + ")\nvar "@);
        lemma_holds_text_extend("var "@ + cap_msg_type + " protoreflect.FileDescriptor\n\n"@ + go_code + "\n\nvar (\n    "@ + msg_types + "_rawDescOnce sync.Once\n    "@ + msg_types + "_rawDescData []byte\n)\n\nfunc "@ + msg_types + "_rawDescGZIP() []byte {\n\t"@ + msg_types + "_rawDescOnce.Do(func() {\n\t\t"@ + msg_types + "_rawDescData = protoimpl.X.CompressGZIP(unsafe.Slice(unsafe.StringData("@ + msg_types + "_rawDesc), len("@ + msg_types + "_rawDesc)))\n\t})\n\treturn "@ + msg_types + "_rawDescData\n}\n\nvar "@ + msg_types + "_msgTypes = make([]protoimpl.MessageInfo, "@ + messages + ")\nvar "@ + msg_types + "_goTypes = []any{\n"@ + go_types + "}\nvar "@ + msg_types + "_depIdxs = []int32{"@ + dep_idxs_code + "}\n\nfunc init() { "@ + msg_types + "_init() }\nfunc "@ + msg_types + "_init() {\n\tif "@ + cap_msg_type + " != nil {\n\t\treturn\n\t}\n"@ + oneof_wrappers + "\ttype x struct{}\n\tout := protoimpl.TypeBuilder{\n\t\tFile: protoimpl.DescBuilder{\n\t\t\tGoPackagePath: reflect.TypeOf(x{}).PkgPath(),\n\t\t\tRawDescriptor: unsafe.Slice(unsafe.StringData("@ + msg_types + "_rawDesc), len("@ + msg_types + "_rawDesc)),\n\t\t\tNumEnums:      "@ + penums + ",\n\t\t\tNumMessages:   "@ + messages + ",\n\t\t\tNumExtensions: 0,\n\t\t\tNumServices:   0,\n\t\t},\n\t\tGoTypes:           "@ + msg_types + "_goTypes,\n\t\tDependencyIndexes: "@ + msg_types + "_depIdxs,\n\t\tMessageInfos:      "@ + msg_types + "_msgTypes,\n        EnumInfos:         "@ + enum_types + ",\n\t}.Build()\n\t"@ + cap_msg_type + " = out.File\n\t"@, msg_types, msg_types + "_msgTypes = make([]protoimpl.MessageInfo, "@ + messages + ")\nvar "@);
        lemma_holds_text_extend("var "@ + cap_msg_type + " protoreflect.FileDescriptor\n\n"@ + go_code + "\n\nvar (\n    "@ + msg_types + "_rawDescOnce sync.Once\n    "@ + msg_types + "_rawDescData []byte\n)\n\nfunc "@ + msg_types + "_rawDescGZIP() []byte {\n\t"@ + msg_types + "_rawDescOnce.Do(func() {\n\t\t"@ + msg_types + "_rawDescData = protoimpl.X.CompressGZIP(unsafe.Slice(unsafe.StringData("@ + msg_types + "_rawDesc), len("@ + msg_types + "_rawDesc)))\n\t})\n\treturn "@ + msg_types + "_rawDescData\n}\n\nvar "@ + msg_types + "_msgTypes = make([]protoimpl.MessageInfo, "@ + messages + ")\nvar "@ + msg_types + "_goTypes = []any{\n"@ + go_types + "}\nvar "@ + msg_types + "_depIdxs = []int32{"@ + dep_idxs_code + "}\n\nfunc init() { "@ + msg_types + "_init() }\nfunc "@ + msg_types + "_init() {\n\tif "@ + cap_msg_type + " != nil {\n\t\treturn\n\t}\n"@ + oneof_wrappers + "\ttype x struct{}\n\tout := protoimpl.TypeBuilder{\n\t\tFile: protoimpl.DescBuilder{\n\t\t\tGoPackagePath: reflect.TypeOf(x{}).PkgPath(),\n\t\t\tRawDescriptor: unsafe.Slice(unsafe.StringData("@ + msg_types + "_rawDesc), len("@ + msg_types + "_rawDesc)),\n\t\t\tNumEnums:      "@ + penums + ",\n\t\t\tNumMessages:   "@ + messages + ",\n\t\t\tNumExtensions: 0,\n\t\t\tNumServices:   0,\n\t\t},\n\t\tGoTypes:           "@ + msg_types + "_goTypes,\n\t\tDependencyIndexes: "@ + msg_types + "_depIdxs,\n\t\tMessageInfos:      "@ + msg_types + "_msgTypes,\n        EnumInfos:         "@ + enum_types + ",\n\t}.Build()\n\t"@ + cap_msg_type + " = out.File\n\t"@ + msg_types, "_goTypes = nil\n\t"@, msg_types + "_msgTypes = make([]protoimpl.MessageInfo, "@ + messages + ")\nvar "@);
        lemma_holds_text_extend("var "@ + cap_msg_type + " protoreflect.FileDescriptor\n\n"@ + go_code + "\n\nvar (\n    "@ + msg_types + "_rawDescOnce sync.Once\n    "@ + msg_types + "_rawDescData []byte\n)\n\nfunc "@ + msg_types + "_rawDescGZIP() []byte {\n\t"@ + msg_types + "_rawDescOnce.Do(func() {\n\t\t"@ + msg_types + "_rawDescData = protoimpl.X.CompressGZIP(unsafe.Slice(unsafe.StringData("@ + msg_types + "_rawDesc), len("@ + msg_types + "_rawDesc)))\n\t})\n\treturn "@ + msg_types + "_rawDescData\n}\n\nvar "@ + msg_types + "_msgTypes = make([]protoimpl.MessageInfo, "@ + messages + ")\nvar "@ + msg_types + "_goTypes = []any{\n"@ + go_types + "}\nvar "@ + msg_types + "_depIdxs = []int32{"@ + dep_idxs_code + "}\n\nfunc init() { "@ + msg_types + "_init() }\nfunc "@ + msg_types + "_init() {\n\tif "@ + cap_msg_type + " != nil {\n\t\treturn\n\t}\n"@ + oneof_wrappers + "\ttype x struct{}\n\tout := protoimpl.TypeBuilder{\n\t\tFile: protoimpl.DescBuilder{\n\t\t\tGoPackagePath: reflect.TypeOf(x{}).PkgPath(),\n\t\t\tRawDescriptor: unsafe.Slice(unsafe.StringData("@ + msg_types + "_rawDesc), len("@ + msg_types + "_rawDesc)),\n\t\t\tNumEnums:      "@ + penums + ",\n\t\t\tNumMessages:   "@ + messages + ",\n\t\t\tNumExtensions: 0,\n\t\t\tNumServices:   0,\n\t\t},\n\t\tGoTypes:           "@ + msg_types + "_goTypes,\n\t\tDependencyIndexes: "@ + msg_types + "_depIdxs,\n\t\tMessageInfos:      "@ + msg_types + "_msgTypes,\n        EnumInfos:         "@ + enum_types + ",\n\t}.Build()\n\t"@ + cap_msg_type + " = out.File\n\t"@ + msg_types + "_goTypes = nil\n\t"@, msg_types, msg_types + "_msgTypes = make([]protoimpl.MessageInfo, "@ + messages + ")\nvar "@);
        lemma_holds_text_extend("var "@ + cap_msg_type + " protoreflect.FileDescriptor\n\n"@ + go_code + "\n\nvar (\n    "@ + msg_types + "_rawDescOnce sync.Once\n    "@ + msg_types + "_rawDescData []byte\n)\n\nfunc "@ + msg_types + "_rawDescGZIP() []byte {\n\t"@ + msg_types + "_rawDescOnce.Do(func() {\n\t\t"@ + msg_types + "_rawDescData = protoimpl.X.CompressGZIP(unsafe.Slice(unsafe.StringData("@ + msg_types + "_rawDesc), len("@ + msg_types + "_rawDesc)))\n\t})\n\treturn "@ + msg_types + "_rawDescData\n}\n\nvar "@ + msg_types + "_msgTypes = make([]protoimpl.MessageInfo, "@ + messages + ")\nvar "@ + msg_types + "_goTypes = []any{\n"@ + go_types + "}\nvar "@ + msg_types + "_depIdxs = []int32{"@ + dep_idxs_code + "}\n\nfunc init() { "@ + msg_types + "_init() }\nfunc "@ + msg_types + "_init() {\n\tif "@ + cap_msg_type + " != nil {\n\t\treturn\n\t}\n"@ + oneof_wrappers + "\ttype x struct{}\n\tout := protoimpl.TypeBuilder{\n\t\tFile: protoimpl.DescBuilder{\n\t\t\tGoPackagePath: reflect.TypeOf(x{}).PkgPath(),\n\t\t\tRawDescriptor: unsafe.Slice(unsafe.StringData("@ + msg_types + "_rawDesc), len("@ + msg_types + "_rawDesc)),\n\t\t\tNumEnums:      "@ + penums + ",\n\t\t\tNumMessages:   "@ + messages + ",\n\t\t\tNumExtensions: 0,\n\t\t\tNumServices:   0,\n\t\t},\n\t\tGoTypes:           "@ + msg_types + "_goTypes,\n\t\tDependencyIndexes: "@ + msg_types + "_depIdxs,\n\t\tMessageInfos:      "@ + msg_types + "_msgTypes,\n        EnumInfos:         "@ + enum_types + ",\n\t}.Build()\n\t"@ + cap_msg_type + " = out.File\n\t"@ + msg_types + "_goTypes = nil\n\t"@ + msg_types, "_depIdxs = nil\n}\n        "@, msg_types + "_msgTypes = make([]protoimpl.MessageInfo, "@ + messages + ")\nvar "@);
    }
    assert(holds_text(go_final_block(cap_msg_type, go_code, msg_types, messages, go_types, dep_idxs_code, oneof_wrappers, penums, enum_types), declared_counts(msg_types, penums, messages))) by {
        lemma_concat_associative("var "@ + cap_msg_type + " protoreflect.FileDescriptor\n\n"@ + go_code + "\n\nvar (\n    "@ + msg_types + "_rawDescOnce sync.Once\n    "@ + msg_types + "_rawDescData []byte\n)\n\nfunc "@ + msg_types + "_rawDescGZIP() []byte {\n\t"@ + msg_types + "_rawDescOnce.Do(func() {\n\t\t"@ + msg_types + "_rawDescData = protoimpl.X.CompressGZIP(unsafe.Slice(unsafe.StringData("@ + msg_types + "_rawDesc), len("@ + msg_types + "_rawDesc)))\n\t})\n\treturn "@ + msg_types + "_rawDescData\n}\n\nvar "@ + msg_types + "_msgTypes = make([]protoimpl.MessageInfo, "@ + messages + ")\nvar "@ + msg_types + "_goTypes = []any{\n"@ + go_types + "}\nvar "@ + msg_types + "_depIdxs = []int32{"@ + dep_idxs_code + "}\n\nfunc init() { "@ + msg_types + "_init() }\nfunc "@ + msg_types + "_init() {\n\tif "@ + cap_msg_type + " != nil {\n\t\treturn\n\t}\n"@ + oneof_wrappers + "\ttype x struct{}\n\tout := protoimpl.TypeBuilder{\n\t\tFile: protoimpl.DescBuilder{\n\t\t\tGoPackagePath: reflect.TypeOf(x{}).PkgPath(),\n\t\t\tRawDescriptor: unsafe.Slice(unsafe.StringData("@ + msg_types + "_rawDesc), len("@, msg_types, "_rawDesc)),\n\t\t\tNumEnums:      "@);
        lemma_concat_associative("var "@ + cap_msg_type + " protoreflect.FileDescriptor\n\n"@ + go_code + "\n\nvar (\n    "@ + msg_types + "_rawDescOnce sync.Once\n    "@ + msg_types + "_rawDescData []byte\n)\n\nfunc "@ + msg_types + "_rawDescGZIP() []byte {\n\t"@ + msg_types + "_rawDescOnce.Do(func() {\n\t\t"@ + msg_types + "_rawDescData = protoimpl.X.CompressGZIP(unsafe.Slice(unsafe.StringData("@ + msg_types + "_rawDesc), len("@ + msg_types + "_rawDesc)))\n\t})\n\treturn "@ + msg_types + "_rawDescData\n}\n\nvar "@ + msg_types + "_msgTypes = make([]protoimpl.MessageInfo, "@ + messages + ")\nvar "@ + msg_types + "_goTypes = []any{\n"@ + go_types + "}\nvar "@ + msg_types + "_depIdxs = []int32{"@ + dep_idxs_code + "}\n\nfunc init() { "@ + msg_types + "_init() }\nfunc "@ + msg_types + "_init() {\n\tif "@ + cap_msg_type + " != nil {\n\t\treturn\n\t}\n"@ + oneof_wrappers + "\ttype x struct{}\n\tout := protoimpl.TypeBuilder{\n\t\tFile: protoimpl.DescBuilder{\n\t\t\tGoPackagePath: reflect.TypeOf(x{}).PkgPath(),\n\t\t\tRawDescriptor: unsafe.Slice(unsafe.StringData("@ + msg_types + "_rawDesc), len("@, msg_types + "_rawDesc)),\n\t\t\tNumEnums:      "@, penums);
        lemma_concat_associative("var "@ + cap_msg_type + " protoreflect.FileDescriptor\n\n"@ + go_code + "\n\nvar (\n    "@ + msg_types + "_rawDescOnce sync.Once\n    "@ + msg_types + "_rawDescData []byte\n)\n\nfunc "@ + msg_types + "_rawDescGZIP() []byte {\n\t"@ + msg_types + "_rawDescOnce.Do(func() {\n\t\t"@ + msg_types + "_rawDescData = protoimpl.X.CompressGZIP(unsafe.Slice(unsafe.StringData("@ + msg_types + "_rawDesc), len("@ + msg_types + "_rawDesc)))\n\t})\n\treturn "@ + msg_types + "_rawDescData\n}\n\nvar "@ + msg_types + "_msgTypes = make([]protoimpl.MessageInfo, "@ + messages + ")\nvar "@ + msg_types + "_goTypes = []any{\n"@ + go_types + "}\nvar "@ + msg_types + "_depIdxs = []int32{"@ + dep_idxs_code + "}\n\nfunc init() { "@ + msg_types + "_init() }\nfunc "@ + msg_types + "_init() {\n\tif "@ + cap_msg_type + " != nil {\n\t\treturn\n\t}\n"@ + oneof_wrappers + "\ttype x struct{}\n\tout := protoimpl.TypeBuilder{\n\t\tFile: protoimpl.DescBuilder{\n\t\t\tGoPackagePath: reflect.TypeOf(x{}).PkgPath(),\n\t\t\tRawDescriptor: unsafe.Slice(unsafe.StringData("@ + msg_types + "_rawDesc), len("@, msg_types + "_rawDesc)),\n\t\t\tNumEnums:      "@ + penums, ",\n\t\t\tNumMessages:   "@);
        lemma_concat_associative("var "@ + cap_msg_type + " protoreflect.FileDescriptor\n\n"@ + go_code + "\n\nvar (\n    "@ + msg_types + "_rawDescOnce sync.Once\n    "@ + msg_types + "_rawDescData []byte\n)\n\nfunc "@ + msg_types + "_rawDescGZIP() []byte {\n\t"@ + msg_types + "_rawDescOnce.Do(func() {\n\t\t"@ + msg_types + "_rawDescData = protoimpl.X.CompressGZIP(unsafe.Slice(unsafe.StringData("@ + msg_types + "_rawDesc), len("@ + msg_types + "_rawDesc)))\n\t})\n\treturn "@ + msg_types + "_rawDescData\n}\n\nvar "@ + msg_types + "_msgTypes = make([]protoimpl.MessageInfo, "@ + messages + ")\nvar "@ + msg_types + "_goTypes = []any{\n"@ + go_types + "}\nvar "@ + msg_types + "_depIdxs = []int32{"@ + dep_idxs_code + "}\n\nfunc init() { "@ + msg_types + "_init() }\nfunc "@ + msg_types + "_init() {\n\tif "@ + cap_msg_type + " != nil {\n\t\treturn\n\t}\n"@ + oneof_wrappers + "\ttype x struct{}\n\tout := protoimpl.TypeBuilder{\n\t\tFile: protoimpl.DescBuilder{\n\t\t\tGoPackagePath: reflect.TypeOf(x{}).PkgPath(),\n\t\t\tRawDescriptor: unsafe.Slice(unsafe.StringData("@ + msg_types + "_rawDesc), len("@, msg_types + "_rawDesc)),\n\t\t\tNumEnums:      "@ + penums + ",\n\t\t\tNumMessages:   "@, messages);
        lemma_concat_associative("var "@ + cap_msg_type + " protoreflect.FileDescriptor\n\n"@ + go_code + "\n\nvar (\n    "@ + msg_types + "_rawDescOnce sync.Once\n    "@ + msg_types + "_rawDescData []byte\n)\n\nfunc "@ + msg_types + "_rawDescGZIP() []byte {\n\t"@ + msg_types + "_rawDescOnce.Do(func() {\n\t\t"@ + msg_types + "_rawDescData = protoimpl.X.CompressGZIP(unsafe.Slice(unsafe.StringData("@ + msg_types + "_rawDesc), len("@ + msg_types + "_rawDesc)))\n\t})\n\treturn "@ + msg_types + "_rawDescData\n}\n\nvar "@ + msg_types + "_msgTypes = make([]protoimpl.MessageInfo, "@ + messages + ")\nvar "@ + msg_types + "_goTypes = []any{\n"@ + go_types + "}\nvar "@ + msg_types + "_depIdxs = []int32{"@ + dep_idxs_code + "}\n\nfunc init() { "@ + msg_types + "_init() }\nfunc "@ + msg_types + "_init() {\n\tif "@ + cap_msg_type + " != nil {\n\t\treturn\n\t}\n"@ + oneof_wrappers + "\ttype x struct{}\n\tout := protoimpl.TypeBuilder{\n\t\tFile: protoimpl.DescBuilder{\n\t\t\tGoPackagePath: reflect.TypeOf(x{}).PkgPath(),\n\t\t\tRawDescriptor: unsafe.Slice(unsafe.StringData("@ + msg_types + "_rawDesc), len("@, msg_types + "_rawDesc)),\n\t\t\tNumEnums:      "@ + penums + ",\n\t\t\tNumMessages:   "@ + messages, ",\n\t\t\tNumExtensions: 0,\n\t\t\tNumServices:   0,\n\t\t},\n\t\tGoTypes:           "@);
        lemma_holds_text_end("var "@ + cap_msg_type + " protoreflect.FileDescriptor\n\n"@ + go_code + "\n\nvar (\n    "@ + msg_types + "_rawDescOnce sync.Once\n    "@ + msg_types + "_rawDescData []byte\n)\n\nfunc "@ + msg_types + "_rawDescGZIP() []byte {\n\t"@ + msg_types + "_rawDescOnce.Do(func() {\n\t\t"@ + msg_types + "_rawDescData = protoimpl.X.CompressGZIP(unsafe.Slice(unsafe.StringData("@ + msg_types + "_rawDesc), len("@ + msg_types + "_rawDesc)))\n\t})\n\treturn "@ + msg_types + "_rawDescData\n}\n\nvar "@ + msg_types + "_msgTypes = make([]protoimpl.MessageInfo, "@ + messages + ")\nvar "@ + msg_types + "_goTypes = []any{\n"@ + go_types + "}\nvar "@ + msg_types + "_depIdxs = []int32{"@ + dep_idxs_code + "}\n\nfunc init() { "@ + msg_types + "_init() }\nfunc "@ + msg_types + "_init() {\n\tif "@ + cap_msg_type + " != nil {\n\t\treturn\n\t}\n"@ + oneof_wrappers + "\ttype x struct{}\n\tout := protoimpl.TypeBuilder{\n\t\tFile: protoimpl.DescBuilder{\n\t\t\tGoPackagePath: reflect.TypeOf(x{}).PkgPath(),\n\t\t\tRawDescriptor: unsafe.Slice(unsafe.StringData("@ + msg_types + "_rawDesc), len("@, msg_types + "_rawDesc)),\n\t\t\tNumEnums:      "@ + penums + ",\n\t\t\tNumMessages:   "@ + messages + ",\n\t\t\tNumExtensions: 0,\n\t\t\tNumServices:   0,\n\t\t},\n\t\tGoTypes:           "@);
        lemma_holds_text_extend("var "@ + cap_msg_type + " protoreflect.FileDescriptor\n\n"@ + go_code + "\n\nvar (\n    "@ + msg_types + "_rawDescOnce sync.Once\n    "@ + msg_types + "_rawDescData []byte\n)\n\nfunc "@ + msg_types + "_rawDescGZIP() []byte {\n\t"@ + msg_types + "_rawDescOnce.Do(func() {\n\t\t"@ + msg_types + "_rawDescData = protoimpl.X.CompressGZIP(unsafe.Slice(unsafe.StringData("@ + msg_types + "_rawDesc), len("@ + msg_types + "_rawDesc)))\n\t})\n\treturn "@ + msg_types + "_rawDescData\n}\n\nvar "@ + msg_types + "_msgTypes = make([]protoimpl.MessageInfo, "@ + messages + ")\nvar "@ + msg_types + "_goTypes = []any{\n"@ + go_types + "}\nvar "@ + msg_types + "_depIdxs = []int32{"@ + dep_idxs_code + "}\n\nfunc init() { "@ + msg_types + "_init() }\nfunc "@ + msg_types + "_init() {\n\tif "@ + cap_msg_type + " != nil {\n\t\treturn\n\t}\n"@ + oneof_wrappers + "\ttype x struct{}\n\tout := protoimpl.TypeBuilder{\n\t\tFile: protoimpl.DescBuilder{\n\t\t\tGoPackagePath: reflect.TypeOf(x{}).PkgPath(),\n\t\t\tRawDescriptor: unsafe.Slice(unsafe.StringData("@ + msg_types + "_rawDesc), len("@ + msg_types + "_rawDesc)),\n\t\t\tNumEnums:      "@ + penums + ",\n\t\t\tNumMessages:   "@ + messages + ",\n\t\t\tNumExtensions: 0,\n\t\t\tNumServices:   0,\n\t\t},\n\t\tGoTypes:           "@, msg_types, msg_types + "_rawDesc)),\n\t\t\tNumEnums:      "@ + penums + ",\n\t\t\tNumMessages:   "@ + messages + ",\n\t\t\tNumExtensions: 0,\n\t\t\tNumServices:   0,\n\t\t},\n\t\tGoTypes:           "@);
        lemma_holds_text_extend("var "@ + cap_msg_type + " protoreflect.FileDescriptor\n\n"@ + go_code + "\n\nvar (\n    "@ + msg_types + "_rawDescOnce sync.Once\n    "@ + msg_types + "_rawDescData []byte\n)\n\nfunc "@ + msg_types + "_rawDescGZIP() []byte {\n\t"@ + msg_types + "_rawDescOnce.Do(func() {\n\t\t"@ + msg_types + "_rawDescData = protoimpl.X.CompressGZIP(unsafe.Slice(unsafe.StringData("@ + msg_types + "_rawDesc), len("@ + msg_types + "_rawDesc)))\n\t})\n\treturn "@ + msg_types + "_rawDescData\n}\n\nvar "@ + msg_types + "_msgTypes = make([]protoimpl.MessageInfo, "@ + messages + ")\nvar "@ + msg_types + "_goTypes = []any{\n"@ + go_types + "}\nvar "@ + msg_types + "_depIdxs = []int32{"@ + dep_idxs_code + "}\n\nfunc init() { "@ + msg_types + "_init() }\nfunc "@ + msg_types + "_init() {\n\tif "@ + cap_msg_type + " != nil {\n\t\treturn\n\t}\n"@ + oneof_wrappers + "\ttype x struct{}\n\tout := protoimpl.TypeBuilder{\n\t\tFile: protoimpl.DescBuilder{\n\t\t\tGoPackagePath: reflect.TypeOf(x{}).PkgPath(),\n\t\t\tRawDescriptor: unsafe.Slice(unsafe.StringData("@ + msg_types + "_rawDesc), len("@ + msg_types + "_rawDesc)),\n\t\t\tNumEnums:      "@ + penums + ",\n\t\t\tNumMessages:   "@ + messages + ",\n\t\t\tNumExtensions: 0,\n\t\t\tNumServices:   0,\n\t\t},\n\t\tGoTypes:           "@ + msg_types, "_goTypes,\n\t\tDependencyIndexes: "@, msg_types + "_rawDesc)),\n\t\t\tNumEnums:      "@ + penums + ",\n\t\t\tNumMessages:   "@ + messages + ",\n\t\t\tNumExtensions: 0,\n\t\t\tNumServices:   0,\n\t\t},\n\t\tGoTypes:           "@);
        lemma_holds_text_extend("var "@ + cap_msg_type + " protoreflect.FileDescriptor\n\n"@ + go_code + "\n\nvar (\n    "@ + msg_types + "_rawDescOnce sync.Once\n    "@ + msg_types + "_rawDescData []byte\n)\n\nfunc "@ + msg_types + "_rawDescGZIP() []byte {\n\t"@ + msg_types + "_rawDescOnce.Do(func() {\n\t\t"@ + msg_types + "_rawDescData = protoimpl.X.CompressGZIP(unsafe.Slice(unsafe.StringData("@ + msg_types + "_rawDesc), len("@ + msg_types + "_rawDesc)))\n\t})\n\treturn "@ + msg_types + "_rawDescData\n}\n\nvar "@ + msg_types + "_msgTypes = make([]protoimpl.MessageInfo, "@ + messages + ")\nvar "@ + msg_types + "_goTypes = []any{\n"@ + go_types + "}\nvar "@ + msg_types + "_depIdxs = []int32{"@ + dep_idxs_code + "}\n\nfunc init() { "@ + msg_types + "_init() }\nfunc "@ + msg_types + "_init() {\n\tif "@ + cap_msg_type + " != nil {\n\t\treturn\n\t}\n"@ + oneof_wrappers + "\ttype x struct{}\n\tout := protoimpl.TypeBuilder{\n\t\tFile: protoimpl.DescBuilder{\n\t\t\tGoPackagePath: reflect.TypeOf(x{}).PkgPath(),\n\t\t\tRawDescriptor: unsafe.Slice(unsafe.StringData("@ + msg_types + "_rawDesc), len("@ + msg_types + "_rawDesc)),\n\t\t\tNumEnums:      "@ + penums + ",\n\t\t\tNumMessages:   "@ + messages + ",\n\t\t\tNumExtensions: 0,\n\t\t\tNumServices:   0,\n\t\t},\n\t\tGoTypes:           "@ + msg_types + "_goTypes,\n\t\tDependencyIndexes: "@, msg_types, msg_types + "_rawDesc)),\n\t\t\tNumEnums:      "@ + penums + ",\n\t\t\tNumMessages:   "@ + messages + ",\n\t\t\tNumExtensions: 0,\n\t\t\tNumServices:   0,\n\t\t},\n\t\tGoTypes:           "@);
        lemma_holds_text_extend("var "@ + cap_msg_type + " protoreflect.FileDescriptor\n\n"@ + go_code + "\n\nvar (\n    "@ + msg_types + "_rawDescOnce sync.Once\n    "@ + msg_types + "_rawDescData []byte\n)\n\nfunc "@ + msg_types + "_rawDescGZIP() []byte {\n\t"@ + msg_types + "_rawDescOnce.Do(func() {\n\t\t"@ + msg_types + "_rawDescData = protoimpl.X.CompressGZIP(unsafe.Slice(unsafe.StringData("@ + msg_types + "_rawDesc), len("@ + msg_types + "_rawDesc)))\n\t})\n\treturn "@ + msg_types + "_rawDescData\n}\n\nvar "@ + msg_types + "_msgTypes = make([]protoimpl.MessageInfo, "@ + messages + ")\nvar "@ + msg_types + "_goTypes = []any{\n"@ + go_types + "}\nvar "@ + msg_types + "_depIdxs = []int32{"@ + dep_idxs_code + "}\n\nfunc init() { "@ + msg_types + "_init() }\nfunc "@ + msg_types + "_init() {\n\tif "@ + cap_msg_type + " != nil {\n\t\treturn\n\t}\n"@ + oneof_wrappers + "\ttype x struct{}\n\tout := protoimpl.TypeBuilder{\n\t\tFile: protoimpl.DescBuilder{\n\t\t\tGoPackagePath: reflect.TypeOf(x{}).PkgPath(),\n\t\t\tRawDescriptor: unsafe.Slice(unsafe.StringData("@ + msg_types + "_rawDesc), len("@ + msg_types + "_rawDesc)),\n\t\t\tNumEnums:      "@ + penums + ",\n\t\t\tNumMessages:   "@ + messages + ",\n\t\t\tNumExtensions: 0,\n\t\t\tNumServices:   0,\n\t\t},\n\t\tGoTypes:           "@ + msg_types + "_goTypes,\n\t\tDependencyIndexes: "@ + msg_types, "_depIdxs,\n\t\tMessageInfos:      "@, msg_types + "_rawDesc)),\n\t\t\tNumEnums:      "@ + penums + ",\n\t\t\tNumMessages:   "@ + messages + ",\n\t\t\tNumExtensions: 0,\n\t\t\tNumServices:   0,\n\t\t},\n\t\tGoTypes:           "@);
        lemma_holds_text_extend("var "@ + cap_msg_type + " protoreflect.FileDescriptor\n\n"@ + go_code + "\n\nvar (\n    "@ + msg_types + "_rawDescOnce sync.Once\n    "@ + msg_types + "_rawDescData []byte\n)\n\nfunc "@ + msg_types + "_rawDescGZIP() []byte {\n\t"@ + msg_types + "_rawDescOnce.Do(func() {\n\t\t"@ + msg_types + "_rawDescData = protoimpl.X.CompressGZIP(unsafe.Slice(unsafe.StringData("@ + msg_types + "_rawDesc), len("@ + msg_types + "_rawDesc)))\n\t})\n\treturn "@ + msg_types + "_rawDescData\n}\n\nvar "@ + msg_types + "_msgTypes = make([]protoimpl.MessageInfo, "@ + messages + ")\nvar "@ + msg_types + "_goTypes = []any{\n"@ + go_types + "}\nvar "@ + msg_types + "_depIdxs = []int32{"@ + dep_idxs_code + "}\n\nfunc init() { "@ + msg_types + "_init() }\nfunc "@ + msg_types + "_init() {\n\tif "@ + cap_msg_type + " != nil {\n\t\treturn\n\t}\n"@ + oneof_wrappers + "\ttype x struct{}\n\tout := protoimpl.TypeBuilder{\n\t\tFile: protoimpl.DescBuilder{\n\t\t\tGoPackagePath: reflect.TypeOf(x{}).PkgPath(),\n\t\t\tRawDescriptor: unsafe.Slice(unsafe.StringData("@ + msg_types + "_rawDesc), len("@ + msg_types + "_rawDesc)),\n\t\t\tNumEnums:      "@ + penums + ",\n\t\t\tNumMessages:   "@ + messages + ",\n\t\t\tNumExtensions: 0,\n\t\t\tNumServices:   0,\n\t\t},\n\t\tGoTypes:           "@ + msg_types + "_goTypes,\n\t\tDependencyIndexes: "@ + msg_types + "_depIdxs,\n\t\tMessageInfos:      "@, msg_types, msg_types + "_rawDesc)),\n\t\t\tNumEnums:      "@ + penums + ",\n\t\t\tNumMessages:   "@ + messages + ",\n\t\t\tNumExtensions: 0,\n\t\t\tNumServices:   0,\n\t\t},\n\t\tGoTypes:           "@);
        lemma_holds_text_extend("var "@ + cap_msg_type + " protoreflect.FileDescriptor\n\n"@ + go_code + "\n\nvar (\n    "@ + msg_types + "_rawDescOnce sync.Once\n    "@ + msg_types + "_rawDescData []byte\n)\n\nfunc "@ + msg_types + "_rawDescGZIP() []byte {\n\t"@ + msg_types + "_rawDescOnce.Do(func() {\n\t\t"@ + msg_types + "_rawDescData = protoimpl.X.CompressGZIP(unsafe.Slice(unsafe.StringData("@ + msg_types + "_rawDesc), len("@ + msg_types + "_rawDesc)))\n\t})\n\treturn "@ + msg_types + "_rawDescData\n}\n\nvar "@ + msg_types + "_msgTypes = make([]protoimpl.MessageInfo, "@ + messages + ")\nvar "@ + msg_types + "_goTypes = []any{\n"@ + go_types + "}\nvar "@ + msg_types + "_depIdxs = []int32{"@ + dep_idxs_code + "}\n\nfunc init() { "@ + msg_types + "_init() }\nfunc "@ + msg_types + "_init() {\n\tif "@ + cap_msg_type + " != nil {\n\t\treturn\n\t}\n"@ + oneof_wrappers + "\ttype x struct{}\n\tout := protoimpl.TypeBuilder{\n\t\tFile: protoimpl.DescBuilder{\n\t\t\tGoPackagePath: reflect.TypeOf(x{}).PkgPath(),\n\t\t\tRawDescriptor: unsafe.Slice(unsafe.StringData("@ + msg_types + "_rawDesc), len("@ + msg_types + "_rawDesc)),\n\t\t\tNumEnums:      "@ + penums + ",\n\t\t\tNumMessages:   "@ + messages + ",\n\t\t\tNumExtensions: 0,\n\t\t\tNumServices:   0,\n\t\t},\n\t\tGoTypes:           "@ + msg_types + "_goTypes,\n\t\tDependencyIndexes: "@ + msg_types + "_depIdxs,\n\t\tMessageInfos:      "@ + msg_types, "_msgTypes,\n        EnumInfos:         "@, msg_types + "_rawDesc)),\n\t\t\tNumEnums:      "@ + penums + ",\n\t\t\tNumMessages:   "@ + messages + ",\n\t\t\tNumExtensions: 0,\n\t\t\tNumServices:   0,\n\t\t},\n\t\tGoTypes:           "@);
        lemma_holds_text_extend("var "@ + cap_msg_type + " protoreflect.FileDescriptor\n\n"@ + go_code + "\n\nvar (\n    "@ + msg_types + "_rawDescOnce sync.Once\n    "@ + msg_types + "_rawDescData []byte\n)\n\nfunc "@ + msg_types + "_rawDescGZIP() []byte {\n\t"@ + msg_types + "_rawDescOnce.Do(func() {\n\t\t"@ + msg_types + "_rawDescData = protoimpl.X.CompressGZIP(unsafe.Slice(unsafe.StringData("@ + msg_types + "_rawDesc), len("@ + msg_types + "_rawDesc)))\n\t})\n\treturn "@ + msg_types + "_rawDescData\n}\n\nvar "@ + msg_types + "_msgTypes = make([]protoimpl.MessageInfo, "@ + messages + ")\nvar "@ + msg_types + "_goTypes = []any{\n"@ + go_types + "}\nvar "@ + msg_types + "_depIdxs = []int32{"@ + dep_idxs_code + "}\n\nfunc init() { "@ + msg_types + "_init() }\nfunc "@ + msg_types + "_init() {\n\tif "@ + cap_msg_type + " != nil {\n\t\treturn\n\t}\n"@ + oneof_wrappers + "\ttype x struct{}\n\tout := protoimpl.TypeBuilder{\n\t\tFile: protoimpl.DescBuilder{\n\t\t\tGoPackagePath: reflect.TypeOf(x{}).PkgPath(),\n\t\t\tRawDescriptor: unsafe.Slice(unsafe.StringData("@ + msg_types + "_rawDesc), len("@ + msg_types + "_rawDesc)),\n\t\t\tNumEnums:      "@ + penums + ",\n\t\t\tNumMessages:   "@ + messages + ",\n\t\t\tNumExtensions: 0,\n\t\t\tNumServices:   0,\n\t\t},\n\t\tGoTypes:           "@ + msg_types + "_goTypes,\n\t\tDependencyIndexes: "@ + msg_types + "_depIdxs,\n\t\tMessageInfos:      "@ + msg_types + "_msgTypes,\n        EnumInfos:         "@, enum_types, msg_types + "_rawDesc)),\n\t\t\tNumEnums:      "@ + penums + ",\n\t\t\tNumMessages:   "@ + messages + ",\n\t\t\tNumExtensions: 0,\n\t\t\tNumServices:   0,\n\t\t},\n\t\tGoTypes:           "@);
        lemma_holds_text_extend("var "@ + cap_msg_type + " protoreflect.FileDescriptor\n\n"@ + go_code + "\n\nvar (\n    "@ + msg_types + "_rawDescOnce sync.Once\n    "@ + msg_types + "_rawDescData []byte\n)\n\nfunc "@ + msg_types + "_rawDescGZIP() []byte {\n\t"@ + msg_types + "_rawDescOnce.Do(func() {\n\t\t"@ + msg_types + "_rawDescData = protoimpl.X.CompressGZIP(unsafe.Slice(unsafe.StringData("@ + msg_types + "_rawDesc), len("@ + msg_types + "_rawDesc)))\n\t})\n\treturn "@ + msg_types + "_rawDescData\n}\n\nvar "@ + msg_types + "_msgTypes = make([]protoimpl.MessageInfo, "@ + messages + ")\nvar "@ + msg_types + "_goTypes = []any{\n"@ + go_types + "}\nvar "@ + msg_types + "_depIdxs = []int32{"@ + dep_idxs_code + "}\n\nfunc init() { "@ + msg_types + "_init() }\nfunc "@ + msg_types + "_init() {\n\tif "@ + cap_msg_type + " != nil {\n\t\treturn\n\t}\n"@ + oneof_wrappers + "\ttype x struct{}\n\tout := protoimpl.TypeBuilder{\n\t\tFile: protoimpl.DescBuilder{\n\t\t\tGoPackagePath: reflect.TypeOf(x{}).PkgPath(),\n\t\t\tRawDescriptor: unsafe.Slice(unsafe.StringData("@ + msg_types + "_rawDesc), len("@ + msg_types + "_rawDesc)),\n\t\t\tNumEnums:      "@ + penums + ",\n\t\t\tNumMessages:   "@ + messages + ",\n\t\t\tNumExtensions: 0,\n\t\t\tNumServices:   0,\n\t\t},\n\t\tGoTypes:           "@ + msg_types + "_goTypes,\n\t\tDependencyIndexes: "@ + msg_types + "_depIdxs,\n\t\tMessageInfos:      "@ + msg_types + "_msgTypes,\n        EnumInfos:         "@ + enum_types, ",\n\t}.Build()\n\t"@, msg_types + "_rawDesc)),\n\t\t\tNumEnums:      "@ + penums + ",\n\t\t\tNumMessages:   "@ + messages + ",\n\t\t\tNumExtensions: 0,\n\t\t\tNumServices:   0,\n\t\t},\n\t\tGoTypes:           "@);
        lemma_holds_text_extend("var "@ + cap_msg_type + " protoreflect.FileDescriptor\n\n"@ + go_code + "\n\nvar (\n    "@ + msg_types + "_rawDescOnce sync.Once\n    "@ + msg_types + "_rawDescData []byte\n)\n\nfunc "@ + msg_types + "_rawDescGZIP() []byte {\n\t"@ + msg_types + "_rawDescOnce.Do(func() {\n\t\t"@ + msg_types + "_rawDescData = protoimpl.X.CompressGZIP(unsafe.Slice(unsafe.StringData("@ + msg_types + "_rawDesc), len("@ + msg_types + "_rawDesc)))\n\t})\n\treturn "@ + msg_types + "_rawDescData\n}\n\nvar "@ + msg_types + "_msgTypes = make([]protoimpl.MessageInfo, "@ + messages + ")\nvar "@ + msg_types + "_goTypes = []any{\n"@ + go_types + "}\nvar "@ + msg_types + "_depIdxs = []int32{"@ + dep_idxs_code + "}\n\nfunc init() { "@ + msg_types + "_init() }\nfunc "@ + msg_types + "_init() {\n\tif "@ + cap_msg_type + " != nil {\n\t\treturn\n\t}\n"@ + oneof_wrappers + "\ttype x struct{}\n\tout := protoimpl.TypeBuilder{\n\t\tFile: protoimpl.DescBuilder{\n\t\t\tGoPackagePath: reflect.TypeOf(x{}).PkgPath(),\n\t\t\tRawDescriptor: unsafe.Slice(unsafe.StringData("@ + msg_types + "_rawDesc), len("@ + msg_types + "_rawDesc)),\n\t\t\tNumEnums:      "@ + penums + ",\n\t\t\tNumMessages:   "@ + messages + ",\n\t\t\tNumExtensions: 0,\n\t\t\tNumServices:   0,\n\t\t},\n\t\tGoTypes:           "@ + msg_types + "_goTypes,\n\t\tDependencyIndexes: "@ + msg_types + "_depIdxs,\n\t\tMessageInfos:      "@ + msg_types + "_msgTypes,\n        EnumInfos:         "@ + enum_types + ",\n\t}.Build()\n\t"@, cap_msg_type, msg_types + "_rawDesc)),\n\t\t\tNumEnums:      "@ + penums + ",\n\t\t\tNumMessages:   "@ + messages + ",\n\t\t\tNumExtensions: 0,\n\t\t\tNumServices:   0,\n\t\t},\n\t\tGoTypes:           "@);
        lemma_holds_text_extend("var "@ + cap_msg_type + " protoreflect.FileDescriptor\n\n"@ + go_code + "\n\nvar (\n    "@ + msg_types + "_rawDescOnce sync.Once\n    "@ + msg_types + "_rawDescData []byte\n)\n\nfunc "@ + msg_types + "_rawDescGZIP() []byte {\n\t"@ + msg_types + "_rawDescOnce.Do(func() {\n\t\t"@ + msg_types + "_rawDescData = protoimpl.X.CompressGZIP(unsafe.Slice(unsafe.StringData("@ + msg_types + "_rawDesc), len("@ + msg_types + "_rawDesc)))\n\t})\n\treturn "@ + msg_types + "_rawDescData\n}\n\nvar "@ + msg_types + "_msgTypes = make([]protoimpl.MessageInfo, "@ + messages + ")\nvar "@ + msg_types + "_goTypes = []any{\n"@ + go_types + "}\nvar "@ + msg_types + "_depIdxs = []int32{"@ + dep_idxs_code + "}\n\nfunc init() { "@ + msg_types + "_init() }\nfunc "@ + msg_types + "_init() {\n\tif "@ + cap_msg_type + " != nil {\n\t\treturn\n\t}\n"@ + oneof_wrappers + "\ttype x struct{}\n\tout := protoimpl.TypeBuilder{\n\t\tFile: protoimpl.DescBuilder{\n\t\t\tGoPackagePath: reflect.TypeOf(x{}).PkgPath(),\n\t\t\tRawDescriptor: unsafe.Slice(unsafe.StringData("@ + msg_types + "_rawDesc), len("@ + msg_types + "_rawDesc)),\n\t\t\tNumEnums:      "@ + penums + ",\n\t\t\tNumMessages:   "@ + messages + ",\n\t\t\tNumExtensions: 0,\n\t\t\tNumServices:   0,\n\t\t},\n\t\tGoTypes:           "@ + msg_types + "_goTypes,\n\t\tDependencyIndexes: "@ + msg_types + "_depIdxs,\n\t\tMessageInfos:      "@ + msg_types + "_msgTypes,\n        EnumInfos:         "@ + enum_types + ",\n\t}.Build()\n\t"@ + cap_msg_type, " = out.File\n\t"@, msg_types + "_rawDesc)),\n\t\t\tNumEnums:      "@ + penums + ",\n\t\t\tNumMessages:   "@ + messages + ",\n\t\t\tNumExtensions: 0,\n\t\t\tNumServices:   0,\n\t\t},\n\t\tGoTypes:           "@);
        lemma_holds_text_extend("var "@ + cap_msg_type + " protoreflect.FileDescriptor\n\n"@ + go_code + "\n\nvar (\n    "@ + msg_types + "_rawDescOnce sync.Once\n    "@ + msg_types + "_rawDescData []byte\n)\n\nfunc "@ + msg_types + "_rawDescGZIP() []byte {\n\t"@ + msg_types + "_rawDescOnce.Do(func() {\n\t\t"@ + msg_types + "_rawDescData = protoimpl.X.CompressGZIP(unsafe.Slice(unsafe.StringData("@ + msg_types + "_rawDesc), len("@ + msg_types + "_rawDesc)))\n\t})\n\treturn "@ + msg_types + "_rawDescData\n}\n\nvar "@ + msg_types + "_msgTypes = make([]protoimpl.MessageInfo, "@ + messages + ")\nvar "@ + msg_types + "_goTypes = []any{\n"@ + go_types + "}\nvar "@ + msg_types + "_depIdxs = []int32{"@ + dep_idxs_code + "}\n\nfunc init() { "@ + msg_types + "_init() }\nfunc "@ + msg_types + "_init() {\n\tif "@ + cap_msg_type + " != nil {\n\t\treturn\n\t}\n"@ + oneof_wrappers + "\ttype x struct{}\n\tout := protoimpl.TypeBuilder{\n\t\tFile: protoimpl.DescBuilder{\n\t\t\tGoPackagePath: reflect.TypeOf(x{}).PkgPath(),\n\t\t\tRawDescriptor: unsafe.Slice(unsafe.StringData("@ + msg_types + "_rawDesc), len("@ + msg_types + "_rawDesc)),\n\t\t\tNumEnums:      "@ + penums + ",\n\t\t\tNumMessages:   "@ + messages + ",\n\t\t\tNumExtensions: 0,\n\t\t\tNumServices:   0,\n\t\t},\n\t\tGoTypes:           "@ + msg_types + "_goTypes,\n\t\tDependencyIndexes: "@ + msg_types + "_depIdxs,\n\t\tMessageInfos:      "@ + msg_types + "_msgTypes,\n        EnumInfos:         "@ + enum_types + ",\n\t}.Build()\n\t"@ + cap_msg_type + " = out.File\n\t"@, msg_types, msg_types + "_rawDesc)),\n\t\t\tNumEnums:      "@ + penums + ",\n\t\t\tNumMessages:   "@ + messages + ",\n\t\t\tNumExtensions: 0,\n\t\t\tNumServices:   0,\n\t\t},\n\t\tGoTypes:           "@);
        lemma_holds_text_extend("var "@ + cap_msg_type + " protoreflect.FileDescriptor\n\n"@ + go_code + "\n\nvar (\n    "@ + msg_types + "_rawDescOnce sync.Once\n    "@ + msg_types + "_rawDescData []byte\n)\n\nfunc "@ + msg_types + "_rawDescGZIP() []byte {\n\t"@ + msg_types + "_rawDescOnce.Do(func() {\n\t\t"@ + msg_types + "_rawDescData = protoimpl.X.CompressGZIP(unsafe.Slice(unsafe.StringData("@ + msg_types + "_rawDesc), len("@ + msg_types + "_rawDesc)))\n\t})\n\treturn "@ + msg_types + "_rawDescData\n}\n\nvar "@ + msg_types + "_msgTypes = make([]protoimpl.MessageInfo, "@ + messages + ")\nvar "@ + msg_types + "_goTypes = []any{\n"@ + go_types + "}\nvar "@ + msg_types + "_depIdxs = []int32{"@ + dep_idxs_code + "}\n\nfunc init() { "@ + msg_types + "_init() }\nfunc "@ + msg_types + "_init() {\n\tif "@ + cap_msg_type + " != nil {\n\t\treturn\n\t}\n"@ + oneof_wrappers + "\ttype x struct{}\n\tout := protoimpl.TypeBuilder{\n\t\tFile: protoimpl.DescBuilder{\n\t\t\tGoPackagePath: reflect.TypeOf(x{}).PkgPath(),\n\t\t\tRawDescriptor: unsafe.Slice(unsafe.StringData("@ + msg_types + "_rawDesc), len("@ + msg_types + "_rawDesc)),\n\t\t\tNumEnums:      "@ + penums + ",\n\t\t\tNumMessages:   "@ + messages + ",\n\t\t\tNumExtensions: 0,\n\t\t\tNumServices:   0,\n\t\t},\n\t\tGoTypes:           "@ + msg_types + "_goTypes,\n\t\tDependencyIndexes: "@ + msg_types + "_depIdxs,\n\t\tMessageInfos:      "@ + msg_types + "_msgTypes,\n        EnumInfos:         "@ + enum_types + ",\n\t}.Build()\n\t"@ + cap_msg_type + " = out.File\n\t"@ + msg_types, "_goTypes = nil\n\t"@, msg_types + "_rawDesc)),\n\t\t\tNumEnums:      "@ + penums + ",\n\t\t\tNumMessages:   "@ + messages + ",\n\t\t\tNumExtensions: 0,\n\t\t\tNumServices:   0,\n\t\t},\n\t\tGoTypes:           "@);
        lemma_holds_text_extend("var "@ + cap_msg_type + " protoreflect.FileDescriptor\n\n"@ + go_code + "\n\nvar (\n    "@ + msg_types + "_rawDescOnce sync.Once\n    "@ + msg_types + "_rawDescData []byte\n)\n\nfunc "@ + msg_types + "_rawDescGZIP() []byte {\n\t"@ + msg_types + "_rawDescOnce.Do(func() {\n\t\t"@ + msg_types + "_rawDescData = protoimpl.X.CompressGZIP(unsafe.Slice(unsafe.StringData("@ + msg_types + "_rawDesc), len("@ + msg_types + "_rawDesc)))\n\t})\n\treturn "@ + msg_types + "_rawDescData\n}\n\nvar "@ + msg_types + "_msgTypes = make([]protoimpl.MessageInfo, "@ + messages + ")\nvar "@ + msg_types + "_goTypes = []any{\n"@ + go_types + "}\nvar "@ + msg_types + "_depIdxs = []int32{"@ + dep_idxs_code + "}\n\nfunc init() { "@ + msg_types + "_init() }\nfunc "@ + msg_types + "_init() {\n\tif "@ + cap_msg_type + " != nil {\n\t\treturn\n\t}\n"@ + oneof_wrappers + "\ttype x struct{}\n\tout := protoimpl.TypeBuilder{\n\t\tFile: protoimpl.DescBuilder{\n\t\t\tGoPackagePath: reflect.TypeOf(x{}).PkgPath(),\n\t\t\tRawDescriptor: unsafe.Slice(unsafe.StringData("@ + msg_types + "_rawDesc), len("@ + msg_types + "_rawDesc)),\n\t\t\tNumEnums:      "@ + penums + ",\n\t\t\tNumMessages:   "@ + messages + ",\n\t\t\tNumExtensions: 0,\n\t\t\tNumServices:   0,\n\t\t},\n\t\tGoTypes:           "@ + msg_types + "_goTypes,\n\t\tDependencyIndexes: "@ + msg_types + "_depIdxs,\n\t\tMessageInfos:      "@ + msg_types + "_msgTypes,\n        EnumInfos:         "@ + enum_types + ",\n\t}.Build()\n\t"@ + cap_msg_type + " = out.File\n\t"@ + msg_types + "_goTypes = nil\n\t"@, msg_types, msg_types + "_rawDesc)),\n\t\t\tNumEnums:      "@ + penums + ",\n\t\t\tNumMessages:   "@ + messages + ",\n\t\t\tNumExtensions: 0,\n\t\t\tNumServices:   0,\n\t\t},\n\t\tGoTypes:           "@);
        lemma_holds_text_extend("var "@ + cap_msg_type + " protoreflect.FileDescriptor\n\n"@ + go_code + "\n\nvar (\n    "@ + msg_types + "_rawDescOnce sync.Once\n    "@ + msg_types + "_rawDescData []byte\n)\n\nfunc "@ + msg_types + "_rawDescGZIP() []byte {\n\t"@ + msg_types + "_rawDescOnce.Do(func() {\n\t\t"@ + msg_types + "_rawDescData = protoimpl.X.CompressGZIP(unsafe.Slice(unsafe.StringData("@ + msg_types + "_rawDesc), len("@ + msg_types + "_rawDesc)))\n\t})\n\treturn "@ + msg_types + "_rawDescData\n}\n\nvar "@ + msg_types + "_msgTypes = make([]protoimpl.MessageInfo, "@ + messages + ")\nvar "@ + msg_types + "_goTypes = []any{\n"@ + go_types + "}\nvar "@ + msg_types + "_depIdxs = []int32{"@ + dep_idxs_code + "}\n\nfunc init() { "@ + msg_types + "_init() }\nfunc "@ + msg_types + "_init() {\n\tif "@ + cap_msg_type + " != nil {\n\t\treturn\n\t}\n"@ + oneof_wrappers + "\ttype x struct{}\n\tout := protoimpl.TypeBuilder{\n\t\tFile: protoimpl.DescBuilder{\n\t\t\tGoPackagePath: reflect.TypeOf(x{}).PkgPath(),\n\t\t\tRawDescriptor: unsafe.Slice(unsafe.StringData("@ + msg_types + "_rawDesc), len("@ + msg_types + "_rawDesc)),\n\t\t\tNumEnums:      "@ + penums + ",\n\t\t\tNumMessages:   "@ + messages + ",\n\t\t\tNumExtensions: 0,\n\t\t\tNumServices:   0,\n\t\t},\n\t\tGoTypes:           "@ + msg_types + "_goTypes,\n\t\tDependencyIndexes: "@ + msg_types + "_depIdxs,\n\t\tMessageInfos:      "@ + msg_types + "_msgTypes,\n        EnumInfos:         "@ + enum_types + ",\n\t}.Build()\n\t"@ + cap_msg_type + " = out.File\n\t"@ + msg_types + "_goTypes = nil\n\t"@ + msg_types, "_depIdxs = nil\n}\n        "@, msg_types + "_rawDesc)),\n\t\t\tNumEnums:      "@ + penums + ",\n\t\t\tNumMessages:   "@ + messages + ",\n\t\t\tNumExtensions: 0,\n\t\t\tNumServices:   0,\n\t\t},\n\t\tGoTypes:           "@);
    }
    assert(holds_text(go_final_block(cap_msg_type, go_code, msg_types, messages, go_types, dep_idxs_code, oneof_wrappers, penums, enum_types), type_table(msg_types, go_types))) by {
        lemma_concat_associative("var "@ + cap_msg_type + " protoreflect.FileDescriptor\n\n"@ + go_code + "\n\nvar (\n    "@ + msg_types + "_rawDescOnce sync.Once\n    "@ + msg_types + "_rawDescData []byte\n)\n\nfunc "@ + msg_types + "_rawDescGZIP() []byte {\n\t"@ + msg_types + "_rawDescOnce.Do(func() {\n\t\t"@ + msg_types + "_rawDescData = protoimpl.X.CompressGZIP(unsafe.Slice(unsafe.StringData("@ + msg_types + "_rawDesc), len("@ + msg_types + "_rawDesc)))\n\t})\n\treturn "@ + msg_types + "_rawDescData\n}\n\nvar "@ + msg_types + "_msgTypes = make([]protoimpl.MessageInfo, "@ + messages + ")\nvar "@, msg_types, "_goTypes = []any{\n"@);
        lemma_concat_associative("var "@ + cap_msg_type + " protoreflect.FileDescriptor\n\n"@ + go_code + "\n\nvar (\n    "@ + msg_types + "_rawDescOnce sync.Once\n    "@ + msg_types + "_rawDescData []byte\n)\n\nfunc "@ + msg_types + "_rawDescGZIP() []byte {\n\t"@ + msg_types + "_rawDescOnce.Do(func() {\n\t\t"@ + msg_types + "_rawDescData = protoimpl.X.CompressGZIP(unsafe.Slice(unsafe.StringData("@ + msg_types + "_rawDesc), len("@ + msg_types + "_rawDesc)))\n\t})\n\treturn "@ + msg_types + "_rawDescData\n}\n\nvar "@ + msg_types + "_msgTypes = make([]protoimpl.MessageInfo, "@ + messages + ")\nvar "@, msg_types + "_goTypes = []any{\n"@, go_types);
        lemma_concat_associative("var "@ + cap_msg_type + " protoreflect.FileDescriptor\n\n"@ + go_code + "\n\nvar (\n    "@ + msg_types + "_rawDescOnce sync.Once\n    "@ + msg_types + "_rawDescData []byte\n)\n\nfunc "@ + msg_types + "_rawDescGZIP() []byte {\n\t"@ + msg_types + "_rawDescOnce.Do(func() {\n\t\t"@ + msg_types + "_rawDescData = protoimpl.X.CompressGZIP(unsafe.Slice(unsafe.StringData("@ + msg_types + "_rawDesc), len("@ + msg_types + "_rawDesc)))\n\t})\n\treturn "@ + msg_types + "_rawDescData\n}\n\nvar "@ + msg_types + "_msgTypes = make([]protoimpl.MessageInfo, "@ + messages + ")\nvar "@, msg_types + "_goTypes = []any{\n"@ + go_types, "}\nvar "@);
        lemma_holds_text_end("var "@ + cap_msg_type + " protoreflect.FileDescriptor\n\n"@ + go_code + "\n\nvar (\n    "@ + msg_types + "_rawDescOnce sync.Once\n    "@ + msg_types + "_rawDescData []byte\n)\n\nfunc "@ + msg_types + "_rawDescGZIP() []byte {\n\t"@ + msg_types + "_rawDescOnce.Do(func() {\n\t\t"@ + msg_types + "_rawDescData = protoimpl.X.CompressGZIP(unsafe.Slice(unsafe.StringData("@ + msg_types + "_rawDesc), len("@ + msg_types + "_rawDesc)))\n\t})\n\treturn "@ + msg_types + "_rawDescData\n}\n\nvar "@ + msg_types + "_msgTypes = make([]protoimpl.MessageInfo, "@ + messages + ")\nvar "@, msg_types + "_goTypes = []any{\n"@ + go_types + "}\nvar "@);
        lemma_holds_text_extend("var "@ + cap_msg_type + " protoreflect.FileDescriptor\n\n"@ + go_code + "\n\nvar (\n    "@ + msg_types + "_rawDescOnce sync.Once\n    "@ + msg_types + "_rawDescData []byte\n)\n\nfunc "@ + msg_types + "_rawDescGZIP() []byte {\n\t"@ + msg_types + "_rawDescOnce.Do(func() {\n\t\t"@ + msg_types + "_rawDescData = protoimpl.X.CompressGZIP(unsafe.Slice(unsafe.StringData("@ + msg_types + "_rawDesc), len("@ + msg_types + "_rawDesc)))\n\t})\n\treturn "@ + msg_types + "_rawDescData\n}\n\nvar "@ + msg_types + "_msgTypes = make([]protoimpl.MessageInfo, "@ + messages + ")\nvar "@ + msg_types + "_goTypes = []any{\n"@ + go_types + "}\nvar "@, msg_types, msg_types + "_goTypes = []any{\n"@ + go_types + "}\nvar "@);
        lemma_holds_text_extend("var "@ + cap_msg_type + " protoreflect.FileDescriptor\n\n"@ + go_code + "\n\nvar (\n    "@ + msg_types + "_rawDescOnce sync.Once\n    "@ + msg_types + "_rawDescData []byte\n)\n\nfunc "@ + msg_types + "_rawDescGZIP() []byte {\n\t"@ + msg_types + "_rawDescOnce.Do(func() {\n\t\t"@ + msg_types + "_rawDescData = protoimpl.X.CompressGZIP(unsafe.Slice(unsafe.StringData("@ + msg_types + "_rawDesc), len("@ + msg_types + "_rawDesc)))\n\t})\n\treturn "@ + msg_types + "_rawDescData\n}\n\nvar "@ + msg_types + "_msgTypes = make([]protoimpl.MessageInfo, "@ + messages + ")\nvar "@ + msg_types + "_goTypes = []any{\n"@ + go_types + "}\nvar "@ + msg_types, "_depIdxs = []int32{"@, msg_types + "_goTypes = []any{\n"@ + go_types + "}\nvar "@);
        lemma_holds_text_extend("var "@ + cap_msg_type + " protoreflect.FileDescriptor\n\n"@ + go_code + "\n\nvar (\n    "@ + msg_types + "_rawDescOnce sync.Once\n    "@ + msg_types + "_rawDescData []byte\n)\n\nfunc "@ + msg_types + "_rawDescGZIP() []byte {\n\t"@ + msg_types + "_rawDescOnce.Do(func() {\n\t\t"@ + msg_types + "_rawDescData = protoimpl.X.CompressGZIP(unsafe.Slice(unsafe.StringData("@ + msg_types + "_rawDesc), len("@ + msg_types + "_rawDesc)))\n\t})\n\treturn "@ + msg_types + "_rawDescData\n}\n\nvar "@ + msg_types + "_msgTypes = make([]protoimpl.MessageInfo, "@ + messages + ")\nvar "@ + msg_types + "_goTypes = []any{\n"@ + go_types + "}\nvar "@ + msg_types + "_depIdxs = []int32{"@, dep_idxs_code, msg_types + "_goTypes = []any{\n"@ + go_types + "}\nvar "@);
        lemma_holds_text_extend("var "@ + cap_msg_type + " protoreflect.FileDescriptor\n\n"@ + go_code + "\n\nvar (\n    "@ + msg_types + "_rawDescOnce sync.Once\n    "@ + msg_types + "_rawDescData []byte\n)\n\nfunc "@ + msg_types + "_rawDescGZIP() []byte {\n\t"@ + msg_types + "_rawDescOnce.Do(func() {\n\t\t"@ + msg_types + "_rawDescData = protoimpl.X.CompressGZIP(unsafe.Slice(unsafe.StringData("@ + msg_types + "_rawDesc), len("@ + msg_types + "_rawDesc)))\n\t})\n\treturn "@ + msg_types + "_rawDescData\n}\n\nvar "@ + msg_types + "_msgTypes = make([]protoimpl.MessageInfo, "@ + messages + ")\nvar "@ + msg_types + "_goTypes = []any{\n"@ + go_types + "}\nvar "@ + msg_types + "_depIdxs = []int32{"@ + dep_idxs_code, "}\n\nfunc init() { "@, msg_types + "_goTypes = []any{\n"@ + go_types + "}\nvar "@);
        lemma_holds_text_extend("var "@ + cap_msg_type + " protoreflect.FileDescriptor\n\n"@ + go_code + "\n\nvar (\n    "@ + msg_types + "_rawDescOnce sync.Once\n    "@ + msg_types + "_rawDescData []byte\n)\n\nfunc "@ + msg_types + "_rawDescGZIP() []byte {\n\t"@ + msg_types + "_rawDescOnce.Do(func() {\n\t\t"@ + msg_types + "_rawDescData = protoimpl.X.CompressGZIP(unsafe.Slice(unsafe.StringData("@ + msg_types + "_rawDesc), len("@ + msg_types + "_rawDesc)))\n\t})\n\treturn "@ + msg_types + "_rawDescData\n}\n\nvar "@ + msg_types + "_msgTypes = make([]protoimpl.MessageInfo, "@ + messages + ")\nvar "@ + msg_types + "_goTypes = []any{\n"@ + go_types + "}\nvar "@ + msg_types + "_depIdxs = []int32{"@ + dep_idxs_code + "}\n\nfunc init() { "@, msg_types, msg_types + "_goTypes = []any{\n"@ + go_types + "}\nvar "@);
        lemma_holds_text_extend("var "@ + cap_msg_type + " protoreflect.FileDescriptor\n\n"@ + go_code + "\n\nvar (\n    "@ + msg_types + "_rawDescOnce sync.Once\n    "@ + msg_types + "_rawDescData []byte\n)\n\nfunc "@ + msg_types + "_rawDescGZIP() []byte {\n\t"@ + msg_types + "_rawDescOnce.Do(func() {\n\t\t"@ + msg_types + "_rawDescData = protoimpl.X.CompressGZIP(unsafe.Slice(unsafe.StringData("@ + msg_types + "_rawDesc), len("@ + msg_types + "_rawDesc)))\n\t})\n\treturn "@ + msg_types + "_rawDescData\n}\n\nvar "@ + msg_types + "_msgTypes = make([]protoimpl.MessageInfo, "@ + messages + ")\nvar "@ + msg_types + "_goTypes = []any{\n"@ + go_types + "}\nvar "@ + msg_types + "_depIdxs = []int32{"@ + dep_idxs_code + "}\n\nfunc init() { "@ + msg_types, "_init() }\nfunc "@, msg_types + "_goTypes = []any{\n"@ + go_types + "}\nvar "@);
        lemma_holds_text_extend("var "@ + cap_msg_type + " protoreflect.FileDescriptor\n\n"@ + go_code + "\n\nvar (\n    "@ + msg_types + "_rawDescOnce sync.Once\n    "@ + msg_types + "_rawDescData []byte\n)\n\nfunc "@ + msg_types + "_rawDescGZIP() []byte {\n\t"@ + msg_types + "_rawDescOnce.Do(func() {\n\t\t"@ + msg_types + "_rawDescData = protoimpl.X.CompressGZIP(unsafe.Slice(unsafe.StringData("@ + msg_types + "_rawDesc), len("@ + msg_types + "_rawDesc)))\n\t})\n\treturn "@ + msg_types + "_rawDescData\n}\n\nvar "@ + msg_types + "_msgTypes = make([]protoimpl.MessageInfo, "@ + messages + ")\nvar "@ + msg_types + "_goTypes = []any{\n"@ + go_types + "}\nvar "@ + msg_types + "_depIdxs = []int32{"@ + dep_idxs_code + "}\n\nfunc init() { "@ + msg_types + "_init() }\nfunc "@, msg_types, msg_types + "_goTypes = []any{\n"@ + go_types + "}\nvar "@);
        lemma_holds_text_extend("var "@ + cap_msg_type + " protoreflect.FileDescriptor\n\n"@ + go_code + "\n\nvar (\n    "@ + msg_types + "_rawDescOnce sync.Once\n    "@ + msg_types + "_rawDescData []byte\n)\n\nfunc "@ + msg_types + "_rawDescGZIP() []byte {\n\t"@ + msg_types + "_rawDescOnce.Do(func() {\n\t\t"@ + msg_types + "_rawDescData = protoimpl.X.CompressGZIP(unsafe.Slice(unsafe.StringData("@ + msg_types + "_rawDesc), len("@ + msg_types + "_rawDesc)))\n\t})\n\treturn "@ + msg_types + "_rawDescData\n}\n\nvar "@ + msg_types + "_msgTypes = make([]protoimpl.MessageInfo, "@ + messages + ")\nvar "@ + msg_types + "_goTypes = []any{\n"@ + go_types + "}\nvar "@ + msg_types + "_depIdxs = []int32{"@ + dep_idxs_code + "}\n\nfunc init() { "@ + msg_types + "_init() }\nfunc "@ + msg_types, "_init() {\n\tif "@, msg_types + "_goTypes = []any{\n"@ + go_types + "}\nvar "@);
        lemma_holds_text_extend("var "@ + cap_msg_type + " protoreflect.FileDescriptor\n\n"@ + go_code + "\n\nvar (\n    "@ + msg_types + "_rawDescOnce sync.Once\n    "@ + msg_types + "_rawDescData []byte\n)\n\nfunc "@ + msg_types + "_rawDescGZIP() []byte {\n\t"@ + msg_types + "_rawDescOnce.Do(func() {\n\t\t"@ + msg_types + "_rawDescData = protoimpl.X.CompressGZIP(unsafe.Slice(unsafe.StringData("@ + msg_types + "_rawDesc), len("@ + msg_types + "_rawDesc)))\n\t})\n\treturn "@ + msg_types + "_rawDescData\n}\n\nvar "@ + msg_types + "_msgTypes = make([]protoimpl.MessageInfo, "@ + messages + ")\nvar "@ + msg_types + "_goTypes = []any{\n"@ + go_types + "}\nvar "@ + msg_types + "_depIdxs = []int32{"@ + dep_idxs_code + "}\n\nfunc init() { "@ + msg_types + "_init() }\nfunc "@ + msg_types + "_init() {\n\tif "@, cap_msg_type, msg_types + "_goTypes = []any{\n"@ + go_types + "}\nvar "@);
        lemma_holds_text_extend("var "@ + cap_msg_type + " protoreflect.FileDescriptor\n\n"@ + go_code + "\n\nvar (\n    "@ + msg_types + "_rawDescOnce sync.Once\n    "@ + msg_types + "_rawDescData []byte\n)\n\nfunc "@ + msg_types + "_rawDescGZIP() []byte {\n\t"@ + msg_types + "_rawDescOnce.Do(func() {\n\t\t"@ + msg_types + "_rawDescData = protoimpl.X.CompressGZIP(unsafe.Slice(unsafe.StringData("@ + msg_types + "_rawDesc), len("@ + msg_types + "_rawDesc)))\n\t})\n\treturn "@ + msg_types + "_rawDescData\n}\n\nvar "@ + msg_types + "_msgTypes = make([]protoimpl.MessageInfo, "@ + messages + ")\nvar "@ + msg_types + "_goTypes = []any{\n"@ + go_types + "}\nvar "@ + msg_types + "_depIdxs = []int32{"@ + dep_idxs_code + "}\n\nfunc init() { "@ + msg_types + "_init() }\nfunc "@ + msg_types + "_init() {\n\tif "@ + cap_msg_type, " != nil {\n\t\treturn\n\t}\n"@, msg_types + "_goTypes = []any{\n"@ + go_types + "}\nvar "@);
        lemma_holds_text_extend("var "@ + cap_msg_type + " protoreflect.FileDescriptor\n\n"@ + go_code + "\n\nvar (\n    "@ + msg_types + "_rawDescOnce sync.Once\n    "@ + msg_types + "_rawDescData []byte\n)\n\nfunc "@ + msg_types + "_rawDescGZIP() []byte {\n\t"@ + msg_types + "_rawDescOnce.Do(func() {\n\t\t"@ + msg_types + "_rawDescData = protoimpl.X.CompressGZIP(unsafe.Slice(unsafe.StringData("@ + msg_types + "_rawDesc), len("@ + msg_types + "_rawDesc)))\n\t})\n\treturn "@ + msg_types + "_rawDescData\n}\n\nvar "@ + msg_types + "_msgTypes = make([]protoimpl.MessageInfo, "@ + messages + ")\nvar "@ + msg_types + "_goTypes = []any{\n"@ + go_types + "}\nvar "@ + msg_types + "_depIdxs = []int32{"@ + dep_idxs_code + "}\n\nfunc init() { "@ + msg_types + "_init() }\nfunc "@ + msg_types + "_init() {\n\tif "@ + cap_msg_type + " != nil {\n\t\treturn\n\t}\n"@, oneof_wrappers, msg_types + "_goTypes = []any{\n"@ + go_types + "}\nvar "@);
        lemma_holds_text_extend("var "@ + cap_msg_type + " protoreflect.FileDescriptor\n\n"@ + go_code + "\n\nvar (\n    "@ + msg_types + "_rawDescOnce sync.Once\n    "@ + msg_types + "_rawDescData []byte\n)\n\nfunc "@ + msg_types + "_rawDescGZIP() []byte {\n\t"@ + msg_types + "_rawDescOnce.Do(func() {\n\t\t"@ + msg_types + "_rawDescData = protoimpl.X.CompressGZIP(unsafe.Slice(unsafe.StringData("@ + msg_types + "_rawDesc), len("@ + msg_types + "_rawDesc)))\n\t})\n\treturn "@ + msg_types + "_rawDescData\n}\n\nvar "@ + msg_types + "_msgTypes = make([]protoimpl.MessageInfo, "@ + messages + ")\nvar "@ + msg_types + "_goTypes = []any{\n"@ + go_types + "}\nvar "@ + msg_types + "_depIdxs = []int32{"@ + dep_idxs_code + "}\n\nfunc init() { "@ + msg_types + "_init() }\nfunc "@ + msg_types + "_init() {\n\tif "@ + cap_msg_type + " != nil {\n\t\treturn\n\t}\n"@ + oneof_wrappers, "\ttype x struct{}\n\tout := protoimpl.TypeBuilder{\n\t\tFile: protoimpl.DescBuilder{\n\t\t\tGoPackagePath: reflect.TypeOf(x{}).PkgPath(),\n\t\t\tRawDescriptor: unsafe.Slice(unsafe.StringData("@, msg_types + "_goTypes = []any{\n"@ + go_types + "}\nvar "@);
        lemma_holds_text_extend("var "@ + cap_msg_type + " protoreflect.FileDescriptor\n\n"@ + go_code + "\n\nvar (\n    "@ + msg_types + "_rawDescOnce sync.Once\n    "@ + msg_types + "_rawDescData []byte\n)\n\nfunc "@ + msg_types + "_rawDescGZIP() []byte {\n\t"@ + msg_types + "_rawDescOnce.Do(func() {\n\t\t"@ + msg_types + "_rawDescData = protoimpl.X.CompressGZIP(unsafe.Slice(unsafe.StringData("@ + msg_types + "_rawDesc), len("@ + msg_types + "_rawDesc)))\n\t})\n\treturn "@ + msg_types + "_rawDescData\n}\n\nvar "@ + msg_types + "_msgTypes = make([]protoimpl.MessageInfo, "@ + messages + ")\nvar "@ + msg_types + "_goTypes = []any{\n"@ + go_types + "}\nvar "@ + msg_types + "_depIdxs = []int32{"@ + dep_idxs_code + "}\n\nfunc init() { "@ + msg_types + "_init() }\nfunc "@ + msg_types + "_init() {\n\tif "@ + cap_msg_type + " != nil {\n\t\treturn\n\t}\n"@ + oneof_wrappers + "\ttype x struct{}\n\tout := protoimpl.TypeBuilder{\n\t\tFile: protoimpl.DescBuilder{\n\t\t\tGoPackagePath: reflect.TypeOf(x{}).PkgPath(),\n\t\t\tRawDescriptor: unsafe.Slice(unsafe.StringData("@, msg_types, msg_types + "_goTypes = []any{\n"@ + go_types + "}\nvar "@);
        lemma_holds_text_extend("var "@ + cap_msg_type + " protoreflect.FileDescriptor\n\n"@ + go_code + "\n\nvar (\n    "@ + msg_types + "_rawDescOnce sync.Once\n    "@ + msg_types + "_rawDescData []byte\n)\n\nfunc "@ + msg_types + "_rawDescGZIP() []byte {\n\t"@ + msg_types + "_rawDescOnce.Do(func() {\n\t\t"@ + msg_types + "_rawDescData = protoimpl.X.CompressGZIP(unsafe.Slice(unsafe.StringData("@ + msg_types + "_rawDesc), len("@ + msg_types + "_rawDesc)))\n\t})\n\treturn "@ + msg_types + "_rawDescData\n}\n\nvar "@ + msg_types + "_msgTypes = make([]protoimpl.MessageInfo, "@ + messages + ")\nvar "@ + msg_types + "_goTypes = []any{\n"@ + go_types + "}\nvar "@ + msg_types + "_depIdxs = []int32{"@ + dep_idxs_code + "}\n\nfunc init() { "@ + msg_types + "_init() }\nfunc "@ + msg_types + "_init() {\n\tif "@ + cap_msg_type + " != nil {\n\t\treturn\n\t}\n"@ + oneof_wrappers + "\ttype x struct{}\n\tout := protoimpl.TypeBuilder{\n\t\tFile: protoimpl.DescBuilder{\n\t\t\tGoPackagePath: reflect.TypeOf(x{}).PkgPath(),\n\t\t\tRawDescriptor: unsafe.Slice(unsafe.StringData("@ + msg_types, "_rawDesc), len("@, msg_types + "_goTypes = []any{\n"@ + go_types + "}\nvar "@);
        lemma_holds_text_extend("var "@ + cap_msg_type + " protoreflect.FileDescriptor\n\n"@ + go_code + "\n\nvar (\n    "@ + msg_types + "_rawDescOnce sync.Once\n    "@ + msg_types + "_rawDescData []byte\n)\n\nfunc "@ + msg_types + "_rawDescGZIP() []byte {\n\t"@ + msg_types + "_rawDescOnce.Do(func() {\n\t\t"@ + msg_types + "_rawDescData = protoimpl.X.CompressGZIP(unsafe.Slice(unsafe.StringData("@ + msg_types + "_rawDesc), len("@ + msg_types + "_rawDesc)))\n\t})\n\treturn "@ + msg_types + "_rawDescData\n}\n\nvar "@ + msg_types + "_msgTypes = make([]protoimpl.MessageInfo, "@ + messages + ")\nvar "@ + msg_types + "_goTypes = []any{\n"@ + go_types + "}\nvar "@ + msg_types + "_depIdxs = []int32{"@ + dep_idxs_code + "}\n\nfunc init() { "@ + msg_types + "_init() }\nfunc "@ + msg_types + "_init() {\n\tif "@ + cap_msg_type + " != nil {\n\t\treturn\n\t}\n"@ + oneof_wrappers + "\ttype x struct{}\n\tout := protoimpl.TypeBuilder{\n\t\tFile: protoimpl.DescBuilder{\n\t\t\tGoPackagePath: reflect.TypeOf(x{}).PkgPath(),\n\t\t\tRawDescriptor: unsafe.Slice(unsafe.StringData("@ + msg_types + "_rawDesc), len("@, msg_types, msg_types + "_goTypes = []any{\n"@ + go_types + "}\nvar "@);
        lemma_holds_text_extend("var "@ + cap_msg_type + " protoreflect.FileDescriptor\n\n"@ + go_code + "\n\nvar (\n    "@ + msg_types + "_rawDescOnce sync.Once\n    "@ + msg_types + "_rawDescData []byte\n)\n\nfunc "@ + msg_types + "_rawDescGZIP() []byte {\n\t"@ + msg_types + "_rawDescOnce.Do(func() {\n\t\t"@ + msg_types + "_rawDescData = protoimpl.X.CompressGZIP(unsafe.Slice(unsafe.StringData("@ + msg_types + "_rawDesc), len("@ + msg_types + "_rawDesc)))\n\t})\n\treturn "@ + msg_types + "_rawDescData\n}\n\nvar "@ + msg_types + "_msgTypes = make([]protoimpl.MessageInfo, "@ + messages + ")\nvar "@ + msg_types + "_goTypes = []any{\n"@ + go_types + "}\nvar "@ + msg_types + "_depIdxs = []int32{"@ + dep_idxs_code + "}\n\nfunc init() { "@ + msg_types + "_init() }\nfunc "@ + msg_types + "_init() {\n\tif "@ + cap_msg_type + " != nil {\n\t\treturn\n\t}\n"@ + oneof_wrappers + "\ttype x struct{}\n\tout := protoimpl.TypeBuilder{\n\t\tFile: protoimpl.DescBuilder{\n\t\t\tGoPackagePath: reflect.TypeOf(x{}).PkgPath(),\n\t\t\tRawDescriptor: unsafe.Slice(unsafe.StringData("@ + msg_types + "_rawDesc), len("@ + msg_types, "_rawDesc)),\n\t\t\tNumEnums:      "@, msg_types + "_goTypes = []any{\n"@ + go_types + "}\nvar "@);
        lemma_holds_text_extend("var "@ + cap_msg_type + " protoreflect.FileDescriptor\n\n"@ + go_code + "\n\nvar (\n    "@ + msg_types + "_rawDescOnce sync.Once\n    "@ + msg_types + "_rawDescData []byte\n)\n\nfunc "@ + msg_types + "_rawDescGZIP() []byte {\n\t"@ + msg_types + "_rawDescOnce.Do(func() {\n\t\t"@ + msg_types + "_rawDescData = protoimpl.X.CompressGZIP(unsafe.Slice(unsafe.StringData("@ + msg_types + "_rawDesc), len("@ + msg_types + "_rawDesc)))\n\t})\n\treturn "@ + msg_types + "_rawDescData\n}\n\nvar "@ + msg_types + "_msgTypes = make([]protoimpl.MessageInfo, "@ + messages + ")\nvar "@ + msg_types + "_goTypes = []any{\n"@ + go_types + "}\nvar "@ + msg_types + "_depIdxs = []int32{"@ + dep_idxs_code + "}\n\nfunc init() { "@ + msg_types + "_init() }\nfunc "@ + msg_types + "_init() {\n\tif "@ + cap_msg_type + " != nil {\n\t\treturn\n\t}\n"@ + oneof_wrappers + "\ttype x struct{}\n\tout := protoimpl.TypeBuilder{\n\t\tFile: protoimpl.DescBuilder{\n\t\t\tGoPackagePath: reflect.TypeOf(x{}).PkgPath(),\n\t\t\tRawDescriptor: unsafe.Slice(unsafe.StringData("@ + msg_types + "_rawDesc), len("@ + msg_types + "_rawDesc)),\n\t\t\tNumEnums:      "@, penums, msg_types + "_goTypes = []any{\n"@ + go_types + "}\nvar "@);
        lemma_holds_text_extend("var "@ + cap_msg_type + " protoreflect.FileDescriptor\n\n"@ + go_code + "\n\nvar (\n    "@ + msg_types + "_rawDescOnce sync.Once\n    "@ + msg_types + "_rawDescData []byte\n)\n\nfunc "@ + msg_types + "_rawDescGZIP() []byte {\n\t"@ + msg_types + "_rawDescOnce.Do(func() {\n\t\t"@ + msg_types + "_rawDescData = protoimpl.X.CompressGZIP(unsafe.Slice(unsafe.StringData("@ + msg_types + "_rawDesc), len("@ + msg_types + "_rawDesc)))\n\t})\n\treturn "@ + msg_types + "_rawDescData\n}\n\nvar "@ + msg_types + "_msgTypes = make([]protoimpl.MessageInfo, "@ + messages + ")\nvar "@ + msg_types + "_goTypes = []any{\n"@ + go_types + "}\nvar "@ + msg_types + "_depIdxs = []int32{"@ + dep_idxs_code + "}\n\nfunc init() { "@ + msg_types + "_init() }\nfunc "@ + msg_types + "_init() {\n\tif "@ + cap_msg_type + " != nil {\n\t\treturn\n\t}\n"@ + oneof_wrappers + "\ttype x struct{}\n\tout := protoimpl.TypeBuilder{\n\t\tFile: protoimpl.DescBuilder{\n\t\t\tGoPackagePath: reflect.TypeOf(x{}).PkgPath(),\n\t\t\tRawDescriptor: unsafe.Slice(unsafe.StringData("@ + msg_types + "_rawDesc), len("@ + msg_types + "_rawDesc)),\n\t\t\tNumEnums:      "@ + penums, ",\n\t\t\tNumMessages:   "@, msg_types + "_goTypes = []any{\n"@ + go_types + "}\nvar "@);
        lemma_holds_text_extend("var "@ + cap_msg_type + " protoreflect.FileDescriptor\n\n"@ + go_code + "\n\nvar (\n    "@ + msg_types + "_rawDescOnce sync.Once\n    "@ + msg_types + "_rawDescData []byte\n)\n\nfunc "@ + msg_types + "_rawDescGZIP() []byte {\n\t"@ + msg_types + "_rawDescOnce.Do(func() {\n\t\t"@ + msg_types + "_rawDescData = protoimpl.X.CompressGZIP(unsafe.Slice(unsafe.StringData("@ + msg_types + "_rawDesc), len("@ + msg_types + "_rawDesc)))\n\t})\n\treturn "@ + msg_types + "_rawDescData\n}\n\nvar "@ + msg_types + "_msgTypes = make([]protoimpl.MessageInfo, "@ + messages + ")\nvar "@ + msg_types + "_goTypes = []any{\n"@ + go_types + "}\nvar "@ + msg_types + "_depIdxs = []int32{"@ + dep_idxs_code + "}\n\nfunc init() { "@ + msg_types + "_init() }\nfunc "@ + msg_types + "_init() {\n\tif "@ + cap_msg_type + " != nil {\n\t\treturn\n\t}\n"@ + oneof_wrappers + "\ttype x struct{}\n\tout := protoimpl.TypeBuilder{\n\t\tFile: protoimpl.DescBuilder{\n\t\t\tGoPackagePath: reflect.TypeOf(x{}).PkgPath(),\n\t\t\tRawDescriptor: unsafe.Slice(unsafe.StringData("@ + msg_types + "_rawDesc), len("@ + msg_types + "_rawDesc)),\n\t\t\tNumEnums:      "@ + penums + ",\n\t\t\tNumMessages:   "@, messages, msg_types + "_goTypes = []any{\n"@ + go_types + "}\nvar "@);
        lemma_holds_text_extend("var "@ + cap_msg_type + " protoreflect.FileDescriptor\n\n"@ + go_code + "\n\nvar (\n    "@ + msg_types + "_rawDescOnce sync.Once\n    "@ + msg_types + "_rawDescData []byte\n)\n\nfunc "@ + msg_types + "_rawDescGZIP() []byte {\n\t"@ + msg_types + "_rawDescOnce.Do(func() {\n\t\t"@ + msg_types + "_rawDescData = protoimpl.X.CompressGZIP(unsafe.Slice(unsafe.StringData("@ + msg_types + "_rawDesc), len("@ + msg_types + "_rawDesc)))\n\t})\n\treturn "@ + msg_types + "_rawDescData\n}\n\nvar "@ + msg_types + "_msgTypes = make([]protoimpl.MessageInfo, "@ + messages + ")\nvar "@ + msg_types + "_goTypes = []any{\n"@ + go_types + "}\nvar "@ + msg_types + "_depIdxs = []int32{"@ + dep_idxs_code + "}\n\nfunc init() { "@ + msg_types + "_init() }\nfunc "@ + msg_types + "_init() {\n\tif "@ + cap_msg_type + " != nil {\n\t\treturn\n\t}\n"@ + oneof_wrappers + "\ttype x struct{}\n\tout := protoimpl.TypeBuilder{\n\t\tFile: protoimpl.DescBuilder{\n\t\t\tGoPackagePath: reflect.TypeOf(x{}).PkgPath(),\n\t\t\tRawDescriptor: unsafe.Slice(unsafe.StringData("@ + msg_types + "_rawDesc), len("@ + msg_types + "_rawDesc)),\n\t\t\tNumEnums:      "@ + penums + ",\n\t\t\tNumMessages:   "@ + messages, ",\n\t\t\tNumExtensions: 0,\n\t\t\tNumServices:   0,\n\t\t},\n\t\tGoTypes:           "@, msg_types + "_goTypes = []any{\n"@ + go_types + "}\nvar "@);
        lemma_holds_text_extend("var "@ + cap_msg_type + " protoreflect.FileDescriptor\n\n"@ + go_code + "\n\nvar (\n    "@ + msg_types + "_rawDescOnce sync.Once\n    "@ + msg_types + "_rawDescData []byte\n)\n\nfunc "@ + msg_types + "_rawDescGZIP() []byte {\n\t"@ + msg_types + "_rawDescOnce.Do(func() {\n\t\t"@ + msg_types + "_rawDescData = protoimpl.X.CompressGZIP(unsafe.Slice(unsafe.StringData("@ + msg_types + "_rawDesc), len("@ + msg_types + "_rawDesc)))\n\t})\n\treturn "@ + msg_types + "_rawDescData\n}\n\nvar "@ + msg_types + "_msgTypes = make([]protoimpl.MessageInfo, "@ + messages + ")\nvar "@ + msg_types + "_goTypes = []any{\n"@ + go_types + "}\nvar "@ + msg_types + "_depIdxs = []int32{"@ + dep_idxs_code + "}\n\nfunc init() { "@ + msg_types + "_init() }\nfunc "@ + msg_types + "_init() {\n\tif "@ + cap_msg_type + " != nil {\n\t\treturn\n\t}\n"@ + oneof_wrappers + "\ttype x struct{}\n\tout := protoimpl.TypeBuilder{\n\t\tFile: protoimpl.DescBuilder{\n\t\t\tGoPackagePath: reflect.TypeOf(x{}).PkgPath(),\n\t\t\tRawDescriptor: unsafe.Slice(unsafe.StringData("@ + msg_types + "_rawDesc), len("@ + msg_types + "_rawDesc)),\n\t\t\tNumEnums:      "@ + penums + ",\n\t\t\tNumMessages:   "@ + messages + ",\n\t\t\tNumExtensions: 0,\n\t\t\tNumServices:   0,\n\t\t},\n\t\tGoTypes:           "@, msg_types, msg_types + "_goTypes = []any{\n"@ + go_types + "}\nvar "@);
        lemma_holds_text_extend("var "@ + cap_msg_type + " protoreflect.FileDescriptor\n\n"@ + go_code + "\n\nvar (\n    "@ + msg_types + "_rawDescOnce sync.Once\n    "@ + msg_types + "_rawDescData []byte\n)\n\nfunc "@ + msg_types + "_rawDescGZIP() []byte {\n\t"@ + msg_types + "_rawDescOnce.Do(func() {\n\t\t"@ + msg_types + "_rawDescData = protoimpl.X.CompressGZIP(unsafe.Slice(unsafe.StringData("@ + msg_types + "_rawDesc), len("@ + msg_types + "_rawDesc)))\n\t})\n\treturn "@ + msg_types + "_rawDescData\n}\n\nvar "@ + msg_types + "_msgTypes = make([]protoimpl.MessageInfo, "@ + messages + ")\nvar "@ + msg_types + "_goTypes = []any{\n"@ + go_types + "}\nvar "@ + msg_types + "_depIdxs = []int32{"@ + dep_idxs_code + "}\n\nfunc init() { "@ + msg_types + "_init() }\nfunc "@ + msg_types + "_init() {\n\tif "@ + cap_msg_type + " != nil {\n\t\treturn\n\t}\n"@ + oneof_wrappers + "\ttype x struct{}\n\tout := protoimpl.TypeBuilder{\n\t\tFile: protoimpl.DescBuilder{\n\t\t\tGoPackagePath: reflect.TypeOf(x{}).PkgPath(),\n\t\t\tRawDescriptor: unsafe.Slice(unsafe.StringData("@ + msg_types + "_rawDesc), len("@ + msg_types + "_rawDesc)),\n\t\t\tNumEnums:      "@ + penums + ",\n\t\t\tNumMessages:   "@ + messages + ",\n\t\t\tNumExtensions: 0,\n\t\t\tNumServices:   0,\n\t\t},\n\t\tGoTypes:           "@ + msg_types, "_goTypes,\n\t\tDependencyIndexes: "@, msg_types + "_goTypes = []any{\n"@ + go_types + "}\nvar "@);
        lemma_holds_text_extend("var "@ + cap_msg_type + " protoreflect.FileDescriptor\n\n"@ + go_code + "\n\nvar (\n    "@ + msg_types + "_rawDescOnce sync.Once\n    "@ + msg_types + "_rawDescData []byte\n)\n\nfunc "@ + msg_types + "_rawDescGZIP() []byte {\n\t"@ + msg_types + "_rawDescOnce.Do(func() {\n\t\t"@ + msg_types + "_rawDescData = protoimpl.X.CompressGZIP(unsafe.Slice(unsafe.StringData("@ + msg_types + "_rawDesc), len("@ + msg_types + "_rawDesc)))\n\t})\n\treturn "@ + msg_types + "_rawDescData\n}\n\nvar "@ + msg_types + "_msgTypes = make([]protoimpl.MessageInfo, "@ + messages + ")\nvar "@ + msg_types + "_goTypes = []any{\n"@ + go_types + "}\nvar "@ + msg_types + "_depIdxs = []int32{"@ + dep_idxs_code + "}\n\nfunc init() { "@ + msg_types + "_init() }\nfunc "@ + msg_types + "_init() {\n\tif "@ + cap_msg_type + " != nil {\n\t\treturn\n\t}\n"@ + oneof_wrappers + "\ttype x struct{}\n\tout := protoimpl.TypeBuilder{\n\t\tFile: protoimpl.DescBuilder{\n\t\t\tGoPackagePath: reflect.TypeOf(x{}).PkgPath(),\n\t\t\tRawDescriptor: unsafe.Slice(unsafe.StringData("@ + msg_types + "_rawDesc), len("@ + msg_types + "_rawDesc)),\n\t\t\tNumEnums:      "@ + penums + ",\n\t\t\tNumMessages:   "@ + messages + ",\n\t\t\tNumExtensions: 0,\n\t\t\tNumServices:   0,\n\t\t},\n\t\tGoTypes:           "@ + msg_types + "_goTypes,\n\t\tDependencyIndexes: "@, msg_types, msg_types + "_goTypes = []any{\n"@ + go_types + "}\nvar "@);
        lemma_holds_text_extend("var "@ + cap_msg_type + " protoreflect.FileDescriptor\n\n"@ + go_code + "\n\nvar (\n    "@ + msg_types + "_rawDescOnce sync.Once\n    "@ + msg_types + "_rawDescData []byte\n)\n\nfunc "@ + msg_types + "_rawDescGZIP() []byte {\n\t"@ + msg_types + "_rawDescOnce.Do(func() {\n\t\t"@ + msg_types + "_rawDescData = protoimpl.X.CompressGZIP(unsafe.Slice(unsafe.StringData("@ + msg_types + "_rawDesc), len("@ + msg_types + "_rawDesc)))\n\t})\n\treturn "@ + msg_types + "_rawDescData\n}\n\nvar "@ + msg_types + "_msgTypes = make([]protoimpl.MessageInfo, "@ + messages + ")\nvar "@ + msg_types + "_goTypes = []any{\n"@ + go_types + "}\nvar "@ + msg_types + "_depIdxs = []int32{"@ + dep_idxs_code + "}\n\nfunc init() { "@ + msg_types + "_init() }\nfunc "@ + msg_types + "_init() {\n\tif "@ + cap_msg_type + " != nil {\n\t\treturn\n\t}\n"@ + oneof_wrappers + "\ttype x struct{}\n\tout := protoimpl.TypeBuilder{\n\t\tFile: protoimpl.DescBuilder{\n\t\t\tGoPackagePath: reflect.TypeOf(x{}).PkgPath(),\n\t\t\tRawDescriptor: unsafe.Slice(unsafe.StringData("@ + msg_types + "_rawDesc), len("@ + msg_types + "_rawDesc)),\n\t\t\tNumEnums:      "@ + penums + ",\n\t\t\tNumMessages:   "@ + messages + ",\n\t\t\tNumExtensions: 0,\n\t\t\tNumServices:   0,\n\t\t},\n\t\tGoTypes:           "@ + msg_types + "_goTypes,\n\t\tDependencyIndexes: "@ + msg_types, "_depIdxs,\n\t\tMessageInfos:      "@, msg_types + "_goTypes = []any{\n"@ + go_types + "}\nvar "@);
        lemma_holds_text_extend("var "@ + cap_msg_type + " protoreflect.FileDescriptor\n\n"@ + go_code + "\n\nvar (\n    "@ + msg_types + "_rawDescOnce sync.Once\n    "@ + msg_types + "_rawDescData []byte\n)\n\nfunc "@ + msg_types + "_rawDescGZIP() []byte {\n\t"@ + msg_types + "_rawDescOnce.Do(func() {\n\t\t"@ + msg_types + "_rawDescData = protoimpl.X.CompressGZIP(unsafe.Slice(unsafe.StringData("@ + msg_types + "_rawDesc), len("@ + msg_types + "_rawDesc)))\n\t})\n\treturn "@ + msg_types + "_rawDescData\n}\n\nvar "@ + msg_types + "_msgTypes = make([]protoimpl.MessageInfo, "@ + messages + ")\nvar "@ + msg_types + "_goTypes = []any{\n"@ + go_types + "}\nvar "@ + msg_types + "_depIdxs = []int32{"@ + dep_idxs_code + "}\n\nfunc init() { "@ + msg_types + "_init() }\nfunc "@ + msg_types + "_init() {\n\tif "@ + cap_msg_type + " != nil {\n\t\treturn\n\t}\n"@ + oneof_wrappers + "\ttype x struct{}\n\tout := protoimpl.TypeBuilder{\n\t\tFile: protoimpl.DescBuilder{\n\t\t\tGoPackagePath: reflect.TypeOf(x{}).PkgPath(),\n\t\t\tRawDescriptor: unsafe.Slice(unsafe.StringData("@ + msg_types + "_rawDesc), len("@ + msg_types + "_rawDesc)),\n\t\t\tNumEnums:      "@ + penums + ",\n\t\t\tNumMessages:   "@ + messages + ",\n\t\t\tNumExtensions: 0,\n\t\t\tNumServices:   0,\n\t\t},\n\t\tGoTypes:           "@ + msg_types + "_goTypes,\n\t\tDependencyIndexes: "@ + msg_types + "_depIdxs,\n\t\tMessageInfos:      "@, msg_types, msg_types + "_goTypes = []any{\n"@ + go_types + "}\nvar "@);
        lemma_holds_text_extend("var "@ + cap_msg_type + " protoreflect.FileDescriptor\n\n"@ + go_code + "\n\nvar (\n    "@ + msg_types + "_rawDescOnce sync.Once\n    "@ + msg_types + "_rawDescData []byte\n)\n\nfunc "@ + msg_types + "_rawDescGZIP() []byte {\n\t"@ + msg_types + "_rawDescOnce.Do(func() {\n\t\t"@ + msg_types + "_rawDescData = protoimpl.X.CompressGZIP(unsafe.Slice(unsafe.StringData("@ + msg_types + "_rawDesc), len("@ + msg_types + "_rawDesc)))\n\t})\n\treturn "@ + msg_types + "_rawDescData\n}\n\nvar "@ + msg_types + "_msgTypes = make([]protoimpl.MessageInfo, "@ + messages + ")\nvar "@ + msg_types + "_goTypes = []any{\n"@ + go_types + "}\nvar "@ + msg_types + "_depIdxs = []int32{"@ + dep_idxs_code + "}\n\nfunc init() { "@ + msg_types + "_init() }\nfunc "@ + msg_types + "_init() {\n\tif "@ + cap_msg_type + " != nil {\n\t\treturn\n\t}\n"@ + oneof_wrappers + "\ttype x struct{}\n\tout := protoimpl.TypeBuilder{\n\t\tFile: protoimpl.DescBuilder{\n\t\t\tGoPackagePath: reflect.TypeOf(x{}).PkgPath(),\n\t\t\tRawDescriptor: unsafe.Slice(unsafe.StringData("@ + msg_types + "_rawDesc), len("@ + msg_types + "_rawDesc)),\n\t\t\tNumEnums:      "@ + penums + ",\n\t\t\tNumMessages:   "@ + messages + ",\n\t\t\tNumExtensions: 0,\n\t\t\tNumServices:   0,\n\t\t},\n\t\tGoTypes:           "@ + msg_types + "_goTypes,\n\t\tDependencyIndexes: "@ + msg_types + "_depIdxs,\n\t\tMessageInfos:      "@ + msg_types, "_msgTypes,\n        EnumInfos:         "@, msg_types + "_goTypes = []any{\n"@ + go_types + "}\nvar "@);
        lemma_holds_text_extend("var "@ + cap_msg_type + " protoreflect.FileDescriptor\n\n"@ + go_code + "\n\nvar (\n    "@ + msg_types + "_rawDescOnce sync.Once\n    "@ + msg_types + "_rawDescData []byte\n)\n\nfunc "@ + msg_types + "_rawDescGZIP() []byte {\n\t"@ + msg_types + "_rawDescOnce.Do(func() {\n\t\t"@ + msg_types + "_rawDescData = protoimpl.X.CompressGZIP(unsafe.Slice(unsafe.StringData("@ + msg_types + "_rawDesc), len("@ + msg_types + "_rawDesc)))\n\t})\n\treturn "@ + msg_types + "_rawDescData\n}\n\nvar "@ + msg_types + "_msgTypes = make([]protoimpl.MessageInfo, "@ + messages + ")\nvar "@ + msg_types + "_goTypes = []any{\n"@ + go_types + "}\nvar "@ + msg_types + "_depIdxs = []int32{"@ + dep_idxs_code + "}\n\nfunc init() { "@ + msg_types + "_init() }\nfunc "@ + msg_types + "_init() {\n\tif "@ + cap_msg_type + " != nil {\n\t\treturn\n\t}\n"@ + oneof_wrappers + "\ttype x struct{}\n\tout := protoimpl.TypeBuilder{\n\t\tFile: protoimpl.DescBuilder{\n\t\t\tGoPackagePath: reflect.TypeOf(x{}).PkgPath(),\n\t\t\tRawDescriptor: unsafe.Slice(unsafe.StringData("@ + msg_types + "_rawDesc), len("@ + msg_types + "_rawDesc)),\n\t\t\tNumEnums:      "@ + penums + ",\n\t\t\tNumMessages:   "@ + messages + ",\n\t\t\tNumExtensions: 0,\n\t\t\tNumServices:   0,\n\t\t},\n\t\tGoTypes:           "@ + msg_types + "_goTypes,\n\t\tDependencyIndexes: "@ + msg_types + "_depIdxs,\n\t\tMessageInfos:      "@ + msg_types + "_msgTypes,\n        EnumInfos:         "@, enum_types, msg_types + "_goTypes = []any{\n"@ + go_types + "}\nvar "@);
        lemma_holds_text_extend("var "@ + cap_msg_type + " protoreflect.FileDescriptor\n\n"@ + go_code + "\n\nvar (\n    "@ + msg_types + "_rawDescOnce sync.Once\n    "@ + msg_types + "_rawDescData []byte\n)\n\nfunc "@ + msg_types + "_rawDescGZIP() []byte {\n\t"@ + msg_types + "_rawDescOnce.Do(func() {\n\t\t"@ + msg_types + "_rawDescData = protoimpl.X.CompressGZIP(unsafe.Slice(unsafe.StringData("@ + msg_types + "_rawDesc), len("@ + msg_types + "_rawDesc)))\n\t})\n\treturn "@ + msg_types + "_rawDescData\n}\n\nvar "@ + msg_types + "_msgTypes = make([]protoimpl.MessageInfo, "@ + messages + ")\nvar "@ + msg_types + "_goTypes = []any{\n"@ + go_types + "}\nvar "@ + msg_types + "_depIdxs = []int32{"@ + dep_idxs_code + "}\n\nfunc init() { "@ + msg_types + "_init() }\nfunc "@ + msg_types + "_init() {\n\tif "@ + cap_msg_type + " != nil {\n\t\treturn\n\t}\n"@ + oneof_wrappers + "\ttype x struct{}\n\tout := protoimpl.TypeBuilder{\n\t\tFile: protoimpl.DescBuilder{\n\t\t\tGoPackagePath: reflect.TypeOf(x{}).PkgPath(),\n\t\t\tRawDescriptor: unsafe.Slice(unsafe.StringData("@ + msg_types + "_rawDesc), len("@ + msg_types + "_rawDesc)),\n\t\t\tNumEnums:      "@ + penums + ",\n\t\t\tNumMessages:   "@ + messages + ",\n\t\t\tNumExtensions: 0,\n\t\t\tNumServices:   0,\n\t\t},\n\t\tGoTypes:           "@ + msg_types + "_goTypes,\n\t\tDependencyIndexes: "@ + msg_types + "_depIdxs,\n\t\tMessageInfos:      "@ + msg_types + "_msgTypes,\n        EnumInfos:         "@ + enum_types, ",\n\t}.Build()\n\t"@, msg_types + "_goTypes = []any{\n"@ + go_types + "}\nvar "@);
        lemma_holds_text_extend("var "@ + cap_msg_type + " protoreflect.FileDescriptor\n\n"@ + go_code + "\n\nvar (\n    "@ + msg_types + "_rawDescOnce sync.Once\n    "@ + msg_types + "_rawDescData []byte\n)\n\nfunc "@ + msg_types + "_rawDescGZIP() []byte {\n\t"@ + msg_types + "_rawDescOnce.Do(func() {\n\t\t"@ + msg_types + "_rawDescData = protoimpl.X.CompressGZIP(unsafe.Slice(unsafe.StringData("@ + msg_types + "_rawDesc), len("@ + msg_types + "_rawDesc)))\n\t})\n\treturn "@ + msg_types + "_rawDescData\n}\n\nvar "@ + msg_types + "_msgTypes = make([]protoimpl.MessageInfo, "@ + messages + ")\nvar "@ + msg_types + "_goTypes = []any{\n"@ + go_types + "}\nvar "@ + msg_types + "_depIdxs = []int32{"@ + dep_idxs_code + "}\n\nfunc init() { "@ + msg_types + "_init() }\nfunc "@ + msg_types + "_init() {\n\tif "@ + cap_msg_type + " != nil {\n\t\treturn\n\t}\n"@ + oneof_wrappers + "\ttype x struct{}\n\tout := protoimpl.TypeBuilder{\n\t\tFile: protoimpl.DescBuilder{\n\t\t\tGoPackagePath: reflect.TypeOf(x{}).PkgPath(),\n\t\t\tRawDescriptor: unsafe.Slice(unsafe.StringData("@ + msg_types + "_rawDesc), len("@ + msg_types + "_rawDesc)),\n\t\t\tNumEnums:      "@ + penums + ",\n\t\t\tNumMessages:   "@ + messages + ",\n\t\t\tNumExtensions: 0,\n\t\t\tNumServices:   0,\n\t\t},\n\t\tGoTypes:           "@ + msg_types + "_goTypes,\n\t\tDependencyIndexes: "@ + msg_types + "_depIdxs,\n\t\tMessageInfos:      "@ + msg_types + "_msgTypes,\n        EnumInfos:         "@ + enum_types + ",\n\t}.Build()\n\t"@, cap_msg_type, msg_types + "_goTypes = []any{\n"@ + go_types + "}\nvar "@);
        lemma_holds_text_extend("var "@ + cap_msg_type + " protoreflect.FileDescriptor\n\n"@ + go_code + "\n\nvar (\n    "@ + msg_types + "_rawDescOnce sync.Once\n    "@ + msg_types + "_rawDescData []byte\n)\n\nfunc "@ + msg_types + "_rawDescGZIP() []byte {\n\t"@ + msg_types + "_rawDescOnce.Do(func() {\n\t\t"@ + msg_types + "_rawDescData = protoimpl.X.CompressGZIP(unsafe.Slice(unsafe.StringData("@ + msg_types + "_rawDesc), len("@ + msg_types + "_rawDesc)))\n\t})\n\treturn "@ + msg_types + "_rawDescData\n}\n\nvar "@ + msg_types + "_msgTypes = make([]protoimpl.MessageInfo, "@ + messages + ")\nvar "@ + msg_types + "_goTypes = []any{\n"@ + go_types + "}\nvar "@ + msg_types + "_depIdxs = []int32{"@ + dep_idxs_code + "}\n\nfunc init() { "@ + msg_types + "_init() }\nfunc "@ + msg_types + "_init() {\n\tif "@ + cap_msg_type + " != nil {\n\t\treturn\n\t}\n"@ + oneof_wrappers + "\ttype x struct{}\n\tout := protoimpl.TypeBuilder{\n\t\tFile: protoimpl.DescBuilder{\n\t\t\tGoPackagePath: reflect.TypeOf(x{}).PkgPath(),\n\t\t\tRawDescriptor: unsafe.Slice(unsafe.StringData("@ + msg_types + "_rawDesc), len("@ + msg_types + "_rawDesc)),\n\t\t\tNumEnums:      "@ + penums + ",\n\t\t\tNumMessages:   "@ + messages + ",\n\t\t\tNumExtensions: 0,\n\t\t\tNumServices:   0,\n\t\t},\n\t\tGoTypes:           "@ + msg_types + "_goTypes,\n\t\tDependencyIndexes: "@ + msg_types + "_depIdxs,\n\t\tMessageInfos:      "@ + msg_types + "_msgTypes,\n        EnumInfos:         "@ + enum_types + ",\n\t}.Build()\n\t"@ + cap_msg_type, " = out.File\n\t"@, msg_types + "_goTypes = []any{\n"@ + go_types + "}\nvar "@);
        lemma_holds_text_extend("var "@ + cap_msg_type + " protoreflect.FileDescriptor\n\n"@ + go_code + "\n\nvar (\n    "@ + msg_types + "_rawDescOnce sync.Once\n    "@ + msg_types + "_rawDescData []byte\n)\n\nfunc "@ + msg_types + "_rawDescGZIP() []byte {\n\t"@ + msg_types + "_rawDescOnce.Do(func() {\n\t\t"@ + msg_types + "_rawDescData = protoimpl.X.CompressGZIP(unsafe.Slice(unsafe.StringData("@ + msg_types + "_rawDesc), len("@ + msg_types + "_rawDesc)))\n\t})\n\treturn "@ + msg_types + "_rawDescData\n}\n\nvar "@ + msg_types + "_msgTypes = make([]protoimpl.MessageInfo, "@ + messages + ")\nvar "@ + msg_types + "_goTypes = []any{\n"@ + go_types + "}\nvar "@ + msg_types + "_depIdxs = []int32{"@ + dep_idxs_code + "}\n\nfunc init() { "@ + msg_types + "_init() }\nfunc "@ + msg_types + "_init() {\n\tif "@ + cap_msg_type + " != nil {\n\t\treturn\n\t}\n"@ + oneof_wrappers + "\ttype x struct{}\n\tout := protoimpl.TypeBuilder{\n\t\tFile: protoimpl.DescBuilder{\n\t\t\tGoPackagePath: reflect.TypeOf(x{}).PkgPath(),\n\t\t\tRawDescriptor: unsafe.Slice(unsafe.StringData("@ + msg_types + "_rawDesc), len("@ + msg_types + "_rawDesc)),\n\t\t\tNumEnums:      "@ + penums + ",\n\t\t\tNumMessages:   "@ + messages + ",\n\t\t\tNumExtensions: 0,\n\t\t\tNumServices:   0,\n\t\t},\n\t\tGoTypes:           "@ + msg_types + "_goTypes,\n\t\tDependencyIndexes: "@ + msg_types + "_depIdxs,\n\t\tMessageInfos:      "@ + msg_types + "_msgTypes,\n        EnumInfos:         "@ + enum_types + ",\n\t}.Build()\n\t"@ + cap_msg_type + " = out.File\n\t"@, msg_types, msg_types + "_goTypes = []any{\n"@ + go_types + "}\nvar "@);
        lemma_holds_text_extend("var "@ + cap_msg_type + " protoreflect.FileDescriptor\n\n"@ + go_code + "\n\nvar (\n    "@ + msg_types + "_rawDescOnce sync.Once\n    "@ + msg_types + "_rawDescData []byte\n)\n\nfunc "@ + msg_types + "_rawDescGZIP() []byte {\n\t"@ + msg_types + "_rawDescOnce.Do(func() {\n\t\t"@ + msg_types + "_rawDescData = protoimpl.X.CompressGZIP(unsafe.Slice(unsafe.StringData("@ + msg_types + "_rawDesc), len("@ + msg_types + "_rawDesc)))\n\t})\n\treturn "@ + msg_types + "_rawDescData\n}\n\nvar "@ + msg_types + "_msgTypes = make([]protoimpl.MessageInfo, "@ + messages + ")\nvar "@ + msg_types + "_goTypes = []any{\n"@ + go_types + "}\nvar "@ + msg_types + "_depIdxs = []int32{"@ + dep_idxs_code + "}\n\nfunc init() { "@ + msg_types + "_init() }\nfunc "@ + msg_types + "_init() {\n\tif "@ + cap_msg_type + " != nil {\n\t\treturn\n\t}\n"@ + oneof_wrappers + "\ttype x struct{}\n\tout := protoimpl.TypeBuilder{\n\t\tFile: protoimpl.DescBuilder{\n\t\t\tGoPackagePath: reflect.TypeOf(x{}).PkgPath(),\n\t\t\tRawDescriptor: unsafe.Slice(unsafe.StringData("@ + msg_types + "_rawDesc), len("@ + msg_types + "_rawDesc)),\n\t\t\tNumEnums:      "@ + penums + ",\n\t\t\tNumMessages:   "@ + messages + ",\n\t\t\tNumExtensions: 0,\n\t\t\tNumServices:   0,\n\t\t},\n\t\tGoTypes:           "@ + msg_types + "_goTypes,\n\t\tDependencyIndexes: "@ + msg_types + "_depIdxs,\n\t\tMessageInfos:      "@ + msg_types + "_msgTypes,\n        EnumInfos:         "@ + enum_types + ",\n\t}.Build()\n\t"@ + cap_msg_type + " = out.File\n\t"@ + msg_types, "_goTypes = nil\n\t"@, msg_types + "_goTypes = []any{\n"@ + go_types + "}\nvar "@);
        lemma_holds_text_extend("var "@ + cap_msg_type + " protoreflect.FileDescriptor\n\n"@ + go_code + "\n\nvar (\n    "@ + msg_types + "_rawDescOnce sync.Once\n    "@ + msg_types + "_rawDescData []byte\n)\n\nfunc "@ + msg_types + "_rawDescGZIP() []byte {\n\t"@ + msg_types + "_rawDescOnce.Do(func() {\n\t\t"@ + msg_types + "_rawDescData = protoimpl.X.CompressGZIP(unsafe.Slice(unsafe.StringData("@ + msg_types + "_rawDesc), len("@ + msg_types + "_rawDesc)))\n\t})\n\treturn "@ + msg_types + "_rawDescData\n}\n\nvar "@ + msg_types + "_msgTypes = make([]protoimpl.MessageInfo, "@ + messages + ")\nvar "@ + msg_types + "_goTypes = []any{\n"@ + go_types + "}\nvar "@ + msg_types + "_depIdxs = []int32{"@ + dep_idxs_code + "}\n\nfunc init() { "@ + msg_types + "_init() }\nfunc "@ + msg_types + "_init() {\n\tif "@ + cap_msg_type + " != nil {\n\t\treturn\n\t}\n"@ + oneof_wrappers + "\ttype x struct{}\n\tout := protoimpl.TypeBuilder{\n\t\tFile: protoimpl.DescBuilder{\n\t\t\tGoPackagePath: reflect.TypeOf(x{}).PkgPath(),\n\t\t\tRawDescriptor: unsafe.Slice(unsafe.StringData("@ + msg_types + "_rawDesc), len("@ + msg_types + "_rawDesc)),\n\t\t\tNumEnums:      "@ + penums + ",\n\t\t\tNumMessages:   "@ + messages + ",\n\t\t\tNumExtensions: 0,\n\t\t\tNumServices:   0,\n\t\t},\n\t\tGoTypes:           "@ + msg_types + "_goTypes,\n\t\tDependencyIndexes: "@ + msg_types + "_depIdxs,\n\t\tMessageInfos:      "@ + msg_types + "_msgTypes,\n        EnumInfos:         "@ + enum_types + ",\n\t}.Build()\n\t"@ + cap_msg_type + " = out.File\n\t"@ + msg_types + "_goTypes = nil\n\t"@, msg_types, msg_types + "_goTypes = []any{\n"@ + go_types + "}\nvar "@);
        lemma_holds_text_extend("var "@ + cap_msg_type + " protoreflect.FileDescriptor\n\n"@ + go_code + "\n\nvar (\n    "@ + msg_types + "_rawDescOnce sync.Once\n    "@ + msg_types + "_rawDescData []byte\n)\n\nfunc "@ + msg_types + "_rawDescGZIP() []byte {\n\t"@ + msg_types + "_rawDescOnce.Do(func() {\n\t\t"@ + msg_types + "_rawDescData = protoimpl.X.CompressGZIP(unsafe.Slice(unsafe.StringData("@ + msg_types + "_rawDesc), len("@ + msg_types + "_rawDesc)))\n\t})\n\treturn "@ + msg_types + "_rawDescData\n}\n\nvar "@ + msg_types + "_msgTypes = make([]protoimpl.MessageInfo, "@ + messages + ")\nvar "@ + msg_types + "_goTypes = []any{\n"@ + go_types + "}\nvar "@ + msg_types + "_depIdxs = []int32{"@ + dep_idxs_code + "}\n\nfunc init() { "@ + msg_types + "_init() }\nfunc "@ + msg_types + "_init() {\n\tif "@ + cap_msg_type + " != nil {\n\t\treturn\n\t}\n"@ + oneof_wrappers + "\ttype x struct{}\n\tout := protoimpl.TypeBuilder{\n\t\tFile: protoimpl.DescBuilder{\n\t\t\tGoPackagePath: reflect.TypeOf(x{}).PkgPath(),\n\t\t\tRawDescriptor: unsafe.Slice(unsafe.StringData("@ + msg_types + "_rawDesc), len("@ + msg_types + "_rawDesc)),\n\t\t\tNumEnums:      "@ + penums + ",\n\t\t\tNumMessages:   "@ + messages + ",\n\t\t\tNumExtensions: 0,\n\t\t\tNumServices:   0,\n\t\t},\n\t\tGoTypes:           "@ + msg_types + "_goTypes,\n\t\tDependencyIndexes: "@ + msg_types + "_depIdxs,\n\t\tMessageInfos:      "@ + msg_types + "_msgTypes,\n        EnumInfos:         "@ + enum_types + ",\n\t}.Build()\n\t"@ + cap_msg_type + " = out.File\n\t"@ + msg_types + "_goTypes = nil\n\t"@ + msg_types, "_depIdxs = nil\n}\n        "@, msg_types + "_goTypes = []any{\n"@ + go_types + "}\nvar "@);
    }
}

pub(crate) proof fn lemma_holds_text_after(x: Seq<char>, y: Seq<char>, p: Seq<char>)
    requires
        holds_text(y, p),
    ensures
        holds_text(x + y, p),
{
    let j = choose|j: int| 0 <= j && j + p.len() <= y.len() && #[trigger] y.subrange(j, j + p.len()) == p;
    assert((x + y).subrange(x.len() + j, x.len() + j + p.len()) =~= p);
}

/// The Go file of a schema embeds, as the string constant `<msg_types>_rawDesc`, the
/// encoding of a file descriptor that describes the schema: its enums in their order, each
/// named as the enum and with the enum's values and numbers in their order; the
/// descriptors of its messages in their order; syntax `proto3`; and the Go package of the
/// module and the schema's package. The file also sizes its message-info table by the
/// number of messages, declares to the runtime as many enums and messages as the schema
/// has.
#[verifier::rlimit(60)]
pub proof fn lemma_go_code_contents(
    s: MessagesView,
    source_file: Seq<char>,
    stem: Seq<char>,
    module: Seq<char>,
    imports: Seq<char>,
)
    ensures
        ({
            let code = go_code(s, source_file, stem, module, imports);
            let mt = go_msg_types(s, stem);
            &&& exists|fd: FileDescView|
                {
                    &&& #[trigger] holds_text(code, go_string_const(file_desc_bytes(fd), mt + "_rawDesc"@))
                    &&& fd.syntax == "proto3"@
                    &&& fd.options.go_package == module + "/"@ + s.package
                    &&& fd.enum_type.len() == s.penums.len()
                    &&& (forall|k: int|
                        0 <= k < s.penums.len() ==> {
                            &&& (#[trigger] fd.enum_type[k]).name == s.penums[k].name
                            &&& fd.enum_type[k].value.len() == s.penums[k].fields.len()
                            &&& forall|j: int|
                                0 <= j < fd.enum_type[k].value.len() ==> (
                                #[trigger] fd.enum_type[k].value[j]).name == s.penums[k].fields[j].name
                                    && fd.enum_type[k].value[j].number == s.penums[k].fields[j].index as i32
                        })
                    &&& fd.message_type.len() == s.messages.len()
                    &&& forall|k: int|
                        0 <= k < s.messages.len() ==> #[trigger] fd.message_type[k] == go_message(
                            s.messages[k],
                            s.penums.map_values(|e: PEnumView| e.name),
                        ).2
                }
            &&& holds_text(code, message_table(mt, decimal(s.messages.len())))
            &&& holds_text(code, declared_counts(mt, decimal(s.penums.len()), decimal(s.messages.len())))
        }),
{
    let mt = go_msg_types(s, stem);
    let en = go_enums_state(s, mt, s.penums.len() as int);
    let ms = go_messages_state(s, mt, s.messages.len() as int);
    let fd = file_desc_of(s, source_file, stem, module, en.descs, ms.descs);
    let g = go_string_const(file_desc_bytes(fd), mt + "_rawDesc"@);
    let cap = "File_"@ + s.package + "_"@ + stem + "_proto"@;
    let wrappers = go_oneof_wrappers(s.messages, mt, s.messages.len() as int);
    let enum_types = if s.penums.len() > 0 {
        mt + "_enumTypes"@
    } else {
        "nil"@
    };
    let fin = go_final_block(
        cap,
        g,
        mt,
        decimal(s.messages.len()),
        en.go_types + ms.go_types,
        go_dep_idxs(ms.deps),
        wrappers,
        decimal(s.penums.len()),
        enum_types,
    );
    let head = go_header(source_file, s.package, imports) + en.code + ms.code;
    let code = go_code(s, source_file, stem, module, imports);
    assert(code == head + fin);
    lemma_final_block_parts(
        cap,
        g,
        mt,
        decimal(s.messages.len()),
        en.go_types + ms.go_types,
        go_dep_idxs(ms.deps),
        wrappers,
        decimal(s.penums.len()),
        enum_types,
    );
    lemma_holds_text_after(head, fin, g);
    lemma_holds_text_after(head, fin, message_table(mt, decimal(s.messages.len())));
    lemma_holds_text_after(head, fin, declared_counts(mt, decimal(s.penums.len()), decimal(s.messages.len())));
    assert(holds_text(code, g));
    assert(fd.enum_type == en.descs);
    assert(fd.message_type == ms.descs);
    assert(fd.syntax == "proto3"@);
    assert(fd.options.go_package == module + "/"@ + s.package);
    lemma_go_enum_descs(s, mt, s.penums.len() as int);
    lemma_go_message_descs(s, mt, s.messages.len() as int);
}

/// The rows of the Go type table for the first `n` enums `es`: each enum's type, its row
/// number and its name.
pub open spec fn enum_rows(es: Seq<PEnumView>, n: int) -> Seq<char>
    decreases n,
{
    if n <= 0 {
        seq![]
    } else {
        enum_rows(es, n - 1) + "    ("@ + es[n - 1].name + ")(0), // "@ + decimal((n - 1) as nat) + ": "@
            + es[n - 1].name + "\n"@
    }
}

/// The rows of the Go type table for the first `n` messages `ms`, numbered on from
/// `base`: each message's pointer type, its row number and its name.
pub open spec fn message_rows(ms: Seq<MessageView>, base: nat, n: int) -> Seq<char>
    decreases n,
{
    if n <= 0 {
        seq![]
    } else {
        message_rows(ms, base, n - 1) + "    (*"@ + ms[n - 1].name + ")(nil), // "@ + decimal(
            (base + n - 1) as nat,
        ) + ": "@ + ms[n - 1].name + "\n"@
    }
}

proof fn lemma_enum_rows(s: MessagesView, msg_types: Seq<char>, n: int)
    requires
        0 <= n <= s.penums.len(),
    ensures
        go_enums_state(s, msg_types, n).go_types == enum_rows(s.penums, n),
    decreases n,
{
    if n > 0 {
        lemma_enum_rows(s, msg_types, n - 1);
    }
}

proof fn lemma_message_rows(s: MessagesView, msg_types: Seq<char>, n: int)
    requires
        0 <= n <= s.messages.len(),
    ensures
        go_messages_state(s, msg_types, n).go_types == message_rows(s.messages, s.penums.len(), n),
    decreases n,
{
    if n > 0 {
        lemma_message_rows(s, msg_types, n - 1);
    }
}

/// The Go type table of a schema's Go file lists its enums, then its messages, in their
/// order and numbered from 0 on: the `k`-th enum in row `k`, the `k`-th message in the
/// row after all enums and the `k` messages before it.
pub proof fn lemma_go_type_table(
    s: MessagesView,
    source_file: Seq<char>,
    stem: Seq<char>,
    module: Seq<char>,
    imports: Seq<char>,
)
    ensures
        holds_text(
            go_code(s, source_file, stem, module, imports),
            type_table(
                go_msg_types(s, stem),
                enum_rows(s.penums, s.penums.len() as int) + message_rows(
                    s.messages,
                    s.penums.len(),
                    s.messages.len() as int,
                ),
            ),
        ),
{
    let mt = go_msg_types(s, stem);
    let en = go_enums_state(s, mt, s.penums.len() as int);
    let ms = go_messages_state(s, mt, s.messages.len() as int);
    let fd = file_desc_of(s, source_file, stem, module, en.descs, ms.descs);
    let g = go_string_const(file_desc_bytes(fd), mt + "_rawDesc"@);
    let cap = "File_"@ + s.package + "_"@ + stem + "_proto"@;
    let wrappers = go_oneof_wrappers(s.messages, mt, s.messages.len() as int);
    let enum_types = if s.penums.len() > 0 {
        mt + "_enumTypes"@
    } else {
        "nil"@
    };
    let fin = go_final_block(
        cap,
        g,
        mt,
        decimal(s.messages.len()),
        en.go_types + ms.go_types,
        go_dep_idxs(ms.deps),
        wrappers,
        decimal(s.penums.len()),
        enum_types,
    );
    let head = go_header(source_file, s.package, imports) + en.code + ms.code;
    assert(go_code(s, source_file, stem, module, imports) == head + fin);
    lemma_final_block_parts(
        cap,
        g,
        mt,
        decimal(s.messages.len()),
        en.go_types + ms.go_types,
        go_dep_idxs(ms.deps),
        wrappers,
        decimal(s.penums.len()),
        enum_types,
    );
    lemma_enum_rows(s, mt, s.penums.len() as int);
    lemma_message_rows(s, mt, s.messages.len() as int);
    lemma_holds_text_after(head, fin, type_table(mt, en.go_types + ms.go_types));
}

/// The Go code of a plain field of the message `message`: a struct member named in Pascal
/// case with the field's Go type and a tag giving the wire type (`varint` for the `int32`
/// types, `bytes` otherwise), the index and the name; a getter of the same Go type that
/// returns the member, or, on a nil message, the field's default, and without one the zero
/// value of that Go type; and, for a field typed by a message or enum, that type's name as
/// its dependency.
pub proof fn lemma_go_plain_field(f: FieldView, message: Seq<char>)
    requires
        f.maybe_types is None,
    ensures
        ({
            let n = pascal_case(f.name);
            let g = go_type(f.ptype);
            let wire = if f.ptype is Int32 || f.ptype is RepeatedInt32 {
                "varint"@
            } else {
                "bytes"@
            };
            let fallback = match f.default {
                Some(d) => d,
                None => go_zero_value(g),
            };
            &&& go_field(f, message).0 == "    "@ + n + "  "@ + g + " `protobuf:\""@ + wire + ","@
                + decimal(f.index as nat) + ",opt,name="@ + f.name + ",proto3\" json:\""@ + f.name
                + ",omitempty\"`\n"@
            &&& go_field(f, message).1 == "\nfunc (x *"@ + message + ") Get"@ + n + "() "@ + g
                + " {\n    if x != nil {\n        return x."@ + n + "\n    }\n    return "@ + fallback
                + "\n}\n        "@
            &&& go_field(f, message).2 == (if ptype_is_nested(f.ptype) {
                Some(ptype_name(f.ptype))
            } else {
                None
            })
        }),
{
    lemma_go_default_is_zero(f.ptype);
}

/// The descriptor entry that the `k`-th field of a message adds, when it is a plain field:
/// it describes the field (name, index, label); its type is 14 (enum) when the field's
/// type names one of the schema's enums `enums`, 11 (message) for another named type, and
/// the `descriptor.proto` number of a scalar type otherwise; a named type is referenced as
/// `.` and its name.
pub proof fn lemma_go_plain_field_desc(m: MessageView, enums: Seq<Seq<char>>, k: int)
    requires
        0 <= k < m.fields.len(),
        m.fields[k].maybe_types is None,
    ensures
        ({
            let f = m.fields[k];
            let a = go_message_state(m, enums, k).desc.field;
            let b = go_message_state(m, enums, k + 1).desc.field;
            let d = b.last();
            &&& b.len() == a.len() + 1
            &&& b.take(a.len() as int) == a
            &&& describes_field(d, f)
            &&& (ptype_is_nested(f.ptype) ==> {
                &&& d.kind == (if enums.contains(ptype_name(f.ptype)) {
                    14i32
                } else {
                    11i32
                })
                &&& d.type_ref == Some("."@ + ptype_name(f.ptype))
            })
            &&& (!ptype_is_nested(f.ptype) ==> d.kind == proto_type_number(ptype_name(f.ptype))
                && d.type_ref is None)
        }),
{
    let a = go_message_state(m, enums, k).desc.field;
    let b = go_message_state(m, enums, k + 1).desc.field;
    assert(b.take(a.len() as int) =~= a);
    let f = m.fields[k];
    if enums.contains(ptype_name(f.ptype)) {
        let i = choose|i: int| 0 <= i < enums.len() && enums[i] == ptype_name(f.ptype);
        assert(names_enum(enums, ptype_name(f.ptype)));
    }
}

/// The entry of the `OneofWrappers` list for the alternative `a` of a group of the Go
/// message `message`: a nil pointer to its wrapper type.
pub open spec fn wrapper_line(message: Seq<char>, a: FieldView) -> Seq<char> {
    "        (*"@ + message + "_"@ + pascal_case(a.name) + ")(nil),\n"@
}

proof fn lemma_alt_wrapper_lines(message: Seq<char>, alts: Seq<FieldView>, n: int)
    requires
        0 <= n <= alts.len(),
    ensures
        forall|a: int| 0 <= a < n ==> holds_text(alt_wrappers(message, alts, n), #[trigger] wrapper_line(message, alts[a])),
    decreases n,
{
    if n > 0 {
        lemma_alt_wrapper_lines(message, alts, n - 1);
        let prev = alt_wrappers(message, alts, n - 1);
        let line = wrapper_line(message, alts[n - 1]);
        let x1 = "        (*"@;
        let x2 = x1 + message;
        let x3 = x2 + "_"@;
        let x4 = x3 + pascal_case(alts[n - 1].name);
        lemma_concat_associative(prev, x1, message);
        lemma_concat_associative(prev, x2, "_"@);
        lemma_concat_associative(prev, x3, pascal_case(alts[n - 1].name));
        lemma_concat_associative(prev, x4, ")(nil),\n"@);
        assert(alt_wrappers(message, alts, n) == prev + line);
        lemma_holds_text_end(prev, line);
        assert forall|a: int| 0 <= a < n implies holds_text(alt_wrappers(message, alts, n), #[trigger] wrapper_line(message, alts[a])) by {
            if a < n - 1 {
                lemma_holds_text_extend(prev, line, wrapper_line(message, alts[a]));
            }
        }
    }
}

proof fn lemma_field_wrapper_lines(m: MessageView, msg_types: Seq<char>, n: int)
    requires
        0 <= n <= m.fields.len(),
    ensures
        forall|j: int, a: int|
            0 <= j < n && m.fields[j].maybe_types is Some && 0 <= a < m.fields[j].maybe_types->0.len()
                ==> holds_text(field_wrappers(m, msg_types, n), #[trigger] wrapper_line(m.name, m.fields[j].maybe_types->0[a])),
    decreases n,
{
    if n > 0 {
        lemma_field_wrapper_lines(m, msg_types, n - 1);
        let prev = field_wrappers(m, msg_types, n - 1);
        let all = field_wrappers(m, msg_types, n);
        match m.fields[n - 1].maybe_types {
            Some(alts) => {
                let head = prev + "    "@ + msg_types + "_msgTypes["@ + decimal(m.index as nat)
                    + "].OneofWrappers = []any{\n"@;
                let body = alt_wrappers(m.name, alts, alts.len() as int);
                assert(all == head + body + "    }\n"@);
                lemma_alt_wrapper_lines(m.name, alts, alts.len() as int);
                assert forall|j: int, a: int|
                    0 <= j < n && m.fields[j].maybe_types is Some && 0 <= a < m.fields[j].maybe_types->0.len()
                        implies holds_text(all, #[trigger] wrapper_line(m.name, m.fields[j].maybe_types->0[a])) by {
                    let line = wrapper_line(m.name, m.fields[j].maybe_types->0[a]);
                    if j < n - 1 {
                        lemma_holds_text_extend(prev, "    "@, line);
                        lemma_holds_text_extend(prev + "    "@, msg_types, line);
                        lemma_holds_text_extend(prev + "    "@ + msg_types, "_msgTypes["@, line);
                        lemma_holds_text_extend(prev + "    "@ + msg_types + "_msgTypes["@, decimal(m.index as nat), line);
                        lemma_holds_text_extend(
                            prev + "    "@ + msg_types + "_msgTypes["@ + decimal(m.index as nat),
                            "].OneofWrappers = []any{\n"@,
                            line,
                        );
                        lemma_holds_text_extend(head, body, line);
                    } else {
                        lemma_holds_text_after(head, body, line);
                    }
                    lemma_holds_text_extend(head + body, "    }\n"@, line);
                }
            },
            None => {},
        }
    }
}

/// The `OneofWrappers` registrations of a schema's Go file list, for every alternative of
/// every `oneof` group of every message, a nil pointer to the alternative's wrapper type,
/// named after the message and the alternative.
pub proof fn lemma_go_oneof_wrapper_lines(ms: Seq<MessageView>, msg_types: Seq<char>, n: int)
    requires
        0 <= n <= ms.len(),
    ensures
        forall|k: int, j: int, a: int|
            0 <= k < n && 0 <= j < ms[k].fields.len() && ms[k].fields[j].maybe_types is Some && 0 <= a
                < ms[k].fields[j].maybe_types->0.len() ==> holds_text(
                go_oneof_wrappers(ms, msg_types, n),
                #[trigger] wrapper_line(ms[k].name, ms[k].fields[j].maybe_types->0[a]),
            ),
    decreases n,
{
    if n > 0 {
        lemma_go_oneof_wrapper_lines(ms, msg_types, n - 1);
        let prev = go_oneof_wrappers(ms, msg_types, n - 1);
        let last = field_wrappers(ms[n - 1], msg_types, ms[n - 1].fields.len() as int);
        lemma_field_wrapper_lines(ms[n - 1], msg_types, ms[n - 1].fields.len() as int);
        assert forall|k: int, j: int, a: int|
            0 <= k < n && 0 <= j < ms[k].fields.len() && ms[k].fields[j].maybe_types is Some && 0 <= a
                < ms[k].fields[j].maybe_types->0.len() implies holds_text(
                go_oneof_wrappers(ms, msg_types, n),
                #[trigger] wrapper_line(ms[k].name, ms[k].fields[j].maybe_types->0[a]),
            ) by {
            let line = wrapper_line(ms[k].name, ms[k].fields[j].maybe_types->0[a]);
            if k < n - 1 {
                lemma_holds_text_extend(prev, last, line);
            } else {
                lemma_holds_text_after(prev, last, line);
            }
        }
    }
}

} // verus!
