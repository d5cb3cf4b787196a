//! The file descriptor embedded in generated Go code, and its protobuf wire encoding.
//!
//! The descriptor describes a schema the way `google/protobuf/descriptor.proto` does; it is
//! encoded field by field, in field-number order, with the field encoders of `prost`.
use vstd::prelude::*;
use vstd::utf8::encode_utf8;

verus! {

/// A field of a message descriptor (`FieldDescriptorProto`).
#[derive(Debug)]
pub struct FieldDesc {
    pub name: String,
    pub number: i32,
    pub label: i32,
    pub kind: i32,
    pub type_ref: Option<String>,
    pub oneof_index: Option<i32>,
    pub json_name: String,
}

/// A message descriptor (`DescriptorProto`): its name, fields and `oneof` groups.
#[derive(Debug)]
pub struct MessageDesc {
    pub name: String,
    pub field: Vec<FieldDesc>,
    pub oneof_decl: Vec<String>,
}

/// A value of an enum descriptor (`EnumValueDescriptorProto`).
#[derive(Debug)]
pub struct EnumValueDesc {
    pub name: String,
    pub number: i32,
}

/// An enum descriptor (`EnumDescriptorProto`).
#[derive(Debug)]
pub struct EnumDesc {
    pub name: String,
    pub value: Vec<EnumValueDesc>,
}

/// The file options that generated Go code sets (`FileOptions`).
#[derive(Debug)]
pub struct FileOptionsDesc {
    pub java_outer_classname: String,
    pub java_multiple_files: bool,
    pub go_package: String,
}

/// A file descriptor (`FileDescriptorProto`).
#[derive(Debug)]
pub struct FileDesc {
    pub name: String,
    pub message_type: Vec<MessageDesc>,
    pub enum_type: Vec<EnumDesc>,
    pub options: FileOptionsDesc,
    pub syntax: String,
}

pub struct FieldDescView {
    pub name: Seq<char>,
    pub number: i32,
    pub label: i32,
    pub kind: i32,
    pub type_ref: Option<Seq<char>>,
    pub oneof_index: Option<i32>,
    pub json_name: Seq<char>,
}

impl View for FieldDesc {
    type V = FieldDescView;

    open spec fn view(&self) -> FieldDescView {
        FieldDescView {
            name: self.name@,
            number: self.number,
            label: self.label,
            kind: self.kind,
            type_ref: match self.type_ref {
                Some(t) => Some(t@),
                None => None,
            },
            oneof_index: self.oneof_index,
            json_name: self.json_name@,
        }
    }
}

pub struct MessageDescView {
    pub name: Seq<char>,
    pub field: Seq<FieldDescView>,
    pub oneof_decl: Seq<Seq<char>>,
}

impl View for MessageDesc {
    type V = MessageDescView;

    open spec fn view(&self) -> MessageDescView {
        MessageDescView {
            name: self.name@,
            field: self.field@.map_values(|f: FieldDesc| f@),
            oneof_decl: self.oneof_decl@.map_values(|o: String| o@),
        }
    }
}

pub struct EnumValueDescView {
    pub name: Seq<char>,
    pub number: i32,
}

impl View for EnumValueDesc {
    type V = EnumValueDescView;

    open spec fn view(&self) -> EnumValueDescView {
        EnumValueDescView { name: self.name@, number: self.number }
    }
}

pub struct EnumDescView {
    pub name: Seq<char>,
    pub value: Seq<EnumValueDescView>,
}

impl View for EnumDesc {
    type V = EnumDescView;

    open spec fn view(&self) -> EnumDescView {
        EnumDescView { name: self.name@, value: self.value@.map_values(|v: EnumValueDesc| v@) }
    }
}

pub struct FileOptionsDescView {
    pub java_outer_classname: Seq<char>,
    pub java_multiple_files: bool,
    pub go_package: Seq<char>,
}

impl View for FileOptionsDesc {
    type V = FileOptionsDescView;

    open spec fn view(&self) -> FileOptionsDescView {
        FileOptionsDescView {
            java_outer_classname: self.java_outer_classname@,
            java_multiple_files: self.java_multiple_files,
            go_package: self.go_package@,
        }
    }
}

pub struct FileDescView {
    pub name: Seq<char>,
    pub message_type: Seq<MessageDescView>,
    pub enum_type: Seq<EnumDescView>,
    pub options: FileOptionsDescView,
    pub syntax: Seq<char>,
}

impl View for FileDesc {
    type V = FileDescView;

    open spec fn view(&self) -> FileDescView {
        FileDescView {
            name: self.name@,
            message_type: self.message_type@.map_values(|m: MessageDesc| m@),
            enum_type: self.enum_type@.map_values(|e: EnumDesc| e@),
            options: self.options@,
            syntax: self.syntax@,
        }
    }
}

/// The LEB128 varint encoding of `v`: seven bits per byte, least significant first, the
/// high bit set on every byte but the last.
pub open spec fn varint(v: u64) -> Seq<u8>
    decreases v,
{
    if v < 128 {
        seq![v as u8]
    } else {
        seq![((v % 128) + 128) as u8] + varint(v / 128)
    }
}

/// The key of field `tag` with wire type `wire_type`.
pub open spec fn field_key(tag: u32, wire_type: u64) -> Seq<u8> {
    varint((tag as u64 * 8 + wire_type) as u64)
}

/// Whether `tag` is a valid field number.
pub open spec fn valid_tag(tag: u32) -> bool {
    1 <= tag <= 536_870_911
}

/// A length-delimited field holding `bytes`.
pub open spec fn bytes_field(tag: u32, bytes: Seq<u8>) -> Seq<u8> {
    field_key(tag, 2) + varint(bytes.len() as u64) + bytes
}

/// A string field: its UTF-8 bytes, length-delimited.
pub open spec fn string_field(tag: u32, s: Seq<char>) -> Seq<u8> {
    bytes_field(tag, encode_utf8(s))
}

/// An `int32` field: a varint of the value sign-extended to 64 bits.
pub open spec fn int32_field(tag: u32, v: i32) -> Seq<u8> {
    field_key(tag, 0) + varint(v as u64)
}

/// A `bool` field: a varint of 1 or 0.
pub open spec fn bool_field(tag: u32, b: bool) -> Seq<u8> {
    field_key(tag, 0) + varint(
        if b {
            1
        } else {
            0
        },
    )
}

/// Calls `prost::encoding::string::encode`, which writes the key of field `tag` with the
/// length-delimited wire type, then the byte length of `s` as a varint, then the UTF-8
/// bytes of `s`. Claimed: `buf` grows by exactly those bytes. The tag must be a valid
/// field number, as prost asserts.
#[verifier::external_body]
fn put_string(buf: &mut Vec<u8>, tag: u32, s: &String)
    requires
        valid_tag(tag),
    ensures
        final(buf)@ == old(buf)@ + string_field(tag, s@),
{
    prost::encoding::string::encode(tag, s, buf)
}

/// Calls `prost::encoding::int32::encode`, which writes the key of field `tag` with the
/// varint wire type, then `v` sign-extended to 64 bits as a varint. Claimed: `buf` grows
/// by exactly those bytes.
#[verifier::external_body]
fn put_int32(buf: &mut Vec<u8>, tag: u32, v: i32)
    requires
        valid_tag(tag),
    ensures
        final(buf)@ == old(buf)@ + int32_field(tag, v),
{
    prost::encoding::int32::encode(tag, &v, buf)
}

/// Calls `prost::encoding::bool::encode`, which writes the key of field `tag` with the
/// varint wire type, then 1 or 0 as a varint. Claimed: `buf` grows by exactly those bytes.
#[verifier::external_body]
fn put_bool(buf: &mut Vec<u8>, tag: u32, b: bool)
    requires
        valid_tag(tag),
    ensures
        final(buf)@ == old(buf)@ + bool_field(tag, b),
{
    prost::encoding::bool::encode(tag, &b, buf)
}

/// Calls `prost::encoding::bytes::encode`, which writes the key of field `tag` with the
/// length-delimited wire type, then the length of `bytes` as a varint, then `bytes`; an
/// embedded message is framed this way. Claimed: `buf` grows by exactly those bytes.
#[verifier::external_body]
fn put_bytes(buf: &mut Vec<u8>, tag: u32, bytes: &Vec<u8>)
    requires
        valid_tag(tag),
    ensures
        final(buf)@ == old(buf)@ + bytes_field(tag, bytes@),
{
    prost::encoding::bytes::encode(tag, bytes, buf)
}

/// The encoding of a field descriptor.
pub open spec fn field_desc_bytes(f: FieldDescView) -> Seq<u8> {
    string_field(1, f.name) + int32_field(3, f.number) + int32_field(4, f.label) + int32_field(
        5,
        f.kind,
    ) + match f.type_ref {
        Some(t) => string_field(6, t),
        None => seq![],
    } + match f.oneof_index {
        Some(i) => int32_field(9, i),
        None => seq![],
    } + string_field(10, f.json_name)
}

/// The encoding of the first `n` fields of a message descriptor.
pub open spec fn field_descs_bytes(fs: Seq<FieldDescView>, n: int) -> Seq<u8>
    decreases n,
{
    if n <= 0 {
        seq![]
    } else {
        field_descs_bytes(fs, n - 1) + bytes_field(2, field_desc_bytes(fs[n - 1]))
    }
}

/// The encoding of the first `n` `oneof` groups of a message descriptor.
pub open spec fn oneof_descs_bytes(os: Seq<Seq<char>>, n: int) -> Seq<u8>
    decreases n,
{
    if n <= 0 {
        seq![]
    } else {
        oneof_descs_bytes(os, n - 1) + bytes_field(8, string_field(1, os[n - 1]))
    }
}

/// The encoding of a message descriptor.
pub open spec fn message_desc_bytes(m: MessageDescView) -> Seq<u8> {
    string_field(1, m.name) + field_descs_bytes(m.field, m.field.len() as int) + oneof_descs_bytes(
        m.oneof_decl,
        m.oneof_decl.len() as int,
    )
}

/// The encoding of the first `n` values of an enum descriptor.
pub open spec fn enum_values_bytes(vs: Seq<EnumValueDescView>, n: int) -> Seq<u8>
    decreases n,
{
    if n <= 0 {
        seq![]
    } else {
        enum_values_bytes(vs, n - 1) + bytes_field(
            2,
            string_field(1, vs[n - 1].name) + int32_field(2, vs[n - 1].number),
        )
    }
}

/// The encoding of an enum descriptor.
pub open spec fn enum_desc_bytes(e: EnumDescView) -> Seq<u8> {
    string_field(1, e.name) + enum_values_bytes(e.value, e.value.len() as int)
}

/// The encoding of the file options.
pub open spec fn file_options_bytes(o: FileOptionsDescView) -> Seq<u8> {
    string_field(8, o.java_outer_classname) + bool_field(10, o.java_multiple_files)
        + string_field(11, o.go_package)
}

/// The encoding of the first `n` message descriptors of a file.
pub open spec fn message_descs_bytes(ms: Seq<MessageDescView>, n: int) -> Seq<u8>
    decreases n,
{
    if n <= 0 {
        seq![]
    } else {
        message_descs_bytes(ms, n - 1) + bytes_field(4, message_desc_bytes(ms[n - 1]))
    }
}

/// The encoding of the first `n` enum descriptors of a file.
pub open spec fn enum_descs_bytes(es: Seq<EnumDescView>, n: int) -> Seq<u8>
    decreases n,
{
    if n <= 0 {
        seq![]
    } else {
        enum_descs_bytes(es, n - 1) + bytes_field(5, enum_desc_bytes(es[n - 1]))
    }
}

/// The encoding of a file descriptor: name (1), messages (4), enums (5), options (8) and
/// syntax (12).
pub open spec fn file_desc_bytes(d: FileDescView) -> Seq<u8> {
    string_field(1, d.name) + message_descs_bytes(d.message_type, d.message_type.len() as int)
        + enum_descs_bytes(d.enum_type, d.enum_type.len() as int) + bytes_field(
        8,
        file_options_bytes(d.options),
    ) + string_field(12, d.syntax)
}

impl FieldDesc {
    /// The protobuf encoding of this field descriptor.
    pub fn encode(&self) -> (buf: Vec<u8>)
        ensures
            buf@ == field_desc_bytes(self@),
    {
        let mut buf: Vec<u8> = Vec::new();
        put_string(&mut buf, 1, &self.name);
        put_int32(&mut buf, 3, self.number);
        put_int32(&mut buf, 4, self.label);
        put_int32(&mut buf, 5, self.kind);
        let ghost after_kind = buf@;
        if let Some(t) = &self.type_ref {
            put_string(&mut buf, 6, t);
        }
        assert(buf@ =~= after_kind + match self@.type_ref {
            Some(t) => string_field(6, t),
            None => seq![],
        });
        let ghost after_type = buf@;
        if let Some(i) = self.oneof_index {
            put_int32(&mut buf, 9, i);
        }
        assert(buf@ =~= after_type + match self@.oneof_index {
            Some(i) => int32_field(9, i),
            None => seq![],
        });
        put_string(&mut buf, 10, &self.json_name);
        assert(buf@ =~= field_desc_bytes(self@));
        buf
    }
}

impl MessageDesc {
    /// The protobuf encoding of this message descriptor.
    pub fn encode(&self) -> (buf: Vec<u8>)
        ensures
            buf@ == message_desc_bytes(self@),
    {
        let mut buf: Vec<u8> = Vec::new();
        put_string(&mut buf, 1, &self.name);
        let ghost start = buf@;
        let mut i: usize = 0;
        while i < self.field.len()
            invariant
                i <= self.field.len(),
                buf@ == start + field_descs_bytes(self@.field, i as int),
            decreases self.field.len() - i,
        {
            let inner = self.field[i].encode();
            put_bytes(&mut buf, 2, &inner);
            i = i + 1;
            assert(buf@ =~= start + field_descs_bytes(self@.field, i as int));
        }
        let ghost mid = buf@;
        let mut j: usize = 0;
        while j < self.oneof_decl.len()
            invariant
                j <= self.oneof_decl.len(),
                buf@ == mid + oneof_descs_bytes(self@.oneof_decl, j as int),
            decreases self.oneof_decl.len() - j,
        {
            let mut inner: Vec<u8> = Vec::new();
            put_string(&mut inner, 1, &self.oneof_decl[j]);
            assert(inner@ =~= string_field(1, self@.oneof_decl[j as int]));
            put_bytes(&mut buf, 8, &inner);
            j = j + 1;
            assert(buf@ =~= mid + oneof_descs_bytes(self@.oneof_decl, j as int));
        }
        assert(buf@ =~= message_desc_bytes(self@));
        buf
    }
}

impl EnumDesc {
    /// The protobuf encoding of this enum descriptor.
    pub fn encode(&self) -> (buf: Vec<u8>)
        ensures
            buf@ == enum_desc_bytes(self@),
    {
        let mut buf: Vec<u8> = Vec::new();
        put_string(&mut buf, 1, &self.name);
        let ghost start = buf@;
        let mut i: usize = 0;
        while i < self.value.len()
            invariant
                i <= self.value.len(),
                buf@ == start + enum_values_bytes(self@.value, i as int),
            decreases self.value.len() - i,
        {
            let mut inner: Vec<u8> = Vec::new();
            put_string(&mut inner, 1, &self.value[i].name);
            put_int32(&mut inner, 2, self.value[i].number);
            assert(inner@ =~= string_field(1, self@.value[i as int].name) + int32_field(
                2,
                self@.value[i as int].number,
            ));
            put_bytes(&mut buf, 2, &inner);
            i = i + 1;
            assert(buf@ =~= start + enum_values_bytes(self@.value, i as int));
        }
        assert(buf@ =~= enum_desc_bytes(self@));
        buf
    }
}

impl FileDesc {
    /// The protobuf encoding of this file descriptor.
    pub fn encode(&self) -> (buf: Vec<u8>)
        ensures
            buf@ == file_desc_bytes(self@),
    {
        let mut buf: Vec<u8> = Vec::new();
        put_string(&mut buf, 1, &self.name);
        let ghost start = buf@;
        let mut i: usize = 0;
        while i < self.message_type.len()
            invariant
                i <= self.message_type.len(),
                buf@ == start + message_descs_bytes(self@.message_type, i as int),
            decreases self.message_type.len() - i,
        {
            let inner = self.message_type[i].encode();
            put_bytes(&mut buf, 4, &inner);
            i = i + 1;
            assert(buf@ =~= start + message_descs_bytes(self@.message_type, i as int));
        }
        let ghost mid = buf@;
        let mut j: usize = 0;
        while j < self.enum_type.len()
            invariant
                j <= self.enum_type.len(),
                buf@ == mid + enum_descs_bytes(self@.enum_type, j as int),
            decreases self.enum_type.len() - j,
        {
            let inner = self.enum_type[j].encode();
            put_bytes(&mut buf, 5, &inner);
            j = j + 1;
            assert(buf@ =~= mid + enum_descs_bytes(self@.enum_type, j as int));
        }
        let mut options: Vec<u8> = Vec::new();
        put_string(&mut options, 8, &self.options.java_outer_classname);
        put_bool(&mut options, 10, self.options.java_multiple_files);
        put_string(&mut options, 11, &self.options.go_package);
        assert(options@ =~= file_options_bytes(self@.options));
        put_bytes(&mut buf, 8, &options);
        put_string(&mut buf, 12, &self.syntax);
        assert(buf@ =~= file_desc_bytes(self@));
        buf
    }
}

} // verus!
