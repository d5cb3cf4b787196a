//! Reading the descriptor encoding back: the protobuf records that each encoding is made
//! of, in order, with their field numbers and values.
use crate::ast::descriptor::{
    bool_field,
    bytes_field,
    enum_desc_bytes,
    enum_descs_bytes,
    enum_values_bytes,
    field_desc_bytes,
    field_descs_bytes,
    field_key,
    file_desc_bytes,
    file_options_bytes,
    int32_field,
    message_desc_bytes,
    message_descs_bytes,
    oneof_descs_bytes,
    string_field,
    valid_tag,
    varint,
    EnumDescView,
    EnumValueDescView,
    FieldDescView,
    FileDescView,
    FileOptionsDescView,
    MessageDescView,
};
use vstd::prelude::*;
use vstd::utf8::encode_utf8;

verus! {

/// The value of a protobuf record: a varint, or length-delimited bytes.
pub enum WireValue {
    Varint(int),
    Bytes(Seq<u8>),
}

/// A protobuf record: its field number and its value.
pub type Record = (int, WireValue);

/// The value of the varint at the front of `b` (seven bits per byte, least significant
/// first, the high bit set on all but the last byte), and how many bytes it takes.
pub open spec fn read_varint(b: Seq<u8>) -> Option<(int, int)>
    decreases b.len(),
{
    if b.len() == 0 {
        None
    } else if b[0] < 128 {
        Some((b[0] as int, 1))
    } else {
        match read_varint(b.skip(1)) {
            Some((v, k)) => Some(((b[0] - 128) + 128 * v, k + 1)),
            None => None,
        }
    }
}

/// The record at the front of `b`, and the bytes after it: a key varint holding the field
/// number times eight plus the wire type, then for wire type 0 a varint and for wire type
/// 2 a length varint and that many bytes.
pub open spec fn read_record(b: Seq<u8>) -> Option<(Record, Seq<u8>)> {
    match read_varint(b) {
        Some((key, k)) => {
            let rest = b.skip(k);
            if key % 8 == 0 {
                match read_varint(rest) {
                    Some((v, j)) => Some(((key / 8, WireValue::Varint(v)), rest.skip(j))),
                    None => None,
                }
            } else if key % 8 == 2 {
                match read_varint(rest) {
                    Some((len, j)) => if j + len <= rest.len() {
                        Some(((key / 8, WireValue::Bytes(rest.subrange(j, j + len))), rest.skip(j + len)))
                    } else {
                        None
                    },
                    None => None,
                }
            } else {
                None
            }
        },
        None => None,
    }
}

/// The records that `b` is made of, in order; `None` where `b` is not a sequence of
/// records.
pub open spec fn read_records(b: Seq<u8>) -> Option<Seq<Record>>
    decreases b.len(),
{
    if b.len() == 0 {
        Some(seq![])
    } else {
        match read_record(b) {
            Some((r, rest)) => if rest.len() < b.len() {
                match read_records(rest) {
                    Some(rs) => Some(seq![r] + rs),
                    None => None,
                }
            } else {
                None
            },
            None => None,
        }
    }
}

/// A record holding the UTF-8 bytes of `s`.
pub open spec fn string_record(tag: int, s: Seq<char>) -> Record {
    (tag, WireValue::Bytes(encode_utf8(s)))
}

/// A record holding `v` as a varint sign-extended to 64 bits, as an `int32` is written.
pub open spec fn int32_record(tag: int, v: i32) -> Record {
    (tag, WireValue::Varint((v as u64) as int))
}

/// Whether a length is one that a varint can write.
pub open spec fn fits_varint(n: int) -> bool {
    n < 0x1_0000_0000_0000_0000
}

proof fn lemma_read_varint(v: u64, rest: Seq<u8>)
    ensures
        read_varint(varint(v) + rest) == Some((v as int, varint(v).len() as int)),
    decreases v,
{
    let t = varint(v) + rest;
    if v < 128 {
        assert(t[0] == v as u8);
        assert(t.skip(1) =~= rest);
    } else {
        let b0 = ((v % 128) + 128) as u8;
        assert(t[0] == b0);
        assert(t.skip(1) =~= varint(v / 128) + rest);
        lemma_read_varint(v / 128, rest);
        assert((b0 - 128) + 128 * (v / 128) == v);
    }
}

proof fn lemma_read_varint_prefix(x: Seq<u8>, y: Seq<u8>)
    requires
        read_varint(x) is Some,
    ensures
        read_varint(x + y) == read_varint(x),
    decreases x.len(),
{
    let t = x + y;
    assert(t[0] == x[0]);
    if x[0] >= 128 {
        assert(t.skip(1) =~= x.skip(1) + y);
        lemma_read_varint_prefix(x.skip(1), y);
    }
}

proof fn lemma_read_varint_within(x: Seq<u8>)
    requires
        read_varint(x) is Some,
    ensures
        1 <= (read_varint(x)->0).1 <= x.len(),
        (read_varint(x)->0).0 >= 0,
    decreases x.len(),
{
    if x[0] >= 128 {
        lemma_read_varint_within(x.skip(1));
    }
}

proof fn lemma_read_record_prefix(x: Seq<u8>, y: Seq<u8>)
    requires
        read_record(x) is Some,
    ensures
        read_record(x + y) == (match read_record(x) {
            Some((r, rest)) => Some((r, rest + y)),
            None => None,
        }),
        (read_record(x)->0).1.len() < x.len(),
{
    lemma_read_varint_prefix(x, y);
    lemma_read_varint_within(x);
    let (key, k) = read_varint(x)->0;
    let rest = x.skip(k);
    assert((x + y).skip(k) =~= rest + y);
    lemma_read_varint_prefix(rest, y);
    lemma_read_varint_within(rest);
    let (v, j) = read_varint(rest)->0;
    if key % 8 == 0 {
        assert((rest + y).skip(j) =~= rest.skip(j) + y);
    } else if key % 8 == 2 {
        assert(j + v <= rest.len());
        assert((rest + y).subrange(j, j + v) =~= rest.subrange(j, j + v));
        assert((rest + y).skip(j + v) =~= rest.skip(j + v) + y);
    }
}

proof fn lemma_read_records_append(a: Seq<u8>, b: Seq<u8>)
    requires
        read_records(a) is Some,
        read_records(b) is Some,
    ensures
        read_records(a + b) == Some(read_records(a)->0 + read_records(b)->0),
    decreases a.len(),
{
    if a.len() == 0 {
        assert(a + b =~= b);
        assert(read_records(a)->0 + read_records(b)->0 =~= read_records(b)->0);
    } else {
        let (r, rest) = read_record(a)->0;
        lemma_read_record_prefix(a, b);
        lemma_read_records_append(rest, b);
        assert(seq![r] + (read_records(rest)->0 + read_records(b)->0) =~= (seq![r] + read_records(
            rest,
        )->0) + read_records(b)->0);
    }
}

proof fn lemma_single_record(x: Seq<u8>)
    requires
        read_record(x) matches Some((_, rest)) && rest.len() == 0,
    ensures
        read_records(x) == Some(seq![(read_record(x)->0).0]),
{
    lemma_read_record_prefix(x, seq![]);
    let (r, rest) = read_record(x)->0;
    assert(x.len() > 0);
    let none: Seq<Record> = seq![];
    assert(read_records(rest) == Some(none));
    assert(seq![r] + seq![] =~= seq![r]);
}

proof fn lemma_bytes_record(tag: u32, p: Seq<u8>)
    requires
        valid_tag(tag),
        fits_varint(p.len() as int),
    ensures
        read_records(bytes_field(tag, p)) == Some(seq![(tag as int, WireValue::Bytes(p))]),
{
    let key = (tag as u64 * 8 + 2) as u64;
    let len = p.len() as u64;
    let t = bytes_field(tag, p);
    assert(t =~= varint(key) + (varint(len) + p));
    lemma_read_varint(key, varint(len) + p);
    assert(key / 8 == tag && key % 8 == 2);
    let rest = t.skip(varint(key).len() as int);
    assert(rest =~= varint(len) + p);
    lemma_read_varint(len, p);
    assert(rest.subrange(varint(len).len() as int, varint(len).len() + len) =~= p);
    assert(rest.skip(varint(len).len() + len).len() == 0);
    lemma_single_record(t);
}

proof fn lemma_varint_record(tag: u32, v: u64)
    requires
        valid_tag(tag),
    ensures
        read_records(field_key(tag, 0) + varint(v)) == Some(seq![(tag as int, WireValue::Varint(v as int))]),
{
    let key = (tag as u64 * 8 + 0) as u64;
    let t = field_key(tag, 0) + varint(v);
    lemma_read_varint(key, varint(v));
    assert(key / 8 == tag && key % 8 == 0);
    let rest = t.skip(varint(key).len() as int);
    assert(rest =~= varint(v) + seq![]);
    lemma_read_varint(v, seq![]);
    assert(rest.skip(varint(v).len() as int).len() == 0);
    lemma_single_record(t);
}

proof fn lemma_string_record(tag: u32, s: Seq<char>)
    requires
        valid_tag(tag),
        fits_varint(string_field(tag, s).len() as int),
    ensures
        read_records(string_field(tag, s)) == Some(seq![string_record(tag as int, s)]),
{
    lemma_bytes_record(tag, encode_utf8(s));
}

proof fn lemma_int32_record(tag: u32, v: i32)
    requires
        valid_tag(tag),
    ensures
        read_records(int32_field(tag, v)) == Some(seq![int32_record(tag as int, v)]),
{
    lemma_varint_record(tag, v as u64);
}

proof fn lemma_fields_records(xs: Seq<FieldDescView>, n: int)
    requires
        0 <= n <= xs.len(),
        fits_varint(field_descs_bytes(xs, n).len() as int),
    ensures
        read_records(field_descs_bytes(xs, n)) == Some(xs.take(n).map_values(|x: FieldDescView| (2int, WireValue::Bytes(field_desc_bytes(x))))),
    decreases n,
{
    if n == 0 {
        assert(xs.take(0).map_values(|x: FieldDescView| (2int, WireValue::Bytes(field_desc_bytes(x)))) =~= seq![]);
    } else {
        lemma_fields_records(xs, n - 1);
        lemma_bytes_record(2, field_desc_bytes(xs[n - 1]));
        lemma_read_records_append(field_descs_bytes(xs, n - 1), bytes_field(2, field_desc_bytes(xs[n - 1])));
        assert(xs.take(n).map_values(|x: FieldDescView| (2int, WireValue::Bytes(field_desc_bytes(x)))) =~= xs.take(n - 1).map_values(|x: FieldDescView| (2int, WireValue::Bytes(field_desc_bytes(x)))).push(
            (2int, WireValue::Bytes(field_desc_bytes(xs[n - 1]))),
        ));
    }
}

proof fn lemma_oneofs_records(xs: Seq<Seq<char>>, n: int)
    requires
        0 <= n <= xs.len(),
        fits_varint(oneof_descs_bytes(xs, n).len() as int),
    ensures
        read_records(oneof_descs_bytes(xs, n)) == Some(xs.take(n).map_values(|x: Seq<char>| (8int, WireValue::Bytes(string_field(1, x))))),
    decreases n,
{
    if n == 0 {
        assert(xs.take(0).map_values(|x: Seq<char>| (8int, WireValue::Bytes(string_field(1, x)))) =~= seq![]);
    } else {
        lemma_oneofs_records(xs, n - 1);
        lemma_bytes_record(8, string_field(1, xs[n - 1]));
        lemma_read_records_append(oneof_descs_bytes(xs, n - 1), bytes_field(8, string_field(1, xs[n - 1])));
        assert(xs.take(n).map_values(|x: Seq<char>| (8int, WireValue::Bytes(string_field(1, x)))) =~= xs.take(n - 1).map_values(|x: Seq<char>| (8int, WireValue::Bytes(string_field(1, x)))).push(
            (8int, WireValue::Bytes(string_field(1, xs[n - 1]))),
        ));
    }
}

proof fn lemma_values_records(xs: Seq<EnumValueDescView>, n: int)
    requires
        0 <= n <= xs.len(),
        fits_varint(enum_values_bytes(xs, n).len() as int),
    ensures
        read_records(enum_values_bytes(xs, n)) == Some(xs.take(n).map_values(|x: EnumValueDescView| (2int, WireValue::Bytes(string_field(1, x.name) + int32_field(2, x.number))))),
    decreases n,
{
    if n == 0 {
        assert(xs.take(0).map_values(|x: EnumValueDescView| (2int, WireValue::Bytes(string_field(1, x.name) + int32_field(2, x.number)))) =~= seq![]);
    } else {
        lemma_values_records(xs, n - 1);
        lemma_bytes_record(2, string_field(1, xs[n - 1].name) + int32_field(2, xs[n - 1].number));
        lemma_read_records_append(enum_values_bytes(xs, n - 1), bytes_field(2, string_field(1, xs[n - 1].name) + int32_field(2, xs[n - 1].number)));
        assert(xs.take(n).map_values(|x: EnumValueDescView| (2int, WireValue::Bytes(string_field(1, x.name) + int32_field(2, x.number)))) =~= xs.take(n - 1).map_values(|x: EnumValueDescView| (2int, WireValue::Bytes(string_field(1, x.name) + int32_field(2, x.number)))).push(
            (2int, WireValue::Bytes(string_field(1, xs[n - 1].name) + int32_field(2, xs[n - 1].number))),
        ));
    }
}

proof fn lemma_messages_records(xs: Seq<MessageDescView>, n: int)
    requires
        0 <= n <= xs.len(),
        fits_varint(message_descs_bytes(xs, n).len() as int),
    ensures
        read_records(message_descs_bytes(xs, n)) == Some(xs.take(n).map_values(|x: MessageDescView| (4int, WireValue::Bytes(message_desc_bytes(x))))),
    decreases n,
{
    if n == 0 {
        assert(xs.take(0).map_values(|x: MessageDescView| (4int, WireValue::Bytes(message_desc_bytes(x)))) =~= seq![]);
    } else {
        lemma_messages_records(xs, n - 1);
        lemma_bytes_record(4, message_desc_bytes(xs[n - 1]));
        lemma_read_records_append(message_descs_bytes(xs, n - 1), bytes_field(4, message_desc_bytes(xs[n - 1])));
        assert(xs.take(n).map_values(|x: MessageDescView| (4int, WireValue::Bytes(message_desc_bytes(x)))) =~= xs.take(n - 1).map_values(|x: MessageDescView| (4int, WireValue::Bytes(message_desc_bytes(x)))).push(
            (4int, WireValue::Bytes(message_desc_bytes(xs[n - 1]))),
        ));
    }
}

proof fn lemma_enums_records(xs: Seq<EnumDescView>, n: int)
    requires
        0 <= n <= xs.len(),
        fits_varint(enum_descs_bytes(xs, n).len() as int),
    ensures
        read_records(enum_descs_bytes(xs, n)) == Some(xs.take(n).map_values(|x: EnumDescView| (5int, WireValue::Bytes(enum_desc_bytes(x))))),
    decreases n,
{
    if n == 0 {
        assert(xs.take(0).map_values(|x: EnumDescView| (5int, WireValue::Bytes(enum_desc_bytes(x)))) =~= seq![]);
    } else {
        lemma_enums_records(xs, n - 1);
        lemma_bytes_record(5, enum_desc_bytes(xs[n - 1]));
        lemma_read_records_append(enum_descs_bytes(xs, n - 1), bytes_field(5, enum_desc_bytes(xs[n - 1])));
        assert(xs.take(n).map_values(|x: EnumDescView| (5int, WireValue::Bytes(enum_desc_bytes(x)))) =~= xs.take(n - 1).map_values(|x: EnumDescView| (5int, WireValue::Bytes(enum_desc_bytes(x)))).push(
            (5int, WireValue::Bytes(enum_desc_bytes(xs[n - 1]))),
        ));
    }
}

/// The records of a field descriptor: name (1), number (3), label (4), type (5), the
/// referenced type name (6) if any, the `oneof` index (9) if any, and the JSON name (10).
pub open spec fn field_desc_records(f: FieldDescView) -> Seq<Record> {
    seq![string_record(1, f.name), int32_record(3, f.number), int32_record(4, f.label), int32_record(5, f.kind)]
        + match f.type_ref {
        Some(t) => seq![string_record(6, t)],
        None => seq![],
    } + match f.oneof_index {
        Some(i) => seq![int32_record(9, i)],
        None => seq![],
    } + seq![string_record(10, f.json_name)]
}

/// The encoding of a field descriptor reads back as its records, in field-number order.
pub proof fn lemma_field_desc_reads_back(f: FieldDescView)
    requires
        fits_varint(field_desc_bytes(f).len() as int),
    ensures
        read_records(field_desc_bytes(f)) == Some(field_desc_records(f)),
{
    let a1 = string_field(1, f.name);
    let a2 = int32_field(3, f.number);
    let a3 = int32_field(4, f.label);
    let a4 = int32_field(5, f.kind);
    let a5 = match f.type_ref {
        Some(t) => string_field(6, t),
        None => seq![],
    };
    let a6 = match f.oneof_index {
        Some(i) => int32_field(9, i),
        None => seq![],
    };
    let a7 = string_field(10, f.json_name);
    assert(field_desc_bytes(f) == a1 + a2 + a3 + a4 + a5 + a6 + a7);
    lemma_string_record(1, f.name);
    lemma_int32_record(3, f.number);
    lemma_int32_record(4, f.label);
    lemma_int32_record(5, f.kind);
    match f.type_ref {
        Some(t) => lemma_string_record(6, t),
        None => {},
    }
    match f.oneof_index {
        Some(i) => lemma_int32_record(9, i),
        None => {},
    }
    lemma_string_record(10, f.json_name);
    lemma_read_records_append(a1, a2);
    lemma_read_records_append(a1 + a2, a3);
    lemma_read_records_append(a1 + a2 + a3, a4);
    lemma_read_records_append(a1 + a2 + a3 + a4, a5);
    lemma_read_records_append(a1 + a2 + a3 + a4 + a5, a6);
    lemma_read_records_append(a1 + a2 + a3 + a4 + a5 + a6, a7);
    assert(read_records(field_desc_bytes(f))->0 =~= field_desc_records(f));
}

/// The encoding of a message descriptor reads back as its name (1), then one record (2)
/// per field holding that field's encoding, in the fields' order, then one record (8) per
/// `oneof` group holding the encoding of its name, in their order.
pub proof fn lemma_message_desc_reads_back(m: MessageDescView)
    requires
        fits_varint(message_desc_bytes(m).len() as int),
    ensures
        read_records(message_desc_bytes(m)) == Some(
            seq![string_record(1, m.name)] + m.field.map_values(
                |x: FieldDescView| (2int, WireValue::Bytes(field_desc_bytes(x))),
            ) + m.oneof_decl.map_values(|x: Seq<char>| (8int, WireValue::Bytes(string_field(1, x)))),
        ),
{
    let a1 = string_field(1, m.name);
    let a2 = field_descs_bytes(m.field, m.field.len() as int);
    let a3 = oneof_descs_bytes(m.oneof_decl, m.oneof_decl.len() as int);
    lemma_string_record(1, m.name);
    lemma_fields_records(m.field, m.field.len() as int);
    lemma_oneofs_records(m.oneof_decl, m.oneof_decl.len() as int);
    lemma_read_records_append(a1, a2);
    lemma_read_records_append(a1 + a2, a3);
    assert(m.field.take(m.field.len() as int) =~= m.field);
    assert(m.oneof_decl.take(m.oneof_decl.len() as int) =~= m.oneof_decl);
}

/// The encoding of a `oneof` group's name reads back as that name (1).
pub proof fn lemma_oneof_desc_reads_back(o: Seq<char>)
    requires
        fits_varint(string_field(1, o).len() as int),
    ensures
        read_records(string_field(1, o)) == Some(seq![string_record(1, o)]),
{
    lemma_string_record(1, o);
}

/// The encoding of an enum value reads back as its name (1) and number (2).
pub proof fn lemma_enum_value_reads_back(v: EnumValueDescView)
    requires
        fits_varint((string_field(1, v.name) + int32_field(2, v.number)).len() as int),
    ensures
        read_records(string_field(1, v.name) + int32_field(2, v.number)) == Some(
            seq![string_record(1, v.name), int32_record(2, v.number)],
        ),
{
    lemma_string_record(1, v.name);
    lemma_int32_record(2, v.number);
    lemma_read_records_append(string_field(1, v.name), int32_field(2, v.number));
    assert(seq![string_record(1, v.name)] + seq![int32_record(2, v.number)] =~= seq![
        string_record(1, v.name),
        int32_record(2, v.number),
    ]);
}

/// The encoding of an enum descriptor reads back as its name (1), then one record (2) per
/// value holding that value's encoding, in the values' order.
pub proof fn lemma_enum_desc_reads_back(e: EnumDescView)
    requires
        fits_varint(enum_desc_bytes(e).len() as int),
    ensures
        read_records(enum_desc_bytes(e)) == Some(
            seq![string_record(1, e.name)] + e.value.map_values(
                |x: EnumValueDescView|
                    (2int, WireValue::Bytes(string_field(1, x.name) + int32_field(2, x.number))),
            ),
        ),
{
    lemma_string_record(1, e.name);
    lemma_values_records(e.value, e.value.len() as int);
    lemma_read_records_append(string_field(1, e.name), enum_values_bytes(e.value, e.value.len() as int));
    assert(e.value.take(e.value.len() as int) =~= e.value);
}

/// The encoding of the file options reads back as the Java outer class name (8), the
/// multiple-files flag as 1 or 0 (10) and the Go package (11).
pub proof fn lemma_file_options_reads_back(o: FileOptionsDescView)
    requires
        fits_varint(file_options_bytes(o).len() as int),
    ensures
        read_records(file_options_bytes(o)) == Some(
            seq![
                string_record(8, o.java_outer_classname),
                (10int, WireValue::Varint(if o.java_multiple_files { 1 } else { 0 })),
                string_record(11, o.go_package),
            ],
        ),
{
    let a1 = string_field(8, o.java_outer_classname);
    let a2 = bool_field(10, o.java_multiple_files);
    let a3 = string_field(11, o.go_package);
    lemma_string_record(8, o.java_outer_classname);
    lemma_varint_record(10, if o.java_multiple_files { 1 } else { 0 });
    lemma_string_record(11, o.go_package);
    lemma_read_records_append(a1, a2);
    lemma_read_records_append(a1 + a2, a3);
    assert(read_records(file_options_bytes(o))->0 =~= seq![
        string_record(8, o.java_outer_classname),
        (10int, WireValue::Varint(if o.java_multiple_files { 1 } else { 0 })),
        string_record(11, o.go_package),
    ]);
}

/// The encoding of a file descriptor reads back as its records: its name (1), then one
/// record (4) per message holding that message's encoding, in the messages' order, then
/// one record (5) per enum holding that enum's encoding, in the enums' order, then the
/// options (8) and the syntax (12). So the `k`-th enum record is the encoding of the
/// `k`-th enum, for every `k`, and likewise for the messages.
pub proof fn lemma_file_desc_reads_back(f: FileDescView)
    requires
        fits_varint(file_desc_bytes(f).len() as int),
    ensures
        read_records(file_desc_bytes(f)) == Some(
            seq![string_record(1, f.name)] + f.message_type.map_values(
                |x: MessageDescView| (4int, WireValue::Bytes(message_desc_bytes(x))),
            ) + f.enum_type.map_values(|x: EnumDescView| (5int, WireValue::Bytes(enum_desc_bytes(x))))
                + seq![
                (8int, WireValue::Bytes(file_options_bytes(f.options))),
                string_record(12, f.syntax),
            ],
        ),
{
    let a1 = string_field(1, f.name);
    let a2 = message_descs_bytes(f.message_type, f.message_type.len() as int);
    let a3 = enum_descs_bytes(f.enum_type, f.enum_type.len() as int);
    let a4 = bytes_field(8, file_options_bytes(f.options));
    let a5 = string_field(12, f.syntax);
    lemma_string_record(1, f.name);
    lemma_messages_records(f.message_type, f.message_type.len() as int);
    lemma_enums_records(f.enum_type, f.enum_type.len() as int);
    lemma_bytes_record(8, file_options_bytes(f.options));
    lemma_string_record(12, f.syntax);
    lemma_read_records_append(a1, a2);
    lemma_read_records_append(a1 + a2, a3);
    lemma_read_records_append(a1 + a2 + a3, a4);
    lemma_read_records_append(a1 + a2 + a3 + a4, a5);
    assert(f.message_type.take(f.message_type.len() as int) =~= f.message_type);
    assert(f.enum_type.take(f.enum_type.len() as int) =~= f.enum_type);
    assert(seq![(8int, WireValue::Bytes(file_options_bytes(f.options)))] + seq![string_record(12, f.syntax)]
        =~= seq![(8int, WireValue::Bytes(file_options_bytes(f.options))), string_record(12, f.syntax)]);
}

} // verus!
