use yapbc::ast::comments::Comments;
use yapbc::ast::field::Field;
use yapbc::ast::message::{Message, Messages};
use yapbc::ast::penum::PEnum;
use yapbc::ast::penum_field::PEnumField;
use yapbc::ast::ptype::PType;

fn comments(cs: &[&str]) -> Comments {
    Comments { comments: cs.iter().map(|c| c.to_string()).collect() }
}

fn field(name: &str, ptype: PType, index: usize, default: Option<&str>, cs: &[&str]) -> Field {
    Field {
        name: name.to_string(),
        repeated: matches!(ptype, PType::RepeatedInt32 | PType::RepeatedPString | PType::RepeatedCustom(_)),
        ptype,
        comments: comments(cs),
        index,
        default: default.map(|d| d.to_string()),
        maybe_types: None,
    }
}

fn contact() -> Field {
    Field {
        name: "contact".to_string(),
        ptype: PType::Oneof,
        comments: comments(&[]),
        repeated: false,
        index: 0,
        default: None,
        maybe_types: Some(vec![
            field("email", PType::PString, 5, None, &[]),
            field("phone", PType::Int32, 6, None, &["phone number"]),
        ]),
    }
}

#[test]
fn ptype_python_annotations() {
    assert_eq!(PType::Int32.compile_python(), ("int".to_string(), "TYPE_INT32".to_string()));
    assert_eq!(PType::RepeatedPString.compile_python(), ("List[str]".to_string(), "TYPE_STRING".to_string()));
    assert_eq!(
        PType::RepeatedCustom("A".to_string()).compile_python(),
        ("List[\"A\"]".to_string(), "TYPE_MESSAGE".to_string())
    );
    assert_eq!(PType::Custom("A".to_string()).compile_python().0, "\"A\"");
    assert_eq!(PType::Oneof.compile_python(), ("oneof".to_string(), "TYPE_ONEOF".to_string()));
    assert_eq!(PType::Int32.default_python(), "0");
    assert_eq!(PType::PString.default_python(), "None");
}

#[test]
fn comments_as_docstring_and_oneliner() {
    assert_eq!(comments(&[]).compile_python(), "");
    assert_eq!(comments(&["a", "b"]).compile_python(), "    \"\"\"\n    a\n    b\n    \"\"\"\n\n");
    assert_eq!(comments(&[]).oneliner_python(), "-");
    assert_eq!(comments(&["a", "b"]).oneliner_python(), "a b ");
}

#[test]
fn enum_field_and_enum_classes() {
    let green = PEnumField { name: "GREEN".to_string(), index: 1, comments: comments(&["green"]) };
    assert_eq!(green.compile_python(), "GREEN = 1\n    \"\"\"\n    green\n    \"\"\"\n\n");
    let e = PEnum {
        name: "Color".to_string(),
        fields: vec![PEnumField { name: "RED".to_string(), index: 0, comments: comments(&[]) }, green],
        comments: comments(&["A color"]),
        index: 0,
    };
    assert_eq!(
        e.compile_python(),
        "class Color(betterproto2.Enum):\n    \"\"\"\n    A color\n    \"\"\"\n\n    RED = 0\n    GREEN = 1\n    \"\"\"\n    green\n    \"\"\"\n\n\n"
    );
}

#[test]
fn plain_field_code() {
    let f = field("name", PType::PString, 1, None, &["the name"]);
    assert_eq!(
        f.compile_python(),
        (
            "name: str = betterproto2.field(1, betterproto2.TYPE_STRING, repeated=False, optional=False)\n    \"\"\"\n    the name\n    \"\"\"\n\n".to_string(),
            "name: str".to_string(),
            "the name ".to_string()
        )
    );
    let g = field("ids", PType::RepeatedCustom("Id".to_string()), 3, Some("None"), &[]);
    assert_eq!(
        g.compile_python().0,
        "ids: Optional[List[\"Id\"]] = betterproto2.field(3, betterproto2.TYPE_MESSAGE, repeated=True, optional=True)\n"
    );
}

#[test]
fn oneof_field_code() {
    let (code, params, line) = contact().compile_python();
    assert_eq!(
        code,
        "email: \"str | None\"= betterproto2.field(5, betterproto2.TYPE_STRING, optional=True, group=\"contact\")\n    phone: \"int | None\"= betterproto2.field(6, betterproto2.TYPE_INT32, optional=True, group=\"contact\")\n    "
    );
    assert_eq!(params, "\n        email: \"str | None\" = None,\n        phone: \"int | None\" = None");
    assert_eq!(line, "-");
}

#[test]
fn message_dataclass() {
    let m = Message {
        name: "Person".to_string(),
        fields: vec![
            field("name", PType::PString, 1, None, &["the name"]),
            field("age", PType::Int32, 2, Some("0"), &[]),
            field("nick", PType::PString, 7, Some("PLACEHOLDER"), &[]),
            contact(),
        ],
        comments: comments(&[]),
        index: 1,
    };
    let expected = String::from("@dataclass(\n    kw_only=True,\n    init=False,\n    eq=False,\n    repr=False,\n)\nclass Person(betterproto2.Message):\n")
        + "    name: str = betterproto2.field(1, betterproto2.TYPE_STRING, repeated=False, optional=False)\n    \"\"\"\n    the name\n    \"\"\"\n\n"
        + "    age: Optional[int] = betterproto2.field(2, betterproto2.TYPE_INT32, repeated=False, optional=True)\n"
        + "    nick: Optional[str] = betterproto2.field(7, betterproto2.TYPE_STRING, repeated=False, optional=True)\n"
        + "    email: \"str | None\"= betterproto2.field(5, betterproto2.TYPE_STRING, optional=True, group=\"contact\")\n    phone: \"int | None\"= betterproto2.field(6, betterproto2.TYPE_INT32, optional=True, group=\"contact\")\n    "
        + "\n    def __init__(\n        self,\n        *,\n"
        + "        name: str, \n"
        + "        age: Optional[int] = 0, \n"
        + "        nick: Optional[str] = None, \n"
        + "        \n        email: \"str | None\" = None,\n        phone: \"int | None\" = None, \n"
        + "    ):\n        \"\"\"\n"
        + "        :param name: the name  \n"
        + "        :param age: - \n"
        + "        :param nick: - \n"
        + "        \"\"\"\n"
        + "        self.name = name\n        self.age = age\n        self.nick = nick\n        self.email = email\n        self.phone = phone\n"
        + "\n        self._unknown_fields = b\"\"\n        ";
    assert_eq!(m.compile_python(), expected);
}

#[test]
fn module_lists_enums_then_registered_messages() {
    let schema = Messages::parse(
        "message M { int32 x = 1; } enum E { A = 0; }".to_string(),
        "m.proto".to_string(),
    )
    .unwrap();
    let out = schema.compile_python();
    let e = schema.penums[0].compile_python() + "\n";
    let m = schema.messages[0].compile_python()
        + "\n"
        + "default_message_pool.register_message(\"\", \"M\", M)\n\n";
    assert_eq!(out, e + &m);
}
