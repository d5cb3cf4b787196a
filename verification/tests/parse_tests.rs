use yapbc::ast::comments::Comments;
use yapbc::ast::lexer::{ProtoParser, Token};
use yapbc::ast::message::{Messages, ParseError};
use yapbc::ast::ptype::PType;

const SCHEMA: &str = "syntax = \"proto3\";
package demo;
import \"other/dir/thing.proto\";

// A color
enum Color {
  RED = 0;
  // green
  GREEN = 1;
  // trailing enum note
}

// A person
message Person {
  // the name
  string name = 1;
  optional int32 age = 2;
  repeated Color colors = 3;
  int32 score [default = 5] = 4;
  oneof contact {
    string email = 5;
    // phone number
    int32 phone = 6;
  }
  //trailing
}
";

fn chars(s: &str) -> Vec<char> {
    s.chars().collect()
}

#[test]
fn tokenize_cuts_words_numbers_strings_comments() {
    let toks = ProtoParser::tokenize(&chars("a.b = -12 \"x\\\"y\" // c d\n{}")).unwrap();
    assert_eq!(toks.len(), 7);
    assert!(matches!(&toks[0], Token::Word(w) if w.iter().collect::<String>() == "a.b"));
    assert!(matches!(&toks[1], Token::Punct('=')));
    assert!(matches!(&toks[2], Token::Number(w) if w.iter().collect::<String>() == "-12"));
    assert!(matches!(&toks[3], Token::Str(w) if w.iter().collect::<String>() == "\"x\\\"y\""));
    assert!(matches!(&toks[4], Token::Comment(w) if w.iter().collect::<String>() == "// c d"));
    assert!(matches!(&toks[5], Token::Punct('{')));
    assert!(matches!(&toks[6], Token::Punct('}')));
}

#[test]
fn tokenize_reports_bad_characters() {
    assert_eq!(ProtoParser::tokenize(&chars("message ? x")).unwrap_err(), 8);
    assert_eq!(ProtoParser::tokenize(&chars("\"open")).unwrap_err(), 0);
}

#[test]
fn comments_keep_text_after_first_space() {
    let toks = ProtoParser::tokenize(&chars("// hello world\n//plain\n// \nx")).unwrap();
    let (c, pos) = Comments::parse(&toks, 0);
    assert_eq!(pos, 3);
    assert_eq!(c.comments, vec!["hello world".to_string(), "//plain".to_string(), "".to_string()]);
}

#[test]
fn parse_reads_a_whole_schema() {
    let m = Messages::parse(SCHEMA.to_string(), "demo.proto".to_string()).unwrap();
    assert_eq!(m.package, "demo");
    assert_eq!(m.imports, vec!["\"other/dir/thing.proto\"".to_string()]);
    assert_eq!(m.penums.len(), 1);
    assert_eq!(m.messages.len(), 1);
    let color = &m.penums[0];
    assert_eq!(color.name, "Color");
    assert_eq!(color.index, 0);
    assert_eq!(color.comments.comments, vec!["A color", "trailing enum note"]);
    assert_eq!(color.fields.len(), 2);
    assert_eq!(color.fields[1].name, "GREEN");
    assert_eq!(color.fields[1].index, 1);
    assert_eq!(color.fields[1].comments.comments, vec!["green"]);

    let person = &m.messages[0];
    assert_eq!(person.name, "Person");
    assert_eq!(person.index, 1);
    assert_eq!(person.comments.comments, vec!["A person", "//trailing"]);
    assert_eq!(person.fields.len(), 5);
    let f = &person.fields;
    assert_eq!(f[0].name, "name");
    assert_eq!(f[0].ptype, PType::PString);
    assert_eq!(f[0].comments.comments, vec!["the name"]);
    assert_eq!(f[0].default, None);
    assert_eq!(f[1].ptype, PType::Int32);
    assert_eq!(f[1].default, Some("0".to_string()));
    assert_eq!(f[2].ptype, PType::RepeatedCustom("Color".to_string()));
    assert!(f[2].repeated);
    assert_eq!(f[3].default, Some("5".to_string()));
    assert_eq!(f[3].index, 4);
    assert_eq!(f[4].ptype, PType::Oneof);
    assert_eq!(f[4].index, 0);
    let alts = f[4].maybe_types.as_ref().unwrap();
    assert_eq!(alts.len(), 2);
    assert_eq!(alts[1].name, "phone");
    assert_eq!(alts[1].comments.comments, vec!["phone number"]);
}

#[test]
fn parse_rejects_schemas_without_objects() {
    match Messages::parse("package a;".to_string(), "f.proto".to_string()) {
        Err(ParseError::Empty(f)) => assert_eq!(f, "f.proto"),
        other => panic!("unexpected {:?}", other),
    }
}

#[test]
fn parse_rejects_bad_syntax_and_characters() {
    assert!(matches!(
        Messages::parse("message A { int32 = 1; }".to_string(), "f".to_string()),
        Err(ParseError::Syntax)
    ));
    assert!(matches!(
        Messages::parse("message A { int32 x = 99999999999999999999999; }".to_string(), "f".to_string()),
        Err(ParseError::Syntax)
    ));
    assert!(matches!(
        Messages::parse("message A { oneof o { // dangling\n } }".to_string(), "f".to_string()),
        Err(ParseError::Syntax)
    ));
    assert!(matches!(
        Messages::parse("message A { int32 x = 1; } $".to_string(), "f".to_string()),
        Err(ParseError::Lex(27))
    ));
}

#[test]
fn objects_are_numbered_in_source_order() {
    let m = Messages::parse(
        "message A {} enum B { X = 0; } message C {} enum D {}".to_string(),
        "f".to_string(),
    )
    .unwrap();
    assert_eq!(m.messages[0].index, 0);
    assert_eq!(m.penums[0].index, 1);
    assert_eq!(m.messages[1].index, 2);
    assert_eq!(m.penums[1].index, 3);
}

#[test]
fn ptype_parse_and_names() {
    assert_eq!(PType::parse("int32"), PType::Int32);
    assert_eq!(PType::parse("string"), PType::PString);
    assert_eq!(PType::parse("Foo"), PType::Custom("Foo".to_string()));
    assert_eq!(PType::parse("Foo").repeat(), PType::RepeatedCustom("Foo".to_string()));
    assert_eq!(PType::Int32.repeat().to_string(), "int32");
    assert_eq!(PType::RepeatedCustom("Foo".to_string()).to_string(), "Foo");
    assert!(PType::RepeatedCustom("Foo".to_string()).is_nested());
    assert!(!PType::RepeatedInt32.is_nested());
    assert!(PType::RepeatedInt32.is_repeated());
}

#[test]
fn comments_up_to_the_end_of_the_tokens() {
    let toks = ProtoParser::tokenize(&chars("x\n// a\n// b c")).unwrap();
    let (c, pos) = Comments::parse(&toks, 1);
    assert_eq!(pos, 3);
    assert_eq!(c.comments, vec!["a".to_string(), "b c".to_string()]);
    let (none, end) = Comments::parse(&toks, 3);
    assert_eq!(end, 3);
    assert!(none.comments.is_empty());
}
