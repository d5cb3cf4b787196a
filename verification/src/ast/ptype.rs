//! The types a field can have.
use crate::text::str_eq;
use vstd::prelude::*;

verus! {

/// The type of a field.
#[derive(Debug, PartialEq)]
pub enum PType {
    Int32,
    RepeatedInt32,
    PString,
    RepeatedPString,
    /// A message or enum, by name.
    Custom(String),
    RepeatedCustom(String),
    /// The type of a `oneof` group.
    Oneof,
}

/// What a field type is.
pub enum PTypeView {
    Int32,
    RepeatedInt32,
    PString,
    RepeatedPString,
    Custom(Seq<char>),
    RepeatedCustom(Seq<char>),
    Oneof,
}

impl View for PType {
    type V = PTypeView;

    open spec fn view(&self) -> PTypeView {
        match self {
            PType::Int32 => PTypeView::Int32,
            PType::RepeatedInt32 => PTypeView::RepeatedInt32,
            PType::PString => PTypeView::PString,
            PType::RepeatedPString => PTypeView::RepeatedPString,
            PType::Custom(n) => PTypeView::Custom(n@),
            PType::RepeatedCustom(n) => PTypeView::RepeatedCustom(n@),
            PType::Oneof => PTypeView::Oneof,
        }
    }
}

/// The type that a type name in a schema stands for.
pub open spec fn ptype_of_word(w: Seq<char>) -> PTypeView {
    if w == "int32"@ {
        PTypeView::Int32
    } else if w == "string"@ {
        PTypeView::PString
    } else {
        PTypeView::Custom(w)
    }
}

/// Whether a type has a repeated form: the single (non-repeated) scalar and named types.
pub open spec fn repeatable(t: PTypeView) -> bool {
    t is Int32 || t is PString || t is Custom
}

/// The repeated form of a single type.
pub open spec fn repeated_of(t: PTypeView) -> PTypeView {
    match t {
        PTypeView::Int32 => PTypeView::RepeatedInt32,
        PTypeView::PString => PTypeView::RepeatedPString,
        PTypeView::Custom(n) => PTypeView::RepeatedCustom(n),
        other => other,
    }
}

/// The name of a type as written in a schema; a repeated type has the name of its
/// elements.
pub open spec fn ptype_name(t: PTypeView) -> Seq<char> {
    match t {
        PTypeView::Int32 => "int32"@,
        PTypeView::RepeatedInt32 => "int32"@,
        PTypeView::PString => "string"@,
        PTypeView::RepeatedPString => "string"@,
        PTypeView::Custom(n) => n,
        PTypeView::RepeatedCustom(n) => n,
        PTypeView::Oneof => "oneof"@,
    }
}

/// Whether a type names a message or enum.
pub open spec fn ptype_is_nested(t: PTypeView) -> bool {
    t is Custom || t is RepeatedCustom
}

/// Whether a type is a repeated one.
pub open spec fn ptype_is_repeated(t: PTypeView) -> bool {
    t is RepeatedInt32 || t is RepeatedPString || t is RepeatedCustom
}

/// The Python default value of a field of type `t`.
pub open spec fn python_default(t: PTypeView) -> Seq<char> {
    match t {
        PTypeView::Int32 => "0"@,
        _ => "None"@,
    }
}

/// Reading a type name and writing the type back gives the name again: for every word
/// `w`, the type that `w` stands for has the name `w`.
pub proof fn lemma_ptype_name_round_trip(w: Seq<char>)
    ensures
        ptype_name(ptype_of_word(w)) == w,
{
}

/// The type that a type name stands for never is the type of a `oneof` group, is not
/// repeated, and has a repeated form.
pub proof fn lemma_ptype_of_word_single(w: Seq<char>)
    ensures
        !(ptype_of_word(w) is Oneof),
        !ptype_is_repeated(ptype_of_word(w)),
        repeatable(ptype_of_word(w)),
{
}

/// The repeated form of a type keeps its name and whether it names a message or enum, and
/// is repeated.
pub proof fn lemma_repeated_of_keeps_name(t: PTypeView)
    requires
        repeatable(t),
    ensures
        ptype_name(repeated_of(t)) == ptype_name(t),
        ptype_is_nested(repeated_of(t)) == ptype_is_nested(t),
        ptype_is_repeated(repeated_of(t)),
        !(repeated_of(t) is Oneof),
{
}

impl PType {
    /// The type that the type name `type_str` stands for.
    pub fn parse(type_str: &str) -> (r: PType)
        ensures
            r@ == ptype_of_word(type_str@),
    {
        if str_eq(type_str, "int32") {
            PType::Int32
        } else if str_eq(type_str, "string") {
            PType::PString
        } else {
            PType::Custom(String::from_str(type_str))
        }
    }

    /// The repeated form of this type.
    pub fn repeat(&self) -> (r: PType)
        requires
            repeatable(self@),
        ensures
            r@ == repeated_of(self@),
    {
        match self {
            PType::Int32 => PType::RepeatedInt32,
            PType::PString => PType::RepeatedPString,
            PType::Custom(other) => PType::RepeatedCustom(other.clone()),
            _ => PType::Oneof,
        }
    }

    /// The name of this type as written in a schema.
    pub fn to_string(&self) -> (r: String)
        ensures
            r@ == ptype_name(self@),
    {
        match self {
            PType::Int32 => String::from_str("int32"),
            PType::RepeatedInt32 => String::from_str("int32"),
            PType::PString => String::from_str("string"),
            PType::RepeatedPString => String::from_str("string"),
            PType::Custom(n) => n.clone(),
            PType::RepeatedCustom(n) => n.clone(),
            PType::Oneof => String::from_str("oneof"),
        }
    }

    /// Whether this type names a message or enum.
    pub fn is_nested(&self) -> (r: bool)
        ensures
            r == ptype_is_nested(self@),
    {
        match self {
            PType::RepeatedCustom(_) => true,
            PType::Custom(_) => true,
            _ => false,
        }
    }

    /// Whether this type is a repeated one.
    pub fn is_repeated(&self) -> (r: bool)
        ensures
            r == ptype_is_repeated(self@),
    {
        match self {
            PType::RepeatedInt32 => true,
            PType::RepeatedPString => true,
            PType::RepeatedCustom(_) => true,
            _ => false,
        }
    }

    /// A copy of this type.
    pub fn copy(&self) -> (r: PType)
        ensures
            r@ == self@,
    {
        match self {
            PType::Int32 => PType::Int32,
            PType::RepeatedInt32 => PType::RepeatedInt32,
            PType::PString => PType::PString,
            PType::RepeatedPString => PType::RepeatedPString,
            PType::Custom(n) => PType::Custom(n.clone()),
            PType::RepeatedCustom(n) => PType::RepeatedCustom(n.clone()),
            PType::Oneof => PType::Oneof,
        }
    }
}

} // verus!
