//! The library's representation of an annotated sum-type declaration: the
//! type's name, its generic-parameter signature, and its variants, each
//! carrying the attributes that were written on it.
//!
//! An attribute is a namespace path plus a list of `name = value` fields; the
//! extractor recognizes the `err` namespace and validates its fields.

use vstd::prelude::*;
use vstd::string::StringExecFns;

use crate::text::text_views;

verus! {

/// The value of one annotation field, as written: an integer literal or a
/// text literal.
pub enum FieldValue {
    Int(i64),
    Text(String),
}

pub enum FieldValueView {
    Int(i64),
    Text(Seq<char>),
}

impl View for FieldValue {
    type V = FieldValueView;

    open spec fn view(&self) -> FieldValueView {
        match self {
            FieldValue::Int(i) => FieldValueView::Int(*i),
            FieldValue::Text(s) => FieldValueView::Text(s@),
        }
    }
}

/// One `name = value` field of an attribute.
pub struct AttrField {
    pub name: String,
    pub value: FieldValue,
}

pub struct AttrFieldView {
    pub name: Seq<char>,
    pub value: FieldValueView,
}

impl View for AttrField {
    type V = AttrFieldView;

    open spec fn view(&self) -> AttrFieldView {
        AttrFieldView { name: self.name@, value: self.value@ }
    }
}

/// One attribute attached to a variant: its namespace path and its fields.
pub struct Attr {
    pub path: String,
    pub fields: Vec<AttrField>,
}

pub struct AttrView {
    pub path: Seq<char>,
    pub fields: Seq<AttrFieldView>,
}

impl View for Attr {
    type V = AttrView;

    open spec fn view(&self) -> AttrView {
        AttrView { path: self.path@, fields: self.fields@.map_values(|f: AttrField| f@) }
    }
}

/// One variant of the declared sum type.
pub struct VariantDecl {
    pub identifier: String,
    pub attrs: Vec<Attr>,
}

pub struct VariantDeclView {
    pub identifier: Seq<char>,
    pub attrs: Seq<AttrView>,
}

impl View for VariantDecl {
    type V = VariantDeclView;

    open spec fn view(&self) -> VariantDeclView {
        VariantDeclView {
            identifier: self.identifier@,
            attrs: self.attrs@.map_values(|a: Attr| a@),
        }
    }
}

/// One generic parameter of the declared type, in declaration order.
///
/// A lifetime name is stored without its leading tick; a type parameter
/// carries its inline bounds as written; a const parameter carries its type.
pub enum GenericParam {
    Lifetime { name: String },
    Type { name: String, bounds: Vec<String> },
    Const { name: String, ty: String },
}

pub enum GenericParamView {
    Lifetime { name: Seq<char> },
    Type { name: Seq<char>, bounds: Seq<Seq<char>> },
    Const { name: Seq<char>, ty: Seq<char> },
}

impl View for GenericParam {
    type V = GenericParamView;

    open spec fn view(&self) -> GenericParamView {
        match self {
            GenericParam::Lifetime { name } => GenericParamView::Lifetime { name: name@ },
            GenericParam::Type { name, bounds } => GenericParamView::Type {
                name: name@,
                bounds: text_views(bounds@),
            },
            GenericParam::Const { name, ty } => GenericParamView::Const { name: name@, ty: ty@ },
        }
    }
}

/// The generic-parameter signature of the declared type: its ordered
/// parameter list and the predicates of its where-clause.
pub struct Generics {
    pub params: Vec<GenericParam>,
    pub where_predicates: Vec<String>,
}

pub struct GenericsView {
    pub params: Seq<GenericParamView>,
    pub where_predicates: Seq<Seq<char>>,
}

impl View for Generics {
    type V = GenericsView;

    open spec fn view(&self) -> GenericsView {
        GenericsView {
            params: self.params@.map_values(|p: GenericParam| p@),
            where_predicates: text_views(self.where_predicates@),
        }
    }
}

/// A sum-type declaration: name, generic signature, and ordered variants.
pub struct EnumDecl {
    pub name: String,
    pub generics: Generics,
    pub variants: Vec<VariantDecl>,
}

pub struct EnumDeclView {
    pub name: Seq<char>,
    pub generics: GenericsView,
    pub variants: Seq<VariantDeclView>,
}

impl View for EnumDecl {
    type V = EnumDeclView;

    open spec fn view(&self) -> EnumDeclView {
        EnumDeclView {
            name: self.name@,
            generics: self.generics@,
            variants: self.variants@.map_values(|v: VariantDecl| v@),
        }
    }
}

/// The views of a sequence of attribute fields.
pub open spec fn field_views(s: Seq<AttrField>) -> Seq<AttrFieldView> {
    s.map_values(|f: AttrField| f@)
}

/// The views of a sequence of attributes.
pub open spec fn attr_views(s: Seq<Attr>) -> Seq<AttrView> {
    s.map_values(|a: Attr| a@)
}

/// The views of a sequence of variant declarations.
pub open spec fn variant_views(s: Seq<VariantDecl>) -> Seq<VariantDeclView> {
    s.map_values(|v: VariantDecl| v@)
}

/// The namespace under which per-variant response metadata is written.
pub open spec fn err_namespace() -> Seq<char> {
    "err"@
}

/// Whether an attribute belongs to the recognized metadata namespace.
pub fn is_err_attr(a: &Attr) -> (b: bool)
    ensures
        b == (a@.path == err_namespace()),
{
    let ns = String::from_str("err");
    a.path == ns
}

} // verus!
