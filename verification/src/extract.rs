//! The metadata extractor: walks the variants of a declaration, validates the
//! fields of each variant's `err` annotation, fills defaults, and produces one
//! normalized record per variant, in declaration order.
//!
//! A wholly absent annotation resolves to the defaults directly; a present
//! annotation has each of its fields validated, and only the omitted fields
//! default. Any recognized-but-invalid field fails extraction with an error
//! naming the offending variant (and field, where one is at fault).

use vstd::prelude::*;
use vstd::string::StringExecFns;

use crate::decl::{
    Attr,
    AttrField,
    AttrFieldView,
    AttrView,
    EnumDecl,
    EnumDeclView,
    FieldValue,
    FieldValueView,
    VariantDecl,
    VariantDeclView,
    attr_views,
    err_namespace,
    field_views,
    is_err_attr,
    variant_views,
};

verus! {

/// The validated, defaulted form of one variant's annotation.
pub struct NormalizedVariant {
    pub identifier: String,
    pub status: u64,
    pub message: String,
}

pub struct NormalizedVariantView {
    pub identifier: Seq<char>,
    pub status: u64,
    pub message: Seq<char>,
}

impl View for NormalizedVariant {
    type V = NormalizedVariantView;

    open spec fn view(&self) -> NormalizedVariantView {
        NormalizedVariantView {
            identifier: self.identifier@,
            status: self.status,
            message: self.message@,
        }
    }
}

/// The views of a sequence of normalized variants.
pub open spec fn norm_views(s: Seq<NormalizedVariant>) -> Seq<NormalizedVariantView> {
    s.map_values(|n: NormalizedVariant| n@)
}

/// Why extraction failed; each error names the offending variant.
#[derive(Debug)]
pub enum ExtractError {
    /// An `err` annotation holds a field with an unrecognized name.
    UnrecognizedField { variant: String, field: String },
    /// An `err` annotation gives the same field twice.
    DuplicateField { variant: String, field: String },
    /// The `status` field is not a non-negative integer.
    InvalidStatus { variant: String },
    /// The `message` field is not a text.
    InvalidMessage { variant: String },
}

pub enum ExtractErrorView {
    UnrecognizedField { variant: Seq<char>, field: Seq<char> },
    DuplicateField { variant: Seq<char>, field: Seq<char> },
    InvalidStatus { variant: Seq<char> },
    InvalidMessage { variant: Seq<char> },
}

impl View for ExtractError {
    type V = ExtractErrorView;

    open spec fn view(&self) -> ExtractErrorView {
        match self {
            ExtractError::UnrecognizedField { variant, field } => {
                ExtractErrorView::UnrecognizedField { variant: variant@, field: field@ }
            },
            ExtractError::DuplicateField { variant, field } => {
                ExtractErrorView::DuplicateField { variant: variant@, field: field@ }
            },
            ExtractError::InvalidStatus { variant } => {
                ExtractErrorView::InvalidStatus { variant: variant@ }
            },
            ExtractError::InvalidMessage { variant } => {
                ExtractErrorView::InvalidMessage { variant: variant@ }
            },
        }
    }
}

/// The status a variant resolves to when its annotation does not give one.
pub open spec fn default_status() -> u64 {
    500
}

/// The message a variant resolves to when its annotation does not give one.
pub open spec fn default_message() -> Seq<char> {
    "Internal server error"@
}

/// The recognized annotation field holding the response status.
pub open spec fn status_key() -> Seq<char> {
    "status"@
}

/// The recognized annotation field holding the response message.
pub open spec fn message_key() -> Seq<char> {
    "message"@
}

/// The view of an optional pending message value.
pub open spec fn opt_text(m: Option<String>) -> Option<Seq<char>> {
    match m {
        Some(s) => Some(s@),
        None => None,
    }
}

/// The fields of all `err` attributes of a variant, in written order.
pub open spec fn err_fields_of_attrs(attrs: Seq<AttrView>) -> Seq<AttrFieldView>
    decreases attrs.len(),
{
    if attrs.len() == 0 {
        Seq::empty()
    } else if attrs[0].path == err_namespace() {
        attrs[0].fields + err_fields_of_attrs(attrs.drop_first())
    } else {
        err_fields_of_attrs(attrs.drop_first())
    }
}

/// Whether any attribute of the list belongs to the `err` namespace.
pub open spec fn has_err_attr(attrs: Seq<AttrView>) -> bool {
    exists|j: int| 0 <= j < attrs.len() && attrs[j].path == err_namespace()
}

/// Resolution of an annotation's field list, walked left to right with the
/// already-seen `status` and `message` values as accumulators: the first
/// offending field decides the error; omitted fields fall back to defaults.
pub open spec fn resolve_fields(
    ident: Seq<char>,
    fields: Seq<AttrFieldView>,
    st: Option<u64>,
    msg: Option<Seq<char>>,
) -> Result<(u64, Seq<char>), ExtractErrorView>
    decreases fields.len(),
{
    if fields.len() == 0 {
        Ok(
            (
                match st {
                    Some(s) => s,
                    None => default_status(),
                },
                match msg {
                    Some(m) => m,
                    None => default_message(),
                },
            ),
        )
    } else {
        let f = fields[0];
        if f.name == status_key() {
            if st is Some {
                Err(ExtractErrorView::DuplicateField { variant: ident, field: f.name })
            } else {
                match f.value {
                    FieldValueView::Int(v) => {
                        if v >= 0 {
                            resolve_fields(ident, fields.drop_first(), Some(v as u64), msg)
                        } else {
                            Err(ExtractErrorView::InvalidStatus { variant: ident })
                        }
                    },
                    FieldValueView::Text(_) => {
                        Err(ExtractErrorView::InvalidStatus { variant: ident })
                    },
                }
            }
        } else if f.name == message_key() {
            if msg is Some {
                Err(ExtractErrorView::DuplicateField { variant: ident, field: f.name })
            } else {
                match f.value {
                    FieldValueView::Text(t) => {
                        resolve_fields(ident, fields.drop_first(), st, Some(t))
                    },
                    FieldValueView::Int(_) => {
                        Err(ExtractErrorView::InvalidMessage { variant: ident })
                    },
                }
            }
        } else {
            Err(ExtractErrorView::UnrecognizedField { variant: ident, field: f.name })
        }
    }
}

/// Resolution of one variant: a wholly absent annotation takes the defaults;
/// a present one has its fields validated and filled.
pub open spec fn resolve_variant(v: VariantDeclView) -> Result<
    NormalizedVariantView,
    ExtractErrorView,
> {
    if !has_err_attr(v.attrs) {
        Ok(
            NormalizedVariantView {
                identifier: v.identifier,
                status: default_status(),
                message: default_message(),
            },
        )
    } else {
        match resolve_fields(v.identifier, err_fields_of_attrs(v.attrs), None, None) {
            Ok(p) => Ok(
                NormalizedVariantView { identifier: v.identifier, status: p.0, message: p.1 },
            ),
            Err(e) => Err(e),
        }
    }
}

/// Extraction over the whole variant list, in declaration order; the first
/// failing variant decides the error.
pub open spec fn extract_all(vs: Seq<VariantDeclView>) -> Result<
    Seq<NormalizedVariantView>,
    ExtractErrorView,
>
    decreases vs.len(),
{
    if vs.len() == 0 {
        Ok(Seq::empty())
    } else {
        match resolve_variant(vs[0]) {
            Err(e) => Err(e),
            Ok(n) => match extract_all(vs.drop_first()) {
                Err(e) => Err(e),
                Ok(rest) => Ok(seq![n] + rest),
            },
        }
    }
}

/// An attribute list with every `err` attribute removed, all else kept.
pub open spec fn stripped_attrs(attrs: Seq<AttrView>) -> Seq<AttrView>
    decreases attrs.len(),
{
    if attrs.len() == 0 {
        Seq::empty()
    } else if attrs[0].path == err_namespace() {
        stripped_attrs(attrs.drop_first())
    } else {
        seq![attrs[0]] + stripped_attrs(attrs.drop_first())
    }
}

/// A variant with its `err` attributes consumed.
pub open spec fn stripped_variant(v: VariantDeclView) -> VariantDeclView {
    VariantDeclView { identifier: v.identifier, attrs: stripped_attrs(v.attrs) }
}

/// A variant list with every variant's `err` attributes consumed.
pub open spec fn stripped_variants(vs: Seq<VariantDeclView>) -> Seq<VariantDeclView>
    decreases vs.len(),
{
    if vs.len() == 0 {
        Seq::empty()
    } else {
        seq![stripped_variant(vs[0])] + stripped_variants(vs.drop_first())
    }
}

/// A declaration with its annotation metadata consumed.
pub open spec fn stripped_decl(d: EnumDeclView) -> EnumDeclView {
    EnumDeclView { name: d.name, generics: d.generics, variants: stripped_variants(d.variants) }
}

/// Whether an exec per-variant result is the given spec resolution.
pub open spec fn variant_result_matches(
    r: Result<NormalizedVariant, ExtractError>,
    s: Result<NormalizedVariantView, ExtractErrorView>,
) -> bool {
    match (r, s) {
        (Ok(n), Ok(m)) => n@ == m,
        (Err(e), Err(f)) => e@ == f,
        _ => false,
    }
}

fn clone_field(f: &AttrField) -> (r: AttrField)
    ensures
        r@ == f@,
{
    AttrField {
        name: f.name.clone(),
        value: match &f.value {
            FieldValue::Int(v) => FieldValue::Int(*v),
            FieldValue::Text(t) => FieldValue::Text(t.clone()),
        },
    }
}

fn clone_fields(fields: &Vec<AttrField>) -> (r: Vec<AttrField>)
    ensures
        field_views(r@) == field_views(fields@),
{
    let mut r: Vec<AttrField> = Vec::new();
    let mut i: usize = 0;
    while i < fields.len()
        invariant
            i <= fields@.len(),
            r@.len() == i,
            forall|j: int| 0 <= j < i ==> r@[j]@ == fields@[j]@,
        decreases fields@.len() - i,
    {
        r.push(clone_field(&fields[i]));
        i = i + 1;
    }
    proof {
        assert(field_views(r@) =~= field_views(fields@));
    }
    r
}

fn clone_attr(a: &Attr) -> (r: Attr)
    ensures
        r@ == a@,
{
    let r = Attr { path: a.path.clone(), fields: clone_fields(&a.fields) };
    proof {
        assert(r@ == a@);
    }
    r
}

fn has_err(attrs: &Vec<Attr>) -> (b: bool)
    ensures
        b == has_err_attr(attr_views(attrs@)),
{
    let mut i: usize = 0;
    while i < attrs.len()
        invariant
            i <= attrs@.len(),
            forall|j: int| 0 <= j < i ==> attr_views(attrs@)[j].path != err_namespace(),
        decreases attrs@.len() - i,
    {
        if is_err_attr(&attrs[i]) {
            proof {
                assert(attr_views(attrs@)[i as int].path == err_namespace());
            }
            return true;
        }
        i = i + 1;
    }
    false
}

fn collect_err_fields(attrs: &Vec<Attr>, i: usize) -> (r: Vec<AttrField>)
    requires
        i <= attrs@.len(),
    ensures
        field_views(r@) == err_fields_of_attrs(attr_views(attrs@).skip(i as int)),
    decreases attrs@.len() - i,
{
    if i == attrs.len() {
        let r: Vec<AttrField> = Vec::new();
        proof {
            assert(attr_views(attrs@).skip(i as int) =~= Seq::<AttrView>::empty());
            assert(field_views(r@) =~= err_fields_of_attrs(attr_views(attrs@).skip(i as int)));
        }
        r
    } else {
        proof {
            assert(attr_views(attrs@).skip(i as int)[0] == attrs@[i as int]@);
            assert(attr_views(attrs@).skip(i as int).drop_first() =~= attr_views(attrs@).skip(
                i as int + 1,
            ));
        }
        let mut rest = collect_err_fields(attrs, i + 1);
        if is_err_attr(&attrs[i]) {
            let mut r = clone_fields(&attrs[i].fields);
            r.append(&mut rest);
            proof {
                assert(field_views(r@) =~= err_fields_of_attrs(attr_views(attrs@).skip(i as int)));
            }
            r
        } else {
            rest
        }
    }
}

fn resolve_fields_from(
    ident: &String,
    fields: &Vec<AttrField>,
    i: usize,
    st: Option<u64>,
    msg: Option<String>,
) -> (r: Result<(u64, String), ExtractError>)
    requires
        i <= fields@.len(),
    ensures
        (match (r, resolve_fields(ident@, field_views(fields@).skip(i as int), st, opt_text(msg))) {
            (Ok(p), Ok(q)) => p.0 == q.0 && p.1@ == q.1,
            (Err(e), Err(f)) => e@ == f,
            _ => false,
        }),
    decreases fields@.len() - i,
{
    if i == fields.len() {
        proof {
            assert(field_views(fields@).skip(i as int) =~= Seq::<AttrFieldView>::empty());
        }
        let s: u64 = match st {
            Some(v) => v,
            None => 500,
        };
        let m: String = match msg {
            Some(t) => t,
            None => String::from_str("Internal server error"),
        };
        Ok((s, m))
    } else {
        proof {
            assert(field_views(fields@).skip(i as int)[0] == fields@[i as int]@);
            assert(field_views(fields@).skip(i as int).drop_first() =~= field_views(fields@).skip(
                i as int + 1,
            ));
        }
        let f = &fields[i];
        let status_k = String::from_str("status");
        let message_k = String::from_str("message");
        if f.name == status_k {
            if st.is_some() {
                Err(
                    ExtractError::DuplicateField {
                        variant: ident.clone(),
                        field: f.name.clone(),
                    },
                )
            } else {
                match &f.value {
                    FieldValue::Int(v) => {
                        if *v >= 0 {
                            resolve_fields_from(ident, fields, i + 1, Some(*v as u64), msg)
                        } else {
                            Err(ExtractError::InvalidStatus { variant: ident.clone() })
                        }
                    },
                    FieldValue::Text(_) => {
                        Err(ExtractError::InvalidStatus { variant: ident.clone() })
                    },
                }
            }
        } else if f.name == message_k {
            if msg.is_some() {
                Err(
                    ExtractError::DuplicateField {
                        variant: ident.clone(),
                        field: f.name.clone(),
                    },
                )
            } else {
                match &f.value {
                    FieldValue::Text(t) => {
                        resolve_fields_from(ident, fields, i + 1, st, Some(t.clone()))
                    },
                    FieldValue::Int(_) => {
                        Err(ExtractError::InvalidMessage { variant: ident.clone() })
                    },
                }
            }
        } else {
            Err(
                ExtractError::UnrecognizedField { variant: ident.clone(), field: f.name.clone() },
            )
        }
    }
}

/// Resolves one variant's annotation to its normalized record.
pub fn resolve_variant_data(v: &VariantDecl) -> (r: Result<NormalizedVariant, ExtractError>)
    ensures
        variant_result_matches(r, resolve_variant(v@)),
{
    if !has_err(&v.attrs) {
        Ok(
            NormalizedVariant {
                identifier: v.identifier.clone(),
                status: 500,
                message: String::from_str("Internal server error"),
            },
        )
    } else {
        let fs = collect_err_fields(&v.attrs, 0);
        proof {
            assert(attr_views(v.attrs@).skip(0) =~= attr_views(v.attrs@));
            assert(field_views(fs@).skip(0) =~= field_views(fs@));
        }
        match resolve_fields_from(&v.identifier, &fs, 0, None, None) {
            Ok(p) => Ok(
                NormalizedVariant { identifier: v.identifier.clone(), status: p.0, message: p.1 },
            ),
            Err(e) => Err(e),
        }
    }
}

fn extract_from(vs: &Vec<VariantDecl>, i: usize) -> (r: Result<Vec<NormalizedVariant>, ExtractError>)
    requires
        i <= vs@.len(),
    ensures
        (match (r, extract_all(variant_views(vs@).skip(i as int))) {
            (Ok(ns), Ok(ms)) => norm_views(ns@) == ms,
            (Err(e), Err(f)) => e@ == f,
            _ => false,
        }),
    decreases vs@.len() - i,
{
    if i == vs.len() {
        let r: Vec<NormalizedVariant> = Vec::new();
        proof {
            assert(variant_views(vs@).skip(i as int) =~= Seq::<VariantDeclView>::empty());
            assert(norm_views(r@) =~= Seq::<NormalizedVariantView>::empty());
        }
        Ok(r)
    } else {
        proof {
            assert(variant_views(vs@).skip(i as int)[0] == vs@[i as int]@);
            assert(variant_views(vs@).skip(i as int).drop_first() =~= variant_views(vs@).skip(
                i as int + 1,
            ));
        }
        match resolve_variant_data(&vs[i]) {
            Err(e) => Err(e),
            Ok(n) => match extract_from(vs, i + 1) {
                Err(e) => Err(e),
                Ok(rest) => {
                    let mut out = rest;
                    out.insert(0, n);
                    proof {
                        let s = extract_all(variant_views(vs@).skip(i as int));
                        assert(s is Ok);
                        assert(norm_views(out@) =~= (match s {
                            Ok(ms) => ms,
                            Err(_) => Seq::<NormalizedVariantView>::empty(),
                        }));
                    }
                    Ok(out)
                },
            },
        }
    }
}

fn strip_attrs_from(attrs: &Vec<Attr>, i: usize) -> (r: Vec<Attr>)
    requires
        i <= attrs@.len(),
    ensures
        attr_views(r@) == stripped_attrs(attr_views(attrs@).skip(i as int)),
    decreases attrs@.len() - i,
{
    if i == attrs.len() {
        let r: Vec<Attr> = Vec::new();
        proof {
            assert(attr_views(attrs@).skip(i as int) =~= Seq::<AttrView>::empty());
            assert(attr_views(r@) =~= Seq::<AttrView>::empty());
        }
        r
    } else {
        proof {
            assert(attr_views(attrs@).skip(i as int)[0] == attrs@[i as int]@);
            assert(attr_views(attrs@).skip(i as int).drop_first() =~= attr_views(attrs@).skip(
                i as int + 1,
            ));
        }
        let rest = strip_attrs_from(attrs, i + 1);
        if is_err_attr(&attrs[i]) {
            rest
        } else {
            let mut out = rest;
            out.insert(0, clone_attr(&attrs[i]));
            proof {
                assert(attr_views(out@) =~= stripped_attrs(attr_views(attrs@).skip(i as int)));
            }
            out
        }
    }
}

fn strip_variants_from(vs: &Vec<VariantDecl>, i: usize) -> (r: Vec<VariantDecl>)
    requires
        i <= vs@.len(),
    ensures
        variant_views(r@) == stripped_variants(variant_views(vs@).skip(i as int)),
    decreases vs@.len() - i,
{
    if i == vs.len() {
        let r: Vec<VariantDecl> = Vec::new();
        proof {
            assert(variant_views(vs@).skip(i as int) =~= Seq::<VariantDeclView>::empty());
            assert(variant_views(r@) =~= Seq::<VariantDeclView>::empty());
        }
        r
    } else {
        proof {
            assert(variant_views(vs@).skip(i as int)[0] == vs@[i as int]@);
            assert(variant_views(vs@).skip(i as int).drop_first() =~= variant_views(vs@).skip(
                i as int + 1,
            ));
        }
        let rest = strip_variants_from(vs, i + 1);
        let stripped = VariantDecl {
            identifier: vs[i].identifier.clone(),
            attrs: strip_attrs_from(&vs[i].attrs, 0),
        };
        proof {
            assert(attr_views(vs@[i as int].attrs@).skip(0) =~= attr_views(vs@[i as int].attrs@));
            assert(stripped@ == stripped_variant(vs@[i as int]@));
        }
        let mut out = rest;
        out.insert(0, stripped);
        proof {
            assert(variant_views(out@) =~= stripped_variants(variant_views(vs@).skip(i as int)));
        }
        out
    }
}

/// Walks the declaration's variants, validates and defaults each variant's
/// annotation, and consumes the annotations: on success the normalized
/// records come back in declaration order, one per variant, together with the
/// declaration stripped of its `err` attributes; the first invalid annotation
/// fails extraction with an error naming the offending variant.
pub fn extract_variants_data(decl: EnumDecl) -> (r: Result<
    (Vec<NormalizedVariant>, EnumDecl),
    ExtractError,
>)
    ensures
        (match (r, extract_all(decl@.variants)) {
            (Ok(p), Ok(ms)) => norm_views(p.0@) == ms && p.1@ == stripped_decl(decl@),
            (Err(e), Err(f)) => e@ == f,
            _ => false,
        }),
{
    let ghost dv = decl@;
    match extract_from(&decl.variants, 0) {
        Err(e) => {
            proof {
                assert(variant_views(decl.variants@).skip(0) =~= dv.variants);
            }
            Err(e)
        },
        Ok(norms) => {
            proof {
                assert(variant_views(decl.variants@).skip(0) =~= dv.variants);
            }
            let stripped_vs = strip_variants_from(&decl.variants, 0);
            let stripped = EnumDecl {
                name: decl.name,
                generics: decl.generics,
                variants: stripped_vs,
            };
            proof {
                assert(stripped@ == stripped_decl(dv));
            }
            Ok((norms, stripped))
        },
    }
}

} // verus!
