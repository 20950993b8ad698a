//! The library's stated laws, proved against the extractor's and the
//! generator's contracts: one arm per variant, defaulting, explicit and
//! partial annotations, rejection of unrecognized fields, determinism of
//! generation, and preservation of the generic signature.

use vstd::prelude::*;

use crate::decl::{AttrFieldView, EnumDeclView, FieldValueView, VariantDeclView};
use crate::extract::{
    ExtractErrorView,
    NormalizedVariantView,
    err_fields_of_attrs,
    extract_all,
    has_err_attr,
    message_key,
    resolve_fields,
    resolve_variant,
    status_key,
};
use crate::generate::{GeneratedImplView, derive_text, impl_text};

verus! {

/// Extraction yields exactly one record per variant, in declaration order,
/// each carrying its variant's identifier: no variant is dropped, none is
/// visited twice. The generated match therefore has one arm per variant.
pub proof fn lemma_one_arm_per_variant(vs: Seq<VariantDeclView>, ns: Seq<NormalizedVariantView>)
    requires
        extract_all(vs) == Ok::<Seq<NormalizedVariantView>, ExtractErrorView>(ns),
    ensures
        ns.len() == vs.len(),
        forall|i: int| 0 <= i < vs.len() ==> ns[i].identifier == vs[i].identifier,
    decreases vs.len(),
{
    if vs.len() == 0 {
    } else {
        let n0 = resolve_variant(vs[0])->Ok_0;
        let rest = extract_all(vs.drop_first())->Ok_0;
        assert(ns == seq![n0] + rest);
        lemma_one_arm_per_variant(vs.drop_first(), rest);
        assert(n0.identifier == vs[0].identifier);
        assert(forall|i: int| 1 <= i < ns.len() ==> ns[i] == rest[i - 1]);
        assert(forall|i: int| 1 <= i < vs.len() ==> vs.drop_first()[i - 1] == vs[i]);
    }
}

/// Distinct variant identifiers stay distinct in the extracted records, so
/// the generated match holds no duplicate arm.
pub proof fn lemma_arms_distinct(vs: Seq<VariantDeclView>, ns: Seq<NormalizedVariantView>)
    requires
        extract_all(vs) == Ok::<Seq<NormalizedVariantView>, ExtractErrorView>(ns),
        forall|i: int, j: int|
            0 <= i < j < vs.len() ==> vs[i].identifier != vs[j].identifier,
    ensures
        forall|i: int, j: int|
            0 <= i < j < ns.len() ==> ns[i].identifier != ns[j].identifier,
{
    lemma_one_arm_per_variant(vs, ns);
}

/// A variant with no annotation resolves to exactly the defaults: status
/// 500 and the default message.
pub proof fn lemma_absent_annotation_defaults(v: VariantDeclView)
    requires
        !has_err_attr(v.attrs),
    ensures
        resolve_variant(v) == Ok::<NormalizedVariantView, ExtractErrorView>(
            NormalizedVariantView {
                identifier: v.identifier,
                status: 500,
                message: "Internal server error"@,
            },
        ),
{
}

/// A variant annotated with an explicit status and message resolves to
/// exactly that pair.
pub proof fn lemma_explicit_annotation(v: VariantDeclView, s: i64, m: Seq<char>)
    requires
        has_err_attr(v.attrs),
        0 <= s,
        err_fields_of_attrs(v.attrs) == seq![
            AttrFieldView { name: "status"@, value: FieldValueView::Int(s) },
            AttrFieldView { name: "message"@, value: FieldValueView::Text(m) },
        ],
    ensures
        resolve_variant(v) == Ok::<NormalizedVariantView, ExtractErrorView>(
            NormalizedVariantView { identifier: v.identifier, status: s as u64, message: m },
        ),
{
    reveal_strlit("status");
    reveal_strlit("message");
    reveal_with_fuel(resolve_fields, 4);
    assert("status"@.len() == 6);
    assert("message"@.len() == 7);
    let fs = err_fields_of_attrs(v.attrs);
    assert(fs[0].name == status_key());
    assert(fs.drop_first() =~= seq![
        AttrFieldView { name: "message"@, value: FieldValueView::Text(m) },
    ]);
    assert(fs.drop_first()[0].name != status_key());
    assert(fs.drop_first()[0].name == message_key());
    assert(fs.drop_first().drop_first() =~= Seq::<AttrFieldView>::empty());
}

/// A variant annotated with only a status resolves to that status and the
/// default message.
pub proof fn lemma_status_only_defaults_message(v: VariantDeclView, s: i64)
    requires
        has_err_attr(v.attrs),
        0 <= s,
        err_fields_of_attrs(v.attrs) == seq![
            AttrFieldView { name: "status"@, value: FieldValueView::Int(s) },
        ],
    ensures
        resolve_variant(v) == Ok::<NormalizedVariantView, ExtractErrorView>(
            NormalizedVariantView {
                identifier: v.identifier,
                status: s as u64,
                message: "Internal server error"@,
            },
        ),
{
    reveal_with_fuel(resolve_fields, 3);
    let fs = err_fields_of_attrs(v.attrs);
    assert(fs[0].name == status_key());
    assert(fs.drop_first() =~= Seq::<AttrFieldView>::empty());
}

/// A variant annotated with only a message resolves to that message and the
/// default status 500.
pub proof fn lemma_message_only_defaults_status(v: VariantDeclView, m: Seq<char>)
    requires
        has_err_attr(v.attrs),
        err_fields_of_attrs(v.attrs) == seq![
            AttrFieldView { name: "message"@, value: FieldValueView::Text(m) },
        ],
    ensures
        resolve_variant(v) == Ok::<NormalizedVariantView, ExtractErrorView>(
            NormalizedVariantView { identifier: v.identifier, status: 500, message: m },
        ),
{
    reveal_strlit("status");
    reveal_strlit("message");
    reveal_with_fuel(resolve_fields, 3);
    assert("status"@.len() == 6);
    assert("message"@.len() == 7);
    let fs = err_fields_of_attrs(v.attrs);
    assert(fs[0].name != status_key());
    assert(fs[0].name == message_key());
    assert(fs.drop_first() =~= Seq::<AttrFieldView>::empty());
}

proof fn lemma_unknown_field_errors(
    ident: Seq<char>,
    fields: Seq<AttrFieldView>,
    st: Option<u64>,
    msg: Option<Seq<char>>,
)
    requires
        exists|i: int|
            0 <= i < fields.len() && fields[i].name != status_key() && fields[i].name
                != message_key(),
    ensures
        resolve_fields(ident, fields, st, msg) is Err,
    decreases fields.len(),
{
    let i = choose|i: int|
        0 <= i < fields.len() && fields[i].name != status_key() && fields[i].name
            != message_key();
    let f = fields[0];
    if f.name == status_key() {
        if st is Some {
        } else {
            match f.value {
                FieldValueView::Int(v) => {
                    if v >= 0 {
                        assert(fields.drop_first()[i - 1] == fields[i]);
                        lemma_unknown_field_errors(
                            ident,
                            fields.drop_first(),
                            Some(v as u64),
                            msg,
                        );
                    }
                },
                FieldValueView::Text(_) => {},
            }
        }
    } else if f.name == message_key() {
        if msg is Some {
        } else {
            match f.value {
                FieldValueView::Text(t) => {
                    assert(fields.drop_first()[i - 1] == fields[i]);
                    lemma_unknown_field_errors(ident, fields.drop_first(), st, Some(t));
                },
                FieldValueView::Int(_) => {},
            }
        }
    } else {
    }
}

proof fn lemma_extract_err_at(vs: Seq<VariantDeclView>, k: int)
    requires
        0 <= k < vs.len(),
        resolve_variant(vs[k]) is Err,
    ensures
        extract_all(vs) is Err,
    decreases vs.len(),
{
    if k == 0 {
    } else {
        match resolve_variant(vs[0]) {
            Err(_) => {},
            Ok(_) => {
                assert(vs.drop_first()[k - 1] == vs[k]);
                lemma_extract_err_at(vs.drop_first(), k - 1);
            },
        }
    }
}

/// An annotation holding a field with an unrecognized name fails the whole
/// generation; the unknown field is never silently ignored.
pub proof fn lemma_unrecognized_field_fails(d: EnumDeclView, k: int)
    requires
        0 <= k < d.variants.len(),
        has_err_attr(d.variants[k].attrs),
        exists|i: int|
            0 <= i < err_fields_of_attrs(d.variants[k].attrs).len() && err_fields_of_attrs(
                d.variants[k].attrs,
            )[i].name != status_key() && err_fields_of_attrs(d.variants[k].attrs)[i].name
                != message_key(),
    ensures
        derive_text(d) is Err,
{
    lemma_unknown_field_errors(
        d.variants[k].identifier,
        err_fields_of_attrs(d.variants[k].attrs),
        None,
        None,
    );
    lemma_extract_err_at(d.variants, k);
}

/// Generation is a pure function of the declaration: equal inputs admit only
/// one output text, character for character.
pub proof fn lemma_generation_deterministic(
    d1: EnumDeclView,
    d2: EnumDeclView,
    t1: Seq<char>,
    t2: Seq<char>,
)
    requires
        d1 == d2,
        derive_text(d1) == Ok::<Seq<char>, ExtractErrorView>(t1),
        derive_text(d2) == Ok::<Seq<char>, ExtractErrorView>(t2),
    ensures
        t1 == t2,
{
}

/// The generated implementation carries the declaration's generic signature
/// unchanged: no parameter is dropped and none is invented.
pub proof fn lemma_signature_mirrored(d: EnumDeclView, ns: Seq<NormalizedVariantView>)
    requires
        extract_all(d.variants) == Ok::<Seq<NormalizedVariantView>, ExtractErrorView>(ns),
    ensures
        derive_text(d) == Ok::<Seq<char>, ExtractErrorView>(
            impl_text(
                GeneratedImplView { ty_name: d.name, generics: d.generics, arms: ns },
            ),
        ),
{
}

} // verus!
