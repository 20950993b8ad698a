//! The response-mapping generator: consumes the normalized per-variant
//! records plus the declared type's name and generic signature, and renders
//! the source of a response-conversion implementation with one match arm per
//! variant.
//!
//! Rendering is a pure function of its input: the emitted text is pinned,
//! character for character, by the spec functions in this module.

use vstd::prelude::*;
use vstd::string::StringExecFns;

use crate::decl::{EnumDecl, Generics, GenericsView, GenericParam, GenericParamView};
use crate::extract::{
    ExtractError,
    ExtractErrorView,
    NormalizedVariant,
    NormalizedVariantView,
    extract_all,
    extract_variants_data,
    norm_views,
};
use crate::response::ErrorResponseBody;
use crate::text::{
    dec_text,
    escape_text,
    escaped_text,
    join_texts,
    joined_text,
    text_views,
    u64_to_dec,
};

verus! {

/// The generated artifact: the implementation's target type, the generic
/// signature reproduced on it, and its match arms, one per variant.
pub struct GeneratedImpl {
    pub ty_name: String,
    pub generics: Generics,
    pub arms: Vec<NormalizedVariant>,
}

pub struct GeneratedImplView {
    pub ty_name: Seq<char>,
    pub generics: GenericsView,
    pub arms: Seq<NormalizedVariantView>,
}

impl View for GeneratedImpl {
    type V = GeneratedImplView;

    open spec fn view(&self) -> GeneratedImplView {
        GeneratedImplView {
            ty_name: self.ty_name@,
            generics: self.generics@,
            arms: norm_views(self.arms@),
        }
    }
}

/// How one generic parameter appears in the implementation's parameter list,
/// bounds included.
pub open spec fn param_impl_text(p: GenericParamView) -> Seq<char> {
    match p {
        GenericParamView::Lifetime { name } => "'"@ + name,
        GenericParamView::Type { name, bounds } => {
            if bounds.len() == 0 {
                name
            } else {
                name + ": "@ + joined_text(bounds, " + "@)
            }
        },
        GenericParamView::Const { name, ty } => "const "@ + name + ": "@ + ty,
    }
}

/// How one generic parameter appears applied to the target type.
pub open spec fn param_use_text(p: GenericParamView) -> Seq<char> {
    match p {
        GenericParamView::Lifetime { name } => "'"@ + name,
        GenericParamView::Type { name, .. } => name,
        GenericParamView::Const { name, .. } => name,
    }
}

pub open spec fn param_impl_texts(ps: Seq<GenericParamView>) -> Seq<Seq<char>> {
    ps.map_values(|p: GenericParamView| param_impl_text(p))
}

pub open spec fn param_use_texts(ps: Seq<GenericParamView>) -> Seq<Seq<char>> {
    ps.map_values(|p: GenericParamView| param_use_text(p))
}

/// The `<...>` parameter list placed after `impl`, empty when the type has no
/// generic parameters.
pub open spec fn impl_generics_text(g: GenericsView) -> Seq<char> {
    if g.params.len() == 0 {
        Seq::empty()
    } else {
        "<"@ + joined_text(param_impl_texts(g.params), ", "@) + ">"@
    }
}

/// The `<...>` argument list placed after the target type's name.
pub open spec fn type_generics_text(g: GenericsView) -> Seq<char> {
    if g.params.len() == 0 {
        Seq::empty()
    } else {
        "<"@ + joined_text(param_use_texts(g.params), ", "@) + ">"@
    }
}

/// The where-clause reproduced on the implementation.
pub open spec fn where_text(g: GenericsView) -> Seq<char> {
    if g.where_predicates.len() == 0 {
        Seq::empty()
    } else {
        " where "@ + joined_text(g.where_predicates, ", "@)
    }
}

/// One match arm: the variant's identifier on the left, its resolved status
/// and message literal on the right.
pub open spec fn arm_text(v: NormalizedVariantView) -> Seq<char> {
    v.identifier + " => (spaceship::axum::http::StatusCode::from_u16("@ + dec_text(
        v.status as nat,
    ) + ").unwrap(), \""@ + escaped_text(v.message) + "\")"@
}

pub open spec fn arm_texts(arms: Seq<NormalizedVariantView>) -> Seq<Seq<char>> {
    arms.map_values(|v: NormalizedVariantView| arm_text(v))
}

/// The full generated implementation source.
pub open spec fn impl_text(g: GeneratedImplView) -> Seq<char> {
    "impl"@ + impl_generics_text(g.generics)
        + " spaceship::axum::response::IntoResponse for "@
        + g.ty_name + type_generics_text(g.generics) + where_text(g.generics)
        + " { fn into_response(self) -> spaceship::axum::response::Response { let (status, error_message) = match self { "@
        + joined_text(arm_texts(g.arms), ", "@)
        + " }; let body = spaceship::axum::Json(spaceship::errors::ErrorResponseBody { error: error_message.to_string() }); (status, body).into_response() } }"@
}

fn render_param_impl(p: &GenericParam) -> (r: String)
    ensures
        r@ == param_impl_text(p@),
{
    match p {
        GenericParam::Lifetime { name } => {
            let mut s = String::from_str("'");
            s.append(name.as_str());
            s
        },
        GenericParam::Type { name, bounds } => {
            let mut s = name.clone();
            if bounds.len() > 0 {
                s.append(": ");
                let joined = join_texts(bounds, " + ");
                s.append(joined.as_str());
                proof {
                    assert(s@ =~= param_impl_text(p@));
                }
            }
            s
        },
        GenericParam::Const { name, ty } => {
            let mut s = String::from_str("const ");
            s.append(name.as_str());
            s.append(": ");
            s.append(ty.as_str());
            proof {
                assert(s@ =~= param_impl_text(p@));
            }
            s
        },
    }
}

fn render_param_use(p: &GenericParam) -> (r: String)
    ensures
        r@ == param_use_text(p@),
{
    match p {
        GenericParam::Lifetime { name } => {
            let mut s = String::from_str("'");
            s.append(name.as_str());
            s
        },
        GenericParam::Type { name, .. } => name.clone(),
        GenericParam::Const { name, .. } => name.clone(),
    }
}

fn render_impl_generics(g: &Generics) -> (r: String)
    ensures
        r@ == impl_generics_text(g@),
{
    if g.params.len() == 0 {
        String::new()
    } else {
        let mut pieces: Vec<String> = Vec::new();
        let mut i: usize = 0;
        while i < g.params.len()
            invariant
                i <= g.params@.len(),
                pieces@.len() == i,
                forall|j: int| 0 <= j < i ==> pieces@[j]@ == param_impl_text(g.params@[j]@),
            decreases g.params@.len() - i,
        {
            pieces.push(render_param_impl(&g.params[i]));
            i = i + 1;
        }
        proof {
            assert(text_views(pieces@) =~= param_impl_texts(g@.params));
        }
        let mut s = String::from_str("<");
        let joined = join_texts(&pieces, ", ");
        s.append(joined.as_str());
        s.append(">");
        proof {
            assert(s@ =~= impl_generics_text(g@));
        }
        s
    }
}

fn render_type_generics(g: &Generics) -> (r: String)
    ensures
        r@ == type_generics_text(g@),
{
    if g.params.len() == 0 {
        String::new()
    } else {
        let mut pieces: Vec<String> = Vec::new();
        let mut i: usize = 0;
        while i < g.params.len()
            invariant
                i <= g.params@.len(),
                pieces@.len() == i,
                forall|j: int| 0 <= j < i ==> pieces@[j]@ == param_use_text(g.params@[j]@),
            decreases g.params@.len() - i,
        {
            pieces.push(render_param_use(&g.params[i]));
            i = i + 1;
        }
        proof {
            assert(text_views(pieces@) =~= param_use_texts(g@.params));
        }
        let mut s = String::from_str("<");
        let joined = join_texts(&pieces, ", ");
        s.append(joined.as_str());
        s.append(">");
        proof {
            assert(s@ =~= type_generics_text(g@));
        }
        s
    }
}

fn render_where(g: &Generics) -> (r: String)
    ensures
        r@ == where_text(g@),
{
    if g.where_predicates.len() == 0 {
        String::new()
    } else {
        let mut s = String::from_str(" where ");
        let joined = join_texts(&g.where_predicates, ", ");
        s.append(joined.as_str());
        proof {
            assert(s@ =~= where_text(g@));
        }
        s
    }
}

fn render_arm(v: &NormalizedVariant) -> (r: String)
    ensures
        r@ == arm_text(v@),
{
    let mut s = v.identifier.clone();
    s.append(" => (spaceship::axum::http::StatusCode::from_u16(");
    let status = u64_to_dec(v.status);
    s.append(status.as_str());
    s.append(").unwrap(), \"");
    let message = escape_text(v.message.as_str());
    s.append(message.as_str());
    s.append("\")");
    proof {
        assert(s@ =~= arm_text(v@));
    }
    s
}

/// Packages the type's name, its generic signature and the normalized
/// variants into the generated artifact: one arm per variant, in order, with
/// the signature carried over unchanged.
pub fn generate_impl(ty_name: String, generics: Generics, variants: Vec<NormalizedVariant>) -> (g:
    GeneratedImpl)
    ensures
        g@.ty_name == ty_name@,
        g@.generics == generics@,
        g@.arms == norm_views(variants@),
{
    GeneratedImpl { ty_name, generics, arms: variants }
}

/// Renders the generated implementation as source text.
pub fn render_impl(g: &GeneratedImpl) -> (r: String)
    ensures
        r@ == impl_text(g@),
{
    let mut arm_strs: Vec<String> = Vec::new();
    let mut i: usize = 0;
    while i < g.arms.len()
        invariant
            i <= g.arms@.len(),
            arm_strs@.len() == i,
            forall|j: int| 0 <= j < i ==> arm_strs@[j]@ == arm_text(g.arms@[j]@),
        decreases g.arms@.len() - i,
    {
        arm_strs.push(render_arm(&g.arms[i]));
        i = i + 1;
    }
    proof {
        assert(text_views(arm_strs@) =~= arm_texts(g@.arms));
    }
    let arms_joined = join_texts(&arm_strs, ", ");

    let mut s = String::from_str("impl");
    let ig = render_impl_generics(&g.generics);
    s.append(ig.as_str());
    s.append(" spaceship::axum::response::IntoResponse for ");
    s.append(g.ty_name.as_str());
    let tg = render_type_generics(&g.generics);
    s.append(tg.as_str());
    let wc = render_where(&g.generics);
    s.append(wc.as_str());
    s.append(
        " { fn into_response(self) -> spaceship::axum::response::Response { let (status, error_message) = match self { ",
    );
    s.append(arms_joined.as_str());
    s.append(
        " }; let body = spaceship::axum::Json(spaceship::errors::ErrorResponseBody { error: error_message.to_string() }); (status, body).into_response() } }",
    );
    proof {
        assert(s@ =~= impl_text(g@));
    }
    s
}

/// The whole pipeline as a function of the declaration's view: extraction
/// followed by rendering. Generation is deterministic: equal declarations
/// give equal text, character for character.
pub open spec fn derive_text(d: crate::decl::EnumDeclView) -> Result<Seq<char>, ExtractErrorView> {
    match extract_all(d.variants) {
        Ok(ns) => Ok(
            impl_text(GeneratedImplView { ty_name: d.name, generics: d.generics, arms: ns }),
        ),
        Err(e) => Err(e),
    }
}

/// Runs the two-stage pipeline on a declaration: extracts and validates the
/// per-variant metadata, then renders the response-conversion implementation.
pub fn err_response_derive_macro2(decl: EnumDecl) -> (r: Result<String, ExtractError>)
    ensures
        (match (r, derive_text(decl@)) {
            (Ok(s), Ok(t)) => s@ == t,
            (Err(e), Err(f)) => e@ == f,
            _ => false,
        }),
{
    let ghost dv = decl@;
    match extract_variants_data(decl) {
        Err(e) => Err(e),
        Ok((norms, stripped)) => {
            let g = generate_impl(stripped.name, stripped.generics, norms);
            let text = render_impl(&g);
            proof {
                assert(g@ == (match extract_all(dv.variants) {
                    Ok(ns) => GeneratedImplView {
                        ty_name: dv.name,
                        generics: dv.generics,
                        arms: ns,
                    },
                    Err(_) => g@,
                }));
            }
            Ok(text)
        },
    }
}

/// The first arm whose identifier is the given one.
pub open spec fn lookup_arm(arms: Seq<NormalizedVariantView>, id: Seq<char>) -> Option<
    NormalizedVariantView,
>
    decreases arms.len(),
{
    if arms.len() == 0 {
        None
    } else if arms[0].identifier == id {
        Some(arms[0])
    } else {
        lookup_arm(arms.drop_first(), id)
    }
}

fn respond_from(arms: &Vec<NormalizedVariant>, key: &String, i: usize) -> (r: Option<
    (u64, ErrorResponseBody),
>)
    requires
        i <= arms@.len(),
    ensures
        (match (r, lookup_arm(norm_views(arms@).skip(i as int), key@)) {
            (Some(p), Some(n)) => p.0 == n.status && p.1.error@ == n.message,
            (None, None) => true,
            _ => false,
        }),
    decreases arms@.len() - i,
{
    if i == arms.len() {
        proof {
            assert(norm_views(arms@).skip(i as int) =~= Seq::<NormalizedVariantView>::empty());
        }
        None
    } else {
        proof {
            assert(norm_views(arms@).skip(i as int)[0] == arms@[i as int]@);
            assert(norm_views(arms@).skip(i as int).drop_first() =~= norm_views(arms@).skip(
                i as int + 1,
            ));
        }
        if arms[i].identifier == *key {
            Some((arms[i].status, ErrorResponseBody::new(arms[i].message.clone())))
        } else {
            respond_from(arms, key, i + 1)
        }
    }
}

impl GeneratedImpl {
    /// The dispatch the generated match performs, as a lookup over the arms:
    /// the variant with the given identifier converts to its recorded status,
    /// paired with a body carrying its recorded message.
    pub fn respond(&self, identifier: &str) -> (r: Option<(u64, ErrorResponseBody)>)
        ensures
            (match (r, lookup_arm(self@.arms, identifier@)) {
                (Some(p), Some(n)) => p.0 == n.status && p.1.error@ == n.message,
                (None, None) => true,
                _ => false,
            }),
    {
        let key = String::from_str(identifier);
        proof {
            assert(norm_views(self.arms@).skip(0) =~= norm_views(self.arms@));
        }
        respond_from(&self.arms, &key, 0)
    }
}

} // verus!
