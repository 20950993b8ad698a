//! Build-time generation of response-conversion implementations for annotated
//! sum types.
//!
//! The crate models an annotated enum declaration as plain data, extracts and
//! validates the per-variant `err` annotations (`status`, `message`, with
//! defaults `500` / `"Internal server error"`), and renders an exhaustive
//! `IntoResponse` implementation for the declared type, one match arm per
//! variant.

pub mod decl;
pub mod extract;
pub mod failure;
pub mod generate;
pub mod laws;
pub mod response;
pub mod storage;
pub mod text;

pub use decl::{Attr, AttrField, EnumDecl, FieldValue, GenericParam, Generics, VariantDecl};
pub use extract::{ExtractError, NormalizedVariant, extract_variants_data};
pub use failure::{Failure, HandlerResult, LazyChangeStatus, get_user, handler};
pub use generate::{GeneratedImpl, err_response_derive_macro2, generate_impl, render_impl};
pub use response::ErrorResponse;
pub use response::ErrorResponseBody;
pub use storage::{
    LoadErr,
    Loadable,
    Pessoa,
    StoreErr,
    Storeable,
    StoredData,
    encode_record,
    find_record,
    new_record,
    row_parts,
};
