//! Compile-time synthesis of error-info conversion impls for annotated enums.
//!
//! An enum may be annotated, at the type level, with an application status
//! type and an error-code prefix, and, at each variant, with a local error
//! code plus an optional application code and client-facing message.  This
//! library validates those annotations into a typed configuration and
//! synthesizes the text of a `ToErrorInfo` impl with one match arm per
//! variant, each building a record from the variant's static metadata and a
//! reference to the matched value.  All validation failures are reported
//! before any output is produced; synthesis itself is total.

pub mod emit;
pub mod model;
pub mod parse;
pub mod synth;

pub use emit::process_error_info;
pub use emit::render;
pub use model::AttrEntry;
pub use model::AttrValue;
pub use model::DeclKind;
pub use model::RawDecl;
pub use model::RawVariant;
pub use model::VariantShape;
pub use parse::parse;
pub use parse::EnumConfig;
pub use parse::ParseError;
pub use parse::VariantConfig;
pub use synth::synthesize;
pub use synth::GeneratedImpl;
pub use synth::MatchArm;
