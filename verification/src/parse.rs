//! Validation of an annotated declaration into a typed configuration.
//!
//! All failure modes of the whole pipeline live here: the declaration must
//! be an enum, the type level must bind `app_type` (a parseable type
//! expression) and `prefix`, and every variant must bind `code`; `app_code`
//! and `client_msg` default to the empty string.  The exact result, and the
//! exact diagnostic on every rejected input, are stated by [`spec_config`]
//! and [`decl_error`].

use vstd::prelude::*;
use vstd::string::StringExecFns;

use crate::model::{AttrValue, DeclKind, RawDecl, RawVariant, VariantShape};
use crate::model::{default_str, find_value, lookup, str_value};

verus! {

/// Per-variant configuration: the variant's identity and shape, its required
/// local code, and its optional application code and client message, both
/// already defaulted to the empty string.
#[derive(Debug)]
pub struct VariantConfig {
    pub variant_name: String,
    pub shape: VariantShape,
    pub local_code: String,
    pub app_code: String,
    pub client_msg: String,
}

/// Whole-enum configuration: the enum's identity, its generic parameter list
/// echoed verbatim, the caller-supplied application type and code prefix,
/// and one [`VariantConfig`] per variant in declaration order.
#[derive(Debug)]
pub struct EnumConfig {
    pub enum_name: String,
    pub generic_parameters: String,
    pub app_type: String,
    pub prefix: String,
    pub variants: Vec<VariantConfig>,
}

/// The mathematical value of a [`VariantConfig`].
pub struct VariantConfigV {
    pub variant_name: Seq<char>,
    pub shape: VariantShape,
    pub local_code: Seq<char>,
    pub app_code: Seq<char>,
    pub client_msg: Seq<char>,
}

/// The mathematical value of an [`EnumConfig`].
pub struct ConfigV {
    pub enum_name: Seq<char>,
    pub generic_parameters: Seq<char>,
    pub app_type: Seq<char>,
    pub prefix: Seq<char>,
    pub variants: Seq<VariantConfigV>,
}

impl View for VariantConfig {
    type V = VariantConfigV;

    open spec fn view(&self) -> VariantConfigV {
        VariantConfigV {
            variant_name: self.variant_name@,
            shape: self.shape,
            local_code: self.local_code@,
            app_code: self.app_code@,
            client_msg: self.client_msg@,
        }
    }
}

impl View for EnumConfig {
    type V = ConfigV;

    open spec fn view(&self) -> ConfigV {
        ConfigV {
            enum_name: self.enum_name@,
            generic_parameters: self.generic_parameters@,
            app_type: self.app_type@,
            prefix: self.prefix@,
            variants: self.variants@.map_values(|vc: VariantConfig| vc@),
        }
    }
}

/// A configuration error, found while validating the annotated declaration.
/// Indices count the enum's variants in declaration order.
#[derive(Clone, Copy, Debug, PartialEq, Eq, Structural)]
pub enum ParseError {
    /// The annotated declaration is not an enum.
    NotAnEnum,
    /// The type level binds no `app_type`.
    MissingAppType,
    /// `app_type` is not a string literal holding a type expression.
    MalformedAppType,
    /// The type level binds no `prefix`.
    MissingPrefix,
    /// `prefix` is not a string literal.
    MalformedPrefix,
    /// The variant binds no `code`.
    MissingCode(usize),
    /// The variant's `code` is not a string literal.
    MalformedCode(usize),
    /// The variant's `app_code` is not a string literal.
    MalformedAppCode(usize),
    /// The variant's `client_msg` is not a string literal.
    MalformedClientMsg(usize),
}

impl ParseError {
    /// The diagnostic phrase for this error, naming the offending level and
    /// parameter.
    pub open spec fn spec_message(self) -> Seq<char> {
        match self {
            ParseError::NotAnEnum => "error_info: only an enum can derive the conversion"@,
            ParseError::MissingAppType => "error_info: the enum level must set `app_type`"@,
            ParseError::MalformedAppType => "error_info: `app_type` must be a string holding a type"@,
            ParseError::MissingPrefix => "error_info: the enum level must set `prefix`"@,
            ParseError::MalformedPrefix => "error_info: `prefix` must be a string"@,
            ParseError::MissingCode(_) => "error_info: every variant must set `code`"@,
            ParseError::MalformedCode(_) => "error_info: `code` must be a string"@,
            ParseError::MalformedAppCode(_) => "error_info: `app_code` must be a string"@,
            ParseError::MalformedClientMsg(_) => "error_info: `client_msg` must be a string"@,
        }
    }

    /// See [`Self::spec_message`].
    pub fn message(&self) -> (m: String)
        ensures
            m@ == self.spec_message(),
    {
        match *self {
            ParseError::NotAnEnum => String::from_str(
                "error_info: only an enum can derive the conversion",
            ),
            ParseError::MissingAppType => String::from_str(
                "error_info: the enum level must set `app_type`",
            ),
            ParseError::MalformedAppType => String::from_str(
                "error_info: `app_type` must be a string holding a type",
            ),
            ParseError::MissingPrefix => String::from_str(
                "error_info: the enum level must set `prefix`",
            ),
            ParseError::MalformedPrefix => String::from_str("error_info: `prefix` must be a string"),
            ParseError::MissingCode(_) => String::from_str(
                "error_info: every variant must set `code`",
            ),
            ParseError::MalformedCode(_) => String::from_str("error_info: `code` must be a string"),
            ParseError::MalformedAppCode(_) => String::from_str(
                "error_info: `app_code` must be a string",
            ),
            ParseError::MalformedClientMsg(_) => String::from_str(
                "error_info: `client_msg` must be a string",
            ),
        }
    }
}

/// Whether a string holds a well-formed type expression, as the host
/// language's grammar defines one.
pub uninterp spec fn is_type_expr(s: Seq<char>) -> bool;

/// Relies on `syn::parse_str::<syn::Type>`: whether a string parses as a
/// type expression depends on its characters alone.
#[verifier::external_body]
fn parses_as_type(s: &str) -> (r: bool)
    ensures
        r == is_type_expr(s@),
{
    syn::parse_str::<syn::Type>(s).is_ok()
}

/// The type-level annotation binds a parseable `app_type` and a `prefix`.
pub open spec fn enum_attrs_ok(d: RawDecl) -> bool {
    &&& str_value(d.entries@, "app_type"@) matches Some(t) && is_type_expr(t)
    &&& str_value(d.entries@, "prefix"@) is Some
}

/// The variant binds a `code` string, and whatever it binds to `app_code`
/// or `client_msg` is a string.
pub open spec fn variant_ok(v: RawVariant) -> bool {
    &&& str_value(v.entries@, "code"@) is Some
    &&& (lookup(v.entries@, "app_code"@) matches Some(a) ==> a is Str)
    &&& (lookup(v.entries@, "client_msg"@) matches Some(m) ==> m is Str)
}

/// The declaration is accepted: it is an enum, its type-level annotation is
/// complete, and every variant's annotation is complete.
pub open spec fn decl_ok(d: RawDecl) -> bool {
    &&& d.kind is Enum
    &&& enum_attrs_ok(d)
    &&& forall|i: int| 0 <= i < d.variants@.len() ==> variant_ok(#[trigger] d.variants@[i])
}

/// The diagnostic for variant `i` taken alone: `code` first, then
/// `app_code`, then `client_msg`.
pub open spec fn variant_error_at(v: RawVariant, i: usize) -> Option<ParseError> {
    if lookup(v.entries@, "code"@) is None {
        Some(ParseError::MissingCode(i))
    } else if str_value(v.entries@, "code"@) is None {
        Some(ParseError::MalformedCode(i))
    } else if lookup(v.entries@, "app_code"@) matches Some(AttrValue::NonStr) {
        Some(ParseError::MalformedAppCode(i))
    } else if lookup(v.entries@, "client_msg"@) matches Some(AttrValue::NonStr) {
        Some(ParseError::MalformedClientMsg(i))
    } else {
        None
    }
}

/// The first variant diagnostic at or after position `i`, in declaration
/// order.
pub open spec fn variants_error(vs: Seq<RawVariant>, i: nat) -> Option<ParseError>
    decreases vs.len() - i,
{
    if i >= vs.len() {
        None
    } else {
        let ve = variant_error_at(vs[i as int], i as usize);
        if ve is Some {
            ve
        } else {
            variants_error(vs, i + 1)
        }
    }
}

/// The diagnostic for the whole declaration: shape first, then the
/// type-level parameters, then the variants in order.  `None` exactly when
/// the declaration is accepted.
pub open spec fn decl_error(d: RawDecl) -> Option<ParseError> {
    if !(d.kind is Enum) {
        Some(ParseError::NotAnEnum)
    } else if lookup(d.entries@, "app_type"@) is None {
        Some(ParseError::MissingAppType)
    } else if !(str_value(d.entries@, "app_type"@) matches Some(t) && is_type_expr(t)) {
        Some(ParseError::MalformedAppType)
    } else if lookup(d.entries@, "prefix"@) is None {
        Some(ParseError::MissingPrefix)
    } else if str_value(d.entries@, "prefix"@) is None {
        Some(ParseError::MalformedPrefix)
    } else {
        variants_error(d.variants@, 0)
    }
}

/// The configuration read off a declaration, with every optional parameter
/// defaulted; it is the parse result whenever the declaration is accepted.
pub open spec fn spec_variant_config(v: RawVariant) -> VariantConfigV {
    VariantConfigV {
        variant_name: v.name@,
        shape: v.shape,
        local_code: default_str(v.entries@, "code"@),
        app_code: default_str(v.entries@, "app_code"@),
        client_msg: default_str(v.entries@, "client_msg"@),
    }
}

/// See [`spec_variant_config`].
pub open spec fn spec_config(d: RawDecl) -> ConfigV {
    ConfigV {
        enum_name: d.name@,
        generic_parameters: d.generics@,
        app_type: default_str(d.entries@, "app_type"@),
        prefix: default_str(d.entries@, "prefix"@),
        variants: d.variants@.map_values(|v: RawVariant| spec_variant_config(v)),
    }
}

/// A variant is in order exactly when it draws no diagnostic.
proof fn lemma_variant_ok_iff_no_error(v: RawVariant, i: usize)
    ensures
        variant_ok(v) <==> variant_error_at(v, i) is None,
{
}

/// Skipping variants that draw no diagnostic does not change the first
/// diagnostic.
proof fn lemma_variants_error_skip(vs: Seq<RawVariant>, i: nat)
    requires
        i <= vs.len(),
        forall|j: int| 0 <= j < i ==> variant_error_at(#[trigger] vs[j], j as usize) is None,
    ensures
        variants_error(vs, 0) == variants_error(vs, i),
    decreases i,
{
    if i > 0 {
        lemma_variants_error_skip(vs, (i - 1) as nat);
    }
}

/// Law: a declaration is accepted exactly when validation finds no
/// diagnostic for it.
pub proof fn lemma_decl_ok_iff_no_error(d: RawDecl)
    ensures
        decl_ok(d) <==> decl_error(d) is None,
{
    lemma_variants_error_none(d.variants@, 0);
}

/// No diagnostic at or after `i` exactly when every variant from `i` on is
/// in order.
proof fn lemma_variants_error_none(vs: Seq<RawVariant>, i: nat)
    requires
        i <= vs.len(),
    ensures
        variants_error(vs, i) is None <==> (forall|j: int|
            i <= j < vs.len() ==> variant_ok(#[trigger] vs[j])),
    decreases vs.len() - i,
{
    if i < vs.len() {
        lemma_variants_error_none(vs, i + 1);
        lemma_variant_ok_iff_no_error(vs[i as int], i as usize);
    }
}

/// Law: a variant that binds no `code` makes the whole declaration
/// invalid, so parsing fails and no configuration is produced.
pub proof fn lemma_missing_code_rejects(d: RawDecl, i: int)
    requires
        0 <= i < d.variants@.len(),
        lookup(d.variants@[i].entries@, "code"@) is None,
    ensures
        !decl_ok(d),
{
    assert(!variant_ok(d.variants@[i]));
}

/// Law: a declaration that is not an enum is rejected with the shape
/// diagnostic, whatever else it carries.
pub proof fn lemma_non_enum_rejects(d: RawDecl)
    requires
        !(d.kind is Enum),
    ensures
        !decl_ok(d),
        decl_error(d) == Some(ParseError::NotAnEnum),
{
}

/// Law: omitting `app_code` or `client_msg` on a variant yields the empty
/// string in that slot of the configuration — never an absent slot.
pub proof fn lemma_omitted_optional_defaults_empty(v: RawVariant)
    ensures
        lookup(v.entries@, "app_code"@) is None ==> spec_variant_config(v).app_code
            == Seq::<char>::empty(),
        lookup(v.entries@, "client_msg"@) is None ==> spec_variant_config(v).client_msg
            == Seq::<char>::empty(),
{
}

/// Decode and validate an annotated declaration.  Succeeds exactly on the
/// declarations [`decl_ok`] accepts, returns the configuration
/// [`spec_config`] reads off, and otherwise reports the first diagnostic in
/// [`decl_error`]'s order.
pub fn parse(d: &RawDecl) -> (r: Result<EnumConfig, ParseError>)
    ensures
        r is Ok <==> decl_ok(*d),
        r matches Ok(c) ==> c@ == spec_config(*d),
        r matches Err(e) ==> Some(e) == decl_error(*d),
{
    proof {
        lemma_decl_ok_iff_no_error(*d);
    }
    match d.kind {
        DeclKind::Enum => {},
        _ => {
            return Err(ParseError::NotAnEnum);
        },
    }
    let app_type: String = match find_value(&d.entries, "app_type") {
        Option::None => {
            return Err(ParseError::MissingAppType);
        },
        Option::Some(v) => match v {
            AttrValue::NonStr => {
                return Err(ParseError::MalformedAppType);
            },
            AttrValue::Str(s) => {
                if !parses_as_type(s.as_str()) {
                    return Err(ParseError::MalformedAppType);
                }
                s.clone()
            },
        },
    };
    let prefix: String = match find_value(&d.entries, "prefix") {
        Option::None => {
            return Err(ParseError::MissingPrefix);
        },
        Option::Some(v) => match v {
            AttrValue::NonStr => {
                return Err(ParseError::MalformedPrefix);
            },
            AttrValue::Str(s) => s.clone(),
        },
    };
    let mut variants: Vec<VariantConfig> = Vec::new();
    let mut i: usize = 0;
    while i < d.variants.len()
        invariant
            i <= d.variants@.len(),
            enum_attrs_ok(*d),
            d.kind is Enum,
            forall|j: int| 0 <= j < i ==> variant_error_at(#[trigger] d.variants@[j], j as usize)
                is None,
            variants@.len() == i,
            forall|j: int| 0 <= j < i ==> (#[trigger] variants@[j])@ == spec_variant_config(
                d.variants@[j],
            ),
        decreases d.variants@.len() - i,
    {
        let v = &d.variants[i];
        proof {
            lemma_variants_error_skip(d.variants@, i as nat);
            lemma_variants_error_none(d.variants@, i as nat);
        }
        let local_code: String = match find_value(&v.entries, "code") {
            Option::None => {
                return Err(ParseError::MissingCode(i));
            },
            Option::Some(val) => match val {
                AttrValue::NonStr => {
                    return Err(ParseError::MalformedCode(i));
                },
                AttrValue::Str(s) => s.clone(),
            },
        };
        let app_code: String = match find_value(&v.entries, "app_code") {
            Option::None => String::new(),
            Option::Some(val) => match val {
                AttrValue::NonStr => {
                    return Err(ParseError::MalformedAppCode(i));
                },
                AttrValue::Str(s) => s.clone(),
            },
        };
        let client_msg: String = match find_value(&v.entries, "client_msg") {
            Option::None => String::new(),
            Option::Some(val) => match val {
                AttrValue::NonStr => {
                    return Err(ParseError::MalformedClientMsg(i));
                },
                AttrValue::Str(s) => s.clone(),
            },
        };
        let vc = VariantConfig {
            variant_name: v.name.clone(),
            shape: v.shape,
            local_code,
            app_code,
            client_msg,
        };
        proof {
            assert(vc@ == spec_variant_config(d.variants@[i as int]));
        }
        variants.push(vc);
        i = i + 1;
    }
    proof {
        lemma_variants_error_skip(d.variants@, i as nat);
        lemma_variants_error_none(d.variants@, i as nat);
    }
    let c = EnumConfig {
        enum_name: d.name.clone(),
        generic_parameters: d.generics.clone(),
        app_type,
        prefix,
        variants,
    };
    proof {
        assert(c@.variants =~= spec_config(*d).variants);
    }
    Ok(c)
}

} // verus!
