//! Rendering of a synthesized impl as source text, and the full pipeline.
//!
//! The emitted text is pinned character for character by [`impl_text`]: a
//! `use` of the conversion trait's crate, the impl header echoing the
//! enum's generics and the associated application type, and one match arm
//! per synthesized arm.  Every configured string is embedded as a string
//! literal, escaped so that the text always tokenizes.

use vstd::prelude::*;
use vstd::string::StrSliceExecFns;
use vstd::string::StringExecFns;

use crate::model::{RawDecl, VariantShape};
use crate::parse::{decl_error, decl_ok, parse, spec_config, ParseError};
use crate::synth::{spec_impl, synthesize, ArmV, GeneratedImpl, ImplV, MatchArm};

verus! {

/// How one character is written inside an emitted string literal: a
/// backslash or a double quote gets a leading backslash, anything else
/// stands as it is.
pub open spec fn escaped_char(c: char) -> Seq<char> {
    if c == '\\' {
        "\\\\"@
    } else if c == '"' {
        "\\\""@
    } else {
        seq![c]
    }
}

/// A string's characters, each written as [`escaped_char`] has it.
pub open spec fn escaped(s: Seq<char>) -> Seq<char>
    decreases s.len(),
{
    if s.len() == 0 {
        Seq::empty()
    } else {
        escaped(s.drop_last()) + escaped_char(s.last())
    }
}

/// A string embedded as a source-text string literal: escaped and wrapped
/// in double quotes.
pub open spec fn quoted(s: Seq<char>) -> Seq<char> {
    "\""@ + escaped(s) + "\""@
}

/// The pattern that matches one variant while ignoring its fields: the
/// bare path for a unit variant, `(..)` for a tuple variant, `{ .. }` for
/// a struct variant.
pub open spec fn pattern_text(enum_name: Seq<char>, a: ArmV) -> Seq<char> {
    match a.shape {
        VariantShape::Unit => enum_name + "::"@ + a.variant_name,
        VariantShape::Tuple => enum_name + "::"@ + a.variant_name + "(..)"@,
        VariantShape::Struct => enum_name + "::"@ + a.variant_name + " { .. }"@,
    }
}

/// One match arm: its pattern, and a record built from the three configured
/// strings plus a reference to the matched value itself.
pub open spec fn arm_text(enum_name: Seq<char>, a: ArmV) -> Seq<char> {
    "            "@ + pattern_text(enum_name, a) + " => {\n                ErrorInfo::new("@
        + quoted(a.app_code) + ", "@ + quoted(a.full_code) + ", "@ + quoted(a.client_msg)
        + ", self)\n            }\n"@
}

/// The arms in declaration order, one [`arm_text`] each.
pub open spec fn arms_text(enum_name: Seq<char>, arms: Seq<ArmV>) -> Seq<char>
    decreases arms.len(),
{
    if arms.len() == 0 {
        Seq::empty()
    } else {
        arms_text(enum_name, arms.drop_last()) + arm_text(enum_name, arms.last())
    }
}

/// Everything of the emitted impl before its match arms.
pub open spec fn impl_header(g: ImplV) -> Seq<char> {
    "use error_code::{ErrorInfo, ToErrorInfo as _};\nimpl "@ + g.generic_parameters
        + " ToErrorInfo for "@ + g.enum_name + " "@ + g.generic_parameters + " {\n    type T = "@
        + g.app_type + ";\n\n    fn to_error_info(&self) -> ErrorInfo<Self::T> {\n        match self {\n"@
}

/// The whole emitted impl: header, arms, and the closing braces.
pub open spec fn impl_text(g: ImplV) -> Seq<char> {
    impl_header(g) + arms_text(g.enum_name, g.arms) + "        }\n    }\n}\n"@
}

/// Relies on `String::push`: appends exactly the one character.
#[verifier::external_body]
fn push_char(out: &mut String, c: char)
    ensures
        final(out)@ == old(out)@.push(c),
{
    out.push(c);
}

/// Append `s` to `out` with every character escaped.
fn escape_into(out: &mut String, s: &str)
    ensures
        final(out)@ == old(out)@ + escaped(s@),
{
    let n = s.unicode_len();
    let mut i: usize = 0;
    proof {
        assert(out@ =~= old(out)@ + escaped(s@.take(0)));
    }
    while i < n
        invariant
            n == s@.len(),
            i <= n,
            out@ == old(out)@ + escaped(s@.take(i as int)),
        decreases n - i,
    {
        let c = s.get_char(i);
        if c == '\\' {
            out.append("\\\\");
        } else if c == '"' {
            out.append("\\\"");
        } else {
            push_char(out, c);
        }
        proof {
            assert(s@.take(i as int + 1).drop_last() =~= s@.take(i as int));
            assert(out@ =~= old(out)@ + escaped(s@.take(i as int + 1)));
        }
        i = i + 1;
    }
    proof {
        assert(s@.take(n as int) =~= s@);
    }
}

/// Append `s` to `out` as a string literal.
fn quote_into(out: &mut String, s: &str)
    ensures
        final(out)@ == old(out)@ + quoted(s@),
{
    out.append("\"");
    escape_into(out, s);
    out.append("\"");
    proof {
        assert(out@ =~= old(out)@ + quoted(s@));
    }
}

/// Append one arm's pattern to `out`.
fn append_pattern(out: &mut String, enum_name: &str, arm: &MatchArm)
    ensures
        final(out)@ == old(out)@ + pattern_text(enum_name@, arm@),
{
    out.append(enum_name);
    out.append("::");
    out.append(arm.variant_name.as_str());
    match arm.shape {
        VariantShape::Unit => {},
        VariantShape::Tuple => out.append("(..)"),
        VariantShape::Struct => out.append(" { .. }"),
    }
    proof {
        assert(out@ =~= old(out)@ + pattern_text(enum_name@, arm@));
    }
}

/// Append one whole arm to `out`.
fn append_arm(out: &mut String, enum_name: &str, arm: &MatchArm)
    ensures
        final(out)@ == old(out)@ + arm_text(enum_name@, arm@),
{
    out.append("            ");
    append_pattern(out, enum_name, arm);
    out.append(" => {\n                ErrorInfo::new(");
    quote_into(out, arm.app_code.as_str());
    out.append(", ");
    quote_into(out, arm.full_code.as_str());
    out.append(", ");
    quote_into(out, arm.client_msg.as_str());
    out.append(", self)\n            }\n");
    proof {
        assert(out@ =~= old(out)@ + arm_text(enum_name@, arm@));
    }
}

/// Render a synthesized impl as source text.  Total: every impl yields the
/// text [`impl_text`] describes.
pub fn render(g: &GeneratedImpl) -> (out: String)
    ensures
        out@ == impl_text(g@),
{
    let mut out = String::new();
    out.append("use error_code::{ErrorInfo, ToErrorInfo as _};\nimpl ");
    out.append(g.generic_parameters.as_str());
    out.append(" ToErrorInfo for ");
    out.append(g.enum_name.as_str());
    out.append(" ");
    out.append(g.generic_parameters.as_str());
    out.append(" {\n    type T = ");
    out.append(g.app_type.as_str());
    out.append(";\n\n    fn to_error_info(&self) -> ErrorInfo<Self::T> {\n        match self {\n");
    proof {
        assert(out@ =~= impl_header(g@) + arms_text(g@.enum_name, g@.arms.take(0)));
    }
    let mut i: usize = 0;
    while i < g.arms.len()
        invariant
            i <= g.arms@.len(),
            g@.arms.len() == g.arms@.len(),
            out@ == impl_header(g@) + arms_text(g@.enum_name, g@.arms.take(i as int)),
        decreases g.arms@.len() - i,
    {
        append_arm(&mut out, g.enum_name.as_str(), &g.arms[i]);
        proof {
            assert(g@.arms.take(i as int + 1).drop_last() =~= g@.arms.take(i as int));
            assert(g@.arms.take(i as int + 1).last() == g@.arms[i as int]);
            assert(out@ =~= impl_header(g@) + arms_text(g@.enum_name, g@.arms.take(i as int + 1)));
        }
        i = i + 1;
    }
    out.append("        }\n    }\n}\n");
    proof {
        assert(g@.arms.take(g.arms@.len() as int) =~= g@.arms);
        assert(out@ =~= impl_text(g@));
    }
    out
}

/// Decode, validate, synthesize and render in one step.  Succeeds exactly
/// on the declarations [`decl_ok`] accepts, and then emits the text of the
/// impl synthesized from the parsed configuration; any rejected declaration
/// yields its [`decl_error`] diagnostic and no output at all.
pub fn process_error_info(d: &RawDecl) -> (r: Result<String, ParseError>)
    ensures
        r is Ok <==> decl_ok(*d),
        r matches Ok(t) ==> t@ == impl_text(spec_impl(spec_config(*d))),
        r matches Err(e) ==> Some(e) == decl_error(*d),
{
    match parse(d) {
        Err(e) => Err(e),
        Ok(c) => {
            let g = synthesize(&c);
            Ok(render(&g))
        },
    }
}

} // verus!
