//! Synthesis of the conversion impl from a validated configuration.
//!
//! Synthesis is total: it maps each variant of the configuration to exactly
//! one match arm, carrying the variant's identity and shape (for the
//! pattern), the concatenation of the enum-level prefix with the variant's
//! local code, and the variant's application code and client message.

use vstd::prelude::*;
use vstd::string::StringExecFns;

use crate::model::VariantShape;
use crate::parse::{ConfigV, EnumConfig, VariantConfigV};

verus! {

/// One synthesized match arm: the pattern is determined by `variant_name`
/// and `shape`, the constructed record by the three strings (plus a
/// reference to the matched value itself, added at rendering time).
#[derive(Debug)]
pub struct MatchArm {
    pub variant_name: String,
    pub shape: VariantShape,
    pub app_code: String,
    pub full_code: String,
    pub client_msg: String,
}

/// The synthesized conversion impl: the enum's identity, its generic
/// parameter list echoed verbatim, the associated application type, and one
/// match arm per variant in declaration order.
#[derive(Debug)]
pub struct GeneratedImpl {
    pub enum_name: String,
    pub generic_parameters: String,
    pub app_type: String,
    pub arms: Vec<MatchArm>,
}

/// The mathematical value of a [`MatchArm`].
pub struct ArmV {
    pub variant_name: Seq<char>,
    pub shape: VariantShape,
    pub app_code: Seq<char>,
    pub full_code: Seq<char>,
    pub client_msg: Seq<char>,
}

/// The mathematical value of a [`GeneratedImpl`].
pub struct ImplV {
    pub enum_name: Seq<char>,
    pub generic_parameters: Seq<char>,
    pub app_type: Seq<char>,
    pub arms: Seq<ArmV>,
}

impl View for MatchArm {
    type V = ArmV;

    open spec fn view(&self) -> ArmV {
        ArmV {
            variant_name: self.variant_name@,
            shape: self.shape,
            app_code: self.app_code@,
            full_code: self.full_code@,
            client_msg: self.client_msg@,
        }
    }
}

impl View for GeneratedImpl {
    type V = ImplV;

    open spec fn view(&self) -> ImplV {
        ImplV {
            enum_name: self.enum_name@,
            generic_parameters: self.generic_parameters@,
            app_type: self.app_type@,
            arms: self.arms@.map_values(|a: MatchArm| a@),
        }
    }
}

/// The one arm synthesized for a variant: same identity and shape, the
/// full code `prefix + local_code`, and the optional strings copied over.
pub open spec fn spec_arm(prefix: Seq<char>, vc: VariantConfigV) -> ArmV {
    ArmV {
        variant_name: vc.variant_name,
        shape: vc.shape,
        app_code: vc.app_code,
        full_code: prefix + vc.local_code,
        client_msg: vc.client_msg,
    }
}

/// The impl synthesized for a configuration: one [`spec_arm`] per variant,
/// in declaration order.
pub open spec fn spec_impl(c: ConfigV) -> ImplV {
    ImplV {
        enum_name: c.enum_name,
        generic_parameters: c.generic_parameters,
        app_type: c.app_type,
        arms: c.variants.map_values(|vc: VariantConfigV| spec_arm(c.prefix, vc)),
    }
}

/// Law: synthesis yields exactly one arm per variant, and the arm for
/// variant `i` targets variant `i`'s name and shape; under the host
/// language's rule that an enum's variant names are distinct, the arms'
/// patterns are therefore pairwise non-overlapping and jointly exhaustive
/// over the variant set.
pub proof fn lemma_one_arm_per_variant(c: ConfigV)
    ensures
        spec_impl(c).arms.len() == c.variants.len(),
        forall|i: int| 0 <= i < c.variants.len() ==> (#[trigger] spec_impl(c).arms[i]).variant_name
            == c.variants[i].variant_name,
        forall|i: int| 0 <= i < c.variants.len() ==> (#[trigger] spec_impl(c).arms[i]).shape
            == c.variants[i].shape,
        (forall|i: int, j: int|
            0 <= i < c.variants.len() && 0 <= j < c.variants.len() && i != j
                ==> c.variants[i].variant_name != c.variants[j].variant_name) ==> (forall|
            i: int,
            j: int,
        |
            0 <= i < c.variants.len() && 0 <= j < c.variants.len() && i != j
                ==> (#[trigger] spec_impl(c).arms[i]).variant_name
                != (#[trigger] spec_impl(c).arms[j]).variant_name),
{
}

/// Law: the full error code of every arm is the literal concatenation of
/// the enum-level prefix and that variant's local code, whatever the
/// variant's shape.
pub proof fn lemma_full_code_is_concat(c: ConfigV, i: int)
    requires
        0 <= i < c.variants.len(),
    ensures
        spec_impl(c).arms[i].full_code == c.prefix + c.variants[i].local_code,
{
}

/// Law: a variant configured with an empty `app_code` or `client_msg` — as
/// every variant that omits them is — keeps the empty string in that slot
/// of its arm's record.
pub proof fn lemma_empty_optional_kept_empty(c: ConfigV, i: int)
    requires
        0 <= i < c.variants.len(),
    ensures
        c.variants[i].app_code == Seq::<char>::empty() ==> spec_impl(c).arms[i].app_code
            == Seq::<char>::empty(),
        c.variants[i].client_msg == Seq::<char>::empty() ==> spec_impl(c).arms[i].client_msg
            == Seq::<char>::empty(),
{
}

/// Synthesize the conversion impl for a validated configuration.  Total:
/// every configuration yields the impl [`spec_impl`] describes.
pub fn synthesize(c: &EnumConfig) -> (g: GeneratedImpl)
    ensures
        g@ == spec_impl(c@),
{
    let mut arms: Vec<MatchArm> = Vec::new();
    let mut i: usize = 0;
    while i < c.variants.len()
        invariant
            i <= c.variants@.len(),
            c@.variants.len() == c.variants@.len(),
            arms@.len() == i,
            forall|j: int| 0 <= j < i ==> (#[trigger] arms@[j])@ == spec_arm(
                c@.prefix,
                c@.variants[j],
            ),
        decreases c.variants@.len() - i,
    {
        let vc = &c.variants[i];
        let mut full_code = c.prefix.clone();
        full_code.append(vc.local_code.as_str());
        let arm = MatchArm {
            variant_name: vc.variant_name.clone(),
            shape: vc.shape,
            app_code: vc.app_code.clone(),
            full_code,
            client_msg: vc.client_msg.clone(),
        };
        proof {
            assert(arm@ == spec_arm(c@.prefix, c@.variants[i as int]));
        }
        arms.push(arm);
        i = i + 1;
    }
    let g = GeneratedImpl {
        enum_name: c.enum_name.clone(),
        generic_parameters: c.generic_parameters.clone(),
        app_type: c.app_type.clone(),
        arms,
    };
    proof {
        assert(g@.arms =~= spec_impl(c@).arms);
    }
    g
}

} // verus!
