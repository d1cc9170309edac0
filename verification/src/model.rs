//! The data handed in by the macro front end: a type declaration together
//! with the `error_info` attribute entries attached to it and to each of its
//! variants, reduced to plain strings and tags.

use vstd::prelude::*;

verus! {

/// How a variant carries its data: no fields, positional fields, or named
/// fields.  Synthesis uses this only to pick the pattern syntax that matches
/// the variant while ignoring every field value.
#[derive(Clone, Copy, Debug, PartialEq, Eq, Structural)]
pub enum VariantShape {
    Unit,
    Tuple,
    Struct,
}

/// The kind of type declaration the annotation sits on.  Only an enum is
/// accepted; the other kinds are kept so that the rejection can be stated.
#[derive(Clone, Copy, Debug, PartialEq, Eq, Structural)]
pub enum DeclKind {
    Enum,
    Struct,
    Union,
}

/// The value of one `key = ...` entry inside an `error_info` attribute: a
/// string literal, or any other expression.  Entries that are not string
/// literals are kept so that a malformed parameter can be told apart from a
/// missing one.
#[derive(Debug)]
pub enum AttrValue {
    Str(String),
    NonStr,
}

/// One `key = value` entry of an `error_info` attribute.
#[derive(Debug)]
pub struct AttrEntry {
    pub key: String,
    pub value: AttrValue,
}

/// One variant of the annotated declaration: its name, its shape, and the
/// entries of its `error_info` attribute (empty when the attribute is
/// absent).
#[derive(Debug)]
pub struct RawVariant {
    pub name: String,
    pub shape: VariantShape,
    pub entries: Vec<AttrEntry>,
}

/// The annotated declaration as a whole: its kind and name, its generic
/// parameter list echoed verbatim (empty when there is none), the entries of
/// the type-level `error_info` attribute, and its variants in declaration
/// order (empty unless the declaration is an enum).
#[derive(Debug)]
pub struct RawDecl {
    pub kind: DeclKind,
    pub name: String,
    pub generics: String,
    pub entries: Vec<AttrEntry>,
    pub variants: Vec<RawVariant>,
}

/// The value bound to `key` by the first entry that names it, if any.
pub open spec fn lookup(entries: Seq<AttrEntry>, key: Seq<char>) -> Option<AttrValue>
    decreases entries.len(),
{
    if entries.len() == 0 {
        None
    } else if entries[0].key@ == key {
        Some(entries[0].value)
    } else {
        lookup(entries.drop_first(), key)
    }
}

/// The characters of the string literal bound to `key`; `None` when the key
/// is absent or bound to something that is not a string literal.
pub open spec fn str_value(entries: Seq<AttrEntry>, key: Seq<char>) -> Option<Seq<char>> {
    match lookup(entries, key) {
        Some(AttrValue::Str(s)) => Some(s@),
        _ => None,
    }
}

/// The string literal bound to `key`, defaulting to the empty string when
/// the key is absent or malformed.
pub open spec fn default_str(entries: Seq<AttrEntry>, key: Seq<char>) -> Seq<char> {
    match str_value(entries, key) {
        Some(s) => s,
        None => Seq::empty(),
    }
}

/// Relies on `str`'s `==` (its `PartialEq` impl): true exactly when the two
/// slices hold the same characters.
#[verifier::external_body]
fn str_eq(a: &str, b: &str) -> (r: bool)
    ensures
        r == (a@ == b@),
{
    a == b
}

/// The first entry bound to `key`, as [`lookup`] finds it.
pub fn find_value<'a>(entries: &'a Vec<AttrEntry>, key: &str) -> (r: Option<&'a AttrValue>)
    ensures
        match r {
            Some(v) => lookup(entries@, key@) == Some(*v),
            None => lookup(entries@, key@) is None,
        },
{
    let mut i: usize = 0;
    proof {
        assert(entries@.skip(0) =~= entries@);
    }
    while i < entries.len()
        invariant
            i <= entries@.len(),
            lookup(entries@, key@) == lookup(entries@.skip(i as int), key@),
        decreases entries@.len() - i,
    {
        let e = &entries[i];
        if str_eq(e.key.as_str(), key) {
            proof {
                assert(entries@.skip(i as int)[0] == entries@[i as int]);
            }
            return Some(&e.value);
        }
        proof {
            assert(entries@.skip(i as int).drop_first() =~= entries@.skip(i as int + 1));
        }
        i = i + 1;
    }
    proof {
        assert(entries@.skip(entries@.len() as int) =~= Seq::<AttrEntry>::empty());
    }
    None
}

} // verus!
