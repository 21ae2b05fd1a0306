//! The generator: one description in, one fragment or one diagnostic out.
//!
//! Applied to an enumeration it returns the fragment text of
//! [`crate::render::fragment_text`]; applied to any other kind of
//! declaration it returns the facility's single error.

use vstd::prelude::*;
use vstd::string::*;
use crate::description::{TypeDescription, TypeDescriptionView, TypeKind};
use crate::render::{fragment_text, render_fragment};

verus! {

/// The one failure the facility knows: the annotated declaration is not an
/// enumeration.
#[derive(Clone, Copy, PartialEq, Eq, Structural, Debug)]
pub enum DeriveError {
    UnsupportedKind,
}

/// The diagnostic text reported for [`DeriveError::UnsupportedKind`].
pub open spec fn unsupported_kind_text() -> Seq<char> {
    "#[derive(DiscriminantHash)] only works with enum"@
}

impl DeriveError {
    /// The diagnostic as the invocation site reports it.
    pub fn message(&self) -> (r: String)
        ensures
            r@ == unsupported_kind_text(),
    {
        String::from_str("#[derive(DiscriminantHash)] only works with enum")
    }
}

/// Produces the discriminant-hashing implementation for the described type.
///
/// Succeeds exactly when the description is an enumeration, whatever its
/// variants, fields or generic parameters, and then returns the fragment
/// text character for character; every other kind of declaration gets the
/// unsupported-kind error.
pub fn discriminant_hash_derive(d: &TypeDescription) -> (r: Result<String, DeriveError>)
    ensures
        r is Ok <==> d.kind is Enumeration,
        r matches Ok(frag) ==> frag@ == fragment_text(d@),
        r matches Err(e) ==> e is UnsupportedKind,
{
    match d.kind {
        TypeKind::Enumeration => Ok(render_fragment(d)),
        TypeKind::Structure => Err(DeriveError::UnsupportedKind),
        TypeKind::Union => Err(DeriveError::UnsupportedKind),
    }
}

/// The diagnostic for a rejected declaration contains the phrase
/// `only works with enum`: the one failure mode is recognisable by its
/// text alone.
pub proof fn lemma_diagnostic_contains_phrase()
    ensures
        exists|i: int|
            0 <= i && i + "only works with enum"@.len() <= unsupported_kind_text().len()
                && #[trigger] unsupported_kind_text().subrange(
                i,
                i + "only works with enum"@.len() as int,
            ) == "only works with enum"@,
{
    reveal_strlit("#[derive(DiscriminantHash)] only works with enum");
    reveal_strlit("only works with enum");
    let phrase = "only works with enum"@;
    assert(unsupported_kind_text().subrange(28, 28 + phrase.len() as int) =~= phrase);
}

/// The fragment never looks at the variants: two descriptions that agree on
/// name, generic parameters and `where` clause produce the same text, however
/// their variants and fields differ. This is why no field type is ever asked
/// to support hashing, equality, or anything else.
pub proof fn lemma_fragment_ignores_variants(a: TypeDescriptionView, b: TypeDescriptionView)
    requires
        a.name == b.name,
        a.generics == b.generics,
        a.where_clause == b.where_clause,
    ensures
        fragment_text(a) == fragment_text(b),
{
}

} // verus!
