//! The shape of a user-declared type, as the generator sees it.
//!
//! A declaration is reduced to plain values: its name, the kind of item it
//! is, its generic parameters, an optional `where` clause carried as raw
//! text, and its variants. Variant field lists are carried as raw text too
//! and are never read by the generator.

use vstd::prelude::*;

verus! {

/// Which kind of item the annotated declaration is. Only an enumeration is
/// accepted by the generator.
#[derive(Clone, Copy, PartialEq, Eq, Structural, Debug)]
pub enum TypeKind {
    Enumeration,
    Structure,
    Union,
}

/// One generic parameter of the declaration, with any bounds carried as raw
/// text (empty text means the parameter has no bounds).
pub enum GenericParam {
    /// A lifetime parameter; `name` is the identifier without the leading
    /// apostrophe.
    Lifetime { name: String, bounds: String },
    /// A type parameter.
    Type { name: String, bounds: String },
    /// A const parameter and the raw text of its type.
    Const { name: String, ty: String },
}

/// Mathematical image of a [`GenericParam`]: the same shape over `Seq<char>`.
pub enum GenericParamView {
    Lifetime { name: Seq<char>, bounds: Seq<char> },
    Type { name: Seq<char>, bounds: Seq<char> },
    Const { name: Seq<char>, ty: Seq<char> },
}

impl View for GenericParam {
    type V = GenericParamView;

    open spec fn view(&self) -> GenericParamView {
        match self {
            GenericParam::Lifetime { name, bounds } => GenericParamView::Lifetime {
                name: name@,
                bounds: bounds@,
            },
            GenericParam::Type { name, bounds } => GenericParamView::Type {
                name: name@,
                bounds: bounds@,
            },
            GenericParam::Const { name, ty } => GenericParamView::Const { name: name@, ty: ty@ },
        }
    }
}

/// One variant of an enumeration: its name, and its field list as raw text
/// (empty for a unit variant). The generator accepts the field text but
/// never reads it.
pub struct Variant {
    pub name: String,
    pub fields: String,
}

/// Mathematical image of a [`Variant`].
pub struct VariantView {
    pub name: Seq<char>,
    pub fields: Seq<char>,
}

impl View for Variant {
    type V = VariantView;

    open spec fn view(&self) -> VariantView {
        VariantView { name: self.name@, fields: self.fields@ }
    }
}

/// The syntactic shape of one user-declared type: everything the generator
/// is given about it.
pub struct TypeDescription {
    pub name: String,
    pub kind: TypeKind,
    pub generics: Vec<GenericParam>,
    /// The raw text of the declaration's `where` clause, starting with the
    /// word `where`; empty text when the declaration has none.
    pub where_clause: String,
    pub variants: Vec<Variant>,
}

/// Mathematical image of a [`TypeDescription`].
pub struct TypeDescriptionView {
    pub name: Seq<char>,
    pub kind: TypeKind,
    pub generics: Seq<GenericParamView>,
    pub where_clause: Seq<char>,
    pub variants: Seq<VariantView>,
}

impl View for TypeDescription {
    type V = TypeDescriptionView;

    open spec fn view(&self) -> TypeDescriptionView {
        TypeDescriptionView {
            name: self.name@,
            kind: self.kind,
            generics: self.generics@.map_values(|p: GenericParam| p@),
            where_clause: self.where_clause@,
            variants: self.variants@.map_values(|v: Variant| v@),
        }
    }
}

} // verus!
