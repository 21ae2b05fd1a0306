//! The text of the generated implementation.
//!
//! The fragment implements `std::hash::Hash` for the described enumeration
//! by hashing `std::mem::discriminant(self)` and nothing else, so its body
//! is one fixed method whatever the variants are. Only the declaration's
//! name, generic parameters and `where` clause are echoed into the
//! implementation header. The spec functions here give the emitted text
//! exactly, character for character.

use vstd::prelude::*;
use vstd::string::*;
use crate::description::{GenericParam, GenericParamView, TypeDescription, TypeDescriptionView};

verus! {

/// The views of a sequence of generic parameters.
pub open spec fn params_view(ps: Seq<GenericParam>) -> Seq<GenericParamView> {
    ps.map_values(|p: GenericParam| p@)
}

/// The text of one parameter as it appears in the implementation header's
/// parameter list: declaration form, bounds kept.
pub open spec fn param_decl_text(p: GenericParamView) -> Seq<char> {
    match p {
        GenericParamView::Lifetime { name, bounds } => {
            if bounds.len() == 0 {
                "'"@ + name
            } else {
                "'"@ + name + ": "@ + bounds
            }
        },
        GenericParamView::Type { name, bounds } => {
            if bounds.len() == 0 {
                name
            } else {
                name + ": "@ + bounds
            }
        },
        GenericParamView::Const { name, ty } => "const "@ + name + ": "@ + ty,
    }
}

/// The text of one parameter as it appears after the type's name: use form,
/// bare names only.
pub open spec fn param_use_text(p: GenericParamView) -> Seq<char> {
    match p {
        GenericParamView::Lifetime { name, bounds } => "'"@ + name,
        GenericParamView::Type { name, bounds } => name,
        GenericParamView::Const { name, ty } => name,
    }
}

/// The given pieces of text joined with `", "` between them.
pub open spec fn comma_joined(texts: Seq<Seq<char>>) -> Seq<char>
    decreases texts.len(),
{
    if texts.len() == 0 {
        Seq::empty()
    } else if texts.len() == 1 {
        texts[0]
    } else {
        comma_joined(texts.drop_last()) + ", "@ + texts.last()
    }
}

/// The parameter list after `impl`: empty when there are no parameters,
/// otherwise the declarations in angle brackets.
pub open spec fn impl_generics_text(ps: Seq<GenericParamView>) -> Seq<char> {
    if ps.len() == 0 {
        Seq::empty()
    } else {
        "<"@ + comma_joined(ps.map_values(|p: GenericParamView| param_decl_text(p))) + ">"@
    }
}

/// The argument list after the type's name: empty when there are no
/// parameters, otherwise the bare names in angle brackets.
pub open spec fn ty_generics_text(ps: Seq<GenericParamView>) -> Seq<char> {
    if ps.len() == 0 {
        Seq::empty()
    } else {
        "<"@ + comma_joined(ps.map_values(|p: GenericParamView| param_use_text(p))) + ">"@
    }
}

/// The `where` clause echoed behind a space, or nothing when the
/// declaration has none.
pub open spec fn where_text(wc: Seq<char>) -> Seq<char> {
    if wc.len() == 0 {
        Seq::empty()
    } else {
        " "@ + wc
    }
}

/// The one method the fragment ever contains: hash the discriminant of
/// `self`, feed it to the caller's accumulator, read no field.
pub open spec fn method_body_text() -> Seq<char> {
    " { fn hash<H: std::hash::Hasher>(&self, state: &mut H) { std::hash::Hash::hash(&std::mem::discriminant(self), state) } }"@
}

/// The whole generated fragment for one description: the implementation
/// header echoing name, generic parameters and `where` clause, around the
/// fixed discriminant-hashing method. No part of it depends on the
/// variants.
pub open spec fn fragment_text(d: TypeDescriptionView) -> Seq<char> {
    "impl"@ + impl_generics_text(d.generics) + " std::hash::Hash for "@ + d.name
        + ty_generics_text(d.generics) + where_text(d.where_clause) + method_body_text()
}

/// How one more joined piece extends the text: the step a builder loop
/// takes from `i` pieces to `i + 1`.
proof fn lemma_comma_joined_step(texts: Seq<Seq<char>>, i: int)
    requires
        0 <= i < texts.len(),
    ensures
        comma_joined(texts.take(i + 1)) == if i == 0 {
            texts[0]
        } else {
            comma_joined(texts.take(i)) + ", "@ + texts[i]
        },
{
    assert(texts.take(i + 1).drop_last() =~= texts.take(i));
    assert(texts.take(i + 1).last() == texts[i]);
}

/// Appends the declaration form of one parameter.
fn push_param_decl(out: &mut String, p: &GenericParam)
    ensures
        final(out)@ == old(out)@ + param_decl_text(p@),
{
    match p {
        GenericParam::Lifetime { name, bounds } => {
            out.append("'");
            out.append(name.as_str());
            if !bounds.as_str().is_empty() {
                out.append(": ");
                out.append(bounds.as_str());
            }
            proof {
                assert(out@ =~= old(out)@ + param_decl_text(p@));
            }
        },
        GenericParam::Type { name, bounds } => {
            out.append(name.as_str());
            if !bounds.as_str().is_empty() {
                out.append(": ");
                out.append(bounds.as_str());
            }
            proof {
                assert(out@ =~= old(out)@ + param_decl_text(p@));
            }
        },
        GenericParam::Const { name, ty } => {
            out.append("const ");
            out.append(name.as_str());
            out.append(": ");
            out.append(ty.as_str());
            proof {
                assert(out@ =~= old(out)@ + param_decl_text(p@));
            }
        },
    }
}

/// Appends the use form of one parameter.
fn push_param_use(out: &mut String, p: &GenericParam)
    ensures
        final(out)@ == old(out)@ + param_use_text(p@),
{
    match p {
        GenericParam::Lifetime { name, bounds } => {
            out.append("'");
            out.append(name.as_str());
            proof {
                assert(out@ =~= old(out)@ + param_use_text(p@));
            }
        },
        GenericParam::Type { name, bounds } => {
            out.append(name.as_str());
        },
        GenericParam::Const { name, ty } => {
            out.append(name.as_str());
        },
    }
}

/// Appends the parameter list after `impl`.
fn push_impl_generics(out: &mut String, ps: &Vec<GenericParam>)
    ensures
        final(out)@ == old(out)@ + impl_generics_text(params_view(ps@)),
{
    let ghost texts: Seq<Seq<char>> = params_view(ps@).map_values(
        |p: GenericParamView| param_decl_text(p),
    );
    if ps.len() == 0 {
        return;
    }
    out.append("<");
    let mut i: usize = 0;
    while i < ps.len()
        invariant
            i <= ps.len(),
            ps.len() > 0,
            texts == params_view(ps@).map_values(|p: GenericParamView| param_decl_text(p)),
            texts.len() == ps.len(),
            out@ == old(out)@ + "<"@ + comma_joined(texts.take(i as int)),
        decreases ps.len() - i,
    {
        if i > 0 {
            out.append(", ");
        }
        push_param_decl(out, &ps[i]);
        proof {
            lemma_comma_joined_step(texts, i as int);
            assert(texts[i as int] == param_decl_text(ps@[i as int]@));
            assert(out@ =~= old(out)@ + "<"@ + comma_joined(texts.take(i + 1)));
        }
        i = i + 1;
    }
    out.append(">");
    proof {
        assert(texts.take(ps.len() as int) =~= texts);
        assert(out@ =~= old(out)@ + impl_generics_text(params_view(ps@)));
    }
}

/// Appends the argument list after the type's name.
fn push_ty_generics(out: &mut String, ps: &Vec<GenericParam>)
    ensures
        final(out)@ == old(out)@ + ty_generics_text(params_view(ps@)),
{
    let ghost texts: Seq<Seq<char>> = params_view(ps@).map_values(
        |p: GenericParamView| param_use_text(p),
    );
    if ps.len() == 0 {
        return;
    }
    out.append("<");
    let mut i: usize = 0;
    while i < ps.len()
        invariant
            i <= ps.len(),
            ps.len() > 0,
            texts == params_view(ps@).map_values(|p: GenericParamView| param_use_text(p)),
            texts.len() == ps.len(),
            out@ == old(out)@ + "<"@ + comma_joined(texts.take(i as int)),
        decreases ps.len() - i,
    {
        if i > 0 {
            out.append(", ");
        }
        push_param_use(out, &ps[i]);
        proof {
            lemma_comma_joined_step(texts, i as int);
            assert(texts[i as int] == param_use_text(ps@[i as int]@));
            assert(out@ =~= old(out)@ + "<"@ + comma_joined(texts.take(i + 1)));
        }
        i = i + 1;
    }
    out.append(">");
    proof {
        assert(texts.take(ps.len() as int) =~= texts);
        assert(out@ =~= old(out)@ + ty_generics_text(params_view(ps@)));
    }
}

/// Builds the whole fragment for one description, exactly as
/// [`fragment_text`] gives it.
pub fn render_fragment(d: &TypeDescription) -> (r: String)
    ensures
        r@ == fragment_text(d@),
{
    let mut out = String::new();
    out.append("impl");
    push_impl_generics(&mut out, &d.generics);
    out.append(" std::hash::Hash for ");
    out.append(d.name.as_str());
    push_ty_generics(&mut out, &d.generics);
    if !d.where_clause.as_str().is_empty() {
        out.append(" ");
        out.append(d.where_clause.as_str());
    }
    out.append(
        " { fn hash<H: std::hash::Hasher>(&self, state: &mut H) { std::hash::Hash::hash(&std::mem::discriminant(self), state) } }",
    );
    proof {
        assert(out@ =~= fragment_text(d@));
    }
    out
}

} // verus!
