//! Building the declaration of an exported function.
//!
//! A declaration keeps the visibility and the signature of the function and drops its
//! attributes. Each parameter must be a plain name: a caller is later written that hands these
//! names on as arguments, in the same order.

use crate::error::{ExtractError, ExtractErrorView};
use crate::model::{
    DeclaredParameter, DeclaredParameterView, ForeignDeclaration, ForeignDeclarationView,
    FunctionItem, FunctionItemView, Parameter, ParameterView, Pattern, PatternView, Signature,
    SignatureView,
};
use vstd::prelude::*;
use vstd::string::StringExecFns;

verus! {

/// The name that a pattern binds, where the pattern is a plain name.
pub open spec fn pattern_ident(pattern: PatternView) -> Option<Seq<char>> {
    match pattern {
        PatternView::SimpleBinding { name } => Some(name),
        PatternView::Destructure => None,
        PatternView::Wildcard => None,
        PatternView::Literal => None,
    }
}

/// The parameter of a declaration that a parameter of a function gives, where it is a plain
/// name with a type.
pub open spec fn declared_parameter(param: ParameterView) -> Option<DeclaredParameterView> {
    match param {
        ParameterView::Receiver => None,
        ParameterView::Typed { pattern, ty } => match pattern_ident(pattern) {
            Some(name) => Some(DeclaredParameterView { name, ty }),
            None => None,
        },
    }
}

/// Whether every parameter of a signature is a plain name with a type.
pub open spec fn is_convertible(sig: SignatureView) -> bool {
    forall|k: int| 0 <= k < sig.params.len() ==> declared_parameter(#[trigger] sig.params[k]) is Some
}

/// The declaration of a function whose signature is convertible: same visibility, name and
/// return type, the parameters under their names in the same order, no attributes. The
/// qualifiers, the generic parameters, the variadic and the `where` clause are copied.
pub open spec fn declaration_of(function: FunctionItemView) -> ForeignDeclarationView {
    ForeignDeclarationView {
        vis: function.vis,
        qualifiers: function.sig.qualifiers,
        name: function.sig.name,
        generics: function.sig.generics,
        params: Seq::new(
            function.sig.params.len(),
            |k: int| declared_parameter(function.sig.params[k])->Some_0,
        ),
        variadic: function.sig.variadic,
        ret: function.sig.ret,
        where_clause: function.sig.where_clause,
    }
}

/// The failure that a function with an inconvertible signature gives, reported at `span`.
pub open spec fn signature_error(function: Seq<char>, span: proc_macro2::Span) -> ExtractErrorView {
    ExtractErrorView::SignatureError { function, span }
}

/// Reduces the pattern of a parameter to the name it binds.
///
/// A plain name binding gives its name. Every other pattern fails with a `SignatureError`
/// that names the enclosing function and is reported at `span`.
pub fn ident_from_pat(pat: &Pattern, func_name: &str, span: proc_macro2::Span) -> (r: Result<
    String,
    ExtractError,
>)
    ensures
        match r {
            Ok(ident) => pattern_ident(pat@) == Some(ident@),
            Err(e) => pattern_ident(pat@) is None && e@ == signature_error(func_name@, span),
        },
{
    match pat {
        Pattern::SimpleBinding { name } => Ok(name.clone()),
        Pattern::Destructure => Err(
            ExtractError::SignatureError { function: String::from_str(func_name), span },
        ),
        Pattern::Wildcard => Err(
            ExtractError::SignatureError { function: String::from_str(func_name), span },
        ),
        Pattern::Literal => Err(
            ExtractError::SignatureError { function: String::from_str(func_name), span },
        ),
    }
}

/// Builds the declaration of a function.
///
/// Succeeds exactly where every parameter is a plain name with a type. Otherwise the result
/// is a `SignatureError` that names the function and is reported at `span`.
pub fn build_declaration(function: FunctionItem, span: proc_macro2::Span) -> (r: Result<
    ForeignDeclaration,
    ExtractError,
>)
    ensures
        match r {
            Ok(declaration) => is_convertible(function@.sig) && declaration@ == declaration_of(
                function@,
            ),
            Err(e) => !is_convertible(function@.sig) && e@ == signature_error(
                function@.sig.name,
                span,
            ),
        },
{
    let ghost view = function@;
    let FunctionItem { vis, attrs: _, sig } = function;
    let Signature { qualifiers, name, generics, params, variadic, ret, where_clause } = sig;
    let mut declared: Vec<DeclaredParameter> = Vec::new();
    for param in it: params
        invariant
            it.seq() == params@,
            view == function@,
            view.sig.params.len() == params@.len(),
            forall|k: int| 0 <= k < params@.len() ==> view.sig.params[k] == (#[trigger] params@[k])@,
            view.sig.name == name@,
            declared@.len() == it.index(),
            forall|k: int|
                0 <= k < it.index() ==> declared_parameter(view.sig.params[k]) == Some(
                    (#[trigger] declared@[k])@,
                ),
    {
        match param {
            Parameter::Receiver => {
                return Err(ExtractError::SignatureError { function: name, span });
            },
            Parameter::Typed { pattern, ty } => {
                match ident_from_pat(&pattern, name.as_str(), span) {
                    Ok(ident) => {
                        declared.push(DeclaredParameter { name: ident, ty });
                    },
                    Err(e) => {
                        return Err(e);
                    },
                }
            },
        }
    }
    let declaration = ForeignDeclaration {
        vis,
        qualifiers,
        name,
        generics,
        params: declared,
        variadic,
        ret,
        where_clause,
    };
    proof {
        assert forall|k: int| 0 <= k < view.sig.params.len() implies declared_parameter(
            #[trigger] view.sig.params[k],
        ) == Some(declared@[k]@) by {}
        assert(declaration@.params =~= declaration_of(view).params);
    }
    Ok(declaration)
}

} // verus!
