//! The boundary to the `syn` parser: source text goes in, the items of the model come out.
//!
//! Values of `syn`'s syntax tree are opaque to the verifier. Each function of this module that
//! is marked `external_body` reads one part of such a value and hands it out as a plain value;
//! its contract is believed, not proved. The code that puts the parts together is verified
//! against those contracts.
//!
//! What the parser makes of a text is not written out here. It has a name, `parsed_source`,
//! and the contracts say that parsing a text gives what the name gives for that text. The name
//! stands for the parser as the process runs it: tokens are cut by `proc-macro2`'s own lexer,
//! and by the compiler's while a procedural macro is expanded.
//!
//! The parser answers every text with a syntax tree or an error. A literal that it cannot
//! interpret (one of a kind it does not know, or the token that stands for text the compiler
//! could not read) is kept as it is and does not stop it. One limit is outside what the
//! contracts speak of: the parser descends with the nesting of the text, so a text nested many
//! thousands of levels deep can exhaust the stack of the thread that parses it.

use crate::error::parse_error_text;
use crate::model::{
    Attribute, FunctionItem, FunctionItemView, ModuleItem, ModuleItemView, Parameter, Pattern,
    Signature, SourceModule, Visibility,
};
use quote::ToTokens;
use vstd::prelude::*;

verus! {

/// A parse error of `syn`.
#[verifier::external_type_specification]
#[verifier::external_body]
pub struct ExSynError(syn::Error);

/// A top-level item of `syn`'s syntax tree.
#[verifier::external_type_specification]
#[verifier::external_body]
pub struct ExSynItem(syn::Item);

/// A free-standing function of `syn`'s syntax tree.
#[verifier::external_type_specification]
#[verifier::external_body]
pub struct ExSynItemFn(syn::ItemFn);

/// The top-level items that `syn::parse_file` finds in a source text, in source order and as
/// the model sees them; `None` where the parser rejects the text. The text is taken as
/// `parse_file` takes it: a leading byte order mark and a shebang line are passed over.
pub uninterp spec fn parsed_source(content: Seq<char>) -> Option<Seq<ModuleItemView>>;

/// The message with which `syn::parse_file` rejects a source text.
pub uninterp spec fn rejection_text(content: Seq<char>) -> Seq<char>;

/// What an item of the syntax tree is in the model: the view of the opaque value.
pub uninterp spec fn item_view(item: syn::Item) -> ModuleItemView;

/// What a function of the syntax tree is in the model: the view of the opaque value. Each
/// of the readers below hands out one part of it.
pub uninterp spec fn function_view(function: syn::ItemFn) -> FunctionItemView;

/// Calls `syn::parse_file` and hands out the items of the file it returns. The parser either
/// yields the items that `parsed_source` names, in source order, or rejects the text with an
/// error whose message is the one that `rejection_text` names. It returns for every text:
/// `syn::Lit::new`, which reads each literal token, falls back to `syn::Lit::Verbatim` where
/// it cannot interpret one.
#[verifier::external_body]
fn parse_items(content: &str) -> (r: Result<Vec<syn::Item>, syn::Error>)
    ensures
        match r {
            Ok(items) => parsed_source(content@) == Some(
                Seq::new(items@.len(), |i: int| item_view(items@[i])),
            ),
            Err(error) => parsed_source(content@) is None && parse_error_text(error)
                == rejection_text(content@),
        },
{
    syn::parse_file(content).map(|file| file.items)
}

/// Tells a function (`syn::Item::Fn`) from every other item of `syn::Item` and hands the
/// function out. In the model the item is that function, or `Other`.
#[verifier::external_body]
fn item_function(item: syn::Item) -> (r: Option<syn::ItemFn>)
    ensures
        match r {
            Some(function) => item_view(item) == ModuleItemView::Function(function_view(function)),
            None => item_view(item) == ModuleItemView::Other,
        },
{
    match item {
        syn::Item::Fn(function) => Some(function),
        _ => None,
    }
}

/// Reads the visibility of a function (the field `vis` of `syn::ItemFn`), one arm for each
/// variant of `syn::Visibility`: `pub` alone is public, no visibility is private, `pub(..)` is
/// restricted.
#[verifier::external_body]
fn function_visibility(function: &syn::ItemFn) -> (r: Visibility)
    ensures
        r == function_view(*function).vis,
{
    match function.vis {
        syn::Visibility::Public(_) => Visibility::Public,
        syn::Visibility::Restricted(_) => Visibility::Restricted,
        syn::Visibility::Inherited => Visibility::Private,
    }
}

/// Counts the attributes of a function (the field `attrs` of `syn::ItemFn`).
#[verifier::external_body]
fn function_attr_count(function: &syn::ItemFn) -> (n: usize)
    ensures
        n == function_view(*function).attrs.len(),
{
    function.attrs.len()
}

/// Reads the name of the attribute at `index`: takes its path with `syn::Attribute::path` and
/// asks `syn::Path::get_ident`, which yields an identifier only for a path of one segment
/// without leading colons or arguments; the identifier is written out with `to_string`. What
/// follows the path in the attribute is not read.
/// Indexing past the last attribute would panic, so `index` must be in range.
#[verifier::external_body]
fn function_attr(function: &syn::ItemFn, index: usize) -> (r: Attribute)
    requires
        index < function_view(*function).attrs.len(),
    ensures
        r@ == function_view(*function).attrs[index as int],
{
    Attribute { ident: function.attrs[index].path().get_ident().map(|ident| ident.to_string()) }
}

/// Reads the name of a function (the field `ident` of its `syn::Signature`) as text.
#[verifier::external_body]
fn function_name(function: &syn::ItemFn) -> (r: String)
    ensures
        r@ == function_view(*function).sig.name,
{
    function.sig.ident.to_string()
}

/// Reads the words before `fn` (the fields `constness`, `asyncness`, `unsafety` and `abi` of
/// the function's `syn::Signature`, in that order) as the text of their tokens, each written
/// with `quote::ToTokens::to_tokens`; a word that is not there writes nothing.
#[verifier::external_body]
fn function_qualifiers(function: &syn::ItemFn) -> (r: String)
    ensures
        r@ == function_view(*function).sig.qualifiers,
{
    let mut tokens = proc_macro2::TokenStream::new();
    function.sig.constness.to_tokens(&mut tokens);
    function.sig.asyncness.to_tokens(&mut tokens);
    function.sig.unsafety.to_tokens(&mut tokens);
    function.sig.abi.to_tokens(&mut tokens);
    tokens.to_string()
}

/// Reads the generic parameters of a function (the field `generics` of its
/// `syn::Signature`) as the text of their tokens, which is empty where there are none and
/// leaves the `where` clause out.
#[verifier::external_body]
fn function_generics(function: &syn::ItemFn) -> (r: String)
    ensures
        r@ == function_view(*function).sig.generics,
{
    function.sig.generics.to_token_stream().to_string()
}

/// Reads the `where` clause of a function (the field `where_clause` of its generics) as the
/// text of its tokens, which is empty where there is none.
#[verifier::external_body]
fn function_where_clause(function: &syn::ItemFn) -> (r: String)
    ensures
        r@ == function_view(*function).sig.where_clause,
{
    function.sig.generics.where_clause.to_token_stream().to_string()
}

/// Reads the variadic of a function (the field `variadic` of its `syn::Signature`) as the
/// text of its tokens, which is empty where there is none.
#[verifier::external_body]
fn function_variadic(function: &syn::ItemFn) -> (r: String)
    ensures
        r@ == function_view(*function).sig.variadic,
{
    function.sig.variadic.to_token_stream().to_string()
}

/// Counts the parameters of a function (the field `inputs` of its `syn::Signature`).
#[verifier::external_body]
fn function_param_count(function: &syn::ItemFn) -> (n: usize)
    ensures
        n == function_view(*function).sig.params.len(),
{
    function.sig.inputs.len()
}

/// Reads the parameter at `index`. A `syn::FnArg::Receiver` is a receiver. A typed parameter
/// gives its pattern by shape (`syn::Pat::Ident` a simple binding of the identifier's text,
/// `Wild` the wildcard, `Lit` and `Range` a literal, every other variant a destructuring) and
/// its type as the text of its tokens (`quote::ToTokens::to_token_stream`, then `to_string`).
/// Indexing past the last parameter would panic, so `index` must be in range.
#[verifier::external_body]
fn function_param(function: &syn::ItemFn, index: usize) -> (r: Parameter)
    requires
        index < function_view(*function).sig.params.len(),
    ensures
        r@ == function_view(*function).sig.params[index as int],
{
    match &function.sig.inputs[index] {
        syn::FnArg::Receiver(_) => Parameter::Receiver,
        syn::FnArg::Typed(arg) => Parameter::Typed {
            pattern: match &*arg.pat {
                syn::Pat::Ident(binding) => Pattern::SimpleBinding { name: binding.ident.to_string() },
                syn::Pat::Wild(_) => Pattern::Wildcard,
                syn::Pat::Lit(_) | syn::Pat::Range(_) => Pattern::Literal,
                _ => Pattern::Destructure,
            },
            ty: arg.ty.to_token_stream().to_string(),
        },
    }
}

/// Reads the return type of a function (the field `output` of its `syn::Signature`): none
/// for `syn::ReturnType::Default`, else the type as the text of its tokens.
#[verifier::external_body]
fn function_return_type(function: &syn::ItemFn) -> (r: Option<String>)
    ensures
        r.deep_view() == function_view(*function).sig.ret,
{
    match &function.sig.output {
        syn::ReturnType::Default => None,
        syn::ReturnType::Type(_, ty) => Some(ty.to_token_stream().to_string()),
    }
}

/// Reads a function of the syntax tree into the model, leaving its body behind.
fn read_function(function: &syn::ItemFn) -> (r: FunctionItem)
    ensures
        r@ == function_view(*function),
{
    let vis = function_visibility(function);
    let attr_count = function_attr_count(function);
    let mut attrs: Vec<Attribute> = Vec::new();
    let mut i: usize = 0;
    while i < attr_count
        invariant
            attr_count == function_view(*function).attrs.len(),
            i <= attr_count,
            attrs@.len() == i,
            forall|k: int| 0 <= k < i ==> attrs@[k]@ == function_view(*function).attrs[k],
        decreases attr_count - i,
    {
        attrs.push(function_attr(function, i));
        i += 1;
    }
    let param_count = function_param_count(function);
    let mut params: Vec<Parameter> = Vec::new();
    let mut j: usize = 0;
    while j < param_count
        invariant
            param_count == function_view(*function).sig.params.len(),
            j <= param_count,
            params@.len() == j,
            forall|k: int| 0 <= k < j ==> params@[k]@ == function_view(*function).sig.params[k],
        decreases param_count - j,
    {
        params.push(function_param(function, j));
        j += 1;
    }
    let sig = Signature {
        qualifiers: function_qualifiers(function),
        name: function_name(function),
        generics: function_generics(function),
        params,
        variadic: function_variadic(function),
        ret: function_return_type(function),
        where_clause: function_where_clause(function),
    };
    let r = FunctionItem { vis, attrs, sig };
    proof {
        assert(r@.attrs =~= function_view(*function).attrs);
        assert(r@.sig.params =~= function_view(*function).sig.params);
    }
    r
}

/// Parses a source text into its top-level items.
///
/// The text is handed to `syn::parse_file` as it is. Where the parser rejects it, its error
/// comes back unchanged; where it accepts it, the module holds one item for each top-level
/// item of the text, in source order.
pub fn parse_source(content: &str) -> (r: Result<SourceModule, syn::Error>)
    ensures
        match r {
            Ok(module) => parsed_source(content@) == Some(module@),
            Err(error) => parsed_source(content@) is None && parse_error_text(error)
                == rejection_text(content@),
        },
{
    match parse_items(content) {
        Ok(parsed) => {
            let mut items: Vec<ModuleItem> = Vec::new();
            for item in it: parsed
                invariant
                    it.seq() == parsed@,
                    items@.len() == it.index(),
                    forall|k: int| 0 <= k < it.index() ==> items@[k]@ == item_view(parsed@[k]),
            {
                let converted = match item_function(item) {
                    Some(function) => ModuleItem::Function(read_function(&function)),
                    None => ModuleItem::Other,
                };
                items.push(converted);
            }
            Ok(SourceModule { items })
        },
        Err(e) => Err(e),
    }
}

} // verus!
