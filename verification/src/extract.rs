//! Extraction: from the text of a source file to the declarations of the functions it exports.

use crate::declare::{build_declaration, declaration_of, is_convertible, signature_error};
use crate::error::{parse_error_text, ExtractError, ExtractErrorView};
use crate::filter::{is_export_candidate, is_exported};
use crate::model::{
    FileProbe, FileProbeView, ForeignDeclaration, ForeignDeclarationView, FunctionItemView,
    ModuleItem, ModuleItemView, PathToken, ResolvedPath, SourceModule,
};
use crate::syntax::{parse_source, parsed_source, rejection_text};
use vstd::prelude::*;

verus! {

/// A list of declarations, each with the position to report it at.
pub type Declarations = Seq<(ForeignDeclarationView, proc_macro2::Span)>;

/// The function that an item is, where the item is an exported function.
pub open spec fn exported_function(item: ModuleItemView) -> Option<FunctionItemView> {
    match item {
        ModuleItemView::Function(function) => if is_exported(function) {
            Some(function)
        } else {
            None
        },
        ModuleItemView::Other => None,
    }
}

/// The exported functions among the items of a module, in source order. Nothing is merged:
/// a name that occurs twice is kept twice.
pub open spec fn candidates(items: Seq<ModuleItemView>) -> Seq<FunctionItemView> {
    items.filter_map(|item: ModuleItemView| exported_function(item))
}

/// Whether every function of a list has a convertible signature.
pub open spec fn all_convertible(functions: Seq<FunctionItemView>) -> bool {
    forall|j: int| 0 <= j < functions.len() ==> is_convertible((#[trigger] functions[j]).sig)
}

/// The place of the first function of a list whose signature is not convertible.
#[verifier::opaque]
pub open spec fn first_inconvertible(functions: Seq<FunctionItemView>) -> int {
    choose|j: int|
        0 <= j < functions.len() && !is_convertible((#[trigger] functions[j]).sig) && forall|k: int|
            0 <= k < j ==> is_convertible((#[trigger] functions[k]).sig)
}

/// The declarations of a list of functions, each reported at `span`.
pub open spec fn declarations_of(
    functions: Seq<FunctionItemView>,
    span: proc_macro2::Span,
) -> Declarations {
    Seq::new(functions.len(), |j: int| (declaration_of(functions[j]), span))
}

/// What extraction gives for the items of a module: the declarations of all exported
/// functions, in source order, or the failure of the first of them that has none.
pub open spec fn extraction(items: Seq<ModuleItemView>, span: proc_macro2::Span) -> Result<
    Declarations,
    ExtractErrorView,
> {
    let functions = candidates(items);
    if all_convertible(functions) {
        Ok(declarations_of(functions, span))
    } else {
        Err(signature_error(functions[first_inconvertible(functions)].sig.name, span))
    }
}

/// Whether `outcome` is what the extraction from a file gives, reported at `span`, where the
/// file was looked for at `path` and `probe` is what was found there.
///
/// A missing file and an unreadable one fail with the path. A file that was read is parsed:
/// text that the parser rejects fails with the parser's own error, text that it accepts gives
/// what `extraction` says of its items.
pub open spec fn is_file_extraction(
    span: proc_macro2::Span,
    path: Seq<char>,
    probe: FileProbeView,
    outcome: Result<Declarations, ExtractErrorView>,
) -> bool {
    match probe {
        FileProbeView::Missing => outcome == Err::<Declarations, ExtractErrorView>(
            ExtractErrorView::FileNotFound { path, span },
        ),
        FileProbeView::Unreadable { cause } => outcome == Err::<Declarations, ExtractErrorView>(
            ExtractErrorView::ReadError { path, cause, span },
        ),
        FileProbeView::Loaded { content } => match parsed_source(content) {
            Some(items) => outcome == extraction(items, span),
            None => outcome matches Err(ExtractErrorView::ParseError { error })
                && parse_error_text(error) == rejection_text(content),
        },
    }
}

/// The view of a list of declarations.
pub open spec fn declarations_view(
    list: Seq<(ForeignDeclaration, proc_macro2::Span)>,
) -> Declarations {
    Seq::new(list.len(), |j: int| (list[j].0@, list[j].1))
}

/// The view of the result of an extraction.
pub open spec fn outcome_view(
    outcome: Result<Vec<(ForeignDeclaration, proc_macro2::Span)>, ExtractError>,
) -> Result<Declarations, ExtractErrorView> {
    match outcome {
        Ok(list) => Ok(declarations_view(list@)),
        Err(e) => Err(e@),
    }
}

/// Where a function of a list is not convertible, the first such function of the list stands
/// at or before it, and every function before the first is convertible.
pub proof fn lemma_first_inconvertible(functions: Seq<FunctionItemView>, j: int)
    requires
        0 <= j < functions.len(),
        !is_convertible(functions[j].sig),
    ensures
        0 <= first_inconvertible(functions) <= j,
        !is_convertible(functions[first_inconvertible(functions)].sig),
        forall|k: int|
            0 <= k < first_inconvertible(functions) ==> is_convertible((#[trigger] functions[k]).sig),
        !all_convertible(functions),
    decreases j,
{
    reveal(first_inconvertible);
    if forall|k: int| 0 <= k < j ==> is_convertible((#[trigger] functions[k]).sig) {
        let first = first_inconvertible(functions);
        assert(0 <= first < functions.len() && !is_convertible(functions[first].sig));
        if j < first {
            assert(is_convertible(functions[j].sig));
        }
    } else {
        let k = choose|k: int| 0 <= k < j && !is_convertible((#[trigger] functions[k]).sig);
        lemma_first_inconvertible(functions, k);
    }
}

/// One more item adds its function to the exported functions where it is one, and nothing
/// otherwise.
proof fn lemma_candidates_step(items: Seq<ModuleItemView>, n: int)
    requires
        0 <= n < items.len(),
    ensures
        candidates(items.take(n + 1)) == match exported_function(items[n]) {
            Some(function) => candidates(items.take(n)).push(function),
            None => candidates(items.take(n)),
        },
{
    items.lemma_filter_map_take_succ(|item: ModuleItemView| exported_function(item), n);
    match exported_function(items[n]) {
        Some(function) => {
            assert(candidates(items.take(n)) + seq![function] =~= candidates(items.take(n)).push(
                function,
            ));
        },
        None => {
            assert(candidates(items.take(n)) + Seq::<FunctionItemView>::empty() =~= candidates(
                items.take(n),
            ));
        },
    }
}

/// The exported functions among the first `n` items are the first of those among all items.
proof fn lemma_candidates_prefix(items: Seq<ModuleItemView>, n: int)
    requires
        0 <= n <= items.len(),
    ensures
        candidates(items.take(n)).len() <= candidates(items).len(),
        forall|k: int|
            0 <= k < candidates(items.take(n)).len() ==> candidates(items.take(n))[k]
                == candidates(items)[k],
    decreases items.len() - n,
{
    if n == items.len() {
        assert(items.take(n) =~= items);
    } else {
        lemma_candidates_step(items, n);
        lemma_candidates_prefix(items, n + 1);
    }
}

/// Where the exported functions before an item are all convertible and the item is an
/// exported function that is not, extraction fails with the error of that function.
proof fn lemma_extraction_fails_at(items: Seq<ModuleItemView>, n: int, span: proc_macro2::Span)
    requires
        0 <= n < items.len(),
        all_convertible(candidates(items.take(n))),
        exported_function(items[n]) is Some,
        !is_convertible(exported_function(items[n])->Some_0.sig),
    ensures
        extraction(items, span) == Err::<Declarations, ExtractErrorView>(
            signature_error(exported_function(items[n])->Some_0.sig.name, span),
        ),
{
    let all = candidates(items);
    let before = candidates(items.take(n));
    let upto = candidates(items.take(n + 1));
    let at = before.len() as int;
    lemma_candidates_step(items, n);
    lemma_candidates_prefix(items, n + 1);
    assert(all[at] == upto[at]);
    lemma_first_inconvertible(all, at);
    let first = first_inconvertible(all);
    if first < at {
        assert(all[first] == upto[first]);
        assert(upto[first] == before[first]);
    }
}

/// Extracts the declarations of the functions that a module exports.
///
/// The items are gone through in source order. Items that are no exported function are
/// passed over. The first exported function without a convertible signature ends the
/// extraction with its `SignatureError`, reported at `span`; no declarations are returned
/// beside an error.
pub fn extract_declarations(module: SourceModule, span: proc_macro2::Span) -> (r: Result<
    Vec<(ForeignDeclaration, proc_macro2::Span)>,
    ExtractError,
>)
    ensures
        outcome_view(r) == extraction(module@, span),
{
    let ghost items = module@;
    let mut functions: Vec<(ForeignDeclaration, proc_macro2::Span)> = Vec::new();
    for item in it: module.items
        invariant
            it.seq() == module.items@,
            items == module@,
            all_convertible(candidates(items.take(it.index() as int))),
            declarations_view(functions@) == declarations_of(
                candidates(items.take(it.index() as int)),
                span,
            ),
    {
        let ghost n = it.index() as int;
        let ghost done = candidates(items.take(n));
        let ghost listed = functions@;
        proof {
            lemma_candidates_step(items, n);
        }
        match item {
            ModuleItem::Function(function) => {
                if is_export_candidate(&function) {
                    let ghost view = function@;
                    match build_declaration(function, span) {
                        Ok(declaration) => {
                            functions.push((declaration, span));
                            proof {
                                assert(declarations_of(done, span).len() == done.len());
                                assert(declarations_view(functions@) =~= declarations_of(
                                    done.push(view),
                                    span,
                                )) by {
                                    assert forall|j: int| 0 <= j < done.len() implies declarations_view(
                                        functions@,
                                    )[j] == declarations_of(done.push(view), span)[j] by {
                                        assert(declarations_view(listed)[j] == declarations_of(
                                            done,
                                            span,
                                        )[j]);
                                    }
                                }
                            }
                        },
                        Err(e) => {
                            proof {
                                lemma_extraction_fails_at(items, n, span);
                            }
                            return Err(e);
                        },
                    }
                }
            },
            ModuleItem::Other => {},
        }
    }
    proof {
        assert(items.take(items.len() as int) =~= items);
    }
    Ok(functions)
}

/// Extracts the declarations of the functions that a source file exports.
///
/// `path` is where the file was looked for and `probe` what was found there. Every failure
/// but that of the parser is reported at the position of `file_name`, and so is every
/// declaration.
pub fn read_unmangled_functions_from_file(
    file_name: &PathToken,
    path: &ResolvedPath,
    probe: FileProbe,
) -> (r: Result<Vec<(ForeignDeclaration, proc_macro2::Span)>, ExtractError>)
    ensures
        is_file_extraction(file_name@.span, path@, probe@, outcome_view(r)),
{
    let span = file_name.span;
    match probe {
        FileProbe::Missing => Err(ExtractError::FileNotFound { path: path.path.clone(), span }),
        FileProbe::Unreadable { cause } => Err(
            ExtractError::ReadError { path: path.path.clone(), cause, span },
        ),
        FileProbe::Loaded { content } => match parse_source(content.as_str()) {
            Ok(module) => extract_declarations(module, span),
            Err(error) => Err(ExtractError::ParseError { error }),
        },
    }
}

} // verus!
