//! What holds of extraction as a whole, proved from the definitions of the other modules.

use crate::declare::{declaration_of, declared_parameter, is_convertible};
use crate::error::ExtractErrorView;
use crate::extract::{
    all_convertible, candidates, exported_function, extraction, first_inconvertible,
    is_file_extraction, lemma_first_inconvertible, Declarations,
};
use crate::model::{
    FileProbeView, ForeignDeclarationView, FunctionItemView, ModuleItemView, ParameterView,
    PatternView,
};
use vstd::prelude::*;

verus! {

/// The places of the exported functions among the items of a module, in increasing order.
pub open spec fn export_positions(items: Seq<ModuleItemView>) -> Seq<int>
    decreases items.len(),
{
    if items.len() == 0 {
        Seq::empty()
    } else if exported_function(items.last()) is Some {
        export_positions(items.drop_last()).push(items.len() - 1)
    } else {
        export_positions(items.drop_last())
    }
}

/// Whether a declaration has the signature of a function: the same visibility, qualifiers,
/// name, generic parameters, variadic, return type and `where` clause, as many parameters, and
/// each parameter of the function a plain binding of the declared name with the declared type.
pub open spec fn has_signature_of(
    declaration: ForeignDeclarationView,
    function: FunctionItemView,
) -> bool {
    &&& declaration.vis == function.vis
    &&& declaration.qualifiers == function.sig.qualifiers
    &&& declaration.name == function.sig.name
    &&& declaration.generics == function.sig.generics
    &&& declaration.variadic == function.sig.variadic
    &&& declaration.ret == function.sig.ret
    &&& declaration.where_clause == function.sig.where_clause
    &&& declaration.params.len() == function.sig.params.len()
    &&& forall|k: int|
        0 <= k < declaration.params.len() ==> #[trigger] function.sig.params[k]
            == (ParameterView::Typed {
            pattern: PatternView::SimpleBinding { name: declaration.params[k].name },
            ty: declaration.params[k].ty,
        })
}

/// Whether an entry of the result declares an item: the item is an exported function, the
/// declaration has its signature, and the entry is reported at `span`.
pub open spec fn declares(
    entry: (ForeignDeclarationView, proc_macro2::Span),
    item: ModuleItemView,
    span: proc_macro2::Span,
) -> bool {
    &&& exported_function(item) is Some
    &&& has_signature_of(entry.0, exported_function(item)->Some_0)
    &&& entry.1 == span
}

/// There are as many places as exported functions, and the exported function at a rank is the
/// item at the place of that rank.
proof fn lemma_place_of_rank(items: Seq<ModuleItemView>, j: int)
    requires
        0 <= j < export_positions(items).len(),
    ensures
        export_positions(items).len() == candidates(items).len(),
        0 <= export_positions(items)[j] < items.len(),
        exported_function(items[export_positions(items)[j]]) == Some(candidates(items)[j]),
    decreases items.len(),
{
    lemma_as_many_places_as_exports(items);
    let rest = items.drop_last();
    if j < export_positions(rest).len() {
        lemma_place_of_rank(rest, j);
        assert(items[export_positions(rest)[j]] == rest[export_positions(rest)[j]]);
    }
}

/// There are as many places as exported functions.
proof fn lemma_as_many_places_as_exports(items: Seq<ModuleItemView>)
    ensures
        export_positions(items).len() == candidates(items).len(),
    decreases items.len(),
{
    if items.len() > 0 {
        lemma_as_many_places_as_exports(items.drop_last());
    }
}

/// The places rise strictly with the rank.
proof fn lemma_places_rise(items: Seq<ModuleItemView>, j: int, k: int)
    requires
        0 <= j < k < export_positions(items).len(),
    ensures
        export_positions(items)[j] < export_positions(items)[k],
    decreases items.len(),
{
    let rest = items.drop_last();
    if k < export_positions(rest).len() {
        lemma_places_rise(rest, j, k);
    } else {
        lemma_place_of_rank(rest, j);
    }
}

/// An exported function has a rank among the exported functions of its module.
proof fn lemma_rank_of_export(items: Seq<ModuleItemView>, i: int) -> (j: int)
    requires
        0 <= i < items.len(),
        exported_function(items[i]) is Some,
    ensures
        0 <= j < export_positions(items).len(),
        export_positions(items)[j] == i,
    decreases items.len(),
{
    let rest = items.drop_last();
    if i == items.len() - 1 {
        export_positions(rest).len() as int
    } else {
        assert(rest[i] == items[i]);
        lemma_rank_of_export(rest, i)
    }
}

/// The exported functions of a module are its items that are exported functions, each once,
/// in source order: the places in `export_positions` rise strictly, they are all the places of
/// exported functions and no others, and the exported function at a rank is the item at the
/// place of that rank.
pub proof fn lemma_candidates_in_source_order(items: Seq<ModuleItemView>)
    ensures
        export_positions(items).len() == candidates(items).len(),
        forall|j: int|
            0 <= j < candidates(items).len() ==> 0 <= #[trigger] export_positions(items)[j]
                < items.len() && exported_function(items[export_positions(items)[j]]) == Some(
                candidates(items)[j],
            ),
        forall|j: int, k: int|
            0 <= j < k < candidates(items).len() ==> #[trigger] export_positions(items)[j]
                < #[trigger] export_positions(items)[k],
        forall|i: int|
            0 <= i < items.len() && exported_function(#[trigger] items[i]) is Some
                ==> export_positions(items).contains(i),
{
    lemma_as_many_places_as_exports(items);
    assert forall|j: int| 0 <= j < candidates(items).len() implies 0
        <= #[trigger] export_positions(items)[j] < items.len() && exported_function(
        items[export_positions(items)[j]],
    ) == Some(candidates(items)[j]) by {
        lemma_place_of_rank(items, j);
    }
    assert forall|j: int, k: int| 0 <= j < k < candidates(items).len() implies #[trigger] export_positions(
        items,
    )[j] < #[trigger] export_positions(items)[k] by {
        lemma_places_rise(items, j, k);
    }
    assert forall|i: int|
        0 <= i < items.len() && exported_function(#[trigger] items[i]) is Some implies export_positions(
        items,
    ).contains(i) by {
        lemma_rank_of_export(items, i);
    }
}

/// Where every exported function of a module has a convertible signature, extraction
/// succeeds. It yields as many declarations as the module has exported functions, in source
/// order, each with the signature of its function and reported at `span`.
pub proof fn lemma_every_export_is_declared(items: Seq<ModuleItemView>, span: proc_macro2::Span)
    requires
        forall|i: int|
            0 <= i < items.len() && exported_function(#[trigger] items[i]) is Some
                ==> is_convertible(exported_function(items[i])->Some_0.sig),
    ensures
        extraction(items, span) is Ok,
        extraction(items, span)->Ok_0.len() == export_positions(items).len(),
        forall|j: int|
            0 <= j < export_positions(items).len() ==> declares(
                #[trigger] extraction(items, span)->Ok_0[j],
                items[export_positions(items)[j]],
                span,
            ),
{
    lemma_as_many_places_as_exports(items);
    let functions = candidates(items);
    assert forall|j: int| 0 <= j < functions.len() implies is_convertible(
        (#[trigger] functions[j]).sig,
    ) by {
        lemma_place_of_rank(items, j);
    }
    assert(all_convertible(functions));
    assert forall|j: int| 0 <= j < export_positions(items).len() implies declares(
        #[trigger] extraction(items, span)->Ok_0[j],
        items[export_positions(items)[j]],
        span,
    ) by {
        lemma_place_of_rank(items, j);
        lemma_declaration_keeps_signature(functions[j]);
    }
}

/// The declaration of a function with a convertible signature has the signature of that
/// function. Its parameters bear, place by place, the names that the function binds: a call
/// that hands the declared names on as arguments names the parameters of the function in
/// their order.
pub proof fn lemma_declaration_keeps_signature(function: FunctionItemView)
    requires
        is_convertible(function.sig),
    ensures
        has_signature_of(declaration_of(function), function),
{
    let declaration = declaration_of(function);
    assert forall|k: int| 0 <= k < declaration.params.len() implies #[trigger] function.sig.params[k]
        == (ParameterView::Typed {
        pattern: PatternView::SimpleBinding { name: declaration.params[k].name },
        ty: declaration.params[k].ty,
    }) by {
        assert(declared_parameter(function.sig.params[k]) is Some);
    }
}

/// Taking away an item that is no exported function leaves the exported functions as they
/// were.
proof fn lemma_candidates_without(items: Seq<ModuleItemView>, i: int)
    requires
        0 <= i < items.len(),
        exported_function(items[i]) is None,
    ensures
        candidates(items.remove(i)) == candidates(items),
    decreases items.len(),
{
    if i < items.len() - 1 {
        assert(items.remove(i).drop_last() =~= items.drop_last().remove(i));
        lemma_candidates_without(items.drop_last(), i);
    }
}

/// An item that is no exported function (anything but a function, a function that is not
/// public, a public one without the export marker) leaves no trace: extraction gives the same
/// with the item as without it, neither a declaration nor an error more.
pub proof fn lemma_skipped_item_leaves_no_trace(
    items: Seq<ModuleItemView>,
    i: int,
    span: proc_macro2::Span,
)
    requires
        0 <= i < items.len(),
        exported_function(items[i]) is None,
    ensures
        extraction(items.remove(i), span) == extraction(items, span),
{
    lemma_candidates_without(items, i);
}

/// Where an exported function of a module has a signature that is not convertible,
/// extraction fails with a `SignatureError`, and the error is reported at `span`, where
/// extraction was asked for. It names the first such function in source order, which stands
/// at or before the given one.
pub proof fn lemma_inconvertible_export_fails(
    items: Seq<ModuleItemView>,
    i: int,
    span: proc_macro2::Span,
)
    requires
        0 <= i < items.len(),
        exported_function(items[i]) is Some,
        !is_convertible(exported_function(items[i])->Some_0.sig),
    ensures
        0 <= first_inconvertible(candidates(items)) < candidates(items).len(),
        extraction(items, span) == Err::<Declarations, ExtractErrorView>(
            ExtractErrorView::SignatureError {
                function: candidates(items)[first_inconvertible(candidates(items))].sig.name,
                span,
            },
        ),
        export_positions(items)[first_inconvertible(candidates(items))] <= i,
{
    lemma_first_failure_comes_first(items, i);
}

/// The first exported function that is not convertible stands at or before every exported
/// function that is not convertible.
proof fn lemma_first_failure_comes_first(items: Seq<ModuleItemView>, i: int)
    requires
        0 <= i < items.len(),
        exported_function(items[i]) is Some,
        !is_convertible(exported_function(items[i])->Some_0.sig),
    ensures
        0 <= first_inconvertible(candidates(items)) < candidates(items).len(),
        !all_convertible(candidates(items)),
        export_positions(items)[first_inconvertible(candidates(items))] <= i,
{
    let j = lemma_rank_of_export(items, i);
    lemma_place_of_rank(items, j);
    lemma_first_inconvertible(candidates(items), j);
    let first = first_inconvertible(candidates(items));
    if first < j {
        lemma_places_rise(items, first, j);
    }
}

/// Extraction is repeatable: two outcomes for the same path, the same finding at that path
/// and the same position agree. Both succeed or both fail; where they succeed the lists of
/// declarations are equal, in order, names and signatures; where they fail the errors are of
/// one kind and carry one message, and but for the parser's own error they are equal.
pub proof fn lemma_extraction_is_repeatable(
    span: proc_macro2::Span,
    path: Seq<char>,
    probe: FileProbeView,
    first: Result<Declarations, ExtractErrorView>,
    second: Result<Declarations, ExtractErrorView>,
)
    requires
        is_file_extraction(span, path, probe, first),
        is_file_extraction(span, path, probe, second),
    ensures
        first is Ok <==> second is Ok,
        first is Ok ==> first == second,
        first is Err ==> first->Err_0.message() == second->Err_0.message(),
        first is Err ==> (first->Err_0 is ParseError <==> second->Err_0 is ParseError),
        first is Err && !(first->Err_0 is ParseError) ==> first == second,
{
}

} // verus!
