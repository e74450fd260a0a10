//! The parts of a source file that the extraction of exports reads, and the declarations it
//! produces.
//!
//! Every type here holds plain values. Each has a view (`@`) in which strings are sequences of
//! characters and vectors are sequences; the contracts of the crate are stated over these views.

use vstd::prelude::*;

verus! {

/// A position in source text, carried unread to wherever a diagnostic is reported.
#[verifier::external_type_specification]
#[verifier::external_body]
pub struct ExSpan(proc_macro2::Span);

/// A path to a source file as it is written where extraction is asked for, with the position
/// of that request. The path may be relative or absolute.
#[derive(Debug)]
pub struct PathToken {
    pub value: String,
    pub span: proc_macro2::Span,
}

/// The view of a path token.
pub struct PathTokenView {
    pub value: Seq<char>,
    pub span: proc_macro2::Span,
}

impl View for PathToken {
    type V = PathTokenView;

    open spec fn view(&self) -> PathTokenView {
        PathTokenView { value: self.value@, span: self.span }
    }
}

/// The path of the source file to read, after a relative path has been resolved.
#[derive(Clone, Debug, PartialEq, Eq)]
pub struct ResolvedPath {
    pub path: String,
}

impl View for ResolvedPath {
    type V = Seq<char>;

    open spec fn view(&self) -> Seq<char> {
        self.path@
    }
}

/// What was found at a resolved path when the file was looked for and read.
#[derive(Clone, Debug, PartialEq, Eq)]
pub enum FileProbe {
    /// Nothing exists at the path.
    Missing,
    /// The file exists and could not be read as text.
    Unreadable { cause: String },
    /// The whole text of the file.
    Loaded { content: String },
}

/// The view of a finding at a path.
pub enum FileProbeView {
    Missing,
    Unreadable { cause: Seq<char> },
    Loaded { content: Seq<char> },
}

impl View for FileProbe {
    type V = FileProbeView;

    open spec fn view(&self) -> FileProbeView {
        match self {
            FileProbe::Missing => FileProbeView::Missing,
            FileProbe::Unreadable { cause } => FileProbeView::Unreadable { cause: cause@ },
            FileProbe::Loaded { content } => FileProbeView::Loaded { content: content@ },
        }
    }
}

/// How far a top-level item can be seen.
#[derive(Clone, Copy, Debug, PartialEq, Eq, Structural)]
pub enum Visibility {
    /// `pub`, with no restriction.
    Public,
    /// Visible in a named scope only: `pub(crate)`, `pub(super)`, `pub(in path)`.
    Restricted,
    /// No visibility written.
    Private,
}

/// An attribute on an item, as far as its name goes.
#[derive(Clone, Debug, PartialEq, Eq)]
pub struct Attribute {
    /// The attribute's name where its path is one bare identifier, `None` for any other path.
    /// Arguments of the attribute are not kept.
    pub ident: Option<String>,
}

/// The view of an attribute.
pub struct AttributeView {
    pub ident: Option<Seq<char>>,
}

impl View for Attribute {
    type V = AttributeView;

    open spec fn view(&self) -> AttributeView {
        AttributeView {
            ident: self.ident.deep_view(),
        }
    }
}

/// The pattern of a function parameter, by its shape.
#[derive(Clone, Debug, PartialEq, Eq)]
pub enum Pattern {
    /// A plain name binding such as `x` or `mut x`.
    SimpleBinding { name: String },
    /// A pattern that takes its value apart or tests its shape: a tuple, a struct, a slice,
    /// a reference, and every pattern that is none of the other three.
    Destructure,
    /// The wildcard `_`.
    Wildcard,
    /// A literal such as `0`, or a range of literals.
    Literal,
}

/// The view of a pattern.
pub enum PatternView {
    SimpleBinding { name: Seq<char> },
    Destructure,
    Wildcard,
    Literal,
}

impl View for Pattern {
    type V = PatternView;

    open spec fn view(&self) -> PatternView {
        match self {
            Pattern::SimpleBinding { name } => PatternView::SimpleBinding { name: name@ },
            Pattern::Destructure => PatternView::Destructure,
            Pattern::Wildcard => PatternView::Wildcard,
            Pattern::Literal => PatternView::Literal,
        }
    }
}

/// One parameter of a function.
#[derive(Clone, Debug, PartialEq, Eq)]
pub enum Parameter {
    /// A `self` receiver in any of its forms.
    Receiver,
    /// A pattern with its type, the type as source text.
    Typed { pattern: Pattern, ty: String },
}

/// The view of a parameter.
pub enum ParameterView {
    Receiver,
    Typed { pattern: PatternView, ty: Seq<char> },
}

impl View for Parameter {
    type V = ParameterView;

    open spec fn view(&self) -> ParameterView {
        match self {
            Parameter::Receiver => ParameterView::Receiver,
            Parameter::Typed { pattern, ty } => ParameterView::Typed { pattern: pattern@, ty: ty@ },
        }
    }
}

/// The signature of a function: its name, its parameters in order and its return type, and
/// around them the parts that are handed on unread.
#[derive(Clone, Debug, PartialEq, Eq)]
pub struct Signature {
    /// The words before `fn` as source text, such as `unsafe extern "C"`; empty where there
    /// are none.
    pub qualifiers: String,
    pub name: String,
    /// The generic parameters between their angle brackets as source text; empty where there
    /// are none.
    pub generics: String,
    pub params: Vec<Parameter>,
    /// The variadic `...` after the parameters as source text; empty where there is none.
    pub variadic: String,
    /// The return type as source text, `None` where none is written.
    pub ret: Option<String>,
    /// The `where` clause as source text; empty where there is none.
    pub where_clause: String,
}

/// The view of a signature.
pub struct SignatureView {
    pub qualifiers: Seq<char>,
    pub name: Seq<char>,
    pub generics: Seq<char>,
    pub params: Seq<ParameterView>,
    pub variadic: Seq<char>,
    pub ret: Option<Seq<char>>,
    pub where_clause: Seq<char>,
}

impl View for Signature {
    type V = SignatureView;

    open spec fn view(&self) -> SignatureView {
        SignatureView {
            qualifiers: self.qualifiers@,
            name: self.name@,
            generics: self.generics@,
            params: Seq::new(self.params@.len(), |i: int| self.params@[i]@),
            variadic: self.variadic@,
            ret: self.ret.deep_view(),
            where_clause: self.where_clause@,
        }
    }
}

/// A top-level function of a source file, without its body.
#[derive(Clone, Debug, PartialEq, Eq)]
pub struct FunctionItem {
    pub vis: Visibility,
    pub attrs: Vec<Attribute>,
    pub sig: Signature,
}

/// The view of a function.
pub struct FunctionItemView {
    pub vis: Visibility,
    pub attrs: Seq<AttributeView>,
    pub sig: SignatureView,
}

impl View for FunctionItem {
    type V = FunctionItemView;

    open spec fn view(&self) -> FunctionItemView {
        FunctionItemView {
            vis: self.vis,
            attrs: Seq::new(self.attrs@.len(), |i: int| self.attrs@[i]@),
            sig: self.sig@,
        }
    }
}

/// A top-level item of a source file.
#[derive(Clone, Debug, PartialEq, Eq)]
pub enum ModuleItem {
    Function(FunctionItem),
    /// Anything that is not a function: a type, a constant, a module, an import.
    Other,
}

/// The view of an item.
pub enum ModuleItemView {
    Function(FunctionItemView),
    Other,
}

impl View for ModuleItem {
    type V = ModuleItemView;

    open spec fn view(&self) -> ModuleItemView {
        match self {
            ModuleItem::Function(function) => ModuleItemView::Function(function@),
            ModuleItem::Other => ModuleItemView::Other,
        }
    }
}

/// The top-level items of one source file, in source order.
#[derive(Clone, Debug, PartialEq, Eq)]
pub struct SourceModule {
    pub items: Vec<ModuleItem>,
}

impl View for SourceModule {
    type V = Seq<ModuleItemView>;

    open spec fn view(&self) -> Seq<ModuleItemView> {
        Seq::new(self.items@.len(), |i: int| self.items@[i]@)
    }
}

/// A parameter of a declaration: a plain name and its type as source text.
#[derive(Clone, Debug, PartialEq, Eq)]
pub struct DeclaredParameter {
    pub name: String,
    pub ty: String,
}

/// The view of a declared parameter.
pub struct DeclaredParameterView {
    pub name: Seq<char>,
    pub ty: Seq<char>,
}

impl View for DeclaredParameter {
    type V = DeclaredParameterView;

    open spec fn view(&self) -> DeclaredParameterView {
        DeclaredParameterView { name: self.name@, ty: self.ty@ }
    }
}

/// The declaration of a function that a library exports: a signature without body or
/// attributes, each parameter under a plain name. The other parts are those of the
/// function's signature, as they are written there.
#[derive(Clone, Debug, PartialEq, Eq)]
pub struct ForeignDeclaration {
    pub vis: Visibility,
    pub qualifiers: String,
    pub name: String,
    pub generics: String,
    pub params: Vec<DeclaredParameter>,
    pub variadic: String,
    pub ret: Option<String>,
    pub where_clause: String,
}

/// The view of a declaration.
pub struct ForeignDeclarationView {
    pub vis: Visibility,
    pub qualifiers: Seq<char>,
    pub name: Seq<char>,
    pub generics: Seq<char>,
    pub params: Seq<DeclaredParameterView>,
    pub variadic: Seq<char>,
    pub ret: Option<Seq<char>>,
    pub where_clause: Seq<char>,
}

impl View for ForeignDeclaration {
    type V = ForeignDeclarationView;

    open spec fn view(&self) -> ForeignDeclarationView {
        ForeignDeclarationView {
            vis: self.vis,
            qualifiers: self.qualifiers@,
            name: self.name@,
            generics: self.generics@,
            params: Seq::new(self.params@.len(), |i: int| self.params@[i]@),
            variadic: self.variadic@,
            ret: self.ret.deep_view(),
            where_clause: self.where_clause@,
        }
    }
}

} // verus!
