//! The ways in which extraction fails. Each failure carries the position to report it at.

use vstd::prelude::*;
use vstd::string::StringExecFns;

verus! {

/// A failure of extraction. The first failure ends the extraction of a file.
#[derive(Debug)]
pub enum ExtractError {
    /// Nothing exists at the resolved path.
    FileNotFound { path: String, span: proc_macro2::Span },
    /// The file exists and could not be read. The position is that of the path token, since
    /// the failure concerns the file as a whole.
    ReadError { path: String, cause: String, span: proc_macro2::Span },
    /// The parser rejected the text of the file. Its error is kept as it came, with the
    /// position that the parser gave it.
    ParseError { error: syn::Error },
    /// An exported function has a parameter that is no plain name. The position is the one
    /// the caller supplied, where extraction was asked for, not that of the parameter.
    SignatureError { function: String, span: proc_macro2::Span },
}

/// The view of a failure.
pub enum ExtractErrorView {
    FileNotFound { path: Seq<char>, span: proc_macro2::Span },
    ReadError { path: Seq<char>, cause: Seq<char>, span: proc_macro2::Span },
    ParseError { error: syn::Error },
    SignatureError { function: Seq<char>, span: proc_macro2::Span },
}

impl View for ExtractError {
    type V = ExtractErrorView;

    open spec fn view(&self) -> ExtractErrorView {
        match self {
            ExtractError::FileNotFound { path, span } => ExtractErrorView::FileNotFound {
                path: path@,
                span: *span,
            },
            ExtractError::ReadError { path, cause, span } => ExtractErrorView::ReadError {
                path: path@,
                cause: cause@,
                span: *span,
            },
            ExtractError::ParseError { error } => ExtractErrorView::ParseError { error: *error },
            ExtractError::SignatureError { function, span } => ExtractErrorView::SignatureError {
                function: function@,
                span: *span,
            },
        }
    }
}

/// The text that `std`'s `Debug` formatting gives for a path: the path between double quotes,
/// with what cannot be shown as it is escaped.
pub uninterp spec fn path_debug_text(path: Seq<char>) -> Seq<char>;

/// The message that a parse error of `syn` displays.
pub uninterp spec fn parse_error_text(error: syn::Error) -> Seq<char>;

/// Formats a path with `{:?}`, as `std::path::Path` implements `Debug`.
#[verifier::external_body]
fn path_debug(path: &str) -> (text: String)
    ensures
        text@ == path_debug_text(path@),
{
    format!("{:?}", std::path::Path::new(path))
}

/// Renders a parse error with its `Display` implementation, which writes the message of the
/// error and nothing else.
#[verifier::external_body]
fn parse_error_message(error: &syn::Error) -> (text: String)
    ensures
        text@ == parse_error_text(*error),
{
    error.to_string()
}

impl ExtractErrorView {
    /// The position that a failure is reported at. The parser's error holds its own position,
    /// so none is given for it.
    pub open spec fn span(self) -> Option<proc_macro2::Span> {
        match self {
            ExtractErrorView::FileNotFound { span, .. } => Some(span),
            ExtractErrorView::ReadError { span, .. } => Some(span),
            ExtractErrorView::ParseError { .. } => None,
            ExtractErrorView::SignatureError { span, .. } => Some(span),
        }
    }

    /// The message of a failure, for a human reader.
    pub open spec fn message(self) -> Seq<char> {
        match self {
            ExtractErrorView::FileNotFound { path, .. } => "file does not exist: "@
                + path_debug_text(path),
            ExtractErrorView::ReadError { path, cause, .. } => "Error reading file "@
                + path_debug_text(path) + ": "@ + cause,
            ExtractErrorView::ParseError { error } => parse_error_text(error),
            ExtractErrorView::SignatureError { function, .. } =>
                "generating call for library function: signature of function "@ + function
                    + " cannot be converted"@,
        }
    }
}

impl ExtractError {
    /// The position that this failure is reported at, `None` for the parser's error, which
    /// holds its own.
    pub fn span(&self) -> (span: Option<proc_macro2::Span>)
        ensures
            span == self@.span(),
    {
        match self {
            ExtractError::FileNotFound { span, .. } => Some(*span),
            ExtractError::ReadError { span, .. } => Some(*span),
            ExtractError::ParseError { .. } => None,
            ExtractError::SignatureError { span, .. } => Some(*span),
        }
    }

    /// The message of this failure, for a human reader.
    pub fn message(&self) -> (text: String)
        ensures
            text@ == self@.message(),
    {
        match self {
            ExtractError::FileNotFound { path, .. } => {
                let mut text = String::from_str("file does not exist: ");
                text.append(path_debug(path.as_str()).as_str());
                text
            },
            ExtractError::ReadError { path, cause, .. } => {
                let mut text = String::from_str("Error reading file ");
                text.append(path_debug(path.as_str()).as_str());
                text.append(": ");
                text.append(cause.as_str());
                text
            },
            ExtractError::ParseError { error } => parse_error_message(error),
            ExtractError::SignatureError { function, .. } => {
                let mut text = String::from_str(
                    "generating call for library function: signature of function ",
                );
                text.append(function.as_str());
                text.append(" cannot be converted");
                text
            },
        }
    }
}

} // verus!
