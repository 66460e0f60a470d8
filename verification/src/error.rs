//! The errors a parse can end with.

use vstd::prelude::*;

verus! {

/// Why a parse call failed. Statements already applied before the
/// failure stay committed to the accumulator.
#[derive(Debug, Clone, PartialEq)]
pub enum SchemaError {
    /// The builder's dialect name is not among the supported synonyms;
    /// carries the offending name and the accepted names.
    UnknownDialect { dialect: String, options: Vec<String> },
    /// The SQL grammar rejected the text; carries its message verbatim.
    SyntaxError { message: String },
    /// An index-creation statement against a known table omitted the
    /// index name, which every index record requires.
    MissingIndexName,
}

/// Model of `SchemaError`.
#[verifier::ext_equal]
pub enum SchemaErrorView {
    UnknownDialect { dialect: Seq<char>, options: Seq<Seq<char>> },
    SyntaxError { message: Seq<char> },
    MissingIndexName,
}

impl DeepView for SchemaError {
    type V = SchemaErrorView;

    open spec fn deep_view(&self) -> SchemaErrorView {
        match self {
            SchemaError::UnknownDialect { dialect, options } => SchemaErrorView::UnknownDialect {
                dialect: dialect.deep_view(),
                options: options.deep_view(),
            },
            SchemaError::SyntaxError { message } => SchemaErrorView::SyntaxError {
                message: message.deep_view(),
            },
            SchemaError::MissingIndexName => SchemaErrorView::MissingIndexName,
        }
    }
}

} // verus!
