//! The tree-sitter items that the binding relies on, with what is assumed of
//! each.
use vstd::prelude::*;

use tree_sitter::Parser as NativeParser;
use tree_sitter::Query as NativeQuery;
use tree_sitter::Tree as NativeTree;

verus! {

#[verifier::external_type_specification]
#[verifier::external_body]
pub struct ExLanguage(tree_sitter::Language);

#[verifier::external_type_specification]
#[verifier::external_body]
pub struct ExParser(NativeParser);

#[verifier::external_type_specification]
#[verifier::external_body]
pub struct ExTree(NativeTree);

#[verifier::external_type_specification]
#[verifier::external_body]
pub struct ExQuery(NativeQuery);

/// Relies on `Language::clone`, which hands back the same grammar pointer
/// (`ts_language_copy` returns its argument).
pub assume_specification[ <tree_sitter::Language as Clone>::clone ](
    l: &tree_sitter::Language,
) -> (r: tree_sitter::Language)
    ensures
        r == *l,
;

/// Relies on `Parser::new`: a fresh engine instance with no grammar bound.
pub assume_specification[ NativeParser::new ]() -> NativeParser;

/// What binding `language` into an engine reports: `None` when the engine
/// accepts it, or the text of the engine's error. It depends on the grammar
/// alone (its ABI version).
pub uninterp spec fn language_bind_error(language: tree_sitter::Language) -> Option<Seq<char>>;

/// Relies on `Parser::set_language`: binds the grammar when its ABI version is
/// in the supported range, else reports `LanguageError`, whose text is kept.
#[verifier::external_body]
pub(crate) fn bind_language(p: &mut NativeParser, language: &tree_sitter::Language) -> (r: Result<
    (),
    String,
>)
    ensures
        r is Ok <==> language_bind_error(*language) is None,
        r is Err ==> language_bind_error(*language) == Some(r->Err_0@),
{
    match p.set_language(language) {
        Ok(()) => Ok(()),
        Err(e) => Err(e.to_string()),
    }
}

/// Relies on `Parser::reset`: clears the engine's incremental-parse state.
pub assume_specification[ NativeParser::reset ](p: &mut NativeParser);

/// What compiling pattern `source` against `language` reports: `None` when
/// the pattern compiles, or the text of the engine's `QueryError`. It depends
/// on the grammar and the pattern alone.
pub uninterp spec fn query_compile_error(
    language: tree_sitter::Language,
    source: Seq<char>,
) -> Option<Seq<char>>;

/// Relies on `Query::new`: compiles a pattern against a grammar, or reports
/// why the pattern is invalid; the error's text is kept.
#[verifier::external_body]
pub(crate) fn compile_query(language: &tree_sitter::Language, source: &str) -> (r: Result<
    NativeQuery,
    String,
>)
    ensures
        r is Ok <==> query_compile_error(*language, source@) is None,
        r is Err ==> query_compile_error(*language, source@) == Some(r->Err_0@),
{
    match NativeQuery::new(language, source) {
        Ok(q) => Ok(q),
        Err(e) => Err(e.to_string()),
    }
}

} // verus!
