//! Results handed to the caller: syntax trees and compiled queries, each
//! remembering the grammar it came from.
use vstd::prelude::*;

use std::sync::Arc;

verus! {

/// An immutable parse result. The native tree is shared, so the value stays
/// readable whatever later happens to the parser that produced it.
#[derive(Clone, Debug)]
pub struct Tree {
    raw: Arc<tree_sitter::Tree>,
    language_name: String,
    grammar: tree_sitter::Language,
}

impl Tree {
    /// Name of the grammar that was selected when the tree was parsed.
    pub closed spec fn language(&self) -> Seq<char> {
        self.language_name@
    }

    /// The grammar handle the tree was parsed with.
    pub closed spec fn grammar(&self) -> tree_sitter::Language {
        self.grammar
    }

    pub(crate) fn new(raw: tree_sitter::Tree, language_name: String, grammar: tree_sitter::Language) -> (r: Self)
        ensures
            r.language() == language_name@,
            r.grammar() == grammar,
    {
        Tree { raw: Arc::new(raw), language_name, grammar }
    }

    /// The grammar name recorded at parse time.
    pub fn language_name(&self) -> (r: String)
        ensures
            r@ == self.language(),
    {
        self.language_name.clone()
    }

    /// The native syntax tree.
    pub fn raw(&self) -> &tree_sitter::Tree {
        &self.raw
    }
}

/// A structural pattern compiled against one registered grammar.
#[derive(Debug)]
pub struct Query {
    raw: tree_sitter::Query,
    language_name: String,
    grammar: tree_sitter::Language,
}

impl Query {
    /// Name of the grammar the pattern was compiled against.
    pub closed spec fn language(&self) -> Seq<char> {
        self.language_name@
    }

    /// The grammar handle the pattern was compiled against.
    pub closed spec fn grammar(&self) -> tree_sitter::Language {
        self.grammar
    }

    pub(crate) fn new(raw: tree_sitter::Query, language_name: String, grammar: tree_sitter::Language) -> (r: Self)
        ensures
            r.language() == language_name@,
            r.grammar() == grammar,
    {
        Query { raw, language_name, grammar }
    }

    /// The grammar name the pattern was compiled against.
    pub fn language_name(&self) -> (r: String)
        ensures
            r@ == self.language(),
    {
        self.language_name.clone()
    }

    /// The native compiled query.
    pub fn raw(&self) -> &tree_sitter::Query {
        &self.raw
    }
}

} // verus!
