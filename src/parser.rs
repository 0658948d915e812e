//! The parser lifecycle: select a grammar by name, parse, reset, and compile
//! queries against the grammar last selected.
use vstd::prelude::*;

use tree_sitter::Parser as NativeParser;
use tree_sitter::Query as NativeQuery;
use tree_sitter::Tree as NativeTree;

use crate::error::{
    build_error, no_longer_registered_error, no_longer_registered_message, not_registered_error,
    not_registered_message, Error, ErrorKind,
};
use crate::native::{bind_language, compile_query, language_bind_error, query_compile_error};
use crate::registry::LanguageRegistry;
use crate::tree::{Query, Tree};

verus! {

/// The selection a parser holds after being asked for grammar `name`:
/// the name, when it is registered and the engine accepted the grammar;
/// otherwise the selection it held before.
pub open spec fn state_after_select(
    registry: Map<Seq<char>, tree_sitter::Language>,
    state: Option<Seq<char>>,
    name: Seq<char>,
    bound: bool,
) -> Option<Seq<char>> {
    if registry.contains_key(name) && bound {
        Some(name)
    } else {
        state
    }
}

/// The grammar a query is compiled against from selection `state`, or the
/// kind of error reported before any compilation is attempted.
pub open spec fn query_target(
    registry: Map<Seq<char>, tree_sitter::Language>,
    state: Option<Seq<char>>,
) -> Result<Seq<char>, ErrorKind> {
    match state {
        None => Err(ErrorKind::NoLanguage),
        Some(name) => if registry.contains_key(name) {
            Ok(name)
        } else {
            Err(ErrorKind::NoLongerRegistered)
        },
    }
}

/// Message of the error reported when no grammar is selected.
pub open spec fn no_language_message() -> Seq<char> {
    "No language set on parser"@
}

/// Message of the error reported when the engine produced no tree.
pub open spec fn parse_failed_message() -> Seq<char> {
    "Failed to parse"@
}

/// One native engine and the grammar currently bound into it, with the name
/// it was selected by.
pub struct Parser {
    raw: NativeParser,
    selection: Option<(String, tree_sitter::Language)>,
}

/// Relies on `Parser::parse` with no previous tree. tree-sitter returns no
/// tree only when no grammar is bound (or on a progress-callback cancel or a
/// wasm scanner fault, neither of which is used here). The engine of a
/// `Parser` has a grammar bound exactly when its selection is `Some`: the
/// selection is recorded only after a successful bind, and a refused bind
/// leaves the engine as it was.
#[verifier::external_body]
fn parse_selected(p: &mut Parser, text: &String) -> (r: Option<NativeTree>)
    ensures
        final(p)@ == old(p)@,
        final(p).grammar() == old(p).grammar(),
        r is Some <==> old(p)@ is Some,
{
    p.raw.parse(text.as_bytes(), None)
}

impl Parser {
    /// The name of the selected grammar, if any.
    pub closed spec fn view(&self) -> Option<Seq<char>> {
        match self.selection {
            Some((n, _)) => Some(n@),
            None => None,
        }
    }

    /// The grammar handle bound into the engine, if any: the one the registry
    /// held for the selected name when it was selected.
    pub closed spec fn grammar(&self) -> Option<tree_sitter::Language> {
        match self.selection {
            Some((_, l)) => Some(l),
            None => None,
        }
    }

    /// A parser with no grammar selected and none bound.
    pub fn new() -> (r: Self)
        ensures
            r@ is None,
            r.grammar() is None,
    {
        Parser { raw: NativeParser::new(), selection: None }
    }

    /// The name of the selected grammar, if any.
    pub fn language_name(&self) -> (r: Option<String>)
        ensures
            match r {
                Some(n) => self@ == Some(n@),
                None => self@ is None,
            },
    {
        match &self.selection {
            Some((n, _)) => Some(n.clone()),
            None => None,
        }
    }

    /// Records the outcome of binding grammar `language` under `lang`.
    fn finish_select(
        &mut self,
        lang: String,
        language: &tree_sitter::Language,
        bound: Result<(), String>,
    ) -> (r: Result<bool, Error>)
        ensures
            bound is Ok ==> {
                &&& r == Ok::<bool, Error>(true)
                &&& final(self)@ == Some(lang@)
                &&& final(self).grammar() == Some(*language)
            },
            bound is Err ==> {
                &&& r is Err
                &&& r->Err_0.kind == ErrorKind::IncompatibleLanguage
                &&& r->Err_0.message@ == bound->Err_0@
                &&& final(self)@ == old(self)@
                &&& final(self).grammar() == old(self).grammar()
            },
    {
        match bound {
            Ok(()) => {
                self.selection = Some((lang, language.clone()));
                Ok(true)
            },
            Err(message) => Err(build_error(ErrorKind::IncompatibleLanguage, message)),
        }
    }

    /// Selects the grammar registered under `lang` (exact string equality)
    /// and binds it into the engine. An unregistered name, or a grammar the
    /// engine refuses, leaves the selection and the bound grammar as they were.
    pub fn set_language(&mut self, registry: &LanguageRegistry, lang: String) -> (r: Result<
        bool,
        Error,
    >)
        requires
            registry.wf(),
        ensures
            final(self)@ == state_after_select(registry@, old(self)@, lang@, r is Ok),
            final(self).grammar() == (if r is Ok {
                Some(registry@[lang@])
            } else {
                old(self).grammar()
            }),
            r is Ok ==> r == Ok::<bool, Error>(true),
            !registry@.contains_key(lang@) ==> {
                &&& r is Err
                &&& r->Err_0.kind == ErrorKind::NotRegistered
                &&& r->Err_0.message@ == not_registered_message(lang@)
            },
            registry@.contains_key(lang@) ==> {
                &&& r is Ok <==> language_bind_error(registry@[lang@]) is None
                &&& r is Err ==> r->Err_0.kind == ErrorKind::IncompatibleLanguage
                    && language_bind_error(registry@[lang@]) == Some(r->Err_0.message@)
            },
    {
        match registry.get(&lang) {
            Some(language) => {
                let bound = bind_language(&mut self.raw, language);
                self.finish_select(lang, language, bound)
            },
            None => Err(not_registered_error(&lang)),
        }
    }

    /// Parses `source` from scratch with the bound grammar. It yields a tree
    /// exactly when a grammar is selected.
    pub fn parse(&mut self, source: String) -> (r: Result<Tree, Error>)
        ensures
            final(self)@ == old(self)@,
            final(self).grammar() == old(self).grammar(),
            r is Ok <==> old(self)@ is Some,
            match r {
                Ok(t) => Some(t.language()) == old(self)@ && Some(t.grammar()) == old(self).grammar(),
                Err(e) => e.kind == ErrorKind::ParseFailed && e.message@ == parse_failed_message(),
            },
    {
        let parsed = parse_selected(self, &source);
        match (parsed, &self.selection) {
            (Some(raw), Some((name, language))) => Ok(Tree::new(raw, name.clone(), language.clone())),
            _ => Err(build_error(ErrorKind::ParseFailed, String::from_str("Failed to parse"))),
        }
    }

    /// Clears the engine's incremental-parse state; the selection stays.
    pub fn reset(&mut self)
        ensures
            final(self)@ == old(self)@,
            final(self).grammar() == old(self).grammar(),
    {
        self.raw.reset();
    }

    /// Compiles pattern `source` against the grammar that the selected name
    /// resolves to in `registry` now.
    pub fn build_query(&self, registry: &LanguageRegistry, source: String) -> (r: Result<
        Query,
        Error,
    >)
        requires
            registry.wf(),
        ensures
            match query_target(registry@, self@) {
                Err(kind) => {
                    &&& r is Err
                    &&& r->Err_0.kind == kind
                    &&& kind == ErrorKind::NoLanguage ==> r->Err_0.message@ == no_language_message()
                    &&& kind == ErrorKind::NoLongerRegistered ==> r->Err_0.message@
                        == no_longer_registered_message(self@->Some_0)
                },
                Ok(name) => {
                    &&& r is Ok <==> query_compile_error(registry@[name], source@) is None
                    &&& match r {
                        Ok(q) => q.language() == name && q.grammar() == registry@[name],
                        Err(e) => e.kind == ErrorKind::InvalidQuery && query_compile_error(
                            registry@[name],
                            source@,
                        ) == Some(e.message@),
                    }
                },
            },
    {
        match &self.selection {
            None => Err(build_error(ErrorKind::NoLanguage, String::from_str("No language set on parser"))),
            Some((name, _)) => match registry.get(name) {
                None => Err(no_longer_registered_error(name)),
                Some(language) => finish_query(
                    name.clone(),
                    language,
                    compile_query(language, source.as_str()),
                ),
            },
        }
    }
}

/// Turns the engine's compile outcome for grammar `language`, registered as
/// `name`, into the binding's result.
fn finish_query(
    name: String,
    language: &tree_sitter::Language,
    compiled: Result<NativeQuery, String>,
) -> (r: Result<Query, Error>)
    ensures
        compiled is Ok ==> r is Ok && r->Ok_0.language() == name@ && r->Ok_0.grammar() == *language,
        compiled is Err ==> r is Err && r->Err_0.kind == ErrorKind::InvalidQuery
            && r->Err_0.message@ == compiled->Err_0@,
{
    match compiled {
        Ok(q) => Ok(Query::new(q, name, language.clone())),
        Err(message) => Err(build_error(ErrorKind::InvalidQuery, message)),
    }
}

/// Asking for a name that is not registered never changes a parser's
/// selection, whatever the engine would have done with a grammar.
pub proof fn lemma_unregistered_select_keeps_state(
    registry: Map<Seq<char>, tree_sitter::Language>,
    state: Option<Seq<char>>,
    name: Seq<char>,
    bound: bool,
)
    requires
        !registry.contains_key(name),
    ensures
        state_after_select(registry, state, name, bound) == state,
{
}

/// Once a registered name has been selected, a query is compiled against
/// exactly that name.
pub proof fn lemma_select_then_query(
    registry: Map<Seq<char>, tree_sitter::Language>,
    state: Option<Seq<char>>,
    name: Seq<char>,
)
    requires
        registry.contains_key(name),
    ensures
        query_target(registry, state_after_select(registry, state, name, true)) == Ok::<
            Seq<char>,
            ErrorKind,
        >(name),
{
}

/// On a fresh parser, asking for an unregistered name and then for a query
/// fails with "no language set".
pub proof fn lemma_unregistered_select_then_query(
    registry: Map<Seq<char>, tree_sitter::Language>,
    name: Seq<char>,
    bound: bool,
)
    requires
        !registry.contains_key(name),
    ensures
        query_target(registry, state_after_select(registry, None, name, bound)) == Err::<
            Seq<char>,
            ErrorKind,
        >(ErrorKind::NoLanguage),
{
}

/// A parser with no selection refuses every query pattern with "no language
/// set", whatever the registry holds.
pub proof fn lemma_fresh_parser_has_no_query(registry: Map<Seq<char>, tree_sitter::Language>)
    ensures
        query_target(registry, None) == Err::<Seq<char>, ErrorKind>(ErrorKind::NoLanguage),
{
}

} // verus!
