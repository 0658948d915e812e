use vstd::prelude::*;

verus! {

/// Why an operation of the binding failed.
#[derive(Clone, Copy, Debug, PartialEq, Eq, Structural)]
pub enum ErrorKind {
    /// The lock that guards the shared registry could not be taken.
    RegistryUnavailable,
    /// A grammar is already registered under the name.
    AlreadyRegistered,
    /// No grammar is registered under the requested name.
    NotRegistered,
    /// The engine refused to bind the grammar (incompatible ABI version).
    IncompatibleLanguage,
    /// The engine produced no tree.
    ParseFailed,
    /// A query was requested from a parser with no grammar selected.
    NoLanguage,
    /// The selected grammar's name no longer resolves in the registry.
    NoLongerRegistered,
    /// The engine rejected the query pattern.
    InvalidQuery,
}

/// A failure, tagged with its cause and carrying a readable message.
#[derive(Clone, Debug)]
pub struct Error {
    pub kind: ErrorKind,
    pub message: String,
}

/// Builds the error value that every fallible operation hands back.
pub fn build_error(kind: ErrorKind, message: String) -> (r: Error)
    ensures
        r.kind == kind,
        r.message@ == message@,
{
    Error { kind, message }
}

/// Message for a name that no grammar is registered under.
pub open spec fn not_registered_message(name: Seq<char>) -> Seq<char> {
    "Language "@ + name + " is not registered"@
}

/// Message for a selected name that the registry no longer resolves.
pub open spec fn no_longer_registered_message(name: Seq<char>) -> Seq<char> {
    "Language "@ + name + " is no longer registered"@
}

/// Message for a name that is already taken in the registry.
pub open spec fn already_registered_message(name: Seq<char>) -> Seq<char> {
    "Language "@ + name + " is already registered"@
}

/// Builds `prefix + name + suffix` as an owned string.
fn surround(prefix: &str, name: &str, suffix: &str) -> (r: String)
    ensures
        r@ == prefix@ + name@ + suffix@,
{
    let mut s = String::from_str(prefix);
    s.append(name);
    s.append(suffix);
    s
}

/// The error for selecting a name that no grammar is registered under.
pub fn not_registered_error(name: &String) -> (r: Error)
    ensures
        r.kind == ErrorKind::NotRegistered,
        r.message@ == not_registered_message(name@),
{
    build_error(ErrorKind::NotRegistered, surround("Language ", name.as_str(), " is not registered"))
}

/// The error for a selected name that the registry no longer resolves.
pub fn no_longer_registered_error(name: &String) -> (r: Error)
    ensures
        r.kind == ErrorKind::NoLongerRegistered,
        r.message@ == no_longer_registered_message(name@),
{
    build_error(
        ErrorKind::NoLongerRegistered,
        surround("Language ", name.as_str(), " is no longer registered"),
    )
}

/// The error for registering a name that is already taken.
pub fn already_registered_error(name: &String) -> (r: Error)
    ensures
        r.kind == ErrorKind::AlreadyRegistered,
        r.message@ == already_registered_message(name@),
{
    build_error(
        ErrorKind::AlreadyRegistered,
        surround("Language ", name.as_str(), " is already registered"),
    )
}

} // verus!
