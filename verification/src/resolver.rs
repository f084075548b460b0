//! From the identifier of a language server to the process that runs it.
//!
//! The servers on offer are rows of a table. Offering another server means
//! adding a row to [`catalog`] and to [`catalog_entries`]; the lookup does not
//! change.

use vstd::prelude::*;
use vstd::string::StringExecFns;
use crate::failure::{
    message_carries_identifier, message_prefix, unknown_server_message, UnknownServerError,
};
use crate::launch::{LaunchModel, LaunchSpec};
use crate::text::same_text;

verus! {

/// One language server on offer: the identifier the editor asks for and the
/// executable that answers to it.
#[derive(Clone, Copy, Debug, PartialEq, Eq)]
pub struct ServerEntry {
    pub identifier: &'static str,
    pub program: &'static str,
}

impl View for ServerEntry {
    type V = (Seq<char>, Seq<char>);

    open spec fn view(&self) -> (Seq<char>, Seq<char>) {
        (self.identifier@, self.program@)
    }
}

/// The rows of a table as pairs of identifier and program.
pub open spec fn rows(entries: Seq<ServerEntry>) -> Seq<(Seq<char>, Seq<char>)> {
    entries.map_values(|entry: ServerEntry| entry@)
}

/// The servers on offer, as pairs of identifier and program.
pub open spec fn catalog() -> Seq<(Seq<char>, Seq<char>)> {
    seq![("ferrule-lsp"@, "ferrule-lsp"@)]
}

/// The program of the first row of `table` that carries `identifier`.
pub open spec fn program_in(table: Seq<(Seq<char>, Seq<char>)>, identifier: Seq<char>) -> Option<
    Seq<char>,
>
    decreases table.len(),
{
    if table.len() == 0 {
        None
    } else if table[0].0 == identifier {
        Some(table[0].1)
    } else {
        program_in(table.drop_first(), identifier)
    }
}

/// Whether a server is on offer under `identifier`.
pub open spec fn is_supported(identifier: Seq<char>) -> bool {
    program_in(catalog(), identifier) is Some
}

/// What resolving `identifier` gives: the bare launch of its program, or the
/// identifier itself when no server is on offer under it.
pub open spec fn resolve_model(identifier: Seq<char>) -> Result<LaunchModel, Seq<char>> {
    match program_in(catalog(), identifier) {
        Some(program) => Ok(LaunchModel::bare(program)),
        None => Err(identifier),
    }
}

/// A resolution's outcome as plain text.
pub open spec fn outcome_model(outcome: Result<LaunchSpec, UnknownServerError>) -> Result<
    LaunchModel,
    Seq<char>,
> {
    match outcome {
        Ok(launch) => Ok(launch@),
        Err(error) => Err(error@),
    }
}

/// The rows of [`catalog`], in its order.
pub fn catalog_entries() -> (entries: Vec<ServerEntry>)
    ensures
        rows(entries@) == catalog(),
{
    let entries = vec![ServerEntry { identifier: "ferrule-lsp", program: "ferrule-lsp" }];
    proof {
        assert(rows(entries@) =~= catalog());
    }
    entries
}

/// Looks `identifier` up in `entries`; the first row that carries it wins.
pub fn find_program(entries: &Vec<ServerEntry>, identifier: &str) -> (found: Option<&'static str>)
    ensures
        match found {
            Some(program) => program_in(rows(entries@), identifier@) == Some(program@),
            None => program_in(rows(entries@), identifier@) is None,
        },
{
    let ghost table = rows(entries@);
    assert(table.subrange(0, table.len() as int) =~= table);
    let mut at: usize = 0;
    while at < entries.len()
        invariant
            at <= entries.len(),
            table == rows(entries@),
            program_in(table, identifier@) == program_in(
                table.subrange(at as int, table.len() as int),
                identifier@,
            ),
        decreases entries.len() - at,
    {
        let entry = entries[at];
        let ghost rest = table.subrange(at as int, table.len() as int);
        assert(rest[0] == entry@);
        if same_text(entry.identifier, identifier) {
            return Some(entry.program);
        }
        assert(rest.drop_first() =~= table.subrange(at + 1, table.len() as int));
        at += 1;
    }
    None
}

/// Resolves the language server that the editor asks for.
///
/// `_context` stands for the project the server will work on. It is taken
/// because the editor hands one over with every request; no server on offer
/// depends on it, so the outcome is the same for every context.
pub fn resolve<C>(identifier: &str, _context: &C) -> (outcome: Result<
    LaunchSpec,
    UnknownServerError,
>)
    ensures
        outcome_model(outcome) == resolve_model(identifier@),
        outcome matches Ok(launch) ==> launch.wf(),
{
    let entries = catalog_entries();
    match find_program(&entries, identifier) {
        Some(program) => Ok(LaunchSpec::bare(String::from_str(program))),
        None => Err(UnknownServerError::new(identifier)),
    }
}

/// Exactly one server is on offer, under the identifier `ferrule-lsp`.
pub proof fn supported_is_ferrule_lsp(identifier: Seq<char>)
    ensures
        is_supported(identifier) <==> identifier == "ferrule-lsp"@,
{
    reveal_with_fuel(program_in, 2);
}

/// An identifier on offer resolves to a launch with a program that is not
/// empty, without arguments and without environment overrides.
pub proof fn supported_resolves_to_bare_launch(identifier: Seq<char>)
    requires
        is_supported(identifier),
    ensures
        resolve_model(identifier) matches Ok(launch) && {
            &&& launch.program.len() > 0
            &&& launch.args == Seq::<Seq<char>>::empty()
            &&& launch.env == Seq::<(Seq<char>, Seq<char>)>::empty()
            &&& launch.wf()
        },
{
    reveal_with_fuel(program_in, 2);
    reveal_strlit("ferrule-lsp");
}

/// An identifier that is not on offer is refused, and both the error and its
/// report carry the identifier character for character.
pub proof fn unsupported_is_refused_verbatim(identifier: Seq<char>)
    requires
        !is_supported(identifier),
    ensures
        resolve_model(identifier) == Err::<LaunchModel, Seq<char>>(identifier),
        unknown_server_message(identifier).subrange(
            message_prefix().len() as int,
            unknown_server_message(identifier).len() as int,
        ) == identifier,
{
    message_carries_identifier(identifier);
}

/// Every identifier resolves exactly one way: it is on offer and gives a
/// launch, or it is not and gives an error.
pub proof fn resolution_is_total(identifier: Seq<char>)
    ensures
        is_supported(identifier) <==> resolve_model(identifier) is Ok,
        !is_supported(identifier) <==> resolve_model(identifier) is Err,
{
}

/// Resolving is repeatable: two outcomes for one identifier hold the same
/// launch or the same error, whichever project contexts the calls were given.
pub proof fn resolve_is_repeatable(
    identifier: Seq<char>,
    first: Result<LaunchSpec, UnknownServerError>,
    second: Result<LaunchSpec, UnknownServerError>,
)
    requires
        outcome_model(first) == resolve_model(identifier),
        outcome_model(second) == resolve_model(identifier),
    ensures
        outcome_model(first) == outcome_model(second),
{
}

/// The empty identifier gets no special treatment: it is not on offer, and
/// the error records it as it is.
pub proof fn empty_identifier_is_unknown()
    ensures
        !is_supported(Seq::<char>::empty()),
        resolve_model(Seq::<char>::empty()) == Err::<LaunchModel, Seq<char>>(Seq::empty()),
{
    reveal_with_fuel(program_in, 2);
    reveal_strlit("ferrule-lsp");
    assert("ferrule-lsp"@.len() != Seq::<char>::empty().len());
}

} // verus!
