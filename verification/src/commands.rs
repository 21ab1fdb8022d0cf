//! The command surface: for each operation, what to validate and compile
//! before anything is sent to the store, and what to answer once the store
//! has replied.
//!
//! A plan is made from the caller's arguments and the connection sources
//! alone. Every failure that a plan can end in is found before the network
//! is touched. The caller connects, runs the plan's query, and hands the
//! rows to the operation's response function.

use crate::connection::ConnectionConfig;
use crate::cypher::QueryRequest;
use crate::error::{AppError, ErrorKind, ErrorModel};
use crate::json::{entries_model, json_object_entries, read_json_object, JsonEntryModel, JsonEntry};
use crate::text::{parse_i64, parse_usize, parsed_i64, parsed_usize};
use vstd::prelude::*;
use vstd::string::*;

pub mod nodes;
pub mod ping;
pub mod query;
pub mod rels;
pub mod schema;

verus! {

/// What to connect to and what to run there.
#[derive(Debug, PartialEq)]
pub struct Plan {
    pub config: ConnectionConfig,
    pub query: QueryRequest,
}

/// How a command presents itself: its name, what it does, and how it is
/// called.
#[derive(Debug, PartialEq, Eq)]
pub struct CommandSpec {
    pub name: String,
    pub description: String,
    pub usage: String,
}

/// A command and the commands under it, in the order in which they are
/// registered.
#[derive(Debug, PartialEq, Eq)]
pub struct CommandGroup {
    pub command: CommandSpec,
    pub subcommands: Vec<CommandSpec>,
}

/// What a `CommandSpec` is, as mathematics.
pub struct CommandSpecModel {
    pub name: Seq<char>,
    pub description: Seq<char>,
    pub usage: Seq<char>,
}

/// What a `CommandGroup` is, as mathematics.
pub struct CommandGroupModel {
    pub command: CommandSpecModel,
    pub subcommands: Seq<CommandSpecModel>,
}

impl View for CommandSpec {
    type V = CommandSpecModel;

    open spec fn view(&self) -> CommandSpecModel {
        CommandSpecModel { name: self.name@, description: self.description@, usage: self.usage@ }
    }
}

/// The models of a sequence of commands.
pub open spec fn specs_model(specs: Seq<CommandSpec>) -> Seq<CommandSpecModel> {
    Seq::new(specs.len(), |i: int| specs[i]@)
}

impl View for CommandGroup {
    type V = CommandGroupModel;

    open spec fn view(&self) -> CommandGroupModel {
        CommandGroupModel { command: self.command@, subcommands: specs_model(self.subcommands@) }
    }
}

/// The presentation of a command.
pub open spec fn presents(
    name: Seq<char>,
    description: Seq<char>,
    usage: Seq<char>,
) -> CommandSpecModel {
    CommandSpecModel { name, description, usage }
}

impl CommandSpec {
    /// The presentation of a command.
    pub fn new(name: &str, description: &str, usage: &str) -> (spec: CommandSpec)
        ensures
            spec@ == presents(name@, description@, usage@),
    {
        CommandSpec {
            name: String::from_str(name),
            description: String::from_str(description),
            usage: String::from_str(usage),
        }
    }
}

/// The number of rows that a read asks for where the caller names none.
pub const DEFAULT_LIMIT: usize = 100;

/// The characters of an argument that may be absent.
pub open spec fn arg_of(value: Option<&str>) -> Option<Seq<char>> {
    match value {
        Some(s) => Some(s@),
        None => None,
    }
}

/// A failure of the caller's input, with its reason.
pub open spec fn invalid(reason: Seq<char>) -> ErrorModel {
    ErrorModel { kind: ErrorKind::InvalidParams, detail: reason }
}

/// The failure of a connection without a password.
pub open spec fn not_configured() -> ErrorModel {
    ErrorModel { kind: ErrorKind::ConnectionNotConfigured, detail: Seq::empty() }
}

/// A failed query, with its reason.
pub open spec fn query_failed(reason: Seq<char>) -> ErrorModel {
    ErrorModel { kind: ErrorKind::QueryFailed, detail: reason }
}

/// A node that is not there, with the id that was asked for.
pub open spec fn node_not_found(id: Seq<char>) -> ErrorModel {
    ErrorModel { kind: ErrorKind::NodeNotFound, detail: id }
}

/// A relationship that is not there, with the id that was asked for.
pub open spec fn relationship_not_found(id: Seq<char>) -> ErrorModel {
    ErrorModel { kind: ErrorKind::RelNotFound, detail: id }
}

/// The limit that applies: the caller's if it is a numeral of an unsigned
/// integer, else the default.
pub open spec fn limit_of(raw: Option<Seq<char>>) -> usize {
    match raw {
        Some(s) => match parsed_usize(s) {
            Some(n) => n,
            None => DEFAULT_LIMIT,
        },
        None => DEFAULT_LIMIT,
    }
}

/// An end point that applies: the caller's if it is a numeral of a 64-bit
/// integer. Any other text is as good as none.
pub open spec fn endpoint_of(raw: Option<Seq<char>>) -> Option<i64> {
    match raw {
        Some(s) => parsed_i64(s),
        None => None,
    }
}

/// The id that an argument names, or why it names none.
pub open spec fn id_of(
    raw: Option<Seq<char>>,
    missing: Seq<char>,
    invalid_prefix: Seq<char>,
) -> Result<i64, ErrorModel> {
    match raw {
        None => Err(invalid(missing)),
        Some(s) => match parsed_i64(s) {
            Some(id) => Ok(id),
            None => Err(invalid(invalid_prefix + s)),
        },
    }
}

/// The entries of a property object given as text, or why the text is none.
pub open spec fn properties_of(text: Seq<char>, invalid_prefix: Seq<char>) -> Result<
    Seq<(Seq<char>, JsonEntryModel)>,
    ErrorModel,
> {
    match json_object_entries(text) {
        Ok(entries) => Ok(entries),
        Err(why) => Err(invalid(invalid_prefix + why)),
    }
}

/// A failure of the caller's input.
pub fn invalid_params(reason: &str) -> (error: AppError)
    ensures
        error@ == invalid(reason@),
{
    AppError::InvalidParams { reason: String::from_str(reason) }
}

/// The limit that applies to a read.
pub fn limit_or_default(raw: Option<&str>) -> (limit: usize)
    ensures
        limit == limit_of(arg_of(raw)),
{
    match raw {
        Some(s) => match parse_usize(s) {
            Some(n) => n,
            None => DEFAULT_LIMIT,
        },
        None => DEFAULT_LIMIT,
    }
}

/// The end point that applies to a search for relationships.
pub fn endpoint(raw: Option<&str>) -> (id: Option<i64>)
    ensures
        id == endpoint_of(arg_of(raw)),
{
    match raw {
        Some(s) => parse_i64(s),
        None => None,
    }
}

/// Reads the id that an argument names. An absent argument fails with the
/// reason `missing`, and one that is no numeral of a 64-bit integer with
/// `invalid_prefix` followed by the argument as it was given.
pub fn parse_id(raw: Option<&str>, missing: &str, invalid_prefix: &str) -> (id: Result<
    i64,
    AppError,
>)
    ensures
        match id {
            Ok(v) => id_of(arg_of(raw), missing@, invalid_prefix@) == Ok::<i64, ErrorModel>(v),
            Err(e) => id_of(arg_of(raw), missing@, invalid_prefix@) == Err::<i64, ErrorModel>(e@),
        },
{
    match raw {
        None => Err(invalid_params(missing)),
        Some(s) => match parse_i64(s) {
            Some(id) => Ok(id),
            None => {
                let mut reason = String::from_str(invalid_prefix);
                reason.append(s);
                Err(AppError::InvalidParams { reason })
            },
        },
    }
}

/// What a parsed property object means to a command: its entries, or an
/// input failure whose reason is `invalid_prefix` followed by the parser's
/// description.
pub fn properties_or_invalid(
    parsed: Result<Vec<(String, JsonEntry)>, String>,
    invalid_prefix: &str,
) -> (entries: Result<Vec<(String, JsonEntry)>, AppError>)
    ensures
        match parsed {
            Ok(given) => entries == Ok::<Vec<(String, JsonEntry)>, AppError>(given),
            Err(why) => entries is Err && entries->Err_0@ == invalid(invalid_prefix@ + why@),
        },
{
    match parsed {
        Ok(given) => Ok(given),
        Err(why) => {
            let mut reason = String::from_str(invalid_prefix);
            reason.append(why.as_str());
            Err(AppError::InvalidParams { reason })
        },
    }
}

/// Reads a property object from its JSON text.
pub fn read_properties(text: &str, invalid_prefix: &str) -> (entries: Result<
    Vec<(String, JsonEntry)>,
    AppError,
>)
    ensures
        match entries {
            Ok(given) => properties_of(text@, invalid_prefix@) == Ok::<
                Seq<(Seq<char>, JsonEntryModel)>,
                ErrorModel,
            >(entries_model(given@)),
            Err(e) => properties_of(text@, invalid_prefix@) == Err::<
                Seq<(Seq<char>, JsonEntryModel)>,
                ErrorModel,
            >(e@),
        },
{
    properties_or_invalid(read_json_object(text), invalid_prefix)
}

} // verus!
