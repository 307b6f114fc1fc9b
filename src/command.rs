//! The decisions of one invocation: which remote call a command asks for,
//! and what follows from the node's reply.
use vstd::prelude::*;

use crate::account::{accounts_json, export_document, records_view, AccountRecord};
use crate::error::IndexerError;
use crate::identifier::{base58_text, is_identifier_text, parse_identifier, Identifier};

verus! {

/// A command as given on the command line; the program id is a separate
/// global option.
#[derive(Clone, Debug, PartialEq, Eq)]
pub enum Command {
    FetchAccounts,
    GetBalance { account_pubkey: String },
    GetTransactionCount,
    ExportAccountsJson { filename: String },
}

/// The one remote call that a valid command makes, with its parsed inputs.
#[derive(Clone, Debug, PartialEq, Eq)]
pub enum Request {
    FetchAccounts { program: Identifier },
    GetBalance { account: Identifier },
    GetTransactionCount,
    ExportAccountsJson { program: Identifier, filename: String },
}

/// What the node answered.
#[derive(Clone, Debug, PartialEq, Eq)]
pub enum Reply {
    Accounts(Vec<AccountRecord>),
    Balance(u64),
    TransactionCount(u64),
}

/// What is left to do once the node has answered.
#[derive(Clone, Debug, PartialEq, Eq)]
pub enum Effect {
    /// Print each record's key and data.
    ListAccounts(Vec<AccountRecord>),
    /// Print the balance of the account.
    ShowBalance { account: Identifier, lamports: u64 },
    /// Print the node's transaction count.
    ShowTransactionCount(u64),
    /// Write `contents` to `filename`, replacing what it held, then confirm.
    WriteFile { filename: String, contents: String },
}

/// `r` is the outcome of parsing `text` as an identifier and, on success,
/// of building a request from it with `make`.
pub open spec fn parsed_into(
    text: Seq<char>,
    r: Result<Request, IndexerError>,
    make: spec_fn(Identifier) -> Request,
) -> bool {
    if is_identifier_text(text) {
        exists|id: Identifier| #[trigger] base58_text(id.key()) == text && r == Ok::<Request, IndexerError>(make(id))
    } else {
        r == Err::<Request, IndexerError>(IndexerError::InvalidIdentifier)
    }
}

/// The request, or the error, that a command with an optional program id
/// leads to. Listing and exporting need the program id.
pub open spec fn dispatches_to(
    command: Command,
    program_id: Option<String>,
    r: Result<Request, IndexerError>,
) -> bool {
    match command {
        Command::FetchAccounts => match program_id {
            None => r == Err::<Request, IndexerError>(IndexerError::MissingProgramId),
            Some(p) => parsed_into(p@, r, |id: Identifier| Request::FetchAccounts { program: id }),
        },
        Command::GetBalance { account_pubkey } => parsed_into(
            account_pubkey@,
            r,
            |id: Identifier| Request::GetBalance { account: id },
        ),
        Command::GetTransactionCount => r == Ok::<Request, IndexerError>(Request::GetTransactionCount),
        Command::ExportAccountsJson { filename } => match program_id {
            None => r == Err::<Request, IndexerError>(IndexerError::MissingProgramId),
            Some(p) => parsed_into(
                p@,
                r,
                |id: Identifier| Request::ExportAccountsJson { program: id, filename: filename },
            ),
        },
    }
}

/// Turns a command into the remote call it makes, before any call is made.
pub fn dispatch(command: Command, program_id: Option<String>) -> (r: Result<Request, IndexerError>)
    ensures
        dispatches_to(command, program_id, r),
{
    match command {
        Command::FetchAccounts => match program_id {
            None => Err(IndexerError::MissingProgramId),
            Some(p) => match parse_identifier(p.as_str()) {
                Ok(id) => Ok(Request::FetchAccounts { program: id }),
                Err(e) => Err(e),
            },
        },
        Command::GetBalance { account_pubkey } => match parse_identifier(account_pubkey.as_str()) {
            Ok(id) => Ok(Request::GetBalance { account: id }),
            Err(e) => Err(e),
        },
        Command::GetTransactionCount => Ok(Request::GetTransactionCount),
        Command::ExportAccountsJson { filename } => match program_id {
            None => Err(IndexerError::MissingProgramId),
            Some(p) => match parse_identifier(p.as_str()) {
                Ok(id) => Ok(Request::ExportAccountsJson { program: id, filename }),
                Err(e) => Err(e),
            },
        },
    }
}


/// The outcome of a request once the node has answered: `reply` is `None`
/// where the call failed. A reply of another kind than the request asked for
/// counts as a failed call.
pub open spec fn settles_to(
    request: Request,
    reply: Option<Reply>,
    r: Result<Effect, IndexerError>,
) -> bool {
    match reply {
        None => r == Err::<Effect, IndexerError>(IndexerError::RpcFailure),
        Some(answer) => match (request, answer) {
            (Request::FetchAccounts { .. }, Reply::Accounts(records)) => r matches Ok(
                Effect::ListAccounts(listed),
            ) && listed@ == records@,
            (Request::GetBalance { account }, Reply::Balance(lamports)) => r == Ok::<
                Effect,
                IndexerError,
            >(Effect::ShowBalance { account, lamports }),
            (Request::GetTransactionCount, Reply::TransactionCount(n)) => r == Ok::<
                Effect,
                IndexerError,
            >(Effect::ShowTransactionCount(n)),
            (Request::ExportAccountsJson { filename, .. }, Reply::Accounts(records)) => match accounts_json(
                records_view(records@),
            ) {
                Some(text) => r matches Ok(Effect::WriteFile { filename: f, contents }) && f@
                    == filename@ && contents@ == text,
                None => r == Err::<Effect, IndexerError>(IndexerError::EncodeFailure),
            },
            _ => r == Err::<Effect, IndexerError>(IndexerError::RpcFailure),
        },
    }
}

/// Decides what follows from the node's reply to a request.
pub fn settle(request: Request, reply: Option<Reply>) -> (r: Result<Effect, IndexerError>)
    ensures
        settles_to(request, reply, r),
{
    match reply {
        None => Err(IndexerError::RpcFailure),
        Some(answer) => match (request, answer) {
            (Request::FetchAccounts { .. }, Reply::Accounts(records)) => Ok(
                Effect::ListAccounts(records),
            ),
            (Request::GetBalance { account }, Reply::Balance(lamports)) => Ok(
                Effect::ShowBalance { account, lamports },
            ),
            (Request::GetTransactionCount, Reply::TransactionCount(n)) => Ok(
                Effect::ShowTransactionCount(n),
            ),
            (Request::ExportAccountsJson { filename, .. }, Reply::Accounts(records)) => {
                match export_document(&records) {
                    Ok(contents) => Ok(Effect::WriteFile { filename, contents }),
                    Err(e) => Err(e),
                }
            },
            _ => Err(IndexerError::RpcFailure),
        },
    }
}

/// Listing accounts without a program id is refused before any remote call:
/// no request comes of it.
pub proof fn lemma_fetch_needs_program_id(r: Result<Request, IndexerError>)
    requires
        dispatches_to(Command::FetchAccounts, None, r),
    ensures
        r == Err::<Request, IndexerError>(IndexerError::MissingProgramId),
{
}

/// A failed call never leads to a file being written: its outcome is
/// `RpcFailure`, whatever the request.
pub proof fn lemma_failed_call_writes_nothing(request: Request, r: Result<Effect, IndexerError>)
    requires
        settles_to(request, None, r),
    ensures
        r == Err::<Effect, IndexerError>(IndexerError::RpcFailure),
        !(r matches Ok(Effect::WriteFile { .. })),
{
}

/// For one reply, an export writes the JSON of exactly the records, in order,
/// that a listing of the same program shows.
pub proof fn lemma_export_matches_listing(
    program: Identifier,
    filename: String,
    records: Vec<AccountRecord>,
    listed: Result<Effect, IndexerError>,
    exported: Result<Effect, IndexerError>,
)
    requires
        settles_to(Request::FetchAccounts { program }, Some(Reply::Accounts(records)), listed),
        settles_to(
            Request::ExportAccountsJson { program, filename },
            Some(Reply::Accounts(records)),
            exported,
        ),
    ensures
        listed matches Ok(Effect::ListAccounts(shown)) && (exported matches Ok(
            Effect::WriteFile { contents, .. },
        ) ==> accounts_json(records_view(shown@)) == Some(contents@)),
        exported is Err <==> accounts_json(records_view(records@)) is None,
{
}

/// Exporting to the same file twice writes, the second time, what the second
/// reply alone gives: two replies with the same records give the same file.
pub proof fn lemma_export_is_deterministic(
    program: Identifier,
    filename: String,
    first: Vec<AccountRecord>,
    second: Vec<AccountRecord>,
    r1: Result<Effect, IndexerError>,
    r2: Result<Effect, IndexerError>,
)
    requires
        settles_to(
            Request::ExportAccountsJson { program, filename },
            Some(Reply::Accounts(first)),
            r1,
        ),
        settles_to(
            Request::ExportAccountsJson { program, filename },
            Some(Reply::Accounts(second)),
            r2,
        ),
    ensures
        r2 matches Ok(Effect::WriteFile { filename: f, contents }) ==> f@ == filename@ && Some(
            contents@,
        ) == accounts_json(records_view(second@)),
        records_view(first@) == records_view(second@) ==> match (r1, r2) {
            (
                Ok(Effect::WriteFile { filename: f1, contents: c1 }),
                Ok(Effect::WriteFile { filename: f2, contents: c2 }),
            ) => f1@ == f2@ && c1@ == c2@,
            (Err(e1), Err(e2)) => e1 == e2,
            _ => false,
        },
{
}

} // verus!
