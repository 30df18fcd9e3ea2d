//! Decisions of the server's interactive console.
//!
//! The console itself — prompting, reading lines, editing the stored
//! configuration, restarting — is I/O around the library.  What is
//! decided here is the dispatch of a typed command word and the one rule
//! the console enforces on new credentials: a minimum password length.

use vstd::prelude::*;

verus! {

/// The minimum length, in bytes, of a newly chosen client password.
pub const MIN_PASSWORD_BYTES: usize = 8;

/// One console command, or `Unknown` for anything else.
#[derive(PartialEq, Eq, Structural, Clone, Copy, Debug)]
pub enum Command {
    AddClient,
    RemoveClient,
    ListClients,
    Shutdown,
    Restart,
    Unknown,
}

/// The command each input word names.
pub open spec fn spec_parse_command(s: Seq<char>) -> Command {
    if s == "add_client"@ {
        Command::AddClient
    } else if s == "remove_client"@ {
        Command::RemoveClient
    } else if s == "list_clients"@ {
        Command::ListClients
    } else if s == "shutdown"@ {
        Command::Shutdown
    } else if s == "restart"@ {
        Command::Restart
    } else {
        Command::Unknown
    }
}

/// Dispatches one trimmed input line to the command it names.
pub fn parse_command(line: &String) -> (c: Command)
    ensures
        c == spec_parse_command(line@),
{
    if *line == "add_client".to_owned() {
        Command::AddClient
    } else if *line == "remove_client".to_owned() {
        Command::RemoveClient
    } else if *line == "list_clients".to_owned() {
        Command::ListClients
    } else if *line == "shutdown".to_owned() {
        Command::Shutdown
    } else if *line == "restart".to_owned() {
        Command::Restart
    } else {
        Command::Unknown
    }
}

/// True iff a candidate password is long enough to store: at least
/// `MIN_PASSWORD_BYTES` bytes of its UTF-8 encoding.
pub fn password_long_enough(password: &String) -> (r: bool)
    ensures
        r == (vstd::utf8::encode_utf8(password@).len() as usize >= MIN_PASSWORD_BYTES),
{
    password.as_str().len() >= MIN_PASSWORD_BYTES
}

} // verus!
