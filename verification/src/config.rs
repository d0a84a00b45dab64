//! Which console the display talks to when it starts.

use crate::text::{blank, trim, trimmed, trimmed_has_clean_ends};
use vstd::prelude::*;

verus! {

/// The host that the stored configuration names: its text without the white
/// space at either end, or none where nothing else is in it.
pub open spec fn stored(contents: Seq<char>) -> Option<Seq<char>> {
    if trimmed(contents).len() > 0 {
        Some(trimmed(contents))
    } else {
        None
    }
}

/// Reads the host out of the text of the configuration file.
pub fn stored_host(contents: &str) -> (host: Option<String>)
    ensures
        match host {
            Some(h) => stored(contents@) == Some(h@),
            None => stored(contents@) is None,
        },
{
    let host = trim(contents);
    if host.as_str().is_empty() {
        None
    } else {
        Some(host)
    }
}

/// A configuration that is empty or all white space names no host; any
/// other names one that is not empty.
pub proof fn blank_configuration_names_no_host(contents: Seq<char>)
    ensures
        stored(contents) is None <==> blank(contents),
        stored(contents) matches Some(host) ==> host.len() > 0,
{
    trimmed_has_clean_ends(contents);
}

/// The host to start with: the one given on the command line, else the
/// stored one, else the local machine.
pub open spec fn initial(arg: Option<Seq<char>>, stored: Option<Seq<char>>) -> Seq<char> {
    match arg {
        Some(host) => host,
        None => match stored {
            Some(host) => host,
            None => "127.0.0.1"@,
        },
    }
}

/// Picks the host to start with.
pub fn initial_host(arg: Option<String>, stored: Option<String>) -> (host: String)
    ensures
        host@ == initial(
            match arg {
                Some(h) => Some(h@),
                None => None,
            },
            match stored {
                Some(h) => Some(h@),
                None => None,
            },
        ),
{
    match arg {
        Some(host) => host,
        None => match stored {
            Some(host) => host,
            None => String::from_str("127.0.0.1"),
        },
    }
}

} // verus!
