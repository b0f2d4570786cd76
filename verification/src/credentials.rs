//! Credentials and raw file-content handling.
//!
//! The client id, client secret and a pre-obtained token are each stored as
//! newline-terminated plaintext in separate local files. Reading the files is
//! I/O and happens outside the library; the raw contents are handed in here,
//! and the trailing newline is stripped before the value is used.

use vstd::prelude::*;

verus! {

/// The raw file contents with one trailing newline removed, if there is one.
pub open spec fn trimmed(s: Seq<char>) -> Seq<char> {
    if s.len() > 0 && s.last() == '\n' {
        s.drop_last()
    } else {
        s
    }
}

/// Strips the trailing newline from the raw contents of a credential file.
///
/// Only a final `'\n'` is removed; contents without one are returned
/// unchanged.
pub fn trim_trailing_newline(s: &str) -> (r: String)
    ensures
        r@ == trimmed(s@),
{
    let n = s.unicode_len();
    if n > 0 && s.get_char(n - 1) == '\n' {
        let head = s.substring_char(0, n - 1);
        assert(head@ =~= s@.drop_last());
        String::from_str(head)
    } else {
        String::from_str(s)
    }
}

/// The OAuth client credentials: opaque strings, loaded once at startup and
/// immutable for the rest of the run.
pub struct Credentials {
    pub client_id: String,
    pub client_secret: String,
}

impl Credentials {
    /// Builds the credentials from the raw contents of the two credential
    /// files, stripping the trailing newline from each.
    pub fn from_file_contents(client_id_raw: &str, client_secret_raw: &str) -> (r: Credentials)
        ensures
            r.client_id@ == trimmed(client_id_raw@),
            r.client_secret@ == trimmed(client_secret_raw@),
    {
        Credentials {
            client_id: trim_trailing_newline(client_id_raw),
            client_secret: trim_trailing_newline(client_secret_raw),
        }
    }
}

} // verus!
