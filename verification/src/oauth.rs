//! The OAuth2 authorization-code flow's verified core.
//!
//! The interactive flow opens the user's browser on the authorization URL and
//! waits for the platform to redirect it to a short-lived local listener; the
//! listener's handler exchanges the received code for a bearer token and
//! stores it exactly once. The listener, the browser and the token-endpoint
//! POST live outside the library; what is verified here is everything the
//! flow decides: the URLs and form parameters of the exchange, and the
//! write-once discipline of the shared token cell — a duplicate callback can
//! never overwrite a token that is already set.

use vstd::prelude::*;
use crate::credentials::trim_trailing_newline;
use crate::credentials::trimmed;

verus! {

/// The local address the platform redirects the browser to; the callback
/// listener binds to this port on the loopback interface.
pub const CALLBACK_PORT: u16 = 8000;

/// Where the bearer token for this run comes from: a token stored in a local
/// file, or the interactive authorization-code flow.
pub enum TokenSource {
    Stored(String),
    Interactive,
}

/// Chooses the run mode from the token file's contents, when that file could
/// be read: a stored token (trailing newline stripped) skips the interactive
/// flow entirely; without one, the OAuth flow must run.
pub fn choose_token_source(stored: Option<String>) -> (r: TokenSource)
    ensures
        match stored {
            Some(raw) => r matches TokenSource::Stored(t) && t@ == trimmed(raw@),
            None => r is Interactive,
        },
{
    match stored {
        Some(raw) => TokenSource::Stored(trim_trailing_newline(raw.as_str())),
        None => TokenSource::Interactive,
    }
}

/// A write-once cell for the bearer token, shared between the callback
/// handler (its only writer) and the orchestrator (its only reader). The
/// first store wins; every later attempt leaves the cell unchanged.
pub struct TokenCell {
    token: Option<String>,
}

impl View for TokenCell {
    type V = Option<Seq<char>>;

    closed spec fn view(&self) -> Option<Seq<char>> {
        match self.token {
            Some(t) => Some(t@),
            None => None,
        }
    }
}

/// A store attempt on the write-once cell: it fills an empty cell and leaves
/// a filled one untouched.
pub open spec fn stored_token(cell: Option<Seq<char>>, t: Seq<char>) -> Option<Seq<char>> {
    match cell {
        None => Some(t),
        Some(_) => cell,
    }
}

impl TokenCell {
    /// An empty cell: no callback has delivered a token yet.
    pub fn new() -> (r: TokenCell)
        ensures
            r@ is None,
    {
        TokenCell { token: None }
    }

    /// Attempts to store the token, returning whether this attempt won.
    /// A second successful callback finds the cell filled and changes
    /// nothing.
    pub fn try_set(&mut self, t: String) -> (r: bool)
        ensures
            final(self)@ == stored_token(old(self)@, t@),
            r == (old(self)@ is None),
    {
        match self.token {
            None => {
                self.token = Some(t);
                true
            },
            Some(_) => false,
        }
    }

    /// Reads the stored token; the orchestrator calls this only after the
    /// completion signal, when the cell is filled.
    pub fn get(&self) -> (r: Option<&String>)
        ensures
            match r {
                Some(t) => self@ == Some(t@),
                None => self@ is None,
            },
    {
        self.token.as_ref()
    }
}

/// The token cell after a whole run of store attempts, applied oldest first.
pub open spec fn cell_after(cell: Option<Seq<char>>, attempts: Seq<Seq<char>>) -> Option<
    Seq<char>,
>
    decreases attempts.len(),
{
    if attempts.len() == 0 {
        cell
    } else {
        cell_after(stored_token(cell, attempts.first()), attempts.drop_first())
    }
}

/// Single-use token handoff: whatever sequence of store attempts the callback
/// route sees, a cell that already holds a token keeps it, and an empty cell
/// ends up holding exactly the first attempted token. At most one exchange
/// per run ever takes effect.
pub proof fn lemma_token_write_once(cell: Option<Seq<char>>, attempts: Seq<Seq<char>>)
    ensures
        cell_after(cell, attempts) == (match cell {
            Some(t) => Some(t),
            None => if attempts.len() == 0 {
                None
            } else {
                Some(attempts.first())
            },
        }),
    decreases attempts.len(),
{
    if attempts.len() > 0 {
        lemma_token_write_once(stored_token(cell, attempts.first()), attempts.drop_first());
    }
}

/// The decoded body of the token endpoint's answer: the granted access token,
/// or a body without an `access_token` field.
pub enum TokenPayload {
    Granted(String),
    Malformed,
}

/// How the callback route answered one browser request.
pub enum CallbackOutcome {
    /// The exchange succeeded and this request's token was stored: respond
    /// with the confirmation page and signal completion.
    Accepted(String),
    /// A token was already stored by an earlier request; this one changes
    /// nothing.
    AlreadyDone,
    /// The token endpoint answered without an access token: fatal, the
    /// interactive flow cannot recover.
    Failed,
}

/// The fixed confirmation page the callback route serves once the token is
/// stored.
pub open spec fn confirmation_body() -> Seq<char> {
    "Thank you, the token has successfully retrieved.\nYou can now close the browser."@
}

/// Decides one invocation of the callback route, given the decoded answer of
/// the code exchange: stores the token exactly once, rejects a duplicate
/// callback without touching the stored token, and reports a missing
/// `access_token` field as fatal.
pub fn handle_callback(cell: &mut TokenCell, exchange: TokenPayload) -> (r: CallbackOutcome)
    ensures
        old(cell)@ is Some ==> final(cell)@ == old(cell)@ && r is AlreadyDone,
        old(cell)@ is None ==> match exchange {
            TokenPayload::Granted(t) => final(cell)@ == Some(t@) && (r matches
            CallbackOutcome::Accepted(body) && body@ == confirmation_body()),
            TokenPayload::Malformed => final(cell)@ is None && r is Failed,
        },
{
    match exchange {
        TokenPayload::Granted(t) => {
            if cell.try_set(t) {
                CallbackOutcome::Accepted(
                    String::from_str(
                        "Thank you, the token has successfully retrieved.\nYou can now close the browser.",
                    ),
                )
            } else {
                CallbackOutcome::AlreadyDone
            }
        },
        TokenPayload::Malformed => {
            match cell.get() {
                Some(_) => CallbackOutcome::AlreadyDone,
                None => CallbackOutcome::Failed,
            }
        },
    }
}

/// The authorization URL the browser is sent to at startup.
pub open spec fn authorize_url_model(client_id: Seq<char>) -> Seq<char> {
    "https://apiv2.twitcasting.tv/oauth2/authorize?client_id="@ + client_id
        + "&response_type=code"@
}

/// Builds the authorization URL for the interactive flow.
pub fn authorize_url(client_id: &str) -> (r: String)
    ensures
        r@ == authorize_url_model(client_id@),
{
    let mut u = String::from_str("https://apiv2.twitcasting.tv/oauth2/authorize?client_id=");
    u.append(client_id);
    u.append("&response_type=code");
    proof {
        assert(u@ =~= authorize_url_model(client_id@));
    }
    u
}

/// The token endpoint the authorization code is exchanged at.
pub fn token_endpoint_url() -> (r: &'static str)
    ensures
        r@ == "https://apiv2.twitcasting.tv/oauth2/access_token"@,
{
    "https://apiv2.twitcasting.tv/oauth2/access_token"
}

/// The fixed redirect URI registered for the local callback listener.
pub fn redirect_uri() -> (r: &'static str)
    ensures
        r@ == "http://localhost:8000/"@,
{
    "http://localhost:8000/"
}

/// The form parameters of the authorization-code exchange, in the order the
/// token endpoint is POSTed them.
pub fn token_request_params(code: &str, client_id: &str, client_secret: &str) -> (r: Vec<
    (String, String),
>)
    ensures
        r@.len() == 5,
        r@[0].0@ == "code"@ && r@[0].1@ == code@,
        r@[1].0@ == "grant_type"@ && r@[1].1@ == "authorization_code"@,
        r@[2].0@ == "client_id"@ && r@[2].1@ == client_id@,
        r@[3].0@ == "client_secret"@ && r@[3].1@ == client_secret@,
        r@[4].0@ == "redirect_uri"@ && r@[4].1@ == "http://localhost:8000/"@,
{
    let mut params: Vec<(String, String)> = Vec::new();
    params.push((String::from_str("code"), String::from_str(code)));
    params.push((String::from_str("grant_type"), String::from_str("authorization_code")));
    params.push((String::from_str("client_id"), String::from_str(client_id)));
    params.push((String::from_str("client_secret"), String::from_str(client_secret)));
    params.push((String::from_str("redirect_uri"), String::from_str("http://localhost:8000/")));
    params
}

} // verus!
