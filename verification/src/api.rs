//! The API client's data model and decision logic.
//!
//! The platform answers every request with a JSON body that either matches a
//! success schema, carries a structured domain error, or matches neither. The
//! HTTP exchange and the schema-validated deserialization happen outside the
//! library; the decoded body arrives here as a plain payload value, and the
//! functions below decide what it means: an active broadcast or not, a page of
//! comments or a recoverable miss, or a protocol violation.

use vstd::prelude::*;

verus! {

/// One chat comment, as the platform returns it: an opaque id used as the
/// pagination cursor, and the message text.
pub struct Comment {
    pub id: String,
    pub message: String,
}

/// The mathematical value of a [`Comment`]: both fields as character
/// sequences.
pub struct CommentModel {
    pub id: Seq<char>,
    pub message: Seq<char>,
}

impl View for Comment {
    type V = CommentModel;

    open spec fn view(&self) -> CommentModel {
        CommentModel { id: self.id@, message: self.message@ }
    }
}

impl DeepView for Comment {
    type V = CommentModel;

    open spec fn deep_view(&self) -> CommentModel {
        self@
    }
}

/// A structured error carried inside an otherwise well-formed response body.
/// Code 404 is the expected "not live / not found" signal; any other code is a
/// protocol violation.
#[derive(Debug)]
pub struct DomainError {
    pub code: u32,
    pub message: String,
}

/// The decoded body of the "current live" resource: a broadcast id, a domain
/// error, or a body that matches neither schema.
pub enum LivePayload {
    Broadcast(String),
    Failure(DomainError),
    Malformed,
}

/// The decoded body of the comments resource: a page of comments
/// (newest-first, as the platform orders them), a domain error, or a body that
/// matches neither schema.
pub enum CommentsPayload {
    Page(Vec<Comment>),
    Failure(DomainError),
    Malformed,
}

/// A response the client cannot act on: a domain error other than 404, or a
/// body that matches neither the success schema nor the error schema.
#[derive(Debug)]
pub enum ProtocolError {
    UnexpectedError(DomainError),
    MalformedResponse,
}

/// What the "current live" response means: `Ok(Some(id))` for an active
/// broadcast, `Ok(None)` for the expected "not live" error, `Err` otherwise.
pub open spec fn classify_live(p: LivePayload) -> Result<Option<String>, ProtocolError> {
    match p {
        LivePayload::Broadcast(id) => Ok(Some(id)),
        LivePayload::Failure(e) => if e.code == 404 {
            Ok(None)
        } else {
            Err(ProtocolError::UnexpectedError(e))
        },
        LivePayload::Malformed => Err(ProtocolError::MalformedResponse),
    }
}

/// Decides whether the user is currently live from the decoded body of the
/// "current live" resource.
///
/// Returns `Ok(Some(broadcast_id))` when a broadcast is active, `Ok(None)`
/// exactly when the platform reported the domain error 404 (not live), and a
/// [`ProtocolError`] for every other body.
pub fn resolve_active_broadcast(p: LivePayload) -> (r: Result<Option<String>, ProtocolError>)
    ensures
        r == classify_live(p),
{
    match p {
        LivePayload::Broadcast(id) => Ok(Some(id)),
        LivePayload::Failure(e) => {
            if e.code == 404 {
                Ok(None)
            } else {
                Err(ProtocolError::UnexpectedError(e))
            }
        },
        LivePayload::Malformed => Err(ProtocolError::MalformedResponse),
    }
}

/// The comment messages in emission order: the page arrives newest-first and
/// is reversed, so the oldest message comes first and output is chronological.
pub open spec fn emitted_messages(page: Seq<CommentModel>) -> Seq<Seq<char>> {
    page.reverse().map_values(|c: CommentModel| c.message)
}

/// The cursor after a poll cycle: the id of the newest comment of the page
/// when one with comments arrived, and the previous cursor otherwise (no page,
/// or an empty page).
pub open spec fn advanced_cursor(
    cursor: Option<Seq<char>>,
    page: Option<Seq<CommentModel>>,
) -> Option<Seq<char>> {
    match page {
        Some(p) => if p.len() > 0 {
            Some(p[0].id)
        } else {
            cursor
        },
        None => cursor,
    }
}

/// Copies a newest-first page into chronological (oldest-first) message
/// order.
fn reorder_page(page: &Vec<Comment>) -> (r: Vec<String>)
    ensures
        r.deep_view() == emitted_messages(page.deep_view()),
{
    let n = page.len();
    let mut out: Vec<String> = Vec::new();
    let mut i: usize = n;
    while i > 0
        invariant
            i <= n,
            n == page@.len(),
            out@.len() == n - i,
            forall|j: int| 0 <= j < out@.len() ==> out@[j]@ == page@[n - 1 - j].message@,
        decreases i,
    {
        i = i - 1;
        out.push(page[i].message.clone());
    }
    assert(out.deep_view() =~= emitted_messages(page.deep_view()));
    out
}

/// What a decoded comments response yields: `Ok((Some(messages), cursor'))`
/// for a page, `Ok((None, cursor))` exactly for the domain error 404
/// (broadcast ended), `Err` for every other body.
///
/// For a page, the messages are in chronological (oldest-first) order and the
/// cursor advances to the newest comment's id; an empty page and every
/// non-page outcome leave the cursor exactly as it was, so no comment is
/// skipped on the next poll.
pub fn fetch_comments_outcome(p: CommentsPayload, cursor: Option<String>) -> (r: Result<
    (Option<Vec<String>>, Option<String>),
    ProtocolError,
>)
    ensures
        p matches CommentsPayload::Page(page) ==> r matches Ok((msgs, c2)) && {
            &&& msgs matches Some(m) && m.deep_view() == emitted_messages(page.deep_view())
            &&& c2.deep_view() == advanced_cursor(cursor.deep_view(), Some(page.deep_view()))
            &&& page@.len() == 0 ==> c2 == cursor
        },
        p matches CommentsPayload::Failure(e) ==> r == (if e.code == 404 {
            Ok::<(Option<Vec<String>>, Option<String>), ProtocolError>((None, cursor))
        } else {
            Err(ProtocolError::UnexpectedError(e))
        }),
        p is Malformed ==> r == Err::<(Option<Vec<String>>, Option<String>), _>(
            ProtocolError::MalformedResponse,
        ),
{
    match p {
        CommentsPayload::Page(page) => {
            let new_cursor: Option<String> = if page.len() > 0 {
                Some(page[0].id.clone())
            } else {
                cursor
            };
            let messages = reorder_page(&page);
            Ok((Some(messages), new_cursor))
        },
        CommentsPayload::Failure(e) => {
            if e.code == 404 {
                Ok((None, cursor))
            } else {
                Err(ProtocolError::UnexpectedError(e))
            }
        },
        CommentsPayload::Malformed => Err(ProtocolError::MalformedResponse),
    }
}

/// The URL of the "current live" resource for a user.
pub open spec fn live_url_model(user: Seq<char>) -> Seq<char> {
    "https://apiv2.twitcasting.tv/users/"@ + user + "/current_live"@
}

/// Builds the URL of the user's "current live" resource.
pub fn live_url(user: &str) -> (r: String)
    ensures
        r@ == live_url_model(user@),
{
    let mut u = String::from_str("https://apiv2.twitcasting.tv/users/");
    u.append(user);
    u.append("/current_live");
    proof {
        assert(u@ =~= live_url_model(user@));
    }
    u
}

/// The URL of a broadcast's comments resource; the cursor rides along as the
/// `slice_id` query parameter only when one is present.
pub open spec fn comments_url_model(movie_id: Seq<char>, cursor: Option<Seq<char>>) -> Seq<char> {
    let base = "https://apiv2.twitcasting.tv/movies/"@ + movie_id + "/comments"@;
    match cursor {
        Some(c) => base + "?slice_id="@ + c,
        None => base,
    }
}

/// Builds the URL of the broadcast's comments resource, appending the
/// `slice_id` query parameter exactly when a cursor is present.
pub fn comments_url(movie_id: &str, cursor: &Option<String>) -> (r: String)
    ensures
        r@ == comments_url_model(movie_id@, cursor.deep_view()),
{
    let mut u = String::from_str("https://apiv2.twitcasting.tv/movies/");
    u.append(movie_id);
    u.append("/comments");
    match cursor {
        Some(c) => {
            u.append("?slice_id=");
            u.append(c.as_str());
        },
        None => {},
    }
    proof {
        assert(u@ =~= comments_url_model(movie_id@, cursor.deep_view()));
    }
    u
}

/// The fixed value of the platform's API-version request header.
pub fn api_version() -> (r: &'static str)
    ensures
        r@ == "2.0"@,
{
    "2.0"
}

/// The authorization header value for a bearer token.
pub fn bearer_header_value(token: &str) -> (r: String)
    ensures
        r@ == "Bearer "@ + token@,
{
    let mut h = String::from_str("Bearer ");
    h.append(token);
    h
}

} // verus!
