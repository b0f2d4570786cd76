//! The comment poller's per-cycle decision and its cursor discipline.
//!
//! Each poll cycle resolves the active broadcast and, when one is live,
//! fetches a page of comments; the network work happens outside the library
//! and its decoded outcome arrives here as a [`CycleEvent`]. [`poll_cycle`]
//! decides what the cycle emits and how the pagination cursor moves, and
//! [`lemma_cursor_monotonic`] proves that over any run of cycles the cursor
//! always marks the newest comment of the most recent cycle that delivered
//! any, so a broadcast that pauses or ends never loses or repeats comments.

use vstd::prelude::*;
use crate::api::CommentModel;
use crate::api::CommentsPayload;
use crate::api::ProtocolError;
use crate::api::advanced_cursor;
use crate::api::emitted_messages;
use crate::api::fetch_comments_outcome;

verus! {

/// Seconds slept between poll cycles.
pub const POLL_INTERVAL_SECS: u64 = 10;

/// What one poll cycle observed: the user was not live, or the comments
/// resource answered with the given decoded payload.
pub enum CycleEvent {
    NotLive,
    Fetched(CommentsPayload),
}

/// What one poll cycle produced: the messages to emit in chronological order
/// (`None` when no page could be retrieved this cycle), and the cursor to
/// carry into the next cycle.
pub struct CycleReport {
    pub messages: Option<Vec<String>>,
    pub cursor: Option<String>,
}

/// The page of comments a cycle delivered, if any: `None` when the user was
/// not live or the comments resource reported a domain error or a malformed
/// body.
pub open spec fn cycle_page(ev: CycleEvent) -> Option<Seq<CommentModel>> {
    match ev {
        CycleEvent::NotLive => None,
        CycleEvent::Fetched(p) => match p {
            CommentsPayload::Page(page) => Some(page.deep_view()),
            CommentsPayload::Failure(_) => None,
            CommentsPayload::Malformed => None,
        },
    }
}

/// The protocol violation a cycle ran into, if any: a domain error other than
/// 404, or a body matching neither schema.
pub open spec fn cycle_error(ev: CycleEvent) -> Option<ProtocolError> {
    match ev {
        CycleEvent::NotLive => None,
        CycleEvent::Fetched(p) => match p {
            CommentsPayload::Page(_) => None,
            CommentsPayload::Failure(e) => if e.code == 404 {
                None
            } else {
                Some(ProtocolError::UnexpectedError(e))
            },
            CommentsPayload::Malformed => Some(ProtocolError::MalformedResponse),
        },
    }
}

/// Decides one poll cycle: orders a delivered page chronologically, advances
/// the cursor to the newest comment's id, and leaves the cursor exactly as it
/// was on every cycle that delivered no comments (not live, broadcast ended,
/// empty page).
///
/// Whether a [`ProtocolError`] aborts the run or only skips the cycle is the
/// caller's policy; either way the cursor of a failed cycle is the one passed
/// in.
pub fn poll_cycle(ev: CycleEvent, cursor: Option<String>) -> (r: Result<
    CycleReport,
    ProtocolError,
>)
    ensures
        cycle_error(ev) matches Some(e) ==> r == Err::<CycleReport, _>(e),
        cycle_error(ev) is None ==> (r matches Ok(rep) && {
            &&& rep.cursor.deep_view() == advanced_cursor(cursor.deep_view(), cycle_page(ev))
            &&& match cycle_page(ev) {
                Some(pg) => {
                    &&& rep.messages matches Some(m) && m.deep_view() == emitted_messages(pg)
                    &&& pg.len() == 0 ==> rep.cursor == cursor
                },
                None => rep.messages is None && rep.cursor == cursor,
            }
        }),
{
    match ev {
        CycleEvent::NotLive => Ok(CycleReport { messages: None, cursor }),
        CycleEvent::Fetched(p) => {
            let (messages, new_cursor) = fetch_comments_outcome(p, cursor)?;
            Ok(CycleReport { messages, cursor: new_cursor })
        },
    }
}

/// The cursor left behind by a run of poll cycles, each cycle folding in the
/// page it delivered (`None` for a cycle that delivered no comments).
pub open spec fn cursor_after(
    c0: Option<Seq<char>>,
    pages: Seq<Option<Seq<CommentModel>>>,
) -> Option<Seq<char>>
    decreases pages.len(),
{
    if pages.len() == 0 {
        c0
    } else {
        advanced_cursor(cursor_after(c0, pages.drop_last()), pages.last())
    }
}

/// The most recent nonempty page a run of cycles delivered, if any.
pub open spec fn latest_nonempty_page(pages: Seq<Option<Seq<CommentModel>>>) -> Option<
    Seq<CommentModel>,
>
    decreases pages.len(),
{
    if pages.len() == 0 {
        None
    } else {
        match pages.last() {
            Some(p) => if p.len() > 0 {
                Some(p)
            } else {
                latest_nonempty_page(pages.drop_last())
            },
            None => latest_nonempty_page(pages.drop_last()),
        }
    }
}

/// Cursor monotonicity: over any run of poll cycles, the cursor always equals
/// the newest comment's id of the most recent cycle that delivered comments,
/// and stays at its starting value until some cycle does. Cycles that deliver
/// nothing never move it, so once a comment has been seen the cursor never
/// falls back behind it.
pub proof fn lemma_cursor_monotonic(
    c0: Option<Seq<char>>,
    pages: Seq<Option<Seq<CommentModel>>>,
)
    ensures
        cursor_after(c0, pages) == (match latest_nonempty_page(pages) {
            Some(p) => Some(p[0].id),
            None => c0,
        }),
    decreases pages.len(),
{
    if pages.len() > 0 {
        lemma_cursor_monotonic(c0, pages.drop_last());
    }
}

} // verus!
