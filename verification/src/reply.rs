use vstd::prelude::*;

use crate::structures::{DBPost, Post, Resp, UserInfo};

verus! {

/// The HTTP statuses that the service answers with.
#[derive(Clone, Copy, Debug, PartialEq, Eq, Structural)]
pub enum Status {
    Success,
    NoContent,
    BadRequest,
    NotFound,
    NotAcceptable,
    PayloadTooLarge,
    UnsupportedMediaType,
    InternalServerError,
}

/// What an answer carries: a message, a stored post, a list of posts, a user,
/// the template post, or plain text.
#[derive(Debug)]
pub enum Body {
    Message(Resp),
    Post(DBPost),
    Posts(Vec<DBPost>),
    User(UserInfo),
    Template(Post),
    Text(String),
}

/// An answer of the service: a status and a body.
#[derive(Debug)]
pub struct Reply {
    pub status: Status,
    pub body: Body,
}

/// The outcome of reading one record from the database: the record, no such
/// record, or a failure described by the text.
#[derive(Debug)]
pub enum Fetched<T> {
    Found(T),
    Missing,
    Failed(String),
}

/// `r` answers with `status` and the message `text`.
pub open spec fn says(r: Reply, status: Status, text: Seq<char>) -> bool {
    &&& r.status == status
    &&& r.body matches Body::Message(m) && m.msg@ == text
}

/// An answer with `status` and the message `text`.
pub fn message_reply(status: Status, text: &str) -> (r: Reply)
    ensures
        says(r, status, text@),
{
    Reply { status, body: Body::Message(Resp::new(text)) }
}

/// An answer with `status` and the message `text` followed by `detail`.
pub fn detailed_reply(status: Status, text: &str, detail: &str) -> (r: Reply)
    ensures
        says(r, status, text@ + detail@),
{
    let mut msg = String::from_str(text);
    msg.append(detail);
    Reply { status, body: Body::Message(Resp { msg }) }
}

/// The answer when the database cannot be opened.
pub fn db_unavailable() -> (r: Reply)
    ensures
        says(r, Status::InternalServerError, DB_UNAVAILABLE@),
{
    message_reply(Status::InternalServerError, DB_UNAVAILABLE)
}

/// The message of the answer when the database cannot be opened.
pub const DB_UNAVAILABLE: &'static str = "Sorry We are having some problem when opening our database!";

} // verus!
