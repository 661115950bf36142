use vstd::prelude::*;

use crate::paths::post_record_text;
use crate::reply::{Body, Fetched, Reply, Status, DB_UNAVAILABLE, db_unavailable, detailed_reply, message_reply, says};
use crate::structures::{Claims, DBPost, Post};

verus! {

/// Message, before the decoding error, when the token is not valid.
pub const UPLOAD_BAD_TOKEN: &'static str = "Sorry Your token is not valid, Please Signup or Login to your account and get a token!";
/// Message when the token's user does not exist.
pub const UPLOAD_NO_USER: &'static str = "Sorry User Not Found!";
/// Message when reading the user failed.
pub const UPLOAD_LOOKUP_FAILED: &'static str = "Sorry We're having some problem in checking your account!";
/// Message when the post cannot be stored or linked to its author.
pub const UPLOAD_FAILED: &'static str = "Sorry We're having some problem in creating you post!";

/// Where an upload request stands.
#[derive(Debug)]
pub enum UploadStage {
    OpenDb,
    DecodeToken,
    /// Waiting for the record of the token's user.
    LoadUser { username: String },
    /// Waiting for the post to be stored.
    CreatePost { username: String },
    /// Waiting for the stored post `saved` to be added to its author's posts.
    LinkPost { saved: DBPost },
    Done,
}

/// An upload request: the token, the post until it is stored, the random
/// id drawn for it, and where it stands.
#[derive(Debug)]
pub struct UploadFlow {
    pub token: String,
    pub post: Option<Post>,
    pub post_id: String,
    pub stage: UploadStage,
}

/// What the service must do next for an upload request.
#[derive(Debug)]
pub enum UploadAction {
    OpenDb,
    DecodeToken { token: String },
    LoadUser { username: String },
    /// Store `post` as the record `post_id` of the post table.
    CreatePost { post_id: String, post: DBPost },
    /// Add `record` to the uploaded posts of the user `username`.
    LinkPost { username: String, record: String },
    Respond(Reply),
}

impl UploadAction {
    /// Whether the action changes the database: storing the post and linking it to its author do.
    pub open spec fn writes_database(self) -> bool {
        self is CreatePost || self is LinkPost
    }
}

/// What came of the last action of an upload request.
#[derive(Debug)]
pub enum UploadEvent {
    DbOpened(bool),
    /// The token's claims, or a description of why it is not valid.
    TokenDecoded(Result<Claims, String>),
    UserLoaded(Fetched<()>),
    PostCreated(Fetched<DBPost>),
    PostLinked(Fetched<()>),
}

/// `action` answers with `status` and the message `text`.
pub open spec fn upload_responds(action: UploadAction, status: Status, text: Seq<char>) -> bool {
    action matches UploadAction::Respond(r) && says(r, status, text)
}

impl UploadFlow {
    /// The flow still holds the uploaded post, and its tables form a map.
    pub open spec fn holds_post(&self) -> bool {
        self.post matches Some(p) && p.well_formed()
    }

    /// `event` is what the action of the current stage produces, and the
    /// post is still held until it is stored.
    pub open spec fn expects(&self, event: UploadEvent) -> bool {
        match self.stage {
            UploadStage::OpenDb => event is DbOpened && self.holds_post(),
            UploadStage::DecodeToken => event is TokenDecoded && self.holds_post(),
            UploadStage::LoadUser { .. } => event is UserLoaded && self.holds_post(),
            UploadStage::CreatePost { .. } => event is PostCreated,
            UploadStage::LinkPost { .. } => event is PostLinked,
            UploadStage::Done => false,
        }
    }

    /// An upload of `post` under `post_id` with `token`: first the database is opened.
    pub fn start(token: String, post: Post, post_id: String) -> (res: (UploadFlow, UploadAction))
        requires
            post.well_formed(),
        ensures
            res.0.token == token,
            res.0.post == Some(post),
            res.0.post_id == post_id,
            res.0.stage is OpenDb,
            res.1 is OpenDb,
    {
        (UploadFlow { token, post: Some(post), post_id, stage: UploadStage::OpenDb }, UploadAction::OpenDb)
    }

    /// The next stage of the request and the next action, given what came of the last action.
    pub fn step(self, event: UploadEvent) -> (res: (UploadFlow, UploadAction))
        requires
            self.expects(event),
        ensures
            res.0.token == self.token,
            res.0.post_id == self.post_id,
            res.1 is Respond <==> res.0.stage is Done,
            res.1.writes_database() ==> (event matches UploadEvent::UserLoaded(Fetched::Found(_)) || event matches UploadEvent::PostCreated(Fetched::Found(_))),
            event matches UploadEvent::UserLoaded(Fetched::Found(_)) ==> res.0.post is None,
            !(event matches UploadEvent::UserLoaded(Fetched::Found(_))) ==> res.0.post == self.post,
            event matches UploadEvent::DbOpened(ok) ==> {
                &&& !ok ==> upload_responds(res.1, Status::InternalServerError, DB_UNAVAILABLE@)
                &&& ok ==> (res.0.stage is DecodeToken && (res.1 matches UploadAction::DecodeToken { token } && token == self.token))
            },
            event matches UploadEvent::TokenDecoded(claims) ==> match claims {
                Err(detail) => upload_responds(res.1, Status::NotAcceptable, UPLOAD_BAD_TOKEN@ + detail@),
                Ok(c) => {
                    &&& res.0.stage matches UploadStage::LoadUser { username } && username@ == c.username@
                    &&& res.1 matches UploadAction::LoadUser { username } && username@ == c.username@
                },
            },
            event matches UploadEvent::UserLoaded(user) ==> (self.stage matches UploadStage::LoadUser { username } && match user {
                Fetched::Found(_) => {
                    &&& res.0.stage matches UploadStage::CreatePost { username: u } && u@ == username@
                    &&& res.1 matches UploadAction::CreatePost { post_id, post }
                    &&& post_id@ == self.post_id@
                    &&& post.post_id@ == self.post_id@
                    &&& Some(post.post) == self.post
                    &&& post.post.well_formed()
                    &&& post.votes == 0
                    &&& post.up_voters@.len() == 0
                    &&& post.dw_voters@.len() == 0
                },
                Fetched::Missing => upload_responds(res.1, Status::NotAcceptable, UPLOAD_NO_USER@),
                Fetched::Failed(_) => upload_responds(res.1, Status::InternalServerError, UPLOAD_LOOKUP_FAILED@),
            }),
            event matches UploadEvent::PostCreated(created) ==> (self.stage matches UploadStage::CreatePost { username } && match created {
                Fetched::Found(p) => {
                    &&& res.0.stage matches UploadStage::LinkPost { saved } && saved == p
                    &&& res.1 matches UploadAction::LinkPost { username: u, record }
                    &&& u@ == username@
                    &&& record@ == "post:"@ + self.post_id@
                },
                _ => upload_responds(res.1, Status::InternalServerError, UPLOAD_FAILED@),
            }),
            event matches UploadEvent::PostLinked(linked) ==> (self.stage matches UploadStage::LinkPost { saved } && match linked {
                Fetched::Found(_) => (res.1 matches UploadAction::Respond(r) && r.status == Status::Success && r.body == Body::Post(saved)),
                _ => upload_responds(res.1, Status::InternalServerError, UPLOAD_FAILED@),
            }),
    {
        let UploadFlow { token, post, post_id, stage } = self;
        match event {
            UploadEvent::DbOpened(ok) => {
                if ok {
                    let action = UploadAction::DecodeToken { token: token.clone() };
                    (UploadFlow { token, post, post_id, stage: UploadStage::DecodeToken }, action)
                } else {
                    (UploadFlow { token, post, post_id, stage: UploadStage::Done }, UploadAction::Respond(db_unavailable()))
                }
            },
            UploadEvent::TokenDecoded(claims) => {
                match claims {
                    Ok(c) => {
                        let action = UploadAction::LoadUser { username: c.username.clone() };
                        (UploadFlow { token, post, post_id, stage: UploadStage::LoadUser { username: c.username } }, action)
                    },
                    Err(detail) => {
                        let r = detailed_reply(Status::NotAcceptable, UPLOAD_BAD_TOKEN, detail.as_str());
                        (UploadFlow { token, post, post_id, stage: UploadStage::Done }, UploadAction::Respond(r))
                    },
                }
            },
            UploadEvent::UserLoaded(user) => {
                let username = match stage {
                    UploadStage::LoadUser { username } => username,
                    _ => String::new(),
                };
                match user {
                    Fetched::Found(_) => {
                        let content = match post {
                            Some(p) => p,
                            None => Post::default(),
                        };
                        let mut stored = DBPost::default();
                        stored.post_id = post_id.clone();
                        stored.post = content;
                        let action = UploadAction::CreatePost { post_id: post_id.clone(), post: stored };
                        (UploadFlow { token, post: None, post_id, stage: UploadStage::CreatePost { username } }, action)
                    },
                    Fetched::Missing => {
                        let r = message_reply(Status::NotAcceptable, UPLOAD_NO_USER);
                        (UploadFlow { token, post, post_id, stage: UploadStage::Done }, UploadAction::Respond(r))
                    },
                    Fetched::Failed(_) => {
                        let r = message_reply(Status::InternalServerError, UPLOAD_LOOKUP_FAILED);
                        (UploadFlow { token, post, post_id, stage: UploadStage::Done }, UploadAction::Respond(r))
                    },
                }
            },
            UploadEvent::PostCreated(created) => {
                let username = match stage {
                    UploadStage::CreatePost { username } => username,
                    _ => String::new(),
                };
                match created {
                    Fetched::Found(saved) => {
                        let record = post_record_text(post_id.as_str());
                        let action = UploadAction::LinkPost { username, record };
                        (UploadFlow { token, post, post_id, stage: UploadStage::LinkPost { saved } }, action)
                    },
                    _ => {
                        let r = message_reply(Status::InternalServerError, UPLOAD_FAILED);
                        (UploadFlow { token, post, post_id, stage: UploadStage::Done }, UploadAction::Respond(r))
                    },
                }
            },
            UploadEvent::PostLinked(linked) => {
                let saved = match stage {
                    UploadStage::LinkPost { saved } => Some(saved),
                    _ => None,
                };
                let r = match (linked, saved) {
                    (Fetched::Found(_), Some(saved)) => Reply { status: Status::Success, body: Body::Post(saved) },
                    _ => message_reply(Status::InternalServerError, UPLOAD_FAILED),
                };
                (UploadFlow { token, post, post_id, stage: UploadStage::Done }, UploadAction::Respond(r))
            },
        }
    }
}

} // verus!
