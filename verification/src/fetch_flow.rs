use vstd::prelude::*;

use crate::reply::{Body, Fetched, Reply, Status, DB_UNAVAILABLE, db_unavailable, message_reply, says};
use crate::structures::{DBPost, DBUserInfo, Post, RecordRef, UserInfo};

verus! {

/// `r` answers with `status` and the message `text`.
pub open spec fn answers(r: Option<Reply>, status: Status, text: Seq<char>) -> bool {
    r matches Some(reply) && says(reply, status, text)
}

// ---- one post ----

/// Message when the post does not exist.
pub const POST_NOT_FOUND: &'static str = "Sorry The Post You're Finding is not found!";
/// Message when reading the post failed.
pub const POST_LOOKUP_FAILED: &'static str = "Sorry Something Went Wrong We're getting post!";

/// Where a request for one post stands.
#[derive(Debug)]
pub enum PostFetchStage {
    OpenDb,
    LoadPost,
    Done,
}

/// A request for the post `post_id`.
#[derive(Debug)]
pub struct PostFetchFlow {
    pub post_id: String,
    pub stage: PostFetchStage,
}

/// What the service must do next for a request for one post.
#[derive(Debug)]
pub enum PostFetchAction {
    OpenDb,
    LoadPost { post_id: String },
    Respond(Reply),
}

/// What came of the last action of a request for one post.
#[derive(Debug)]
pub enum PostFetchEvent {
    DbOpened(bool),
    PostLoaded(Fetched<DBPost>),
}

impl PostFetchAction {
    /// Whether the action changes the database: none of these does.
    pub open spec fn writes_database(self) -> bool {
        match self {
            PostFetchAction::OpenDb => false,
            PostFetchAction::LoadPost { .. } => false,
            PostFetchAction::Respond(_) => false,
        }
    }

    /// The answer, if this action is one.
    pub open spec fn reply(self) -> Option<Reply> {
        match self {
            PostFetchAction::Respond(r) => Some(r),
            _ => None,
        }
    }
}

impl PostFetchFlow {
    /// `event` is what the action of the current stage produces.
    pub open spec fn expects(&self, event: PostFetchEvent) -> bool {
        match self.stage {
            PostFetchStage::OpenDb => event is DbOpened,
            PostFetchStage::LoadPost => event is PostLoaded,
            PostFetchStage::Done => false,
        }
    }

    /// A request for the post `post_id`: first the database is opened.
    pub fn start(post_id: String) -> (res: (PostFetchFlow, PostFetchAction))
        ensures
            res.0.post_id == post_id,
            res.0.stage is OpenDb,
            res.1 is OpenDb,
            !res.1.writes_database(),
    {
        (PostFetchFlow { post_id, stage: PostFetchStage::OpenDb }, PostFetchAction::OpenDb)
    }

    /// The next stage of the request and the next action, given what came of the last action.
    pub fn step(self, event: PostFetchEvent) -> (res: (PostFetchFlow, PostFetchAction))
        requires
            self.expects(event),
        ensures
            res.0.post_id == self.post_id,
            res.1 is Respond <==> res.0.stage is Done,
            !res.1.writes_database(),
            event matches PostFetchEvent::DbOpened(ok) ==> {
                &&& !ok ==> answers(res.1.reply(), Status::InternalServerError, DB_UNAVAILABLE@)
                &&& ok ==> (res.0.stage is LoadPost && (res.1 matches PostFetchAction::LoadPost { post_id } && post_id == self.post_id))
            },
            event matches PostFetchEvent::PostLoaded(post) ==> match post {
                Fetched::Found(p) => res.1.reply() == Some(Reply { status: Status::Success, body: Body::Post(p) }),
                Fetched::Missing => answers(res.1.reply(), Status::NotFound, POST_NOT_FOUND@),
                Fetched::Failed(_) => answers(res.1.reply(), Status::InternalServerError, POST_LOOKUP_FAILED@),
            },
    {
        let PostFetchFlow { post_id, stage } = self;
        match event {
            PostFetchEvent::DbOpened(ok) => {
                if ok {
                    let action = PostFetchAction::LoadPost { post_id: post_id.clone() };
                    (PostFetchFlow { post_id, stage: PostFetchStage::LoadPost }, action)
                } else {
                    (PostFetchFlow { post_id, stage: PostFetchStage::Done }, PostFetchAction::Respond(db_unavailable()))
                }
            },
            PostFetchEvent::PostLoaded(post) => {
                let r = match post {
                    Fetched::Found(p) => Reply { status: Status::Success, body: Body::Post(p) },
                    Fetched::Missing => message_reply(Status::NotFound, POST_NOT_FOUND),
                    Fetched::Failed(_) => message_reply(Status::InternalServerError, POST_LOOKUP_FAILED),
                };
                (PostFetchFlow { post_id, stage: PostFetchStage::Done }, PostFetchAction::Respond(r))
            },
        }
    }
}

// ---- a page of posts ----

/// The query for a page of posts: at most 30 posts, in random order.
pub const POSTS_QUERY: &'static str = "SELECT * FROM post ORDER BY RAND() LIMIT 30;";
/// Message when the page of posts cannot be read.
pub const POSTS_FAILED: &'static str = "Something went wrong while we're getting posts!!";

/// Where a request for a page of posts stands.
#[derive(Debug)]
pub enum PostsFetchStage {
    OpenDb,
    RunQuery,
    Done,
}

/// A request for a page of posts.
#[derive(Debug)]
pub struct PostsFetchFlow {
    pub stage: PostsFetchStage,
}

/// What the service must do next for a request for a page of posts.
#[derive(Debug)]
pub enum PostsFetchAction {
    OpenDb,
    RunQuery { query: String },
    Respond(Reply),
}

/// What came of the last action of a request for a page of posts.
#[derive(Debug)]
pub enum PostsFetchEvent {
    DbOpened(bool),
    /// The posts that the query gave, if it ran and its result could be read.
    QueryDone(Option<Vec<DBPost>>),
}

impl PostsFetchAction {
    /// Whether the action changes the database: none of these does (the query only selects).
    pub open spec fn writes_database(self) -> bool {
        match self {
            PostsFetchAction::OpenDb => false,
            PostsFetchAction::RunQuery { .. } => false,
            PostsFetchAction::Respond(_) => false,
        }
    }

    /// The answer, if this action is one.
    pub open spec fn reply(self) -> Option<Reply> {
        match self {
            PostsFetchAction::Respond(r) => Some(r),
            _ => None,
        }
    }
}

impl PostsFetchFlow {
    /// `event` is what the action of the current stage produces.
    pub open spec fn expects(&self, event: PostsFetchEvent) -> bool {
        match self.stage {
            PostsFetchStage::OpenDb => event is DbOpened,
            PostsFetchStage::RunQuery => event is QueryDone,
            PostsFetchStage::Done => false,
        }
    }

    /// A request for a page of posts: first the database is opened.
    pub fn start() -> (res: (PostsFetchFlow, PostsFetchAction))
        ensures
            res.0.stage is OpenDb,
            res.1 is OpenDb,
            !res.1.writes_database(),
    {
        (PostsFetchFlow { stage: PostsFetchStage::OpenDb }, PostsFetchAction::OpenDb)
    }

    /// The next stage of the request and the next action, given what came of the last action.
    pub fn step(self, event: PostsFetchEvent) -> (res: (PostsFetchFlow, PostsFetchAction))
        requires
            self.expects(event),
        ensures
            res.1 is Respond <==> res.0.stage is Done,
            !res.1.writes_database(),
            event matches PostsFetchEvent::DbOpened(ok) ==> {
                &&& !ok ==> answers(res.1.reply(), Status::InternalServerError, DB_UNAVAILABLE@)
                &&& ok ==> (res.0.stage is RunQuery && (res.1 matches PostsFetchAction::RunQuery { query } && query@ == POSTS_QUERY@))
            },
            event matches PostsFetchEvent::QueryDone(posts) ==> match posts {
                Some(ps) => res.1.reply() == Some(Reply { status: Status::Success, body: Body::Posts(ps) }),
                None => answers(res.1.reply(), Status::InternalServerError, POSTS_FAILED@),
            },
    {
        match event {
            PostsFetchEvent::DbOpened(ok) => {
                if ok {
                    let action = PostsFetchAction::RunQuery { query: String::from_str(POSTS_QUERY) };
                    (PostsFetchFlow { stage: PostsFetchStage::RunQuery }, action)
                } else {
                    (PostsFetchFlow { stage: PostsFetchStage::Done }, PostsFetchAction::Respond(db_unavailable()))
                }
            },
            PostsFetchEvent::QueryDone(posts) => {
                let r = match posts {
                    Some(ps) => Reply { status: Status::Success, body: Body::Posts(ps) },
                    None => message_reply(Status::InternalServerError, POSTS_FAILED),
                };
                (PostsFetchFlow { stage: PostsFetchStage::Done }, PostsFetchAction::Respond(r))
            },
        }
    }
}

// ---- a user and their posts ----

/// Message when the user does not exist.
pub const USER_NOT_FOUND: &'static str = "Sorry User Not Found!";
/// Message when reading the user failed.
pub const USER_LOOKUP_FAILED: &'static str = "Sorry We're having some problem in getting user's info!";
/// Message when reading one of the user's posts failed.
pub const USER_POSTS_FAILED: &'static str = "Sorry We're having Some problem in getting user's post!";

/// Where a request for a user stands.
#[derive(Debug)]
pub enum UserFetchStage {
    OpenDb,
    LoadUser,
    /// Waiting for the user's post at position `next`; `posts` holds the records read before it.
    LoadPosts { user: DBUserInfo, next: usize, posts: Vec<DBPost> },
    Done,
}

/// A request for the user `username`.
#[derive(Debug)]
pub struct UserFetchFlow {
    pub username: String,
    pub stage: UserFetchStage,
}

/// What the service must do next for a request for a user.
#[derive(Debug)]
pub enum UserFetchAction {
    OpenDb,
    LoadUser { username: String },
    LoadPost { record: RecordRef },
    Respond(Reply),
}

/// What came of the last action of a request for a user.
#[derive(Debug)]
pub enum UserFetchEvent {
    DbOpened(bool),
    UserLoaded(Fetched<DBUserInfo>),
    PostLoaded(Fetched<DBPost>),
}

impl UserFetchAction {
    /// Whether the action changes the database: none of these does.
    pub open spec fn writes_database(self) -> bool {
        match self {
            UserFetchAction::OpenDb => false,
            UserFetchAction::LoadUser { .. } => false,
            UserFetchAction::LoadPost { .. } => false,
            UserFetchAction::Respond(_) => false,
        }
    }

    /// The answer, if this action is one.
    pub open spec fn reply(self) -> Option<Reply> {
        match self {
            UserFetchAction::Respond(r) => Some(r),
            _ => None,
        }
    }
}

/// `r` shows `user`, without its password, with the post records `posts`.
pub open spec fn shows_user(r: Option<Reply>, user: DBUserInfo, posts: Seq<DBPost>) -> bool {
    &&& r matches Some(reply)
    &&& reply.status == Status::Success
    &&& reply.body matches Body::User(info)
    &&& info.username == user.username
    &&& info.fullname == user.fullname
    &&& info.up_posts@ == posts
    &&& info.pic_path == user.pic_path
}

/// An answer that shows a user carries exactly the given post records, in
/// their order and all of them, with the user's name, full name and picture.
pub proof fn lemma_shown_user_carries_every_post(r: Option<Reply>, user: DBUserInfo, posts: Seq<DBPost>)
    requires
        shows_user(r, user, posts),
    ensures
        r matches Some(reply) && reply.status == Status::Success && (reply.body matches Body::User(info) && {
            &&& info.up_posts@.len() == posts.len()
            &&& forall|i: int| 0 <= i < posts.len() ==> #[trigger] info.up_posts@[i] == posts[i]
            &&& info.username == user.username
            &&& info.fullname == user.fullname
            &&& info.pic_path == user.pic_path
        }),
{
}

/// The answer that shows `user`, without its password, with the post records `posts`.
fn user_reply(user: DBUserInfo, posts: Vec<DBPost>) -> (r: Reply)
    ensures
        shows_user(Some(r), user, posts@),
{
    let DBUserInfo { username, fullname, password: _, up_posts: _, pic_path } = user;
    Reply {
        status: Status::Success,
        body: Body::User(UserInfo { username, fullname, up_posts: posts, pic_path }),
    }
}

impl UserFetchFlow {
    /// `event` is what the action of the current stage produces; while the
    /// posts are read, `next` is the position of the post that is being read.
    pub open spec fn expects(&self, event: UserFetchEvent) -> bool {
        match self.stage {
            UserFetchStage::OpenDb => event is DbOpened,
            UserFetchStage::LoadUser => event is UserLoaded,
            UserFetchStage::LoadPosts { user, next, posts } => event is PostLoaded && next < user.up_posts@.len(),
            UserFetchStage::Done => false,
        }
    }

    /// A request for the user `username`: first the database is opened.
    pub fn start(username: String) -> (res: (UserFetchFlow, UserFetchAction))
        ensures
            res.0.username == username,
            res.0.stage is OpenDb,
            res.1 is OpenDb,
            !res.1.writes_database(),
    {
        (UserFetchFlow { username, stage: UserFetchStage::OpenDb }, UserFetchAction::OpenDb)
    }

    /// The next stage of the request and the next action, given what came of
    /// the last action. The user's posts are read one after the other; a
    /// missing post ends the list, and a failure ends the request.
    pub fn step(self, event: UserFetchEvent) -> (res: (UserFetchFlow, UserFetchAction))
        requires
            self.expects(event),
        ensures
            res.0.username == self.username,
            res.1 is Respond <==> res.0.stage is Done,
            !res.1.writes_database(),
            res.0.stage matches UserFetchStage::LoadPosts { user, next, posts } ==> next < user.up_posts@.len(),
            event matches UserFetchEvent::DbOpened(ok) ==> {
                &&& !ok ==> answers(res.1.reply(), Status::InternalServerError, DB_UNAVAILABLE@)
                &&& ok ==> (res.0.stage is LoadUser && (res.1 matches UserFetchAction::LoadUser { username } && username == self.username))
            },
            event matches UserFetchEvent::UserLoaded(user) ==> match user {
                Fetched::Found(u) => if u.up_posts@.len() == 0 {
                    shows_user(res.1.reply(), u, Seq::empty())
                } else {
                    &&& res.0.stage matches UserFetchStage::LoadPosts { user, next, posts } && user == u && next == 0 && posts@.len() == 0
                    &&& res.1 matches UserFetchAction::LoadPost { record } && record@ == u.up_posts@[0]@
                },
                Fetched::Missing => answers(res.1.reply(), Status::NotFound, USER_NOT_FOUND@),
                Fetched::Failed(_) => answers(res.1.reply(), Status::InternalServerError, USER_LOOKUP_FAILED@),
            },
            event matches UserFetchEvent::PostLoaded(post) ==> (self.stage matches UserFetchStage::LoadPosts { user, next, posts } && match post {
                Fetched::Found(p) => if next + 1 == user.up_posts@.len() {
                    shows_user(res.1.reply(), user, posts@.push(p))
                } else {
                    &&& res.0.stage matches UserFetchStage::LoadPosts { user: u, next: n, posts: ps }
                        && u == user && n == next + 1 && ps@ == posts@.push(p)
                    &&& res.1 matches UserFetchAction::LoadPost { record } && record@ == user.up_posts@[next + 1]@
                },
                Fetched::Missing => shows_user(res.1.reply(), user, posts@),
                Fetched::Failed(_) => answers(res.1.reply(), Status::InternalServerError, USER_POSTS_FAILED@),
            }),
    {
        let UserFetchFlow { username, stage } = self;
        match event {
            UserFetchEvent::DbOpened(ok) => {
                if ok {
                    let action = UserFetchAction::LoadUser { username: username.clone() };
                    (UserFetchFlow { username, stage: UserFetchStage::LoadUser }, action)
                } else {
                    (UserFetchFlow { username, stage: UserFetchStage::Done }, UserFetchAction::Respond(db_unavailable()))
                }
            },
            UserFetchEvent::UserLoaded(user) => {
                match user {
                    Fetched::Found(u) => {
                        if u.up_posts.len() == 0 {
                            let r = user_reply(u, Vec::new());
                            (UserFetchFlow { username, stage: UserFetchStage::Done }, UserFetchAction::Respond(r))
                        } else {
                            let record = u.up_posts[0].clone();
                            let stage = UserFetchStage::LoadPosts { user: u, next: 0, posts: Vec::new() };
                            (UserFetchFlow { username, stage }, UserFetchAction::LoadPost { record })
                        }
                    },
                    Fetched::Missing => {
                        let r = message_reply(Status::NotFound, USER_NOT_FOUND);
                        (UserFetchFlow { username, stage: UserFetchStage::Done }, UserFetchAction::Respond(r))
                    },
                    Fetched::Failed(_) => {
                        let r = message_reply(Status::InternalServerError, USER_LOOKUP_FAILED);
                        (UserFetchFlow { username, stage: UserFetchStage::Done }, UserFetchAction::Respond(r))
                    },
                }
            },
            UserFetchEvent::PostLoaded(post) => {
                match stage {
                    UserFetchStage::LoadPosts { user, next, posts } => {
                        let count = user.up_posts.len();
                        let mut posts = posts;
                        match post {
                            Fetched::Found(p) => {
                                posts.push(p);
                                if next + 1 == count {
                                    let r = user_reply(user, posts);
                                    (UserFetchFlow { username, stage: UserFetchStage::Done }, UserFetchAction::Respond(r))
                                } else {
                                    let record = user.up_posts[next + 1].clone();
                                    let stage = UserFetchStage::LoadPosts { user, next: next + 1, posts };
                                    (UserFetchFlow { username, stage }, UserFetchAction::LoadPost { record })
                                }
                            },
                            Fetched::Missing => {
                                let r = user_reply(user, posts);
                                (UserFetchFlow { username, stage: UserFetchStage::Done }, UserFetchAction::Respond(r))
                            },
                            Fetched::Failed(_) => {
                                let r = message_reply(Status::InternalServerError, USER_POSTS_FAILED);
                                (UserFetchFlow { username, stage: UserFetchStage::Done }, UserFetchAction::Respond(r))
                            },
                        }
                    },
                    _ => {
                        let r = message_reply(Status::InternalServerError, USER_POSTS_FAILED);
                        (UserFetchFlow { username, stage: UserFetchStage::Done }, UserFetchAction::Respond(r))
                    },
                }
            },
        }
    }
}

// ---- fixed answers ----

/// The answer to a request for the template post.
pub fn default_post_reply() -> (r: Reply)
    ensures
        r.status == Status::Success,
        r.body matches Body::Template(p) && p.is_template() && p.well_formed(),
{
    Reply { status: Status::Success, body: Body::Template(Post::default()) }
}

/// The text of the answer to a probe.
pub const PROBE_TEXT: &'static str = "Bruh";

/// The answer to a probe: the plain text "Bruh".
pub fn idk_reply() -> (r: Reply)
    ensures
        r.status == Status::Success,
        r.body matches Body::Text(t) && t@ == PROBE_TEXT@,
{
    Reply { status: Status::Success, body: Body::Text(String::from_str(PROBE_TEXT)) }
}

} // verus!
