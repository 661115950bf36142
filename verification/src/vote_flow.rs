use vstd::prelude::*;

use crate::reply::{Body, Fetched, Reply, Status, DB_UNAVAILABLE, db_unavailable, detailed_reply, message_reply, says};
use crate::structures::{Claims, DBPost, RecordKey, RecordRef, distinct_records};
use crate::voting::{
    collect_voters, dw_vote_sets, lemma_distinct_records_len, lemma_dw_vote_outcome, lemma_dw_vote_score,
    lemma_dw_vote_twice_restores, lemma_up_vote_outcome, lemma_up_vote_score, lemma_up_vote_twice_restores,
    lemma_votes_keep_disjoint, up_vote_sets,
};

verus! {

/// Which way a vote goes.
#[derive(Clone, Copy, Debug, PartialEq, Eq, Structural)]
pub enum VoteDirection {
    Up,
    Down,
}

/// The voter sets of `before` once `voter` has voted it `direction`.
pub open spec fn voted_sets(direction: VoteDirection, before: DBPost, voter: RecordKey) -> (Set<RecordKey>, Set<RecordKey>) {
    match direction {
        VoteDirection::Up => up_vote_sets(before.up_set(), before.dw_set(), voter),
        VoteDirection::Down => dw_vote_sets(before.up_set(), before.dw_set(), voter),
    }
}

/// `after` is `before` once `voter` has voted it `direction`: the voter sets
/// change as the vote says, each voter list names each record once, the
/// score is recounted, and the id and the post stay.
pub open spec fn vote_applied(direction: VoteDirection, before: DBPost, voter: RecordKey, after: DBPost) -> bool {
    &&& after.up_set() == voted_sets(direction, before, voter).0
    &&& after.dw_set() == voted_sets(direction, before, voter).1
    &&& distinct_records(after.up_voters@)
    &&& distinct_records(after.dw_voters@)
    &&& after.votes == after.up_voters@.len() - after.dw_voters@.len()
    &&& after.post_id == before.post_id
    &&& after.post == before.post
}

/// A vote keeps a stored post well formed: when no record voted both ways
/// before, the voted post holds each voter once, no record votes both ways,
/// and its score is its up-votes less its down-votes.
pub proof fn lemma_vote_keeps_post_well_formed(direction: VoteDirection, before: DBPost, voter: RecordKey, after: DBPost)
    requires
        vote_applied(direction, before, voter, after),
        before.up_set().disjoint(before.dw_set()),
    ensures
        after.well_formed(),
{
    lemma_votes_keep_disjoint(before.up_set(), before.dw_set(), voter);
    lemma_distinct_records_len(after.up_voters@);
    lemma_distinct_records_len(after.dw_voters@);
}

/// Two votes the same way by the same record, one after the other, give the
/// post back as it was (voters, score, id and content), when the record had
/// not voted the other way and the post's score counted its voter lists.
pub proof fn lemma_two_votes_restore_post(direction: VoteDirection, p0: DBPost, voter: RecordKey, p1: DBPost, p2: DBPost)
    requires
        distinct_records(p0.up_voters@),
        distinct_records(p0.dw_voters@),
        p0.votes == p0.up_voters@.len() - p0.dw_voters@.len(),
        direction == VoteDirection::Up ==> !p0.dw_set().contains(voter),
        direction == VoteDirection::Down ==> !p0.up_set().contains(voter),
        vote_applied(direction, p0, voter, p1),
        vote_applied(direction, p1, voter, p2),
    ensures
        p2.up_set() == p0.up_set(),
        p2.dw_set() == p0.dw_set(),
        p2.votes == p0.votes,
        p2.post_id == p0.post_id,
        p2.post == p0.post,
{
    match direction {
        VoteDirection::Up => lemma_up_vote_twice_restores(p0.up_set(), p0.dw_set(), voter),
        VoteDirection::Down => lemma_dw_vote_twice_restores(p0.up_set(), p0.dw_set(), voter),
    }
    lemma_distinct_records_len(p0.up_voters@);
    lemma_distinct_records_len(p0.dw_voters@);
    lemma_distinct_records_len(p2.up_voters@);
    lemma_distinct_records_len(p2.dw_voters@);
}

/// The record of the user called `username`.
pub open spec fn user_record(username: Seq<char>) -> RecordKey {
    ("user"@, username)
}

/// What an up-vote does to a post whose voter lists name each record once
/// and share none: the voter becomes an up-voter exactly when it was not one,
/// it is no down-voter afterwards, every other record keeps its vote, and the
/// id and content stay, and the score, recounted from the lists, moves by one down (vote taken back), two
/// up (down-vote switched) or one up (new vote).
pub proof fn lemma_up_vote_result(before: DBPost, v: RecordKey, after: DBPost)
    requires
        vote_applied(VoteDirection::Up, before, v, after),
        distinct_records(before.up_voters@),
        distinct_records(before.dw_voters@),
        before.up_set().disjoint(before.dw_set()),
    ensures
        after.up_set().contains(v) == !before.up_set().contains(v),
        !after.dw_set().contains(v),
        forall|w: RecordKey| w != v ==> (#[trigger] after.up_set().contains(w)) == before.up_set().contains(w),
        forall|w: RecordKey| w != v ==> (#[trigger] after.dw_set().contains(w)) == before.dw_set().contains(w),
        after.post_id == before.post_id,
        after.post == before.post,
        after.votes == before.up_voters@.len() - before.dw_voters@.len() + if before.up_set().contains(v) {
            -1int
        } else if before.dw_set().contains(v) {
            2int
        } else {
            1int
        },
{
    let (up, dw) = (before.up_set(), before.dw_set());
    assert forall|w: RecordKey| w != v implies (#[trigger] after.up_set().contains(w)) == up.contains(w)
        && after.dw_set().contains(w) == dw.contains(w) by {
        lemma_up_vote_outcome(up, dw, v, w);
    }
    lemma_up_vote_outcome(up, dw, v, v);
    lemma_distinct_records_len(before.up_voters@);
    lemma_distinct_records_len(before.dw_voters@);
    lemma_distinct_records_len(after.up_voters@);
    lemma_distinct_records_len(after.dw_voters@);
    lemma_up_vote_score(up, dw, v);
}

/// What a down-vote does to a post whose voter lists name each record once
/// and share none: the voter becomes a down-voter exactly when it was not
/// one, it is no up-voter afterwards (an up-vote is switched, not only taken
/// back), every other record keeps its vote, the id and content stay, and the score moves by one up
/// (vote taken back), two down (up-vote switched) or one down (new vote).
pub proof fn lemma_dw_vote_result(before: DBPost, v: RecordKey, after: DBPost)
    requires
        vote_applied(VoteDirection::Down, before, v, after),
        distinct_records(before.up_voters@),
        distinct_records(before.dw_voters@),
        before.up_set().disjoint(before.dw_set()),
    ensures
        after.dw_set().contains(v) == !before.dw_set().contains(v),
        !after.up_set().contains(v),
        forall|w: RecordKey| w != v ==> (#[trigger] after.up_set().contains(w)) == before.up_set().contains(w),
        forall|w: RecordKey| w != v ==> (#[trigger] after.dw_set().contains(w)) == before.dw_set().contains(w),
        after.post_id == before.post_id,
        after.post == before.post,
        after.votes == before.up_voters@.len() - before.dw_voters@.len() + if before.up_set().contains(v) {
            -2int
        } else if before.dw_set().contains(v) {
            1int
        } else {
            -1int
        },
{
    let (up, dw) = (before.up_set(), before.dw_set());
    assert forall|w: RecordKey| w != v implies (#[trigger] after.up_set().contains(w)) == up.contains(w)
        && after.dw_set().contains(w) == dw.contains(w) by {
        lemma_dw_vote_outcome(up, dw, v, w);
    }
    lemma_dw_vote_outcome(up, dw, v, v);
    lemma_distinct_records_len(before.up_voters@);
    lemma_distinct_records_len(before.dw_voters@);
    lemma_distinct_records_len(after.up_voters@);
    lemma_distinct_records_len(after.dw_voters@);
    lemma_dw_vote_score(up, dw, v);
}

/// Users are told apart by their whole name: two usernames vote under the
/// same record exactly when they are equal.
pub proof fn lemma_user_records_tell_users_apart(a: Seq<char>, b: Seq<char>)
    ensures
        (user_record(a) == user_record(b)) == (a == b),
{
}

/// The first vote on a post without voters makes the voting user, under the
/// record `user:<name>` with the whole name, its only voter, with a score of
/// one up or one down.
pub proof fn lemma_first_vote_names_the_user(direction: VoteDirection, before: DBPost, username: Seq<char>, after: DBPost)
    requires
        vote_applied(direction, before, user_record(username), after),
        before.up_set() == Set::<RecordKey>::empty(),
        before.dw_set() == Set::<RecordKey>::empty(),
    ensures
        direction == VoteDirection::Up ==> after.up_set() == set![("user"@, username)] && after.dw_set().is_empty()
            && after.votes == 1,
        direction == VoteDirection::Down ==> after.dw_set() == set![("user"@, username)] && after.up_set().is_empty()
            && after.votes == -1,
{
    lemma_distinct_records_len(after.up_voters@);
    lemma_distinct_records_len(after.dw_voters@);
    assert(set![("user"@, username)] =~= Set::<RecordKey>::empty().insert(("user"@, username)));
    assert(set![("user"@, username)].len() == 1);
}

/// `action` answers with `status` and the message `text`.
pub open spec fn vote_responds(action: VoteAction, status: Status, text: Seq<char>) -> bool {
    action matches VoteAction::Respond(r) && says(r, status, text)
}

/// Message when the vote's token cannot be decoded.
pub const VOTE_BAD_TOKEN: &'static str = "Sorry your token is not valid or Something went wrong!!";
/// Message when the voted post does not exist.
pub const VOTE_NO_POST: &'static str = "Sorry The Post you're voting is not found!!";
/// Message when the voting user does not exist.
pub const VOTE_NO_USER: &'static str = "Are You a Ghost?, We didn't found you're acc!";
/// Message when reading the user or the post failed.
pub const VOTE_LOOKUP_FAILED: &'static str = "Shut The Fuck Off Something went wrong!!";
/// Message when the voted post cannot be saved.
pub const VOTE_SAVE_FAILED: &'static str = "We're having some problem in processing your vote!!";

/// Where a vote request stands.
#[derive(Debug)]
pub enum VoteStage {
    /// Waiting for the database to open.
    OpenDb,
    /// Waiting for the token to be decoded.
    DecodeToken,
    /// Waiting for the voting user's record and the post.
    LoadRecords { username: String },
    /// Waiting for the voted post to be saved.
    SavePost,
    /// Answered.
    Done,
}

/// A vote request: its direction, the post, the token, and where it stands.
#[derive(Debug)]
pub struct VoteFlow {
    pub direction: VoteDirection,
    pub post_id: String,
    pub token: String,
    pub stage: VoteStage,
}

/// What the service must do next for a vote request.
#[derive(Debug)]
pub enum VoteAction {
    OpenDb,
    DecodeToken { token: String },
    LoadRecords { username: String, post_id: String },
    SavePost { post_id: String, post: DBPost },
    Respond(Reply),
}

impl VoteAction {
    /// Whether the action changes the database: only saving the voted post does.
    pub open spec fn writes_database(self) -> bool {
        self is SavePost
    }
}

/// What came of the last action of a vote request.
#[derive(Debug)]
pub enum VoteEvent {
    DbOpened(bool),
    /// The claims of the token, if it is valid.
    TokenDecoded(Option<Claims>),
    RecordsLoaded { user: Fetched<()>, post: Fetched<DBPost> },
    /// The saved post, and a description of the outcome for the error message.
    PostSaved { saved: Fetched<DBPost>, detail: String },
}

impl VoteFlow {
    /// `event` is what the action of the current stage produces.
    pub open spec fn expects(&self, event: VoteEvent) -> bool {
        match self.stage {
            VoteStage::OpenDb => event is DbOpened,
            VoteStage::DecodeToken => event is TokenDecoded,
            VoteStage::LoadRecords { .. } => match event {
                VoteEvent::RecordsLoaded { post, .. } => post matches Fetched::Found(p) ==> {
                    &&& p.up_voters@.len() < isize::MAX
                    &&& p.dw_voters@.len() < isize::MAX
                },
                _ => false,
            },
            VoteStage::SavePost => event is PostSaved,
            VoteStage::Done => false,
        }
    }

    /// A vote on `post_id` with `token`: first the database is opened.
    pub fn start(direction: VoteDirection, post_id: String, token: String) -> (res: (VoteFlow, VoteAction))
        ensures
            res.0.direction == direction,
            res.0.post_id == post_id,
            res.0.token == token,
            res.0.stage is OpenDb,
            res.1 is OpenDb,
    {
        (VoteFlow { direction, post_id, token, stage: VoteStage::OpenDb }, VoteAction::OpenDb)
    }

    /// The next stage of the request and the next action, given what came of the last action.
    pub fn step(self, event: VoteEvent) -> (res: (VoteFlow, VoteAction))
        requires
            self.expects(event),
        ensures
            res.0.direction == self.direction,
            res.0.post_id == self.post_id,
            res.0.token == self.token,
            res.1 is Respond <==> res.0.stage is Done,
            res.1.writes_database() ==> event matches VoteEvent::RecordsLoaded { user: Fetched::Found(_), post: Fetched::Found(_) },
            event matches VoteEvent::DbOpened(ok) ==> {
                &&& !ok ==> vote_responds(res.1, Status::InternalServerError, DB_UNAVAILABLE@)
                &&& ok ==> (res.0.stage is DecodeToken && (res.1 matches VoteAction::DecodeToken { token } && token == self.token))
            },
            event matches VoteEvent::TokenDecoded(claims) ==> match claims {
                None => vote_responds(res.1, Status::InternalServerError, VOTE_BAD_TOKEN@),
                Some(c) => {
                    &&& res.0.stage matches VoteStage::LoadRecords { username } && username@ == c.username@
                    &&& res.1 matches VoteAction::LoadRecords { username, post_id } && username@ == c.username@
                        && post_id@ == self.post_id@
                },
            },
            event matches VoteEvent::RecordsLoaded { user, post } ==> (self.stage matches VoteStage::LoadRecords { username } && match (user, post) {
                (Fetched::Found(_), Fetched::Found(p)) => {
                    &&& res.0.stage is SavePost
                    &&& res.1 matches VoteAction::SavePost { post_id, post: voted } && post_id@ == self.post_id@
                        && vote_applied(self.direction, p, user_record(username@), voted)
                },
                (Fetched::Found(_), Fetched::Missing) => vote_responds(res.1, Status::NoContent, VOTE_NO_POST@),
                (Fetched::Missing, _) => vote_responds(res.1, Status::NotAcceptable, VOTE_NO_USER@),
                _ => vote_responds(res.1, Status::BadRequest, VOTE_LOOKUP_FAILED@),
            }),
            event matches VoteEvent::PostSaved { saved, detail } ==> match saved {
                Fetched::Found(p) => (res.1 matches VoteAction::Respond(r) && r.status == Status::Success && r.body == Body::Post(p)),
                _ => vote_responds(res.1, Status::InternalServerError,
                    match self.direction { VoteDirection::Up => VOTE_SAVE_FAILED@ + detail@, VoteDirection::Down => VOTE_SAVE_FAILED@ }),
            },
    {
        let VoteFlow { direction, post_id, token, stage } = self;
        let done = VoteStage::Done;
        match event {
            VoteEvent::DbOpened(ok) => {
                if ok {
                    let action = VoteAction::DecodeToken { token: token.clone() };
                    (VoteFlow { direction, post_id, token, stage: VoteStage::DecodeToken }, action)
                } else {
                    (VoteFlow { direction, post_id, token, stage: done }, VoteAction::Respond(db_unavailable()))
                }
            },
            VoteEvent::TokenDecoded(claims) => {
                match claims {
                    Some(c) => {
                        let action = VoteAction::LoadRecords { username: c.username.clone(), post_id: post_id.clone() };
                        (VoteFlow { direction, post_id, token, stage: VoteStage::LoadRecords { username: c.username } }, action)
                    },
                    None => {
                        let r = message_reply(Status::InternalServerError, VOTE_BAD_TOKEN);
                        (VoteFlow { direction, post_id, token, stage: done }, VoteAction::Respond(r))
                    },
                }
            },
            VoteEvent::RecordsLoaded { user, post } => {
                let username = match stage {
                    VoteStage::LoadRecords { username } => username,
                    _ => String::new(),
                };
                match (user, post) {
                    (Fetched::Found(_), Fetched::Found(p)) => {
                        let voted = cast_vote(direction, p, &username);
                        let action = VoteAction::SavePost { post_id: post_id.clone(), post: voted };
                        (VoteFlow { direction, post_id, token, stage: VoteStage::SavePost }, action)
                    },
                    (Fetched::Found(_), Fetched::Missing) => {
                        let r = message_reply(Status::NoContent, VOTE_NO_POST);
                        (VoteFlow { direction, post_id, token, stage: done }, VoteAction::Respond(r))
                    },
                    (Fetched::Missing, _) => {
                        let r = message_reply(Status::NotAcceptable, VOTE_NO_USER);
                        (VoteFlow { direction, post_id, token, stage: done }, VoteAction::Respond(r))
                    },
                    _ => {
                        let r = message_reply(Status::BadRequest, VOTE_LOOKUP_FAILED);
                        (VoteFlow { direction, post_id, token, stage: done }, VoteAction::Respond(r))
                    },
                }
            },
            VoteEvent::PostSaved { saved, detail } => {
                let r = match saved {
                    Fetched::Found(p) => Reply { status: Status::Success, body: Body::Post(p) },
                    _ => match direction {
                        VoteDirection::Up => detailed_reply(Status::InternalServerError, VOTE_SAVE_FAILED, &detail),
                        VoteDirection::Down => message_reply(Status::InternalServerError, VOTE_SAVE_FAILED),
                    },
                };
                (VoteFlow { direction, post_id, token, stage: done }, VoteAction::Respond(r))
            },
        }
    }
}

/// `post` once the user called `username` has voted it `direction`; each
/// voter list is first read as the set of records it names.
pub fn cast_vote(direction: VoteDirection, post: DBPost, username: &String) -> (voted: DBPost)
    requires
        post.up_voters@.len() < isize::MAX,
        post.dw_voters@.len() < isize::MAX,
    ensures
        vote_applied(direction, post, user_record(username@), voted),
{
    let mut voted = post;
    voted.up_voters = collect_voters(&voted.up_voters);
    voted.dw_voters = collect_voters(&voted.dw_voters);
    let voter = RecordRef::new("user", username.as_str());
    match direction {
        VoteDirection::Up => voted.up_vote(voter),
        VoteDirection::Down => voted.dw_vote(voter),
    }
    voted
}

} // verus!
