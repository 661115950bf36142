use goals_backend::reply::{Body, Fetched, Reply, Status};
use goals_backend::structures::{Claims, DBPost, RecordRef};
use goals_backend::vote_flow::{VoteAction, VoteDirection, VoteEvent, VoteFlow, VoteStage};

fn said(r: &Reply) -> (Status, String) {
    match &r.body {
        Body::Message(m) => (r.status, m.msg.clone()),
        other => panic!("not a message: {:?}", other),
    }
}

fn claims(name: &str) -> Claims {
    Claims { username: name.to_string(), password: "pw".to_string(), exp: 1 }
}

fn reply_of(a: VoteAction) -> Reply {
    match a {
        VoteAction::Respond(r) => r,
        other => panic!("no answer: {:?}", other),
    }
}

/// Brings a vote by `name` on post `p1` up to the loading of the records.
fn loading(direction: VoteDirection, name: &str) -> VoteFlow {
    let (f, a) = VoteFlow::start(direction, "p1".to_string(), "tok".to_string());
    assert!(matches!(a, VoteAction::OpenDb));
    let (f, a) = f.step(VoteEvent::DbOpened(true));
    assert!(matches!(a, VoteAction::DecodeToken { ref token } if token == "tok"));
    let (f, a) = f.step(VoteEvent::TokenDecoded(Some(claims(name))));
    assert!(matches!(a, VoteAction::LoadRecords { ref username, ref post_id } if username == "ann" && post_id == "p1"));
    assert!(matches!(f.stage, VoteStage::LoadRecords { .. }));
    f
}

#[test]
fn an_up_vote_is_saved_and_the_saved_post_returned() {
    let f = loading(VoteDirection::Up, "ann");
    let mut stored = DBPost::default();
    stored.post_id = "p1".to_string();
    stored.dw_voters.push(RecordRef::new("user", "ann"));
    stored.votes = -1;
    let (f, a) = f.step(VoteEvent::RecordsLoaded { user: Fetched::Found(()), post: Fetched::Found(stored) });
    let saved = match a {
        VoteAction::SavePost { post_id, post } => {
            assert_eq!(post_id, "p1");
            assert_eq!(post.votes, 1);
            assert_eq!(post.up_voters.len(), 1);
            assert_eq!(post.up_voters[0].table, "user");
            assert_eq!(post.up_voters[0].key, "ann");
            assert!(post.dw_voters.is_empty());
            post
        }
        other => panic!("{:?}", other),
    };
    let (f, a) = f.step(VoteEvent::PostSaved { saved: Fetched::Found(saved), detail: String::new() });
    assert!(matches!(f.stage, VoteStage::Done));
    let r = reply_of(a);
    assert_eq!(r.status, Status::Success);
    assert!(matches!(r.body, Body::Post(ref p) if p.votes == 1));
}

#[test]
fn a_down_vote_on_a_fresh_post_scores_minus_one() {
    let f = loading(VoteDirection::Down, "ann");
    let (_, a) = f.step(VoteEvent::RecordsLoaded { user: Fetched::Found(()), post: Fetched::Found(DBPost::default()) });
    assert!(matches!(a, VoteAction::SavePost { ref post, .. } if post.votes == -1 && post.dw_voters.len() == 1));
}

#[test]
fn a_vote_with_the_database_closed_fails() {
    let (f, _) = VoteFlow::start(VoteDirection::Up, "p1".to_string(), "tok".to_string());
    let (f, a) = f.step(VoteEvent::DbOpened(false));
    assert!(matches!(f.stage, VoteStage::Done));
    assert_eq!(
        said(&reply_of(a)),
        (Status::InternalServerError, "Sorry We are having some problem when opening our database!".to_string())
    );
}

#[test]
fn a_vote_with_a_bad_token_fails() {
    let (f, _) = VoteFlow::start(VoteDirection::Down, "p1".to_string(), "tok".to_string());
    let (f, _) = f.step(VoteEvent::DbOpened(true));
    let (_, a) = f.step(VoteEvent::TokenDecoded(None));
    assert_eq!(
        said(&reply_of(a)),
        (Status::InternalServerError, "Sorry your token is not valid or Something went wrong!!".to_string())
    );
}

#[test]
fn a_vote_on_a_missing_post_has_no_content() {
    let f = loading(VoteDirection::Up, "ann");
    let (_, a) = f.step(VoteEvent::RecordsLoaded { user: Fetched::Found(()), post: Fetched::Missing });
    assert_eq!(said(&reply_of(a)), (Status::NoContent, "Sorry The Post you're voting is not found!!".to_string()));
}

#[test]
fn a_vote_by_a_missing_user_is_not_acceptable() {
    let f = loading(VoteDirection::Up, "ann");
    let (_, a) = f.step(VoteEvent::RecordsLoaded { user: Fetched::Missing, post: Fetched::Found(DBPost::default()) });
    assert_eq!(said(&reply_of(a)), (Status::NotAcceptable, "Are You a Ghost?, We didn't found you're acc!".to_string()));
}

#[test]
fn a_failed_lookup_is_a_bad_request() {
    let f = loading(VoteDirection::Up, "ann");
    let (_, a) = f.step(VoteEvent::RecordsLoaded { user: Fetched::Found(()), post: Fetched::Failed("boom".to_string()) });
    assert_eq!(said(&reply_of(a)), (Status::BadRequest, "Shut The Fuck Off Something went wrong!!".to_string()));
    let f = loading(VoteDirection::Up, "ann");
    let (_, a) = f.step(VoteEvent::RecordsLoaded { user: Fetched::Failed("boom".to_string()), post: Fetched::Missing });
    assert_eq!(said(&reply_of(a)).0, Status::BadRequest);
}

#[test]
fn a_failed_save_of_an_up_vote_tells_why() {
    let f = loading(VoteDirection::Up, "ann");
    let (f, _) = f.step(VoteEvent::RecordsLoaded { user: Fetched::Found(()), post: Fetched::Found(DBPost::default()) });
    let (_, a) = f.step(VoteEvent::PostSaved { saved: Fetched::Missing, detail: "Ok(None)".to_string() });
    assert_eq!(
        said(&reply_of(a)),
        (Status::InternalServerError, "We're having some problem in processing your vote!!Ok(None)".to_string())
    );
}

#[test]
fn a_failed_save_of_a_down_vote_does_not_tell_why() {
    let f = loading(VoteDirection::Down, "ann");
    let (f, _) = f.step(VoteEvent::RecordsLoaded { user: Fetched::Found(()), post: Fetched::Found(DBPost::default()) });
    let (_, a) = f.step(VoteEvent::PostSaved { saved: Fetched::Failed("x".to_string()), detail: "Err(x)".to_string() });
    assert_eq!(
        said(&reply_of(a)),
        (Status::InternalServerError, "We're having some problem in processing your vote!!".to_string())
    );
}
