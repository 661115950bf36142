use goals_backend::structures::{DBPost, RecordRef};
use goals_backend::voting::collect_voters;

fn user(name: &str) -> RecordRef {
    RecordRef::new("user", name)
}

fn names(v: &[RecordRef]) -> Vec<String> {
    let mut n: Vec<String> = v.iter().map(|r| format!("{}:{}", r.table, r.key)).collect();
    n.sort();
    n
}

fn post_with(up: &[&str], dw: &[&str]) -> DBPost {
    let mut p = DBPost::default();
    p.up_voters = up.iter().map(|n| user(n)).collect();
    p.dw_voters = dw.iter().map(|n| user(n)).collect();
    p.votes = up.len() as isize - dw.len() as isize;
    p
}

#[test]
fn a_new_up_vote_adds_the_voter() {
    let mut p = post_with(&["ann"], &["bob"]);
    p.up_vote(user("cid"));
    assert_eq!(names(&p.up_voters), vec!["user:ann", "user:cid"]);
    assert_eq!(names(&p.dw_voters), vec!["user:bob"]);
    assert_eq!(p.votes, 1);
}

#[test]
fn an_up_vote_by_an_up_voter_is_taken_back() {
    let mut p = post_with(&["ann", "cid"], &["bob"]);
    p.up_vote(user("ann"));
    assert_eq!(names(&p.up_voters), vec!["user:cid"]);
    assert_eq!(names(&p.dw_voters), vec!["user:bob"]);
    assert_eq!(p.votes, 0);
}

#[test]
fn an_up_vote_by_a_down_voter_switches_sides() {
    let mut p = post_with(&["ann"], &["bob"]);
    p.up_vote(user("bob"));
    assert_eq!(names(&p.up_voters), vec!["user:ann", "user:bob"]);
    assert!(p.dw_voters.is_empty());
    assert_eq!(p.votes, 2);
}

#[test]
fn a_new_down_vote_adds_the_voter() {
    let mut p = post_with(&["ann"], &[]);
    p.dw_vote(user("bob"));
    assert_eq!(names(&p.dw_voters), vec!["user:bob"]);
    assert_eq!(p.votes, 0);
}

#[test]
fn a_down_vote_by_a_down_voter_is_taken_back() {
    let mut p = post_with(&[], &["bob"]);
    p.dw_vote(user("bob"));
    assert!(p.dw_voters.is_empty());
    assert_eq!(p.votes, 0);
}

#[test]
fn a_down_vote_by_an_up_voter_switches_sides() {
    let mut p = post_with(&["ann", "bob"], &[]);
    p.dw_vote(user("ann"));
    assert_eq!(names(&p.up_voters), vec!["user:bob"]);
    assert_eq!(names(&p.dw_voters), vec!["user:ann"]);
    assert_eq!(p.votes, 0);
}

#[test]
fn two_up_votes_restore_the_post() {
    let mut p = post_with(&["ann"], &["bob"]);
    p.up_vote(user("cid"));
    p.up_vote(user("cid"));
    assert_eq!(names(&p.up_voters), vec!["user:ann"]);
    assert_eq!(names(&p.dw_voters), vec!["user:bob"]);
    assert_eq!(p.votes, 0);
}

#[test]
fn two_down_votes_restore_the_post() {
    let mut p = post_with(&["ann"], &["bob"]);
    p.dw_vote(user("bob"));
    p.dw_vote(user("bob"));
    assert_eq!(names(&p.up_voters), vec!["user:ann"]);
    assert_eq!(names(&p.dw_voters), vec!["user:bob"]);
    assert_eq!(p.votes, 0);
}

#[test]
fn voting_recounts_a_stale_score() {
    let mut p = post_with(&["ann", "bob"], &[]);
    p.votes = 40;
    p.up_vote(user("cid"));
    assert_eq!(p.votes, 3);
}

#[test]
fn the_id_and_post_stay_when_voting() {
    let mut p = post_with(&[], &[]);
    p.post_id = "xyz".to_string();
    p.post.title = "title".to_string();
    p.up_vote(user("ann"));
    assert_eq!(p.post_id, "xyz");
    assert_eq!(p.post.title, "title");
}

#[test]
fn a_record_of_another_table_is_another_voter() {
    let mut p = post_with(&["ann"], &[]);
    p.up_vote(RecordRef::new("admin", "ann"));
    assert_eq!(names(&p.up_voters), vec!["admin:ann", "user:ann"]);
    assert_eq!(p.votes, 2);
}

#[test]
fn collect_voters_drops_repeats() {
    let refs = vec![user("ann"), user("bob"), user("ann"), user("bob"), user("cid")];
    let v = collect_voters(&refs);
    assert_eq!(v.iter().map(|r| r.key.clone()).collect::<Vec<_>>(), vec!["ann", "bob", "cid"]);
}

#[test]
fn collect_voters_of_nothing_is_nothing() {
    assert!(collect_voters(&Vec::new()).is_empty());
}

#[test]
fn a_down_vote_mirrors_an_up_vote_with_the_sides_exchanged() {
    for voter in ["ann", "bob", "cid"] {
        let mut a = post_with(&["ann"], &["bob"]);
        let mut b = post_with(&["bob"], &["ann"]);
        a.dw_vote(user(voter));
        b.up_vote(user(voter));
        assert_eq!(names(&a.up_voters), names(&b.dw_voters));
        assert_eq!(names(&a.dw_voters), names(&b.up_voters));
        assert_eq!(a.votes, -b.votes);
    }
}

#[test]
fn other_voters_keep_their_votes() {
    let mut p = post_with(&["ann", "bob"], &["cid", "dan"]);
    p.up_vote(user("cid"));
    assert!(names(&p.up_voters).contains(&"user:ann".to_string()));
    assert!(names(&p.up_voters).contains(&"user:bob".to_string()));
    assert!(names(&p.dw_voters).contains(&"user:dan".to_string()));
    assert_eq!(p.votes, 2);
}
