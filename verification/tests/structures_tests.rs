use goals_backend::structures::{DBPost, Date, Post, RecordRef, Resp, Time};

#[test]
fn resp_new_keeps_the_message() {
    let r = Resp::new("hello there");
    assert_eq!(r.msg, "hello there");
}

#[test]
fn time_default_is_midnight() {
    assert!(matches!(Time::default(), Time::TimeStamp((0, 0))));
}

#[test]
fn date_default_is_sunday() {
    assert_eq!(Date::default(), Date::Sunday);
}

#[test]
fn post_default_is_the_template() {
    let p = Post::default();
    assert_eq!(p.title, "");
    assert_eq!(p.details, "");
    assert_eq!(p.tables.len(), 1);
    assert_eq!(p.tables[0].day, Date::Sunday);
    assert_eq!(p.tables[0].slots.len(), 1);
    assert_eq!(p.tables[0].slots[0].name, "");
    assert!(matches!(p.tables[0].slots[0].time, Time::TimeStamp((0, 0))));
}

#[test]
fn db_post_default_has_no_votes() {
    let p = DBPost::default();
    assert_eq!(p.post_id, "");
    assert_eq!(p.votes, 0);
    assert!(p.up_voters.is_empty());
    assert!(p.dw_voters.is_empty());
    assert_eq!(p.post.tables.len(), 1);
}

#[test]
fn record_refs_compare_by_table_and_key() {
    let a = RecordRef::new("user", "ann");
    assert!(a.same_record(&RecordRef::new("user", "ann")));
    assert!(!a.same_record(&RecordRef::new("user", "bob")));
    assert!(!a.same_record(&RecordRef::new("post", "ann")));
}

#[test]
fn time_clone_keeps_the_value() {
    let t = Time::Other("lunch".to_string());
    assert!(matches!(t.clone(), Time::Other(s) if s == "lunch"));
    let u = Time::TimeStamp((7, 30));
    assert!(matches!(u.clone(), Time::TimeStamp((7, 30))));
}

use goals_backend::structures::{DaySchedule, Slot};

fn slot(name: &str) -> Slot {
    Slot { name: name.to_string(), time: Time::TimeStamp((8, 0)) }
}

#[test]
fn the_template_post_is_well_formed() {
    assert!(Post::default().is_well_formed());
}

#[test]
fn a_repeated_day_is_not_well_formed() {
    let mut p = Post::default();
    p.tables.push(DaySchedule { day: Date::Sunday, slots: vec![slot("run")] });
    assert!(!p.is_well_formed());
    p.tables[1].day = Date::Monday;
    assert!(p.is_well_formed());
}

#[test]
fn a_repeated_entry_name_is_not_well_formed() {
    let day = DaySchedule { day: Date::Friday, slots: vec![slot("run"), slot("read"), slot("run")] };
    assert!(!day.has_distinct_names());
    let mut p = Post::default();
    p.tables.push(day);
    assert!(!p.is_well_formed());
    p.tables[1].slots.pop();
    assert!(p.is_well_formed());
}
