use goals_backend::login_flow::{LoginAction, LoginEvent, LoginFlow, LoginStage};
use goals_backend::password::{hash_password, HashConfig, HashVariant, HashVersion};
use goals_backend::reply::{Body, Fetched, Reply, Status};
use goals_backend::structures::{DBUserInfo, LoginInfo};

fn said(r: &Reply) -> (Status, String) {
    match &r.body {
        Body::Message(m) => (r.status, m.msg.clone()),
        other => panic!("not a message: {:?}", other),
    }
}

fn reply_of(a: LoginAction) -> Reply {
    match a {
        LoginAction::Respond(r) => r,
        other => panic!("no answer: {:?}", other),
    }
}

fn user_with_hash(password: &str) -> DBUserInfo {
    let cfg = HashConfig {
        variant: HashVariant::Argon2i,
        version: HashVersion::Version13,
        mem_cost: 8,
        time_cost: 1,
        lanes: 1,
        hash_length: 32,
    };
    DBUserInfo {
        username: "ann".to_string(),
        fullname: "Ann".to_string(),
        password: hash_password(password, "saltsaltsalt", &cfg).unwrap(),
        up_posts: Vec::new(),
        pic_path: String::new(),
    }
}

fn loading(password: &str) -> LoginFlow {
    let info = LoginInfo { username: "ann".to_string(), password: password.to_string() };
    let (f, a) = LoginFlow::start(info);
    assert!(matches!(a, LoginAction::OpenDb));
    let (f, a) = f.step(LoginEvent::DbOpened(true));
    assert!(matches!(a, LoginAction::LoadUser { ref username } if username == "ann"));
    f
}

#[test]
fn the_right_password_gets_a_token() {
    let f = loading("secret");
    let (f, a) = f.step(LoginEvent::UserLoaded(Fetched::Found(user_with_hash("secret"))));
    assert!(matches!(a, LoginAction::ReadClock));
    let (f, a) = f.step(LoginEvent::ClockRead(1_000));
    match a {
        LoginAction::EncodeToken { claims } => {
            assert_eq!(claims.username, "ann");
            assert_eq!(claims.password, "secret");
            assert_eq!(claims.exp, 1_000 + 863_999_913_600usize);
        }
        other => panic!("{:?}", other),
    }
    let (f, a) = f.step(LoginEvent::TokenEncoded(Some("the.token.here".to_string())));
    assert!(matches!(f.stage, LoginStage::Done));
    assert_eq!(said(&reply_of(a)), (Status::Success, "the.token.here".to_string()));
}

#[test]
fn a_wrong_password_is_refused() {
    let f = loading("guess");
    let (_, a) = f.step(LoginEvent::UserLoaded(Fetched::Found(user_with_hash("secret"))));
    assert_eq!(said(&reply_of(a)), (Status::InternalServerError, "Sorry Password didn't matched!".to_string()));
}

#[test]
fn an_unreadable_hash_cannot_be_checked() {
    let f = loading("secret");
    let mut u = user_with_hash("secret");
    u.password = "plain text".to_string();
    let (_, a) = f.step(LoginEvent::UserLoaded(Fetched::Found(u)));
    assert_eq!(
        said(&reply_of(a)),
        (Status::InternalServerError, "Sorry We are having some problem when checking your password!".to_string())
    );
}

#[test]
fn an_unknown_user_is_not_found() {
    let f = loading("secret");
    let (_, a) = f.step(LoginEvent::UserLoaded(Fetched::Missing));
    assert_eq!(said(&reply_of(a)), (Status::NotFound, "Sorry No User is founded with username of: ann".to_string()));
}

#[test]
fn a_failed_lookup_tells_why() {
    let f = loading("secret");
    let (_, a) = f.step(LoginEvent::UserLoaded(Fetched::Failed("Db(Ds(\"down\"))".to_string())));
    assert_eq!(
        said(&reply_of(a)),
        (Status::InternalServerError, "Sorry We are some problem in opening database!!: Db(Ds(\"down\"))".to_string())
    );
}

#[test]
fn a_login_with_the_database_closed_fails() {
    let info = LoginInfo { username: "ann".to_string(), password: "x".to_string() };
    let (f, _) = LoginFlow::start(info);
    let (_, a) = f.step(LoginEvent::DbOpened(false));
    assert_eq!(said(&reply_of(a)).0, Status::InternalServerError);
}

#[test]
fn a_token_that_cannot_be_made_fails() {
    let f = loading("secret");
    let (f, _) = f.step(LoginEvent::UserLoaded(Fetched::Found(user_with_hash("secret"))));
    let (f, _) = f.step(LoginEvent::ClockRead(5));
    let (_, a) = f.step(LoginEvent::TokenEncoded(None));
    assert_eq!(
        said(&reply_of(a)),
        (Status::InternalServerError, "Sorry We are having some problem when make your token!".to_string())
    );
}
