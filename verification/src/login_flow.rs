use vstd::prelude::*;

use crate::password::{argon2_verdict, check_password};
use crate::reply::{Fetched, Reply, Status, DB_UNAVAILABLE, db_unavailable, detailed_reply, message_reply, says};
use crate::structures::{Claims, DBUserInfo, LoginInfo};
use crate::token::{LAST_TIMESTAMP, TOKEN_LIFETIME_SECS, make_claims};

verus! {

/// Message when the password does not match the stored hash.
pub const LOGIN_WRONG_PASSWORD: &'static str = "Sorry Password didn't matched!";
/// Message when the stored hash cannot be checked.
pub const LOGIN_CHECK_FAILED: &'static str = "Sorry We are having some problem when checking your password!";
/// Message, before the username, when no user has that name.
pub const LOGIN_NO_USER: &'static str = "Sorry No User is founded with username of: ";
/// Message, before the error, when reading the user failed.
pub const LOGIN_LOOKUP_FAILED: &'static str = "Sorry We are some problem in opening database!!: ";
/// Message when no token can be made.
pub const TOKEN_FAILED: &'static str = "Sorry We are having some problem when make your token!";

/// Where a login request stands.
#[derive(Debug)]
pub enum LoginStage {
    /// Waiting for the database to open.
    OpenDb,
    /// Waiting for the user's record.
    LoadUser,
    /// Waiting for the current time.
    ReadClock,
    /// Waiting for the token.
    EncodeToken,
    /// Answered.
    Done,
}

/// A login request: what the client sent, and where it stands.
#[derive(Debug)]
pub struct LoginFlow {
    pub info: LoginInfo,
    pub stage: LoginStage,
}

/// What the service must do next for a login request.
#[derive(Debug)]
pub enum LoginAction {
    OpenDb,
    LoadUser { username: String },
    ReadClock,
    /// Sign these claims into a token.
    EncodeToken { claims: Claims },
    Respond(Reply),
}

impl LoginAction {
    /// Whether the action changes the database: none of these does.
    pub open spec fn writes_database(self) -> bool {
        match self {
            LoginAction::OpenDb => false,
            LoginAction::LoadUser { .. } => false,
            LoginAction::ReadClock => false,
            LoginAction::EncodeToken { .. } => false,
            LoginAction::Respond(_) => false,
        }
    }
}

/// What came of the last action of a login request.
#[derive(Debug)]
pub enum LoginEvent {
    DbOpened(bool),
    UserLoaded(Fetched<DBUserInfo>),
    /// The current time, in seconds since the epoch.
    ClockRead(i64),
    /// The token, if one could be made.
    TokenEncoded(Option<String>),
}

/// What checking an entered password against a stored hash gives.
#[derive(Clone, Copy, Debug, PartialEq, Eq, Structural)]
pub enum PasswordCheck {
    Accepted,
    Rejected,
    Unreadable,
}

/// The check of the password `entered` (its UTF-8 bytes) against the stored hash `stored`.
pub open spec fn password_check(stored: Seq<char>, entered: Seq<char>) -> PasswordCheck {
    match argon2_verdict(stored, vstd::utf8::encode_utf8(entered)) {
        Some(true) => PasswordCheck::Accepted,
        Some(false) => PasswordCheck::Rejected,
        None => PasswordCheck::Unreadable,
    }
}

/// `action` answers with `status` and the message `text`.
pub open spec fn login_responds(action: LoginAction, status: Status, text: Seq<char>) -> bool {
    action matches LoginAction::Respond(r) && says(r, status, text)
}

impl LoginFlow {
    /// `event` is what the action of the current stage produces.
    pub open spec fn expects(&self, event: LoginEvent) -> bool {
        match self.stage {
            LoginStage::OpenDb => event is DbOpened,
            LoginStage::LoadUser => event is UserLoaded,
            LoginStage::ReadClock => event matches LoginEvent::ClockRead(now) && now <= LAST_TIMESTAMP - TOKEN_LIFETIME_SECS,
            LoginStage::EncodeToken => event is TokenEncoded,
            LoginStage::Done => false,
        }
    }

    /// A login with `info`: first the database is opened.
    pub fn start(info: LoginInfo) -> (res: (LoginFlow, LoginAction))
        ensures
            res.0.info == info,
            res.0.stage is OpenDb,
            res.1 is OpenDb,
            !res.1.writes_database(),
    {
        (LoginFlow { info, stage: LoginStage::OpenDb }, LoginAction::OpenDb)
    }

    /// The next stage of the request and the next action, given what came of the last action.
    pub fn step(self, event: LoginEvent) -> (res: (LoginFlow, LoginAction))
        requires
            self.expects(event),
        ensures
            res.0.info == self.info,
            !res.1.writes_database(),
            res.1 is Respond <==> res.0.stage is Done,
            event matches LoginEvent::DbOpened(ok) ==> {
                &&& !ok ==> login_responds(res.1, Status::InternalServerError, DB_UNAVAILABLE@)
                &&& ok ==> (res.0.stage is LoadUser && (res.1 matches LoginAction::LoadUser { username } && username@ == self.info.username@))
            },
            event matches LoginEvent::UserLoaded(user) ==> match user {
                Fetched::Found(u) => match password_check(u.password@, self.info.password@) {
                    PasswordCheck::Accepted => res.0.stage is ReadClock && res.1 is ReadClock,
                    PasswordCheck::Rejected => login_responds(res.1, Status::InternalServerError, LOGIN_WRONG_PASSWORD@),
                    PasswordCheck::Unreadable => login_responds(res.1, Status::InternalServerError, LOGIN_CHECK_FAILED@),
                },
                Fetched::Missing => login_responds(res.1, Status::NotFound, LOGIN_NO_USER@ + self.info.username@),
                Fetched::Failed(detail) => login_responds(res.1, Status::InternalServerError, LOGIN_LOOKUP_FAILED@ + detail@),
            },
            event matches LoginEvent::ClockRead(now) ==> {
                &&& res.0.stage is EncodeToken
                &&& res.1 matches LoginAction::EncodeToken { claims }
                &&& claims.username@ == self.info.username@
                &&& claims.password@ == self.info.password@
                &&& claims.exp == (now + TOKEN_LIFETIME_SECS) as usize
            },
            event matches LoginEvent::TokenEncoded(token) ==> match token {
                Some(t) => login_responds(res.1, Status::Success, t@),
                None => login_responds(res.1, Status::InternalServerError, TOKEN_FAILED@),
            },
    {
        let LoginFlow { info, stage } = self;
        match event {
            LoginEvent::DbOpened(ok) => {
                if ok {
                    let action = LoginAction::LoadUser { username: info.username.clone() };
                    (LoginFlow { info, stage: LoginStage::LoadUser }, action)
                } else {
                    (LoginFlow { info, stage: LoginStage::Done }, LoginAction::Respond(db_unavailable()))
                }
            },
            LoginEvent::UserLoaded(user) => {
                match user {
                    Fetched::Found(u) => {
                        match check_password(u.password.as_str(), info.password.as_str()) {
                            Some(true) => (LoginFlow { info, stage: LoginStage::ReadClock }, LoginAction::ReadClock),
                            Some(false) => {
                                let r = message_reply(Status::InternalServerError, LOGIN_WRONG_PASSWORD);
                                (LoginFlow { info, stage: LoginStage::Done }, LoginAction::Respond(r))
                            },
                            None => {
                                let r = message_reply(Status::InternalServerError, LOGIN_CHECK_FAILED);
                                (LoginFlow { info, stage: LoginStage::Done }, LoginAction::Respond(r))
                            },
                        }
                    },
                    Fetched::Missing => {
                        let r = detailed_reply(Status::NotFound, LOGIN_NO_USER, info.username.as_str());
                        (LoginFlow { info, stage: LoginStage::Done }, LoginAction::Respond(r))
                    },
                    Fetched::Failed(detail) => {
                        let r = detailed_reply(Status::InternalServerError, LOGIN_LOOKUP_FAILED, detail.as_str());
                        (LoginFlow { info, stage: LoginStage::Done }, LoginAction::Respond(r))
                    },
                }
            },
            LoginEvent::ClockRead(now) => {
                let claims = make_claims(info.username.clone(), info.password.clone(), now);
                (LoginFlow { info, stage: LoginStage::EncodeToken }, LoginAction::EncodeToken { claims })
            },
            LoginEvent::TokenEncoded(token) => {
                let r = match token {
                    Some(t) => message_reply(Status::Success, t.as_str()),
                    None => message_reply(Status::InternalServerError, TOKEN_FAILED),
                };
                (LoginFlow { info, stage: LoginStage::Done }, LoginAction::Respond(r))
            },
        }
    }
}

} // verus!
