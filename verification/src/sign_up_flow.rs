use vstd::prelude::*;

use crate::password::{HashConfig, argon2_encoded_hash, argon2_header, argon2_verdict, hash_accepted, hash_password};
use crate::paths::{assets_dir, picture_path};
use crate::picture::{MAX_PICTURE_SIZE, PictureFormat, jpeg_magic, picture_format, picture_format_of, png_magic, supported_picture};
use crate::reply::{Fetched, Reply, Status, DB_UNAVAILABLE, db_unavailable, message_reply, says};
use crate::structures::{Claims, DBUserInfo, RecordRef};
use crate::token::{LAST_TIMESTAMP, TOKEN_LIFETIME_SECS, make_claims};

verus! {

/// Message when the username is taken.
pub const SIGN_UP_TAKEN: &'static str = "Sorry The User is already exits!";
/// Message when the account cannot be created.
pub const SIGN_UP_FAILED: &'static str = "Sorry we're having some problem when creating your account!";
/// Message when the picture cannot be read.
pub const PICTURE_UNREADABLE: &'static str = "Sorry We're having Some Problem while reading your pofile picture!";
/// Message when the picture is neither PNG nor JPEG.
pub const PICTURE_UNSUPPORTED: &'static str = "Sorry your image format is not  supported!";
/// Message when the picture is too large.
pub const PICTURE_TOO_LARGE: &'static str = "Sorry Max Limit is 526kb!!";
/// Message when the picture cannot be stored.
pub const PICTURE_NOT_SAVED: &'static str = "Sorry We're having some problem in saving your profile image!";
/// Message when the picture has no file name.
pub const PICTURE_UNNAMED: &'static str = "Sorry You have to provide the name of the image!";
/// Message when the password cannot be hashed.
pub const HASH_FAILED: &'static str = "Sorry We're having some problem when encrypting your password!";
/// Message when no token can be made.
pub const SIGN_UP_TOKEN_FAILED: &'static str = "Sorry We are having some problem when make your token!";

/// The uploaded profile picture, as the form describes it.
#[derive(Clone, Debug)]
pub struct UploadedPicture {
    pub file_name: Option<String>,
    pub size: usize,
}

/// The sign-up form.
#[derive(Debug)]
pub struct SignUpInfo {
    pub username: String,
    pub fullname: String,
    pub password: String,
    pub upfp_pic: UploadedPicture,
}

/// The first bytes of the uploaded picture's file, and where that file lies.
#[derive(Debug)]
pub struct PictureHead {
    pub head: Vec<u8>,
    pub path: String,
}

/// Where a sign-up request stands.
#[derive(Debug)]
pub enum SignUpStage {
    OpenDb,
    /// Waiting to learn whether the username is taken.
    CheckUser,
    /// Waiting for the picture's first bytes.
    InspectPicture,
    /// Waiting for the service's cache directory.
    PrepareCacheDir,
    /// Waiting for the picture directory `dir` to exist.
    EnsureAssetsDir { dir: String },
    /// Waiting for the picture to be stored at `pic_path`.
    SavePicture { pic_path: String },
    /// Waiting for the user's record to be created.
    CreateUser,
    ReadClock,
    EncodeToken,
    Done,
}

/// A sign-up request: the form, the random salt and picture tag drawn for
/// it, the hashing parameters, and where it stands.
#[derive(Debug)]
pub struct SignUpFlow {
    pub form: SignUpInfo,
    pub salt: String,
    pub tag: String,
    pub hash_config: HashConfig,
    pub stage: SignUpStage,
}

/// What the service must do next for a sign-up request.
#[derive(Debug)]
pub enum SignUpAction {
    OpenDb,
    CheckUser { username: String },
    InspectPicture,
    PrepareCacheDir,
    EnsureDir { dir: String },
    SavePicture { path: String },
    CreateUser { user: DBUserInfo },
    ReadClock,
    EncodeToken { claims: Claims },
    Respond(Reply),
}

impl SignUpAction {
    /// Whether the action changes the database: only creating the user's record does.
    pub open spec fn writes_database(self) -> bool {
        self is CreateUser
    }
}

/// What came of the last action of a sign-up request.
#[derive(Debug)]
pub enum SignUpEvent {
    DbOpened(bool),
    UserChecked(Fetched<()>),
    /// The picture's first bytes and path, if its file could be read.
    PictureRead(Option<PictureHead>),
    /// The service's cache directory.
    CacheDirReady(String),
    DirReady(bool),
    PictureSaved(bool),
    UserCreated(Fetched<()>),
    ClockRead(i64),
    TokenEncoded(Option<String>),
}

/// `action` answers with `status` and the message `text`.
pub open spec fn sign_up_responds(action: SignUpAction, status: Status, text: Seq<char>) -> bool {
    action matches SignUpAction::Respond(r) && says(r, status, text)
}

/// The UTF-8 bytes of a string.
pub open spec fn utf8(s: Seq<char>) -> Seq<u8> {
    vstd::utf8::encode_utf8(s)
}

impl SignUpFlow {
    /// `event` is what the action of the current stage produces.
    pub open spec fn expects(&self, event: SignUpEvent) -> bool {
        match self.stage {
            SignUpStage::OpenDb => event is DbOpened,
            SignUpStage::CheckUser => event is UserChecked,
            SignUpStage::InspectPicture => event is PictureRead,
            SignUpStage::PrepareCacheDir => event is CacheDirReady,
            SignUpStage::EnsureAssetsDir { .. } => event is DirReady,
            SignUpStage::SavePicture { .. } => event is PictureSaved,
            SignUpStage::CreateUser => event is UserCreated,
            SignUpStage::ReadClock => event matches SignUpEvent::ClockRead(now) && now <= LAST_TIMESTAMP - TOKEN_LIFETIME_SECS,
            SignUpStage::EncodeToken => event is TokenEncoded,
            SignUpStage::Done => false,
        }
    }

    /// A sign-up with `form`, hashing with `hash_config` and the random
    /// `salt`, and storing the picture behind the random `tag`: first the
    /// database is opened.
    pub fn start(form: SignUpInfo, salt: String, tag: String, hash_config: HashConfig) -> (res: (SignUpFlow, SignUpAction))
        ensures
            res.0.form == form,
            res.0.salt == salt,
            res.0.tag == tag,
            res.0.hash_config == hash_config,
            res.0.stage is OpenDb,
            res.1 is OpenDb,
    {
        (SignUpFlow { form, salt, tag, hash_config, stage: SignUpStage::OpenDb }, SignUpAction::OpenDb)
    }

    /// The next stage of the request and the next action, given what came of the last action.
    pub fn step(self, event: SignUpEvent) -> (res: (SignUpFlow, SignUpAction))
        requires
            self.expects(event),
        ensures
            res.0.form == self.form,
            res.0.salt == self.salt,
            res.0.tag == self.tag,
            res.0.hash_config == self.hash_config,
            res.1 is Respond <==> res.0.stage is Done,
            res.1.writes_database() ==> event matches SignUpEvent::PictureSaved(true),
            event matches SignUpEvent::DbOpened(ok) ==> {
                &&& !ok ==> sign_up_responds(res.1, Status::InternalServerError, DB_UNAVAILABLE@)
                &&& ok ==> (res.0.stage is CheckUser && (res.1 matches SignUpAction::CheckUser { username } && username@ == self.form.username@))
            },
            event matches SignUpEvent::UserChecked(user) ==> match user {
                Fetched::Found(_) => sign_up_responds(res.1, Status::BadRequest, SIGN_UP_TAKEN@),
                Fetched::Missing => res.0.stage is InspectPicture && res.1 is InspectPicture,
                Fetched::Failed(_) => sign_up_responds(res.1, Status::InternalServerError, SIGN_UP_FAILED@),
            },
            event matches SignUpEvent::PictureRead(pic) ==> match pic {
                None => sign_up_responds(res.1, Status::InternalServerError, PICTURE_UNREADABLE@),
                Some(p) => if !supported_picture(picture_format_of(p.head@, p.path@)) {
                    sign_up_responds(res.1, Status::UnsupportedMediaType, PICTURE_UNSUPPORTED@)
                } else if self.form.upfp_pic.size > MAX_PICTURE_SIZE {
                    sign_up_responds(res.1, Status::PayloadTooLarge, PICTURE_TOO_LARGE@)
                } else {
                    res.0.stage is PrepareCacheDir && res.1 is PrepareCacheDir
                },
            },
            event matches SignUpEvent::PictureRead(Some(p)) ==> ((png_magic(p.head@) || jpeg_magic(p.head@))
                ==> supported_picture(picture_format_of(p.head@, p.path@))),
            event matches SignUpEvent::CacheDirReady(cache) ==> {
                &&& res.0.stage matches SignUpStage::EnsureAssetsDir { dir } && dir@ == cache@ + "/user_assets"@
                &&& res.1 matches SignUpAction::EnsureDir { dir } && dir@ == cache@ + "/user_assets"@
            },
            event matches SignUpEvent::DirReady(ok) ==> (self.stage matches SignUpStage::EnsureAssetsDir { dir } && if !ok {
                sign_up_responds(res.1, Status::InternalServerError, PICTURE_NOT_SAVED@)
            } else {
                match self.form.upfp_pic.file_name {
                    None => sign_up_responds(res.1, Status::BadRequest, PICTURE_UNNAMED@),
                    Some(name) => {
                        &&& res.0.stage matches SignUpStage::SavePicture { pic_path }
                            && pic_path@ == dir@ + "/"@ + self.tag@ + "-"@ + name@
                        &&& res.1 matches SignUpAction::SavePicture { path }
                            && path@ == dir@ + "/"@ + self.tag@ + "-"@ + name@
                    },
                }
            }),
            event matches SignUpEvent::PictureSaved(ok) ==> (self.stage matches SignUpStage::SavePicture { pic_path } && if !ok {
                sign_up_responds(res.1, Status::InternalServerError, PICTURE_NOT_SAVED@)
            } else if !hash_accepted(self.hash_config, utf8(self.form.password@).len(), utf8(self.salt@).len()) {
                sign_up_responds(res.1, Status::InternalServerError, HASH_FAILED@)
            } else {
                &&& res.0.stage is CreateUser
                &&& res.1 matches SignUpAction::CreateUser { user }
                &&& user.username@ == self.form.username@
                &&& user.fullname@ == self.form.fullname@
                &&& user.password@ == argon2_encoded_hash(utf8(self.form.password@), utf8(self.salt@), self.hash_config)
                &&& argon2_header(self.hash_config).is_prefix_of(user.password@)
                &&& argon2_verdict(user.password@, utf8(self.form.password@)) == Some(true)
                &&& user.up_posts@.len() == 0
                &&& user.pic_path@ == pic_path@
            }),
            event matches SignUpEvent::UserCreated(created) ==> match created {
                Fetched::Found(_) => res.0.stage is ReadClock && res.1 is ReadClock,
                _ => sign_up_responds(res.1, Status::InternalServerError, SIGN_UP_FAILED@),
            },
            event matches SignUpEvent::ClockRead(now) ==> {
                &&& res.0.stage is EncodeToken
                &&& res.1 matches SignUpAction::EncodeToken { claims }
                &&& claims.username@ == self.form.username@
                &&& claims.password@ == self.form.password@
                &&& claims.exp == (now + TOKEN_LIFETIME_SECS) as usize
            },
            event matches SignUpEvent::TokenEncoded(token) ==> match token {
                Some(t) => sign_up_responds(res.1, Status::Success, t@),
                None => sign_up_responds(res.1, Status::InternalServerError, SIGN_UP_TOKEN_FAILED@),
            },
    {
        let SignUpFlow { form, salt, tag, hash_config, stage } = self;
        match event {
            SignUpEvent::DbOpened(ok) => {
                if ok {
                    let action = SignUpAction::CheckUser { username: form.username.clone() };
                    (SignUpFlow { form, salt, tag, hash_config, stage: SignUpStage::CheckUser }, action)
                } else {
                    (SignUpFlow { form, salt, tag, hash_config, stage: SignUpStage::Done }, SignUpAction::Respond(db_unavailable()))
                }
            },
            SignUpEvent::UserChecked(user) => {
                match user {
                    Fetched::Missing => (SignUpFlow { form, salt, tag, hash_config, stage: SignUpStage::InspectPicture }, SignUpAction::InspectPicture),
                    Fetched::Found(_) => {
                        let r = message_reply(Status::BadRequest, SIGN_UP_TAKEN);
                        (SignUpFlow { form, salt, tag, hash_config, stage: SignUpStage::Done }, SignUpAction::Respond(r))
                    },
                    Fetched::Failed(_) => {
                        let r = message_reply(Status::InternalServerError, SIGN_UP_FAILED);
                        (SignUpFlow { form, salt, tag, hash_config, stage: SignUpStage::Done }, SignUpAction::Respond(r))
                    },
                }
            },
            SignUpEvent::PictureRead(pic) => {
                let r = match pic {
                    None => Some(message_reply(Status::InternalServerError, PICTURE_UNREADABLE)),
                    Some(p) => {
                        let format = picture_format(p.head.as_slice(), p.path.as_str());
                        let supported = match format {
                            Some(PictureFormat::Png) => true,
                            Some(PictureFormat::Jpeg) => true,
                            _ => false,
                        };
                        if !supported {
                            Some(message_reply(Status::UnsupportedMediaType, PICTURE_UNSUPPORTED))
                        } else if form.upfp_pic.size > MAX_PICTURE_SIZE {
                            Some(message_reply(Status::PayloadTooLarge, PICTURE_TOO_LARGE))
                        } else {
                            None
                        }
                    },
                };
                match r {
                    Some(r) => (SignUpFlow { form, salt, tag, hash_config, stage: SignUpStage::Done }, SignUpAction::Respond(r)),
                    None => (SignUpFlow { form, salt, tag, hash_config, stage: SignUpStage::PrepareCacheDir }, SignUpAction::PrepareCacheDir),
                }
            },
            SignUpEvent::CacheDirReady(cache) => {
                let dir = assets_dir(cache.as_str());
                let action = SignUpAction::EnsureDir { dir: dir.clone() };
                (SignUpFlow { form, salt, tag, hash_config, stage: SignUpStage::EnsureAssetsDir { dir } }, action)
            },
            SignUpEvent::DirReady(ok) => {
                let dir = match stage {
                    SignUpStage::EnsureAssetsDir { dir } => dir,
                    _ => String::new(),
                };
                if !ok {
                    let r = message_reply(Status::InternalServerError, PICTURE_NOT_SAVED);
                    (SignUpFlow { form, salt, tag, hash_config, stage: SignUpStage::Done }, SignUpAction::Respond(r))
                } else {
                    let named = match &form.upfp_pic.file_name {
                        Some(name) => Some(picture_path(dir.as_str(), tag.as_str(), name.as_str())),
                        None => None,
                    };
                    match named {
                        Some(pic_path) => {
                            let action = SignUpAction::SavePicture { path: pic_path.clone() };
                            (SignUpFlow { form, salt, tag, hash_config, stage: SignUpStage::SavePicture { pic_path } }, action)
                        },
                        None => {
                            let r = message_reply(Status::BadRequest, PICTURE_UNNAMED);
                            (SignUpFlow { form, salt, tag, hash_config, stage: SignUpStage::Done }, SignUpAction::Respond(r))
                        },
                    }
                }
            },
            SignUpEvent::PictureSaved(ok) => {
                let pic_path = match stage {
                    SignUpStage::SavePicture { pic_path } => pic_path,
                    _ => String::new(),
                };
                if !ok {
                    let r = message_reply(Status::InternalServerError, PICTURE_NOT_SAVED);
                    (SignUpFlow { form, salt, tag, hash_config, stage: SignUpStage::Done }, SignUpAction::Respond(r))
                } else {
                    match hash_password(form.password.as_str(), salt.as_str(), &hash_config) {
                        Some(hash) => {
                            let user = DBUserInfo {
                                username: form.username.clone(),
                                fullname: form.fullname.clone(),
                                password: hash,
                                up_posts: Vec::<RecordRef>::new(),
                                pic_path,
                            };
                            (SignUpFlow { form, salt, tag, hash_config, stage: SignUpStage::CreateUser }, SignUpAction::CreateUser { user })
                        },
                        None => {
                            let r = message_reply(Status::InternalServerError, HASH_FAILED);
                            (SignUpFlow { form, salt, tag, hash_config, stage: SignUpStage::Done }, SignUpAction::Respond(r))
                        },
                    }
                }
            },
            SignUpEvent::UserCreated(created) => {
                match created {
                    Fetched::Found(_) => (SignUpFlow { form, salt, tag, hash_config, stage: SignUpStage::ReadClock }, SignUpAction::ReadClock),
                    _ => {
                        let r = message_reply(Status::InternalServerError, SIGN_UP_FAILED);
                        (SignUpFlow { form, salt, tag, hash_config, stage: SignUpStage::Done }, SignUpAction::Respond(r))
                    },
                }
            },
            SignUpEvent::ClockRead(now) => {
                let claims = make_claims(form.username.clone(), form.password.clone(), now);
                (SignUpFlow { form, salt, tag, hash_config, stage: SignUpStage::EncodeToken }, SignUpAction::EncodeToken { claims })
            },
            SignUpEvent::TokenEncoded(token) => {
                let r = match token {
                    Some(t) => message_reply(Status::Success, t.as_str()),
                    None => message_reply(Status::InternalServerError, SIGN_UP_TOKEN_FAILED),
                };
                (SignUpFlow { form, salt, tag, hash_config, stage: SignUpStage::Done }, SignUpAction::Respond(r))
            },
        }
    }
}

} // verus!
