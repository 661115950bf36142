use vstd::prelude::*;

verus! {

/// The Argon2 variants.
#[derive(Clone, Copy, Debug, PartialEq, Eq, Structural)]
pub enum HashVariant {
    Argon2d,
    Argon2i,
    Argon2id,
}

/// The Argon2 versions.
#[derive(Clone, Copy, Debug, PartialEq, Eq, Structural)]
pub enum HashVersion {
    Version10,
    Version13,
}

/// The parameters of an Argon2 password hash (no secret, no associated data).
#[derive(Clone, Copy, Debug, PartialEq, Eq, Structural)]
pub struct HashConfig {
    pub variant: HashVariant,
    pub version: HashVersion,
    pub mem_cost: u32,
    pub time_cost: u32,
    pub lanes: u32,
    pub hash_length: u32,
}

/// The encoded Argon2 hash (`$argon2..$v=..$m=..,t=..,p=..$salt$hash`) of
/// password `pwd` with salt `salt` under `cfg`.
pub uninterp spec fn argon2_encoded_hash(pwd: Seq<u8>, salt: Seq<u8>, cfg: HashConfig) -> Seq<char>;

/// The decimal digit `d`.
pub open spec fn digit_char(d: nat) -> char {
    (48 + d) as char
}

/// The decimal numeral of `n`, without leading zeros.
pub open spec fn decimal(n: nat) -> Seq<char>
    decreases n,
{
    if n < 10 {
        seq![digit_char(n)]
    } else {
        decimal(n / 10).push(digit_char(n % 10))
    }
}

/// The name of an Argon2 variant in an encoded hash.
pub open spec fn variant_name(v: HashVariant) -> Seq<char> {
    match v {
        HashVariant::Argon2d => "argon2d"@,
        HashVariant::Argon2i => "argon2i"@,
        HashVariant::Argon2id => "argon2id"@,
    }
}

/// The number of an Argon2 version in an encoded hash.
pub open spec fn version_number(v: HashVersion) -> nat {
    match v {
        HashVersion::Version10 => 16,
        HashVersion::Version13 => 19,
    }
}

/// How an encoded hash made under `cfg` begins: `$<variant>$v=<version>$m=<memory>,t=<passes>,p=<lanes>$`.
pub open spec fn argon2_header(cfg: HashConfig) -> Seq<char> {
    "$"@ + variant_name(cfg.variant) + "$v="@ + decimal(version_number(cfg.version)) + "$m="@
        + decimal(cfg.mem_cost as nat) + ",t="@ + decimal(cfg.time_cost as nat) + ",p="@
        + decimal(cfg.lanes as nat) + "$"@
}

/// Whether `pwd` matches the encoded Argon2 hash `encoded`: `None` when
/// `encoded` cannot be decoded or its parameters are refused.
pub uninterp spec fn argon2_verdict(encoded: Seq<char>, pwd: Seq<u8>) -> Option<bool>;

/// The parameters and lengths that Argon2 accepts: 1 to 0xFF_FFFF lanes, at
/// least 8 KiB of memory per lane (and at most 0x20_0000 KiB where `usize`
/// has 32 bits), at least one pass, a password of at most 0xFFFF_FFFF bytes,
/// a salt of 8 to 0xFFFF_FFFF bytes, and a hash of at least 4 bytes.
pub open spec fn hash_accepted(cfg: HashConfig, pwd_len: nat, salt_len: nat) -> bool {
    &&& 1 <= cfg.lanes <= 0x00FF_FFFF
    &&& 8 <= cfg.mem_cost
    &&& 8 * cfg.lanes <= cfg.mem_cost
    &&& (cfg.mem_cost <= 0x20_0000 || usize::BITS == 64)
    &&& 1 <= cfg.time_cost
    &&& pwd_len <= 0xFFFF_FFFF
    &&& 8 <= salt_len <= 0xFFFF_FFFF
    &&& 4 <= cfg.hash_length
}

/// Argon2 refuses salts shorter than 8 bytes, zero lanes, zero passes, less
/// than 8 KiB of memory per lane and hashes shorter than 4 bytes; with the
/// sign-up parameters it accepts exactly the passwords of at most
/// 0xFFFF_FFFF bytes with salts of 8 to 0xFFFF_FFFF bytes.
pub proof fn lemma_hash_refusals(cfg: HashConfig, pwd_len: nat, salt_len: nat)
    ensures
        salt_len < 8 ==> !hash_accepted(cfg, pwd_len, salt_len),
        cfg.lanes == 0 ==> !hash_accepted(cfg, pwd_len, salt_len),
        cfg.time_cost == 0 ==> !hash_accepted(cfg, pwd_len, salt_len),
        cfg.mem_cost < 8 * cfg.lanes ==> !hash_accepted(cfg, pwd_len, salt_len),
        cfg.hash_length < 4 ==> !hash_accepted(cfg, pwd_len, salt_len),
        cfg == (HashConfig {
            variant: HashVariant::Argon2i,
            version: HashVersion::Version13,
            mem_cost: 655360,
            time_cost: 2,
            lanes: 50,
            hash_length: 256,
        }) ==> (hash_accepted(cfg, pwd_len, salt_len) <==> (pwd_len <= 0xFFFF_FFFF && 8 <= salt_len <= 0xFFFF_FFFF)),
{
}

/// Calls `argon2::hash_encoded` with the parameters of `cfg` and no secret or
/// associated data. Trusted: it fails exactly when the parameters or lengths
/// are refused (`hash_accepted`, as `Context::new` checks them), otherwise
/// it gives the encoded hash, which begins with the header that
/// `encode_string` writes (`argon2_header`), and `argon2::verify_encoded` accepts `pwd`
/// against that hash (the encoding holds every parameter and the salt).
#[verifier::external_body]
fn argon2_hash_encoded(pwd: &[u8], salt: &[u8], cfg: &HashConfig) -> (res: Option<String>)
    ensures
        res is Some <==> hash_accepted(*cfg, pwd@.len(), salt@.len()),
        res matches Some(h) ==> h@ == argon2_encoded_hash(pwd@, salt@, *cfg),
        res matches Some(h) ==> argon2_header(*cfg).is_prefix_of(h@),
        res matches Some(h) ==> argon2_verdict(h@, pwd@) == Some(true),
{
    let variant = match cfg.variant {
        HashVariant::Argon2d => argon2::Variant::Argon2d,
        HashVariant::Argon2i => argon2::Variant::Argon2i,
        HashVariant::Argon2id => argon2::Variant::Argon2id,
    };
    let version = match cfg.version {
        HashVersion::Version10 => argon2::Version::Version10,
        HashVersion::Version13 => argon2::Version::Version13,
    };
    let config = argon2::Config { variant, version, mem_cost: cfg.mem_cost, time_cost: cfg.time_cost, lanes: cfg.lanes, hash_length: cfg.hash_length, ..argon2::Config::default() };
    argon2::hash_encoded(pwd, salt, &config).ok()
}

/// Calls `argon2::verify_encoded`. Trusted: the answer is the named verdict
/// of the encoded hash and the password.
#[verifier::external_body]
fn argon2_verify_encoded(encoded: &str, pwd: &[u8]) -> (res: Option<bool>)
    ensures
        res == argon2_verdict(encoded@, pwd@),
{
    argon2::verify_encoded(encoded, pwd).ok()
}

/// The parameters with which sign-up hashes passwords: Argon2i, version
/// 0x13, 655360 KiB of memory, two passes, 50 lanes, a 256-byte hash.
pub fn sign_up_hash_config() -> (cfg: HashConfig)
    ensures
        cfg == (HashConfig {
            variant: HashVariant::Argon2i,
            version: HashVersion::Version13,
            mem_cost: 655360,
            time_cost: 2,
            lanes: 50,
            hash_length: 256,
        }),
{
    HashConfig {
        variant: HashVariant::Argon2i,
        version: HashVersion::Version13,
        mem_cost: 655360,
        time_cost: 2,
        lanes: 50,
        hash_length: 256,
    }
}

/// The encoded hash of `password` (its UTF-8 bytes) with the salt `salt`
/// (its UTF-8 bytes) under `cfg`; `None` exactly when Argon2 refuses them.
/// The hash begins with the header of `cfg` and accepts the password it was made from.
pub fn hash_password(password: &str, salt: &str, cfg: &HashConfig) -> (res: Option<String>)
    ensures
        res is Some <==> hash_accepted(*cfg, vstd::utf8::encode_utf8(password@).len(), vstd::utf8::encode_utf8(salt@).len()),
        res matches Some(h) ==> h@ == argon2_encoded_hash(vstd::utf8::encode_utf8(password@), vstd::utf8::encode_utf8(salt@), *cfg),
        res matches Some(h) ==> argon2_header(*cfg).is_prefix_of(h@),
        res matches Some(h) ==> argon2_verdict(h@, vstd::utf8::encode_utf8(password@)) == Some(true),
{
    argon2_hash_encoded(password.as_bytes(), salt.as_bytes(), cfg)
}

/// Whether `password` (its UTF-8 bytes) matches the encoded hash `encoded`;
/// `None` when the hash cannot be checked.
pub fn check_password(encoded: &str, password: &str) -> (res: Option<bool>)
    ensures
        res == argon2_verdict(encoded@, vstd::utf8::encode_utf8(password@)),
{
    argon2_verify_encoded(encoded, password.as_bytes())
}

} // verus!
