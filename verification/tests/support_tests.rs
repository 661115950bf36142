use goals_backend::password::{check_password, hash_password, sign_up_hash_config, HashConfig, HashVariant, HashVersion};
use goals_backend::paths::{assets_dir, cache_dir_in, database_path, picture_path, post_record_text, stored_picture_path};
use goals_backend::picture::{picture_format, PictureFormat, MAX_PICTURE_SIZE};
use goals_backend::token::{make_claims, token_expiry, LAST_TIMESTAMP, TOKEN_LIFETIME_SECS};

fn small_config() -> HashConfig {
    HashConfig {
        variant: HashVariant::Argon2i,
        version: HashVersion::Version13,
        mem_cost: 8,
        time_cost: 1,
        lanes: 1,
        hash_length: 32,
    }
}

#[test]
fn sign_up_hashes_with_the_fixed_parameters() {
    let c = sign_up_hash_config();
    assert_eq!(c.variant, HashVariant::Argon2i);
    assert_eq!(c.version, HashVersion::Version13);
    assert_eq!(c.mem_cost, 655360);
    assert_eq!(c.time_cost, 2);
    assert_eq!(c.lanes, 50);
    assert_eq!(c.hash_length, 256);
}

#[test]
fn a_hash_encodes_its_parameters_and_salt() {
    let h = hash_password("password", "somesalt", &small_config()).unwrap();
    assert!(h.starts_with("$argon2i$v=19$m=8,t=1,p=1$c29tZXNhbHQ$"));
    assert_ne!(h, "password");
}

#[test]
fn a_hash_accepts_its_password_and_no_other() {
    let h = hash_password("hunter2", "a-fine-salt", &small_config()).unwrap();
    assert_eq!(check_password(&h, "hunter2"), Some(true));
    assert_eq!(check_password(&h, "hunter3"), Some(false));
}

#[test]
fn a_short_salt_is_refused() {
    assert!(hash_password("password", "salt", &small_config()).is_none());
}

#[test]
fn zero_lanes_are_refused() {
    let mut c = small_config();
    c.lanes = 0;
    assert!(hash_password("password", "somesalt", &c).is_none());
}

#[test]
fn too_little_memory_per_lane_is_refused() {
    let mut c = small_config();
    c.lanes = 2;
    assert!(hash_password("password", "somesalt", &c).is_none());
}

#[test]
fn a_short_hash_length_is_refused() {
    let mut c = small_config();
    c.hash_length = 3;
    assert!(hash_password("password", "somesalt", &c).is_none());
}

#[test]
fn a_garbled_hash_cannot_be_checked() {
    assert_eq!(check_password("not a hash", "password"), None);
}

#[test]
fn png_bytes_are_png() {
    let head = [0x89u8, b'P', b'N', b'G', 0x0D, 0x0A, 0x1A, 0x0A, 0, 0, 0, 13];
    assert_eq!(picture_format(&head, "/tmp/.tmpAbCd"), Some(PictureFormat::Png));
}

#[test]
fn jpeg_bytes_are_jpeg() {
    let head = [0xFFu8, 0xD8, 0xFF, 0xE0, 0, 16];
    assert_eq!(picture_format(&head, "/tmp/.tmpAbCd"), Some(PictureFormat::Jpeg));
}

#[test]
fn gif_bytes_are_another_format() {
    assert_eq!(picture_format(b"GIF89a......", "/tmp/x.png"), Some(PictureFormat::Other));
}

#[test]
fn the_extension_decides_when_the_bytes_do_not() {
    assert_eq!(picture_format(b"hello", "/tmp/pic.png"), Some(PictureFormat::Png));
    assert_eq!(picture_format(b"hello", "/tmp/pic.JPG"), Some(PictureFormat::Jpeg));
    assert_eq!(picture_format(b"hello", "/tmp/pic.gif"), Some(PictureFormat::Other));
    assert_eq!(picture_format(b"hello", "/tmp/pic"), None);
}

#[test]
fn the_bytes_win_over_the_extension() {
    let head = [0xFFu8, 0xD8, 0xFF, 0xE1];
    assert_eq!(picture_format(&head, "/tmp/pic.png"), Some(PictureFormat::Jpeg));
}

#[test]
fn the_picture_limit_is_526_kib() {
    assert_eq!(MAX_PICTURE_SIZE, 526 * 1024);
}

#[test]
fn paths_are_built_as_the_service_lays_them_out() {
    assert_eq!(cache_dir_in("/home/a/.cache"), "/home/a/.cache/Goals");
    assert_eq!(assets_dir("/c/Goals"), "/c/Goals/user_assets");
    assert_eq!(database_path("/c/Goals"), "/c/Goals/db.db");
    assert_eq!(picture_path("/c/Goals/user_assets", "XyZ12", "me.png"), "/c/Goals/user_assets/XyZ12-me.png");
    assert_eq!(stored_picture_path("/c/Goals", "XyZ12-me.png"), "/c/Goals/user_assets/XyZ12-me.png");
    assert_eq!(post_record_text("abcdefghij"), "post:abcdefghij");
}

#[test]
fn a_token_lives_9999999_days() {
    assert_eq!(TOKEN_LIFETIME_SECS, 9999999 * 86400);
    assert_eq!(token_expiry(1_700_000_000), 1_700_000_000usize + 863_999_913_600usize);
    assert_eq!(token_expiry(0), 863_999_913_600usize);
}

#[test]
fn the_latest_expiry_is_the_last_representable_second() {
    assert_eq!(token_expiry(LAST_TIMESTAMP - TOKEN_LIFETIME_SECS), 8_210_266_876_799usize);
}

#[test]
fn claims_carry_the_user_and_the_expiry() {
    let c = make_claims("ann".to_string(), "pw".to_string(), 100);
    assert_eq!(c.username, "ann");
    assert_eq!(c.password, "pw");
    assert_eq!(c.exp, 100 + 863_999_913_600usize);
}

#[test]
fn the_other_signatures_are_other_formats() {
    for head in [&b"BM\x00\x00"[..], &b"II*\x00rest"[..], &b"P6 640"[..], &[0u8, 0, 1, 0, 9][..], &b"qoif...."[..], &b"RIFF1234WEBP"[..]] {
        assert_eq!(picture_format(head, "/tmp/pic.png"), Some(PictureFormat::Other));
    }
}

#[test]
fn a_cut_signature_falls_back_to_the_extension() {
    assert_eq!(picture_format(&[0x89u8, b'P', b'N', b'G'], "/tmp/pic.jpeg"), Some(PictureFormat::Jpeg));
    assert_eq!(picture_format(&[0xFFu8, 0xD8], "/tmp/noext"), None);
}
