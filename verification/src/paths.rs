use vstd::prelude::*;

verus! {

/// `a` followed by `b`.
fn joined(a: &str, b: &str) -> (r: String)
    ensures
        r@ == a@ + b@,
{
    let mut r = String::from_str(a);
    r.append(b);
    r
}

/// The service's cache directory inside the user's cache directory `base`.
pub fn cache_dir_in(base: &str) -> (r: String)
    ensures
        r@ == base@ + "/Goals"@,
{
    joined(base, "/Goals")
}

/// The directory of profile pictures inside the cache directory `cache`.
pub fn assets_dir(cache: &str) -> (r: String)
    ensures
        r@ == cache@ + "/user_assets"@,
{
    joined(cache, "/user_assets")
}

/// The database file inside the cache directory `cache`.
pub fn database_path(cache: &str) -> (r: String)
    ensures
        r@ == cache@ + "/db.db"@,
{
    joined(cache, "/db.db")
}

/// Where a profile picture named `name` is kept in `dir`, behind the random `tag`.
pub fn picture_path(dir: &str, tag: &str, name: &str) -> (r: String)
    ensures
        r@ == dir@ + "/"@ + tag@ + "-"@ + name@,
{
    let mut r = joined(dir, "/");
    r.append(tag);
    r.append("-");
    r.append(name);
    r
}

/// The file that a request for the picture `pic_name` reads in the cache directory `cache`.
pub fn stored_picture_path(cache: &str, pic_name: &str) -> (r: String)
    ensures
        r@ == cache@ + "/user_assets/"@ + pic_name@,
{
    let mut r = joined(cache, "/user_assets/");
    r.append(pic_name);
    r
}

/// The reference to the post `post_id` that is added to its author's posts.
pub fn post_record_text(post_id: &str) -> (r: String)
    ensures
        r@ == "post:"@ + post_id@,
{
    joined("post:", post_id)
}

} // verus!
