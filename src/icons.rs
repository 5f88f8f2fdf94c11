//! Which files the icon-cache refresh removes, below a user profile directory.
use vstd::prelude::*;
use crate::lines::occurs_at;
use crate::text::{char_vec, owned};

verus! {

/// The icon cache database of the profile at `profile`.
pub fn icon_cache_file(profile: &str) -> (r: String)
    ensures
        r@ == profile@ + "\\AppData\\Local\\IconCache.db"@,
{
    let mut r = owned(profile);
    r.append("\\AppData\\Local\\IconCache.db");
    r
}

/// The directory holding the thumbnail caches of the profile at `profile`.
pub fn thumbnail_cache_dir(profile: &str) -> (r: String)
    ensures
        r@ == profile@ + "\\AppData\\Local\\Microsoft\\Windows\\Explorer"@,
{
    let mut r = owned(profile);
    r.append("\\AppData\\Local\\Microsoft\\Windows\\Explorer");
    r
}

/// Whether a file in the thumbnail directory is a thumbnail cache.
pub fn is_thumbnail_cache(name: &str) -> (r: bool)
    ensures
        r == occurs_at(name@, "thumbcache_"@, 0),
{
    let cs = char_vec(name);
    let p = char_vec("thumbcache_");
    crate::lines::has_at(&cs, &p, 0)
}

} // verus!
