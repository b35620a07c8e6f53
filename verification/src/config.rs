//! The retention configuration: the whitelist of type tags eligible for
//! deletion, the expiration threshold in seconds, and the set of filenames
//! that are always ignored.

use vstd::prelude::*;
use crate::strutil::str_eq;

verus! {

/// Whether some string in `list` has exactly the characters `name`.
pub open spec fn name_list_contains(list: Seq<String>, name: Seq<char>) -> bool {
    exists|i: int| 0 <= i < list.len() && list[i]@ == name
}

/// Whether `name` equals one of the strings in `list`, character for
/// character.
pub fn list_contains(list: &Vec<String>, name: &str) -> (r: bool)
    ensures
        r == name_list_contains(list@, name@),
{
    let mut i: usize = 0;
    while i < list.len()
        invariant
            0 <= i <= list@.len(),
            forall|k: int| 0 <= k < i ==> list@[k]@ != name@,
        decreases list@.len() - i,
    {
        if str_eq(list[i].as_str(), name) {
            return true;
        }
        i = i + 1;
    }
    false
}

/// Retention policy settings, passed into each component at construction.
pub struct Config {
    /// Type tags eligible for automatic deletion.
    pub whitelist: Vec<String>,
    /// Minimum age in seconds past which a whitelisted file expires;
    /// the comparison is strict, so a file exactly this old is retained.
    pub threshold_secs: u64,
    /// Base filenames excluded from both cleaning and correlation listings.
    pub ignored: Vec<String>,
}

impl Config {
    /// A configuration with the given whitelist and threshold and the
    /// default ignored-filename set (`.DS_Store` and `.gitignore`).
    pub fn new(whitelist: Vec<String>, threshold_secs: u64) -> (c: Config)
        ensures
            c.whitelist == whitelist,
            c.threshold_secs == threshold_secs,
            c.ignored@.len() == 2,
            c.ignored@[0]@ == ".DS_Store"@,
            c.ignored@[1]@ == ".gitignore"@,
    {
        let mut ignored: Vec<String> = Vec::new();
        ignored.push(".DS_Store".to_owned());
        ignored.push(".gitignore".to_owned());
        Config { whitelist, threshold_secs, ignored }
    }
}

} // verus!
