//! Regular-expression matching, through the regex crate.

use vstd::prelude::*;
use vstd::string::*;
use crate::text::opt_view;

verus! {

/// For each successive non-overlapping match of `pattern` in `text`, the
/// text of its groups from the first on (`None` for a group that took no
/// part); `None` where the pattern does not compile.
pub uninterp spec fn regex_groups(pattern: Seq<char>, text: Seq<char>) -> Option<Seq<Seq<Option<Seq<char>>>>>;

/// The texts of the groups of each match.
pub open spec fn groups_view(v: Seq<Vec<Option<String>>>) -> Seq<Seq<Option<Seq<char>>>> {
    v.map_values(|m: Vec<Option<String>>| m@.map_values(|g: Option<String>| opt_view(g)))
}

/// Relies on regex's `Regex::new` and `Regex::captures_iter`: the groups of
/// each successive match, `None` where the pattern does not compile.
#[verifier::external_body]
pub fn captures_all(pattern: &str, text: &str) -> (r: Option<Vec<Vec<Option<String>>>>)
    ensures
        match r {
            Some(v) => regex_groups(pattern@, text@) == Some(groups_view(v@)),
            None => regex_groups(pattern@, text@) is None,
        },
{
    let re = regex::Regex::new(pattern).ok()?;
    Some(re.captures_iter(text).map(|c| c.iter().skip(1).map(|g| g.map(|m| m.as_str().to_owned())).collect()).collect())
}

/// Group `i` of a match, empty where it took no part or does not exist.
pub open spec fn group_or_empty(m: Seq<Option<Seq<char>>>, i: int) -> Seq<char> {
    if 0 <= i < m.len() {
        match m[i] {
            Some(g) => g,
            None => Seq::empty(),
        }
    } else {
        Seq::empty()
    }
}

/// Group `i` of a match, empty where it took no part or does not exist.
pub fn group_text(m: &Vec<Option<String>>, i: usize) -> (r: String)
    ensures
        r@ == group_or_empty(m@.map_values(|g: Option<String>| opt_view(g)), i as int),
{
    if i < m.len() {
        match &m[i] {
            Some(g) => g.clone(),
            None => String::new(),
        }
    } else {
        String::new()
    }
}

} // verus!
