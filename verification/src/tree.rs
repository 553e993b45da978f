//! What the page of a passive tree works out from a build.

use vstd::prelude::*;
use crate::text::{chars_of, str_eq};

verus! {

/// The points that count as allocated without being skill points, by the
/// number of nodes allocated besides the start node.
pub open spec fn ascendancy_points(allocated: int) -> int {
    if allocated <= 38 {
        0
    } else if allocated <= 69 {
        3
    } else if allocated <= 90 {
        5
    } else if allocated <= 98 {
        7
    } else {
        9
    }
}

/// The points that the bandits gave.
pub open spec fn bandit_points(allocated: int) -> int {
    if allocated <= 21 {
        0
    } else {
        2
    }
}

/// The points that quests gave, by the points that neither ascendancy nor
/// bandits account for.
pub open spec fn quest_points(rest: int) -> int {
    if rest <= 11 {
        0
    } else if rest <= 23 {
        2
    } else if rest <= 34 {
        3
    } else if rest <= 44 {
        5
    } else if rest <= 49 {
        6
    } else if rest <= 57 {
        8
    } else if rest <= 64 {
        11
    } else if rest <= 73 {
        14
    } else if rest <= 80 {
        17
    } else if rest <= 85 {
        19
    } else {
        22
    }
}

/// The skill points spent and the level that a character needs for them,
/// by the number of allocated nodes.
pub open spec fn level_of(allocated: int) -> (int, int) {
    if allocated == 0 {
        (0, 0)
    } else {
        let nodes = allocated - 1;
        let asc = ascendancy_points(nodes);
        let bandits = bandit_points(nodes);
        let quests = quest_points(nodes - asc - bandits);
        (nodes - asc, 1 + nodes - asc - bandits - quests)
    }
}

pub fn resolve_level(allocated: usize) -> (out: (usize, usize))
    ensures
        (out.0 as int, out.1 as int) == level_of(allocated as int),
{
    if allocated == 0 {
        return (0, 0);
    }
    // character start node
    let allocated = allocated - 1;

    // points count towards allocated but aren't available skill tree points
    let asc: usize = if allocated <= 38 {
        0
    } else if allocated <= 69 {
        3
    } else if allocated <= 90 {
        5
    } else if allocated <= 98 {
        7
    } else {
        9
    };

    let bandits: usize = if allocated <= 21 {
        0
    } else {
        2
    };

    let rest = allocated - asc - bandits;
    let quests: usize = if rest <= 11 {
        0
    } else if rest <= 23 {
        2
    } else if rest <= 34 {
        3
    } else if rest <= 44 {
        5
    } else if rest <= 49 {
        6
    } else if rest <= 57 {
        8
    } else if rest <= 64 {
        11
    } else if rest <= 73 {
        14
    } else if rest <= 80 {
        17
    } else if rest <= 85 {
        19
    } else {
        22
    };

    (allocated - asc, 1 + allocated - asc - bandits - quests)
}

/// The drawing of the tree of a version of the game; the latest one for a
/// version that is not known.
pub open spec fn svg_url_of(version: Option<Seq<char>>) -> Seq<char> {
    if version == Some("3_15"@) {
        "/assets/3.15.svg"@
    } else if version == Some("3_16"@) {
        "/assets/3.16.svg"@
    } else if version == Some("3_17"@) {
        "/assets/3.17.svg"@
    } else if version == Some("3_18"@) {
        "/assets/3.18.svg"@
    } else if version == Some("3_19"@) {
        "/assets/3.19.svg"@
    } else if version == Some("3_20"@) {
        "/assets/3.20.svg"@
    } else if version == Some("3_21"@) {
        "/assets/3.21.svg"@
    } else if version == Some("3_22"@) {
        "/assets/3.22.svg"@
    } else {
        "/assets/3.23.svg"@
    }
}

pub fn get_svg_url(version: Option<&str>) -> (out: &'static str)
    ensures
        out@ == svg_url_of(
            match version {
                Some(v) => Some(v@),
                None => None,
            },
        ),
{
    match version {
        None => "/assets/3.23.svg",
        Some(v) => {
            if str_eq(v, "3_15") {
                "/assets/3.15.svg"
            } else if str_eq(v, "3_16") {
                "/assets/3.16.svg"
            } else if str_eq(v, "3_17") {
                "/assets/3.17.svg"
            } else if str_eq(v, "3_18") {
                "/assets/3.18.svg"
            } else if str_eq(v, "3_19") {
                "/assets/3.19.svg"
            } else if str_eq(v, "3_20") {
                "/assets/3.20.svg"
            } else if str_eq(v, "3_21") {
                "/assets/3.21.svg"
            } else if str_eq(v, "3_22") {
                "/assets/3.22.svg"
            } else {
                "/assets/3.23.svg"
            }
        },
    }
}

fn starts_with(chars: &Vec<char>, prefix: &str) -> (out: bool)
    ensures
        out == prefix@.is_prefix_of(chars@),
{
    let p = chars_of(prefix);
    if p.len() > chars.len() {
        return false;
    }
    let mut i: usize = 0;
    while i < p.len()
        invariant
            i <= p.len() <= chars.len(),
            p@ == prefix@,
            forall|k: int| 0 <= k < i ==> chars@[k] == p@[k],
        decreases p.len() - i,
    {
        if chars[i] != p[i] {
            assert(chars@.subrange(0, p@.len() as int)[i as int] != p@[i as int]);
            return false;
        }
        i += 1;
    }
    assert(chars@.subrange(0, p@.len() as int) =~= p@);
    true
}

/// Whether a link leads to the tree on the site of the game.
pub open spec fn is_official_tree_url(url: Seq<char>) -> bool {
    "https://pathofexile.com"@.is_prefix_of(url) || "https://www.pathofexile.com"@.is_prefix_of(url)
}

/// The link to a tree, where a build gives one that leads to the site of
/// the game.
pub fn get_tree_url(url: Option<&str>) -> (out: Option<String>)
    ensures
        match out {
            Some(link) => url is Some && link@ == url->0@ && is_official_tree_url(link@),
            None => url is None || !is_official_tree_url(url->0@),
        },
{
    match url {
        None => None,
        Some(url) => {
            let chars = chars_of(url);
            if starts_with(&chars, "https://pathofexile.com") || starts_with(
                &chars,
                "https://www.pathofexile.com",
            ) {
                Some(url.to_owned())
            } else {
                None
            }
        },
    }
}

} // verus!
