//! What a page announces about itself.

use vstd::prelude::*;
use crate::text::{join, join_strings, str_eq, views};

verus! {

/// A resource that a page asks the browser to fetch ahead of time.
pub enum Prefetch {
    Image(String),
}

impl Prefetch {
    pub open spec fn url_text(self) -> Seq<char> {
        match self {
            Prefetch::Image(url) => url@,
        }
    }

    pub open spec fn typ_text(self) -> Seq<char> {
        match self {
            Prefetch::Image(_) => "image"@,
        }
    }

    pub fn url(&self) -> (out: &str)
        ensures
            out@ == self.url_text(),
    {
        match self {
            Prefetch::Image(url) => url.as_str(),
        }
    }

    pub fn into_url(self) -> (out: String)
        ensures
            out@ == self.url_text(),
    {
        match self {
            Prefetch::Image(url) => url,
        }
    }

    pub fn typ(&self) -> (out: &'static str)
        ensures
            out@ == self.typ_text(),
    {
        match self {
            Prefetch::Image(_) => "image",
        }
    }
}

/// The colour of a page that names no known ascendancy.
pub open spec fn default_color() -> Seq<char> {
    "#0ea5e9"@
}

/// The colour of an ascendancy: that of the class it belongs to.
pub open spec fn color_of(ascendancy_name: Seq<char>) -> Seq<char> {
    if ascendancy_name == "Slayer"@ || ascendancy_name == "Gladiator"@ || ascendancy_name
        == "Champion"@ {
        "#96afc8"@
    } else if ascendancy_name == "Juggernaut"@ || ascendancy_name == "Berserker"@
        || ascendancy_name == "Chieftain"@ {
        "#af5a32"@
    } else if ascendancy_name == "Raider"@ || ascendancy_name == "Deadeye"@ || ascendancy_name
        == "Pathfinder"@ {
        "#7cb376"@
    } else if ascendancy_name == "Assassin"@ || ascendancy_name == "Trickster"@
        || ascendancy_name == "Saboteur"@ {
        "#72818d"@
    } else if ascendancy_name == "Inquisitor"@ || ascendancy_name == "Hierophant"@
        || ascendancy_name == "Guardian"@ {
        "#cfbd8a"@
    } else if ascendancy_name == "Occultist"@ || ascendancy_name == "Elementalist"@
        || ascendancy_name == "Necromancer"@ {
        "#9ac3c9"@
    } else if ascendancy_name == "Ascendant"@ {
        "#cccccc"@
    } else {
        default_color()
    }
}

pub fn get_color(ascendancy_name: &str) -> (out: &'static str)
    ensures
        out@ == color_of(ascendancy_name@),
{
    let n = ascendancy_name;
    if str_eq(n, "Slayer") || str_eq(n, "Gladiator") || str_eq(n, "Champion") {
        "#96afc8"
    } else if str_eq(n, "Juggernaut") || str_eq(n, "Berserker") || str_eq(n, "Chieftain") {
        "#af5a32"
    } else if str_eq(n, "Raider") || str_eq(n, "Deadeye") || str_eq(n, "Pathfinder") {
        "#7cb376"
    } else if str_eq(n, "Assassin") || str_eq(n, "Trickster") || str_eq(n, "Saboteur") {
        "#72818d"
    } else if str_eq(n, "Inquisitor") || str_eq(n, "Hierophant") || str_eq(n, "Guardian") {
        "#cfbd8a"
    } else if str_eq(n, "Occultist") || str_eq(n, "Elementalist") || str_eq(n, "Necromancer") {
        "#9ac3c9"
    } else if str_eq(n, "Ascendant") {
        "#cccccc"
    } else {
        "#0ea5e9"
    }
}

/// What a page tells of itself to whoever embeds or lists it.
#[derive(Debug)]
pub struct Meta {
    pub title: String,
    pub description: String,
    pub image: String,
    pub color: &'static str,
    pub oembed: String,
}

/// The description of the service.
pub open spec fn description_text() -> Seq<char> {
    "pobb.in is a website to share your Path of Building builds online"@
}

impl Meta {
    /// The page of the service itself.
    pub fn index() -> (out: Self)
        ensures
            out.title@ == "POBb.in - Share your Path of Exile build"@,
            out.description@ == description_text(),
            out.image@ == ""@,
            out.color@ == default_color(),
            out.oembed@ == "/oembed.json"@,
    {
        Meta {
            title: "POBb.in - Share your Path of Exile build".to_owned(),
            description: "pobb.in is a website to share your Path of Building builds online"
                .to_owned(),
            image: "".to_owned(),
            color: "#0ea5e9",
            oembed: "/oembed.json".to_owned(),
        }
    }

    /// A page that shows an error.
    pub fn error(message: &str) -> (out: Self)
        ensures
            out.title@ == "POBb.in -"@ + " "@ + message@,
            out.description@ == description_text(),
            out.image@ == ""@,
            out.color@ == default_color(),
            out.oembed@ == "/oembed.json"@,
    {
        let mut title = "POBb.in -".to_owned();
        title.append(" ");
        title.append(message);
        Meta {
            title,
            description: "pobb.in is a website to share your Path of Building builds online"
                .to_owned(),
            image: "".to_owned(),
            color: "#0ea5e9",
            oembed: "/oembed.json".to_owned(),
        }
    }
}

impl Default for Meta {
    fn default() -> (out: Self)
        ensures
            out.title@ == "POBb.in - Share your Path of Exile build"@,
            out.description@ == description_text(),
            out.image@ == ""@,
            out.color@ == default_color(),
            out.oembed@ == "/oembed.json"@,
    {
        Self::index()
    }
}

/// The texts that are there, in order.
pub open spec fn present(parts: Seq<Option<String>>) -> Seq<Seq<char>>
    decreases parts.len(),
{
    if parts.len() == 0 {
        Seq::empty()
    } else {
        match parts.last() {
            Some(part) => present(parts.drop_last()).push(part@),
            None => present(parts.drop_last()),
        }
    }
}

/// One line of the summary of a build: an arrow, then the stats that have
/// a text, with a dot between each two.
pub open spec fn summary_line(stats: Seq<Option<String>>) -> Seq<char> {
    "\u{27A4} "@ + join(present(stats), "\u{318d}"@)
}

/// The lines of a summary as texts.
pub open spec fn summary_lines(lines: Seq<Vec<Option<String>>>) -> Seq<Seq<char>> {
    Seq::new(lines.len(), |i: int| summary_line(lines[i]@))
}

fn line_of(stats: &Vec<Option<String>>) -> (out: String)
    ensures
        out@ == summary_line(stats@),
{
    let mut shown: Vec<String> = Vec::new();
    let mut i: usize = 0;
    while i < stats.len()
        invariant
            i <= stats.len(),
            views(shown@) == present(stats@.take(i as int)),
        decreases stats.len() - i,
    {
        let ghost now = stats@.take(i as int + 1);
        assert(now.drop_last() == stats@.take(i as int));
        assert(now.last() == stats@[i as int]);
        match &stats[i] {
            Some(text) => {
                let ghost held = shown@;
                shown.push(text.clone());
                assert(views(shown@) =~= views(held).push(text@));
            },
            None => {},
        }
        i += 1;
    }
    assert(stats@.take(stats.len() as int) == stats@);
    let mut out = "\u{27A4} ".to_owned();
    let joined = join_strings(&shown, "\u{318d}");
    out.append(joined.as_str());
    out
}

/// The summary of a build for whoever embeds its page: one line for each
/// group of stats, made of the stats of the group that have a text.
pub fn get_paste_summary(lines: &Vec<Vec<Option<String>>>) -> (out: Vec<String>)
    ensures
        views(out@) == summary_lines(lines@),
{
    let mut out: Vec<String> = Vec::new();
    let mut i: usize = 0;
    while i < lines.len()
        invariant
            i <= lines.len(),
            out@.len() == i,
            forall|k: int| 0 <= k < i ==> (#[trigger] out@[k])@ == summary_line(lines@[k]@),
        decreases lines.len() - i,
    {
        out.push(line_of(&lines[i]));
        i += 1;
    }
    assert(views(out@) =~= summary_lines(lines@));
    out
}

} // verus!
