use pobbin::assets::{get_mime, is_asset_path};
use pobbin::config::{default_true, Config};
use pobbin::date::{pretty_date, pretty_date_ts};
use pobbin::meta::{get_color, get_paste_summary, Meta};
use pobbin::style::{
    color_to_style, header_style, name_to_class, rarity_str, Color, Rarity, Style,
};
use pobbin::tree::{get_svg_url, get_tree_url, resolve_level};

const SECS: i64 = 1000;
const MINS: i64 = SECS * 60;
const HOURS: i64 = MINS * 60;
const DAYS: i64 = HOURS * 24;
const WEEKS: i64 = DAYS * 7;
const MONTHS: i64 = DAYS * 31;
const YEARS: i64 = DAYS * 365;

#[test]
fn test_pretty_date() {
    assert_eq!(pretty_date(-1), "");
    assert_eq!(pretty_date(0), "just now");
    assert_eq!(pretty_date(1), "just now");
    assert_eq!(pretty_date(30 * SECS), "30 seconds ago");
    assert_eq!(pretty_date(MINS), "a minute ago");
    assert_eq!(pretty_date(3 * MINS + 5 * SECS), "3 minutes ago");
    assert_eq!(pretty_date(HOURS + 10 * MINS), "an hour ago");
    assert_eq!(pretty_date(23 * HOURS), "23 hours ago");
    assert_eq!(pretty_date(DAYS), "a day ago");
    assert_eq!(pretty_date(13 * DAYS), "13 days ago");
    assert_eq!(pretty_date(2 * WEEKS), "2 weeks ago");
    assert_eq!(pretty_date(7 * WEEKS), "7 weeks ago");
    assert_eq!(pretty_date(2 * MONTHS), "2 months ago");
    assert_eq!(pretty_date(15 * MONTHS), "15 months ago");
    assert_eq!(pretty_date(3 * YEARS), "3 years ago");
}

#[test]
fn pretty_date_at_the_edges() {
    assert_eq!(pretty_date(i64::MIN), "");
    assert_eq!(pretty_date(29 * SECS + 999), "just now");
    assert_eq!(pretty_date(59 * SECS + 999), "59 seconds ago");
    assert_eq!(pretty_date(2 * MINS - 1), "a minute ago");
    assert_eq!(pretty_date(2 * MINS), "2 minutes ago");
    assert_eq!(pretty_date(HOURS - 1), "59 minutes ago");
    assert_eq!(pretty_date(2 * HOURS), "2 hours ago");
    assert_eq!(pretty_date(DAYS - 1), "23 hours ago");
    assert_eq!(pretty_date(2 * DAYS), "2 days ago");
    assert_eq!(pretty_date(14 * DAYS - 1), "13 days ago");
    assert_eq!(pretty_date(61 * DAYS), "8 weeks ago");
    assert_eq!(pretty_date(62 * DAYS), "2 months ago");
    assert_eq!(pretty_date(729 * DAYS), "23 months ago");
    assert_eq!(pretty_date(730 * DAYS), "2 years ago");
    assert_eq!(pretty_date(i64::MAX), "292471208 years ago");
}

#[test]
fn colors_of_ascendancies() {
    assert_eq!(get_color("Slayer"), "#96afc8");
    assert_eq!(get_color("Champion"), "#96afc8");
    assert_eq!(get_color("Chieftain"), "#af5a32");
    assert_eq!(get_color("Pathfinder"), "#7cb376");
    assert_eq!(get_color("Trickster"), "#72818d");
    assert_eq!(get_color("Guardian"), "#cfbd8a");
    assert_eq!(get_color("Necromancer"), "#9ac3c9");
    assert_eq!(get_color("Ascendant"), "#cccccc");
    assert_eq!(get_color("slayer"), "#0ea5e9");
    assert_eq!(get_color(""), "#0ea5e9");
}

#[test]
fn page_meta() {
    let m = Meta::index();
    assert_eq!(m.title, "POBb.in - Share your Path of Exile build");
    assert_eq!(
        m.description,
        "pobb.in is a website to share your Path of Building builds online"
    );
    assert_eq!(m.image, "");
    assert_eq!(m.color, "#0ea5e9");
    assert_eq!(m.oembed, "/oembed.json");
    let e = Meta::error("Not Found");
    assert_eq!(e.title, "POBb.in - Not Found");
    assert_eq!(e.color, "#0ea5e9");
    assert_eq!(Meta::default().title, m.title);
}

#[test]
fn asset_paths() {
    assert!(is_asset_path("/assets/app.js"));
    assert!(is_asset_path("favicon.ico"));
    assert!(is_asset_path("/a/b/."));
    assert!(!is_asset_path("/u/alice/abcde"));
    assert!(!is_asset_path("/v1.2/abcde"));
    assert!(!is_asset_path(""));
    assert!(!is_asset_path("/"));
    assert!(!is_asset_path("a.b/"));
}

#[test]
fn mime_types() {
    assert_eq!(get_mime("index.html"), Some("text/html"));
    assert_eq!(get_mime("a/b/style.css"), Some("text/css"));
    assert_eq!(get_mime("app.min.js"), Some("text/javascript"));
    assert_eq!(get_mime("data.json"), Some("application/json"));
    assert_eq!(get_mime("x.png"), Some("image/png"));
    assert_eq!(get_mime("x.jpg"), Some("image/jpeg"));
    assert_eq!(get_mime("x.jpeg"), Some("image/jpeg"));
    assert_eq!(get_mime("x.ico"), Some("image/x-icon"));
    assert_eq!(get_mime("x.wasm"), Some("application/wasm"));
    assert_eq!(get_mime("x.HTML"), None);
    assert_eq!(get_mime("x.txt"), None);
    assert_eq!(get_mime("html"), None);
    assert_eq!(get_mime("x."), None);
    assert_eq!(get_mime(""), None);
}

#[test]
fn config_names() {
    assert_eq!(Config::Boss.name(), "enemyIsBoss");
    assert_eq!(Config::EnemeyHit.name(), "enemyHit");
    assert_eq!(Config::FrenzyChargesAmount.name(), "overrideFrenzyCharges");
    assert_eq!(Config::PowerChargesAmount.name(), "overrideFrenzyCharges");
    assert_eq!(Config::WitherStacks.name(), "multiplierWitheredStackCount");
    assert_eq!(Config::ShockEffect.name(), "conditionShockEffect");
    assert!(Config::CustomMods.is_named("customMods"));
    assert!(!Config::CustomMods.is_named("custommods"));
    assert!(default_true());
}

#[test]
fn levels_of_a_tree() {
    assert_eq!(resolve_level(0), (0, 0));
    assert_eq!(resolve_level(1), (0, 1));
    assert_eq!(resolve_level(12), (11, 12));
    assert_eq!(resolve_level(13), (12, 11));
    assert_eq!(resolve_level(22), (21, 20));
    assert_eq!(resolve_level(23), (22, 19));
    assert_eq!(resolve_level(40), (36, 32));
    assert_eq!(resolve_level(100), (90, 67));
    assert_eq!(resolve_level(124), (114, 91));
    assert_eq!(resolve_level(usize::MAX), (usize::MAX - 10, usize::MAX - 33));
}

#[test]
fn tree_drawings_and_colors() {
    assert_eq!(get_svg_url(Some("3_15")), "/assets/3.15.svg");
    assert_eq!(get_svg_url(Some("3_22")), "/assets/3.22.svg");
    assert_eq!(get_svg_url(Some("3_23")), "/assets/3.23.svg");
    assert_eq!(get_svg_url(Some("2_0")), "/assets/3.23.svg");
    assert_eq!(get_svg_url(None), "/assets/3.23.svg");
    assert_eq!(name_to_class(0), "text-slate-900");
    assert_eq!(name_to_class(6), "text-cyan-400");
    assert_eq!(name_to_class(7), "");
    assert_eq!(name_to_class(9), "text-zinc-600");
    assert_eq!(name_to_class(10), "");
}

#[test]
fn pretty_date_since_a_time() {
    assert_eq!(pretty_date_ts(0, 1_000_000), "");
    assert_eq!(pretty_date_ts(1_000_000, 1_000_000), "just now");
    assert_eq!(pretty_date_ts(1_000_000, 1_000_000 + 45_000), "45 seconds ago");
    assert_eq!(pretty_date_ts(1, 1 + 3 * 86_400_000), "3 days ago");
    // a time that is still to come has no words
    assert_eq!(pretty_date_ts(2_000_000, 1_000_000), "");
    assert_eq!(pretty_date_ts(u64::MAX, 0), "");
    assert_eq!(pretty_date_ts(1, u64::MAX), "292471208 years ago");
}

#[test]
fn tree_links() {
    assert_eq!(
        get_tree_url(Some("https://pathofexile.com/passive-skill-tree/AAAA")),
        Some("https://pathofexile.com/passive-skill-tree/AAAA".to_string())
    );
    assert_eq!(
        get_tree_url(Some("https://www.pathofexile.com/fullscreen-passive-skill-tree/x")),
        Some("https://www.pathofexile.com/fullscreen-passive-skill-tree/x".to_string())
    );
    assert_eq!(
        get_tree_url(Some("https://pathofexile.com")),
        Some("https://pathofexile.com".to_string())
    );
    assert_eq!(get_tree_url(Some("http://pathofexile.com/x")), None);
    assert_eq!(get_tree_url(Some("https://pathofexile.co")), None);
    assert_eq!(get_tree_url(Some("https://poeplanner.com/b/x")), None);
    assert_eq!(get_tree_url(Some("")), None);
    assert_eq!(get_tree_url(None), None);
}

#[test]
fn styles_of_colors() {
    assert!(matches!(color_to_style(Color::Hex("ff00aa")), Style::Style(s) if s == "color: #ff00aa"));
    assert!(matches!(color_to_style(Color::Named(1)), Style::Class("text-red-600")));
    assert!(matches!(color_to_style(Color::Named(7)), Style::Class("")));
    assert!(matches!(color_to_style(Color::NoColor), Style::NoStyle));
}

#[test]
fn styles_of_rarities() {
    assert_eq!(rarity_str(Rarity::Normal), "White");
    assert_eq!(rarity_str(Rarity::Magic), "Magic");
    assert_eq!(rarity_str(Rarity::Rare), "Rare");
    assert_eq!(rarity_str(Rarity::Unique), "Unique");
    assert_eq!(
        header_style(Rarity::Rare),
        "color: #ff7; background: \
         url(https://assets.pobb.in/1/Art/2DArt/UIImages/InGame/ItemsHeaderRareLeft.webp) top left / contain no-repeat, \
         url(https://assets.pobb.in/1/Art/2DArt/UIImages/InGame/ItemsHeaderRareRight.webp) top right / contain no-repeat, \
         url(https://assets.pobb.in/1/Art/2DArt/UIImages/InGame/ItemsHeaderRareMiddle.webp) top left / contain repeat-x"
    );
    assert!(header_style(Rarity::Normal).starts_with("color: #c8c8c8; background: url(https://assets.pobb.in/1/Art/2DArt/UIImages/InGame/ItemsHeaderWhiteLeft.webp)"));
    assert!(header_style(Rarity::Unique).starts_with("color: #af6025;"));
    assert!(header_style(Rarity::Magic).starts_with("color: #88f;"));
}

#[test]
fn summary_of_a_build() {
    let some = |s: &str| Some(s.to_string());
    let lines = vec![
        vec![some("Life: 5,000"), None, some("Mana: 300")],
        vec![some("Resistances: 75%/75%/75%/20%")],
        vec![None, None],
        vec![],
    ];
    assert_eq!(
        get_paste_summary(&lines),
        vec![
            "\u{27A4} Life: 5,000\u{318d}Mana: 300",
            "\u{27A4} Resistances: 75%/75%/75%/20%",
            "\u{27A4} ",
            "\u{27A4} ",
        ]
    );
    assert!(get_paste_summary(&Vec::new()).is_empty());
}
