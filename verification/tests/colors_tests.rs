use gritty::colors::{
    color_value, Color, ConfigColor, ConfigColorMap, Style, TermColor,
};
use gritty::error::ErrorKind;
use gritty::log::{load_colors, load_default_colors, Highlight, Paint, StyledString};
use gritty::table::Table;

fn empty_config_color() -> ConfigColor {
    ConfigColor {
        color: None,
        background: None,
        bold: None,
        underline: None,
        italic: None,
        inverse: None,
    }
}

#[test]
fn named_colors_parse_case_insensitively() {
    assert_eq!(color_value(&Color::Named("red".to_string())).unwrap(), TermColor::Red);
    assert_eq!(color_value(&Color::Named("Red".to_string())).unwrap(), TermColor::Red);
    assert_eq!(color_value(&Color::Named("CYAN".to_string())).unwrap(), TermColor::Cyan);
    assert_eq!(color_value(&Color::Named("white".to_string())).unwrap(), TermColor::White);
}

#[test]
fn invalid_color_name_is_rejected() {
    let err = color_value(&Color::Named("mauve".to_string())).unwrap_err();
    assert_eq!(err.kind, ErrorKind::Deserialization);
    assert_eq!(
        err.message,
        "could not parse color: 'mauve' is not a valid color name. Expected one of: black, red, green, yellow, blue, purple, cyan, white"
    );
}

#[test]
fn fixed_and_rgb_colors() {
    assert_eq!(color_value(&Color::Fixed(42)).unwrap(), TermColor::Fixed(42));
    assert_eq!(
        color_value(&Color::RGB { r: 1, g: 2, b: 3 }).unwrap(),
        TermColor::Rgb(1, 2, 3)
    );
}

#[test]
fn config_color_parses_to_style() {
    let cc = ConfigColor {
        color: Some(Color::Named("green".to_string())),
        background: Some(Color::Fixed(0)),
        bold: Some(true),
        underline: Some(false),
        italic: None,
        inverse: Some(true),
    };
    let style = cc.parse().unwrap();
    assert_eq!(style.foreground, Some(TermColor::Green));
    assert_eq!(style.background, Some(TermColor::Fixed(0)));
    assert!(style.is_bold);
    assert!(!style.is_underline);
    assert!(!style.is_italic);
    assert!(style.is_reverse);
}

#[test]
fn default_highlight_styles() {
    let map = ConfigColorMap::default_highlights();
    assert_eq!(map.important.foreground, Some(TermColor::Red));
    assert!(map.important.is_bold);
    assert_eq!(map.repo.foreground, Some(TermColor::Cyan));
    assert_eq!(map.url.foreground, Some(TermColor::Purple));
    assert_eq!(map.date, Style::plain());
    assert_eq!(map.warning.foreground, Some(TermColor::Yellow));
    assert_eq!(map.get_style(Highlight::Commit).foreground, Some(TermColor::Green));
}

#[test]
fn highlight_overrides_apply() {
    let mut table: Table<ConfigColor> = Table::new();
    table.upsert(
        "repo",
        ConfigColor {
            color: Some(Color::Named("yellow".to_string())),
            ..empty_config_color()
        },
    );
    let map = ConfigColorMap(table);
    let styles = map.parse_highlights().unwrap();
    assert_eq!(styles.repo.foreground, Some(TermColor::Yellow));
    // untouched highlights keep their defaults
    assert_eq!(styles.url.foreground, Some(TermColor::Purple));
}

#[test]
fn unknown_highlight_key_is_rejected() {
    let mut table: Table<ConfigColor> = Table::new();
    table.upsert("banner", empty_config_color());
    let map = ConfigColorMap(table);
    let err = map.parse_highlights().unwrap_err();
    assert_eq!(err.kind, ErrorKind::Deserialization);
    assert_eq!(
        err.message,
        "could not validate color config: 'banner' is not a valid highlight. Expected one of important, special, repo, origin, remote, username, path, protocol, url, commit, date, author, commit_msg, warning."
    );
}

#[test]
fn invalid_override_color_is_rejected() {
    let mut table: Table<ConfigColor> = Table::new();
    table.upsert(
        "repo",
        ConfigColor {
            color: Some(Color::Named("mauve".to_string())),
            ..empty_config_color()
        },
    );
    let map = ConfigColorMap(table);
    let err = map.parse_highlights().unwrap_err();
    assert_eq!(err.kind, ErrorKind::Deserialization);
}

#[test]
fn color_map_lookup() {
    let mut table: Table<ConfigColor> = Table::new();
    table.upsert(
        "repo",
        ConfigColor {
            bold: Some(true),
            ..empty_config_color()
        },
    );
    let map = ConfigColorMap(table);
    assert!(map.get("repo").is_some());
    assert!(map.get("url").is_none());
}

#[test]
fn color_loading() {
    let defaults = load_default_colors().unwrap();
    assert_eq!(defaults.repo.foreground, Some(TermColor::Cyan));

    let config = gritty::config::Config {
        remotes: Table::new(),
        secrets: gritty::config::Secrets::Keyring,
        colors: None,
        path: "/tmp/c.toml".to_string(),
    };
    let styles = load_colors(&config).unwrap();
    assert_eq!(styles, defaults);

    let mut table: Table<ConfigColor> = Table::new();
    table.upsert(
        "author",
        ConfigColor {
            italic: Some(true),
            ..empty_config_color()
        },
    );
    let config = gritty::config::Config {
        remotes: Table::new(),
        secrets: gritty::config::Secrets::Keyring,
        colors: Some(ConfigColorMap(table)),
        path: "/tmp/c.toml".to_string(),
    };
    let styles = load_colors(&config).unwrap();
    assert!(styles.author.is_italic);
}

#[test]
fn painted_text_keeps_content_and_highlight() {
    let s: StyledString = "origin".paint(Highlight::Remote);
    assert_eq!(s.0, "origin");
    assert_eq!(s.1, Highlight::Remote);
    let owned: StyledString = String::from("alice").paint(Highlight::Username);
    assert_eq!(owned.0, "alice");
    assert_eq!(owned.1, Highlight::Username);
}
