use jj_starship::config::{
    lookup, parse_count, Config, DisplayConfig, DisplayFlags, DEFAULT_GIT_SYMBOL,
    DEFAULT_ID_LENGTH, DEFAULT_JJ_SYMBOL,
};

fn env(pairs: &[(&str, &str)]) -> Vec<(String, String)> {
    pairs.iter().map(|(k, v)| (k.to_string(), v.to_string())).collect()
}

fn no_flags() -> DisplayFlags {
    DisplayFlags::default()
}

fn assert_display(got: DisplayConfig, prefix: bool, name: bool, id: bool, status: bool, color: bool) {
    assert_eq!(
        (got.show_prefix, got.show_name, got.show_id, got.show_status, got.show_color),
        (prefix, name, id, status, color)
    );
}

#[test]
fn all_visible_shows_everything() {
    assert_display(DisplayConfig::all_visible(), true, true, true, true, true);
}

#[test]
fn derived_default_shows_nothing() {
    assert_display(DisplayConfig::default(), false, false, false, false, false);
}

#[test]
fn default_config() {
    let config = Config::default();
    assert_eq!(config.truncate_name, 0);
    assert_eq!(config.id_length, 8);
    assert_eq!(config.jj_symbol, "\u{f418}\u{f15c6} ");
    assert_eq!(config.git_symbol, "\u{e725} ");
    assert_display(config.jj_display, true, true, true, true, true);
    assert_display(config.git_display, true, true, true, true, true);
}

#[test]
fn nothing_given_gives_the_defaults() {
    let config = Config::new(None, None, None, None, false, no_flags(), no_flags(), &env(&[]));
    assert_eq!(config.truncate_name, 0);
    assert_eq!(config.id_length, DEFAULT_ID_LENGTH);
    assert_eq!(config.jj_symbol, DEFAULT_JJ_SYMBOL);
    assert_eq!(config.git_symbol, DEFAULT_GIT_SYMBOL);
    assert_display(config.jj_display, true, true, true, true, true);
    assert_display(config.git_display, true, true, true, true, true);
}

#[test]
fn variables_override_the_defaults() {
    let vars = env(&[
        ("JJ_STARSHIP_TRUNCATE_NAME", "20"),
        ("JJ_STARSHIP_ID_LENGTH", "4"),
        ("JJ_STARSHIP_JJ_SYMBOL", "jj "),
        ("JJ_STARSHIP_GIT_SYMBOL", "git "),
    ]);
    let config = Config::new(None, None, None, None, false, no_flags(), no_flags(), &vars);
    assert_eq!(config.truncate_name, 20);
    assert_eq!(config.id_length, 4);
    assert_eq!(config.jj_symbol, "jj ");
    assert_eq!(config.git_symbol, "git ");
}

#[test]
fn command_line_overrides_the_variables() {
    let vars = env(&[
        ("JJ_STARSHIP_TRUNCATE_NAME", "20"),
        ("JJ_STARSHIP_ID_LENGTH", "4"),
        ("JJ_STARSHIP_JJ_SYMBOL", "jj "),
        ("JJ_STARSHIP_GIT_SYMBOL", "git "),
    ]);
    let config = Config::new(
        Some(0),
        Some(12),
        Some("J:".to_string()),
        Some("G:".to_string()),
        false,
        no_flags(),
        no_flags(),
        &vars,
    );
    assert_eq!(config.truncate_name, 0);
    assert_eq!(config.id_length, 12);
    assert_eq!(config.jj_symbol, "J:");
    assert_eq!(config.git_symbol, "G:");
}

#[test]
fn unreadable_count_falls_back_to_the_default() {
    let vars = env(&[("JJ_STARSHIP_TRUNCATE_NAME", "many"), ("JJ_STARSHIP_ID_LENGTH", "")]);
    let config = Config::new(None, None, None, None, false, no_flags(), no_flags(), &vars);
    assert_eq!(config.truncate_name, 0);
    assert_eq!(config.id_length, 8);
}

#[test]
fn no_symbol_empties_both_symbols() {
    let vars = env(&[("JJ_STARSHIP_JJ_SYMBOL", "jj ")]);
    let config = Config::new(
        None,
        None,
        None,
        Some("G:".to_string()),
        true,
        no_flags(),
        no_flags(),
        &vars,
    );
    assert_eq!(config.jj_symbol, "");
    assert_eq!(config.git_symbol, "");
}

#[test]
fn flags_hide_sections() {
    let jj = DisplayFlags { no_prefix: true, no_name: false, no_id: true, no_status: false, no_color: false };
    let git = DisplayFlags { no_prefix: false, no_name: true, no_id: false, no_status: true, no_color: true };
    let config = Config::new(None, None, None, None, false, jj, git, &env(&[]));
    assert_display(config.jj_display, false, true, false, true, true);
    assert_display(config.git_display, true, false, true, false, false);
}

#[test]
fn a_variable_hides_its_section_whatever_its_value() {
    let vars = env(&[
        ("JJ_STARSHIP_NO_JJ_PREFIX", ""),
        ("JJ_STARSHIP_NO_JJ_STATUS", "0"),
        ("JJ_STARSHIP_NO_GIT_ID", "false"),
        ("JJ_STARSHIP_NO_GIT_COLOR", "1"),
        ("JJ_STARSHIP_NO_GIT_NAME", ""),
    ]);
    let config = Config::new(None, None, None, None, false, no_flags(), no_flags(), &vars);
    assert_display(config.jj_display, false, true, true, false, true);
    assert_display(config.git_display, true, false, false, true, false);
}

#[test]
fn into_config_reads_the_variables_of_its_prefix() {
    let vars = env(&[("X_NAME", ""), ("Y_ID", "1"), ("X_COLOR", "no")]);
    let flags = DisplayFlags { no_prefix: false, no_name: false, no_id: false, no_status: true, no_color: false };
    assert_display(flags.into_config("X", &vars), true, false, true, false, false);
    assert_display(flags.into_config("Y", &vars), true, true, false, false, true);
    assert_display(no_flags().into_config("Z", &vars), true, true, true, true, true);
}

#[test]
fn lookup_takes_the_first_entry_of_a_name() {
    let vars = env(&[("A", "1"), ("B", "2"), ("A", "3"), ("AB", "4")]);
    assert_eq!(lookup(&vars, "A"), Some("1".to_string()));
    assert_eq!(lookup(&vars, "B"), Some("2".to_string()));
    assert_eq!(lookup(&vars, "AB"), Some("4".to_string()));
    assert_eq!(lookup(&vars, "C"), None);
    assert_eq!(lookup(&vars, ""), None);
    assert_eq!(lookup(&env(&[]), "A"), None);
}

#[test]
fn counts_are_read_as_std_reads_them() {
    let max = usize::MAX.to_string();
    let over = format!("{max}0");
    let texts = [
        "0", "7", "12", "007", "+7", "+0", "+", "", "-1", "-0", "1a", "a1", " 1", "1 ", "1_000",
        "++1", "1+", "१२", max.as_str(), over.as_str(), "99999999999999999999999999",
        "18446744073709551616", "4294967296",
    ];
    for text in texts {
        assert_eq!(parse_count(text), text.parse::<usize>().ok(), "{text:?}");
    }
    assert_eq!(parse_count("12"), Some(12));
    assert_eq!(parse_count("+7"), Some(7));
    assert_eq!(parse_count("1a"), None);
    assert_eq!(parse_count(&max), Some(usize::MAX));
    assert_eq!(parse_count(&over), None);
}

#[test]
fn clone_keeps_every_field() {
    let config = Config::new(
        Some(5),
        Some(3),
        Some("J:".to_string()),
        None,
        false,
        DisplayFlags { no_prefix: true, no_name: false, no_id: false, no_status: false, no_color: true },
        no_flags(),
        &env(&[]),
    );
    let copy = config.clone();
    assert_eq!(copy.truncate_name, 5);
    assert_eq!(copy.id_length, 3);
    assert_eq!(copy.jj_symbol, "J:");
    assert_eq!(copy.git_symbol, DEFAULT_GIT_SYMBOL);
    assert_display(copy.jj_display, false, true, true, true, false);
    assert_display(copy.git_display, true, true, true, true, true);
}
