use zapret_core::config::default_filters;
use zapret_core::config::default_list_mode;
use zapret_core::config::default_minimize_to_tray;
use zapret_core::config::home_segments;
use zapret_core::config::try_resolve_placeholders;
use zapret_core::config::AppConfig;
use zapret_core::config::Category;
use zapret_core::config::Filter;
use zapret_core::config::GlobalPorts;
use zapret_core::config::Placeholder;
use zapret_core::config::Strategy;

fn placeholder(name: &str, path: &str) -> Placeholder {
    Placeholder { name: name.to_string(), path: path.to_string() }
}

#[test]
fn default_ports_cover_web_and_all_udp() {
    let ports = GlobalPorts::default();
    assert_eq!(ports.tcp, "80,443");
    assert_eq!(ports.udp, "1-65535");
}

#[test]
fn defaults_of_fields_that_may_be_missing() {
    assert!(default_minimize_to_tray());
    assert_eq!(default_list_mode(), "ipset");
}

#[test]
fn default_filters_are_the_five_fragments() {
    let filters = default_filters();
    let shown: Vec<(String, String, String, bool)> = filters
        .iter()
        .map(|f| (f.id.clone(), f.name.clone(), f.filename.clone(), f.active))
        .collect();
    let expected = vec![
        ("filter-discord", "Discord Media", "windivert_part.discord_media.txt", true),
        ("filter-stun", "STUN", "windivert_part.stun.txt", true),
        ("filter-wireguard", "WireGuard", "windivert_part.wireguard.txt", false),
        ("filter-quic", "QUIC Initial IETF", "windivert_part.quic_initial_ietf.txt", false),
        ("filter-dht", "DHT", "windivert_part.dht.txt", false),
    ];
    assert_eq!(shown.len(), expected.len());
    for (got, want) in shown.iter().zip(expected.iter()) {
        assert_eq!((got.0.as_str(), got.1.as_str(), got.2.as_str(), got.3), *want);
    }
}

#[test]
fn initial_configuration_has_the_defaults() {
    let config = AppConfig::initial("/home/u/.zapret".to_string());
    assert_eq!(config.binaries_path, "/home/u/.zapret");
    assert_eq!(config.global_ports.tcp, "80,443");
    assert_eq!(config.global_ports.udp, "1-65535");
    assert!(config.categories.is_empty());
    assert!(config.placeholders.is_empty());
    assert_eq!(config.filters.len(), 5);
    assert!(config.minimize_to_tray);
    assert_eq!(config.list_mode, "ipset");
}

fn read_configuration(filters: Vec<Filter>) -> AppConfig {
    AppConfig {
        global_ports: GlobalPorts { tcp: "443".to_string(), udp: "50000-50100".to_string() },
        categories: vec![Category {
            id: "c1".to_string(),
            name: "General".to_string(),
            strategies: vec![Strategy {
                id: "s1".to_string(),
                name: "Fake".to_string(),
                content: "--dpi-desync=fake".to_string(),
                active: true,
            }],
        }],
        placeholders: vec![placeholder("BIN", "~/bin")],
        filters,
        binaries_path: "elsewhere".to_string(),
        minimize_to_tray: false,
        list_mode: "exclude".to_string(),
    }
}

#[test]
fn with_defaults_sets_the_place_of_the_binaries_and_fills_missing_filters() {
    let config = AppConfig::with_defaults(read_configuration(vec![]), "/z".to_string());
    assert_eq!(config.binaries_path, "/z");
    assert_eq!(config.filters.len(), 5);
    assert_eq!(config.filters[0].id, "filter-discord");
    assert_eq!(config.global_ports.tcp, "443");
    assert_eq!(config.global_ports.udp, "50000-50100");
    assert_eq!(config.categories.len(), 1);
    assert_eq!(config.categories[0].strategies[0].content, "--dpi-desync=fake");
    assert_eq!(config.placeholders.len(), 1);
    assert!(!config.minimize_to_tray);
    assert_eq!(config.list_mode, "exclude");
}

#[test]
fn with_defaults_keeps_filters_that_were_read() {
    let own = Filter {
        id: "mine".to_string(),
        name: "Mine".to_string(),
        filename: "mine.txt".to_string(),
        active: false,
    };
    let config = AppConfig::with_defaults(read_configuration(vec![own]), "/z".to_string());
    assert_eq!(config.binaries_path, "/z");
    assert_eq!(config.filters.len(), 1);
    assert_eq!(config.filters[0].id, "mine");
    assert_eq!(config.filters[0].filename, "mine.txt");
    assert!(!config.filters[0].active);
}

#[test]
fn path_without_tilde_stands_for_itself() {
    assert!(home_segments("").is_none());
    assert!(home_segments("/usr/bin").is_none());
    assert!(home_segments("C:\\tools").is_none());
    assert!(home_segments("a~b").is_none());
    assert!(home_segments(" ~/x").is_none());
}

#[test]
fn path_with_tilde_names_components_below_home() {
    assert_eq!(home_segments("~").unwrap(), Vec::<String>::new());
    assert_eq!(home_segments("~/").unwrap(), Vec::<String>::new());
    assert_eq!(home_segments("~/.zapret").unwrap(), vec![".zapret"]);
    assert_eq!(home_segments("~/.zapret/lists/x.txt").unwrap(), vec![".zapret", "lists", "x.txt"]);
    assert_eq!(home_segments("~\\.zapret\\fake").unwrap(), vec![".zapret", "fake"]);
    assert_eq!(home_segments("~//a\\\\b/\\c//").unwrap(), vec!["a", "b", "c"]);
    assert_eq!(home_segments("~abc/d").unwrap(), vec!["abc", "d"]);
    assert_eq!(home_segments("~/a b/\u{444}").unwrap(), vec!["a b", "\u{444}"]);
}

#[test]
fn placeholders_are_put_in_wherever_they_stand() {
    let text = try_resolve_placeholders(
        "--hostlist={{LISTS}}/a.txt --x={{BIN}} {{LISTS}} {LISTS} {{ LISTS }}".to_string(),
        &vec![placeholder("LISTS", "/z/lists"), placeholder("BIN", "/z")],
    );
    assert_eq!(
        text.unwrap(),
        "--hostlist=/z/lists/a.txt --x=/z /z/lists {LISTS} {{ LISTS }}"
    );
}

#[test]
fn placeholders_are_put_in_one_after_the_other() {
    let text = try_resolve_placeholders(
        "{{A}}".to_string(),
        &vec![placeholder("A", "{{B}}"), placeholder("B", "done")],
    );
    assert_eq!(text.unwrap(), "done");
    let text = try_resolve_placeholders(
        "{{A}}".to_string(),
        &vec![placeholder("B", "done"), placeholder("A", "{{B}}")],
    );
    assert_eq!(text.unwrap(), "{{B}}");
}

#[test]
fn no_placeholders_leave_the_text() {
    assert_eq!(try_resolve_placeholders("{{A}}".to_string(), &vec![]).unwrap(), "{{A}}");
    assert_eq!(
        try_resolve_placeholders("".to_string(), &vec![placeholder("A", "x")]).unwrap(),
        ""
    );
}

#[test]
fn placeholder_name_is_read_as_part_of_the_pattern() {
    let text = try_resolve_placeholders(
        "{{A1}} {{A22}} {{B}}".to_string(),
        &vec![placeholder("A\\d+", "n")],
    );
    assert_eq!(text.unwrap(), "n n {{B}}");
}

#[test]
fn dollar_in_a_path_refers_to_the_match() {
    let text =
        try_resolve_placeholders("a {{P}} b".to_string(), &vec![placeholder("P", "[$0]")]);
    assert_eq!(text.unwrap(), "a [{{P}}] b");
    let text =
        try_resolve_placeholders("a {{P}} b".to_string(), &vec![placeholder("P", "C:\\$$x")]);
    assert_eq!(text.unwrap(), "a C:\\$x b");
}

#[test]
fn name_that_is_no_pattern_puts_nothing_in() {
    let placeholders = vec![placeholder("A", "x"), placeholder("(", "y")];
    assert!(try_resolve_placeholders("{{A}}".to_string(), &placeholders).is_none());
    let placeholders = vec![placeholder("[", "y"), placeholder("A", "x")];
    assert!(try_resolve_placeholders("{{A}}".to_string(), &placeholders).is_none());
}
