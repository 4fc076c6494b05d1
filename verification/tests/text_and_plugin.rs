use streamocracy::modules::mechanics::tablist::{Config, Tablist};
use streamocracy::plugin::PumpkinPlus;
use streamocracy::text::{decimal_string, replace_all_str, split_str};

#[test]
fn decimal_rendering() {
    assert_eq!(decimal_string(0), "0");
    assert_eq!(decimal_string(7), "7");
    assert_eq!(decimal_string(10), "10");
    assert_eq!(decimal_string(1234567890), "1234567890");
    assert_eq!(decimal_string(u64::MAX), "18446744073709551615");
}

#[test]
fn replacement_matches_str_replace() {
    let cases = [
        ("a{x}b{x}", "{x}", "Y"),
        ("aaa", "aa", "X"),
        ("{x", "{x}", "Y"),
        ("", "{x}", "Y"),
        ("héllo {x}!", "{x}", "wörld"),
        ("{x}{x}{x}", "{x}", ""),
    ];
    for (text, pat, rep) in cases {
        assert_eq!(replace_all_str(text, pat, rep), text.replace(pat, rep));
    }
}

#[test]
fn split_matches_str_split() {
    for s in ["Alice:Bob", "", ":", "a::b", "solo", ":lead", "trail:"] {
        let expected: Vec<String> = s.split(':').map(|x| x.to_string()).collect();
        assert_eq!(split_str(s, ':'), expected);
        assert_eq!(split_str(s, ':').join(":"), s);
    }
}

#[test]
fn placeholders_are_filled() {
    let out = Tablist::replace_placeholders(
        "Hi {player} | {online} online | TPS {tps} | {mspt} ms",
        "Notch",
        42,
        "20.0",
        "5.2",
    );
    assert_eq!(out, "Hi Notch | 42 online | TPS 20.0 | 5.2 ms");
    assert_eq!(Tablist::replace_placeholders("plain", "x", 1, "2", "3"), "plain");
    // Replacements happen one after the other, so a name that reads like a
    // later placeholder is filled in too.
    assert_eq!(Tablist::replace_placeholders("{player}", "{online}", 3, "", ""), "3");
}

#[test]
fn tablist_switches() {
    let on = Config { enabled: true, header: "h".to_string(), footer: "f".to_string() };
    let off = Config::default();
    assert!(Tablist.enabled(None));
    assert!(Tablist.enabled(Some(&on)));
    assert!(!Tablist.enabled(Some(&off)));
    assert!(Tablist.refresh_on_leave(Some(&on)));
    assert!(!Tablist.refresh_on_leave(Some(&off)));
    assert!(!Tablist.refresh_on_leave(None));
    assert_eq!(Tablist.join_config(Some(on.clone())).map(|c| c.header), Some("h".to_string()));
    assert!(Tablist.join_config(Some(off)).is_none());
    let d = Tablist.join_config(None).unwrap();
    assert!(!d.enabled && d.header.is_empty() && d.footer.is_empty());
}

#[test]
fn join_refreshes_the_others() {
    let names: Vec<String> = ["a", "new", "b", "new"].iter().map(|s| s.to_string()).collect();
    assert_eq!(Tablist::join_update_targets(&"new".to_string(), &names), vec![0, 2]);
    assert!(Tablist::join_update_targets(&"x".to_string(), &vec![]).is_empty());
}

#[test]
fn plugin_metadata_and_modules() {
    let p = PumpkinPlus::new();
    let info = p.metadata("pumpkinplus", "1.0.0", "Alice:Bob", "desc");
    assert_eq!(info.name, "pumpkinplus");
    assert_eq!(info.version, "1.0.0");
    assert_eq!(info.authors, vec!["Alice".to_string(), "Bob".to_string()]);
    assert_eq!(info.description, "desc");
    assert_eq!(PumpkinPlus::enabled_count(&vec![true, false, true]), 2);
    assert_eq!(PumpkinPlus::enabled_count(&vec![]), 0);
}

#[test]
fn header_and_footer_for_a_player() {
    let c = Config { enabled: true, header: "Welcome {player}".to_string(), footer: "{online} online, {tps} TPS, {mspt} mspt".to_string() };
    let (h, f) = Tablist::header_footer(&c, "Steve", 3, "19.9", "50.1");
    assert_eq!(h, "Welcome Steve");
    assert_eq!(f, "3 online, 19.9 TPS, 50.1 mspt");
}
