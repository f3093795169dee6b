use matrix_utils::{
    Changelog, Command, Handler, Ping, Reply, Unknown, WhereIs, CHANGELOG_LINK, FAQ, FAQ_LINK,
    NOT_FOUND,
};

const SPIDER_BALL: &str =
    "https://cdn.discordapp.com/attachments/509717926807601182/1076652295967748217/whereis_spiderball.gif";
const BOMBS: &str =
    "https://cdn.discordapp.com/attachments/509717926807601182/1076652269543620618/whereis_bombs.gif";

fn markdown(s: &str) -> Reply {
    Reply::Markdown(s.to_string())
}

#[test]
fn registered_names_resolve_to_their_handlers() {
    let h = Handler::new();
    assert_eq!(h.get_command("ping"), Command::Ping);
    assert_eq!(h.get_command("faq"), Command::Faq);
    assert_eq!(h.get_command("changelog"), Command::Changelog);
    assert_eq!(h.get_command("whereis"), Command::WhereIs);
    // reads leave the registry as it was
    assert_eq!(h.get_command("ping"), Command::Ping);
}

#[test]
fn command_names_round_trip_through_registry() {
    let h = Handler::new();
    for c in [Command::Ping, Command::Faq, Command::Changelog, Command::WhereIs] {
        assert_eq!(h.get_command(&c.get_command_name()), c);
    }
}

#[test]
fn struct_command_names() {
    assert_eq!(Ping::get_command_name(), "ping");
    assert_eq!(FAQ::get_command_name(), "faq");
    assert_eq!(Changelog::get_command_name(), "changelog");
    assert_eq!(WhereIs::get_command_name(), "whereis");
    assert_eq!(Unknown::get_command_name(), "unknown");
}

#[test]
fn unregistered_names_resolve_to_fallback() {
    let h = Handler::new();
    for name in ["nosuchcommand", "", "Ping", " ping", "unknown", "halt"] {
        assert_eq!(h.get_command(name), Command::Unknown);
        assert!(h.dispatch(name, "anything").is_silent());
    }
}

#[test]
fn fallback_sends_nothing() {
    assert_eq!(Unknown::handle_message("ping"), Reply::Silent);
    assert!(Command::Unknown.run("").is_silent());
}

#[test]
fn ping_ignores_argument() {
    let expected = Reply::Text("🏓 pong 🏓".to_string());
    assert_eq!(Ping::handle_message(""), expected);
    assert_eq!(Ping::handle_message("whatever"), expected);
    assert_eq!(Ping::handle_message("  bomb "), expected);
}

#[test]
fn scenario_ping() {
    let h = Handler::new();
    let r = h.dispatch("ping", "some argument");
    assert_eq!(r, Reply::Text("🏓 pong 🏓".to_string()));
    assert!(!r.is_silent());
}

#[test]
fn scenario_whereis_spider_ball() {
    let h = Handler::new();
    assert_eq!(h.dispatch("whereis", "Spider Ball"), markdown(SPIDER_BALL));
}

#[test]
fn scenario_whereis_unknown_item() {
    let h = Handler::new();
    assert_eq!(h.dispatch("whereis", "nonexistent-item"), markdown("`Item not found.`"));
}

#[test]
fn scenario_unknown_command() {
    let h = Handler::new();
    assert_eq!(h.dispatch("nosuchcommand", ""), Reply::Silent);
}

#[test]
fn scenario_faq() {
    let h = Handler::new();
    let expected = "**Community Updates FaQ**: https://am2r-community-developers.github.io/DistributionCenter/faq";
    assert_eq!(h.dispatch("faq", ""), markdown(expected));
    assert_eq!(FAQ_LINK, expected);
}

#[test]
fn changelog_link() {
    let expected = "**Cumulative AM2R Changelog**: https://am2r-community-developers.github.io/DistributionCenter/changelog";
    assert_eq!(Changelog::handle_message("x"), markdown(expected));
    assert_eq!(CHANGELOG_LINK, expected);
}

#[test]
fn whereis_ignores_case_and_surrounding_space() {
    for arg in [" Bomb ", "bomb", "BOMB", "\tbombs\n", "Bombs"] {
        assert_eq!(WhereIs::handle_message(arg), markdown(BOMBS));
    }
}

#[test]
fn whereis_keeps_inner_space() {
    assert_eq!(WhereIs::handle_message("spider  ball"), markdown(NOT_FOUND));
    assert_eq!(WhereIs::handle_message("  SPIDER BALL  "), markdown(SPIDER_BALL));
}

#[test]
fn whereis_blank_argument_not_found() {
    for arg in ["", " ", "\t\n ", "\u{3000}"] {
        assert_eq!(WhereIs::handle_message(arg), markdown("`Item not found.`"));
    }
}

#[test]
fn whereis_normalized_lookup() {
    assert_eq!(WhereIs::answer_normalized("bomb"), markdown(BOMBS));
    // already-normalized lookup is exact and case-sensitive
    assert_eq!(WhereIs::answer_normalized("Bomb"), markdown(NOT_FOUND));
    assert_eq!(WhereIs::answer_normalized(" bomb"), markdown(NOT_FOUND));
    assert_eq!(WhereIs::answer_normalized(""), markdown(NOT_FOUND));
}

#[test]
fn whereis_alias_groups() {
    let groups: [(&[&str], &str); 4] = [
        (&["faq"], FAQ_LINK),
        (&["changelog"], CHANGELOG_LINK),
        (
            &["doc", "doctorm64", "milton"],
            "`Creating games at Moon Studios!` https://www.orithegame.com/",
        ),
        (
            &["pbomb", "pbombs", "powerbomb", "powerbombs", "power bomb", "power bombs"],
            "https://cdn.discordapp.com/attachments/509717926807601182/1076652272324444180/whereis_powerbombs.gif",
        ),
    ];
    for (aliases, answer) in groups {
        for a in aliases {
            assert_eq!(WhereIs::handle_message(a), markdown(answer));
        }
    }
    assert_eq!(
        WhereIs::handle_message("Am2r 1.1"),
        markdown("`Once on the internet, always on the internet. Let Google be your guide.`")
    );
    assert_eq!(
        WhereIs::handle_message("High Jump"),
        markdown("https://cdn.discordapp.com/attachments/509717926807601182/1076652270965497876/whereis_highjump.gif")
    );
}

#[test]
fn reply_builders() {
    assert_eq!(Reply::text("a"), Reply::Text("a".to_string()));
    assert_eq!(Reply::markdown("*b*"), Reply::Markdown("*b*".to_string()));
    assert!(Reply::Silent.is_silent());
    assert!(!Reply::text("").is_silent());
}
