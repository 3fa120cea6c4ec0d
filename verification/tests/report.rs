use ts3_status::report::{
    build_report, render_report, Connector, Detail, HEADER, NOBODY_ONLINE, NO_FLAG,
    SERVICE_ACCOUNT,
};
use ts3_status::snapshot::{Channel, Client};

fn client(cid: u64, nickname: &str, country: Option<&str>) -> Client {
    Client { cid, nickname: nickname.to_string(), country: country.map(str::to_string) }
}

fn channel(cid: u64, name: &str) -> Channel {
    Channel { cid, name: name.to_string() }
}

#[test]
fn fixed_texts() {
    assert_eq!(SERVICE_ACCOUNT, "serveradmin");
    assert_eq!(HEADER, "➖➖ TeamSpeak 3 ➖➖\n");
    assert_eq!(NOBODY_ONLINE, "➖➖ TeamSpeak 3 ➖➖\n There's nobody online 😟");
    assert_eq!(NO_FLAG, "-");
    assert_eq!(Connector::Continuing.glyph(), "├");
    assert_eq!(Connector::Terminal.glyph(), "└");
}

#[test]
fn only_the_service_account_online() {
    let clients = vec![client(1, "serveradmin", None)];
    let channels = vec![channel(1, "Lobby")];
    assert_eq!(
        build_report(&clients, &channels),
        "➖➖ TeamSpeak 3 ➖➖\n There's nobody online 😟"
    );
}

#[test]
fn nobody_online_whatever_the_channels() {
    let expected = "➖➖ TeamSpeak 3 ➖➖\n There's nobody online 😟";
    assert_eq!(build_report(&vec![], &vec![]), expected);
    assert_eq!(build_report(&vec![], &vec![channel(1, "Lobby"), channel(2, "AFK")]), expected);
    let admins = vec![client(1, "serveradmin", Some("de")), client(2, "serveradmin", None)];
    assert_eq!(build_report(&admins, &vec![channel(1, "Lobby"), channel(2, "AFK")]), expected);
    assert_eq!(render_report(&admins, &vec![channel(2, "AFK")], Detail::Plain), expected);
    assert_eq!(expected.as_bytes(), NOBODY_ONLINE.as_bytes());
}

#[test]
fn one_client_with_a_country() {
    let clients = vec![client(1, "Alice", Some("us"))];
    let channels = vec![channel(1, "Lobby")];
    let report = build_report(&clients, &channels);
    assert_eq!(report, "➖➖ TeamSpeak 3 ➖➖\n💬 Lobby\n └ 🔵 Alice 🇺🇸");
    let lines: Vec<&str> = report.lines().collect();
    assert_eq!(lines[1], "💬 Lobby");
    assert_eq!(lines[2].trim_start(), "└ 🔵 Alice 🇺🇸");
    assert_eq!(lines.len(), 3);
}

#[test]
fn two_clients_in_one_channel() {
    let clients = vec![client(1, "Alice", None), client(1, "Bob", None)];
    let channels = vec![channel(1, "Lobby")];
    let report = build_report(&clients, &channels);
    assert_eq!(report, "➖➖ TeamSpeak 3 ➖➖\n💬 Lobby\n ├ 🔵 Alice -\n └ 🔵 Bob -");
    let lines: Vec<&str> = report.lines().collect();
    assert!(lines[2].starts_with(" ├ ") && lines[2].contains("Alice"));
    assert!(lines[3].starts_with(" └ ") && lines[3].contains("Bob"));
}

#[test]
fn last_of_many_has_the_terminal_connector() {
    let names = ["Ann", "Ben", "Cid", "Dee", "Eve"];
    let clients: Vec<Client> = names.iter().map(|n| client(4, n, Some("fr"))).collect();
    let report = build_report(&clients, &vec![channel(4, "Talk")]);
    let lines: Vec<&str> = report.lines().skip(2).collect();
    assert_eq!(lines.len(), 5);
    for (i, line) in lines.iter().enumerate() {
        let connector = line.chars().nth(1).unwrap();
        assert_eq!(connector, if i == 4 { '└' } else { '├' });
        assert_eq!(*line, format!(" {connector} 🔵 {} 🇫🇷", names[i]));
    }
    assert_eq!(report.matches('└').count(), 1);
    assert_eq!(report.matches('├').count(), 4);
}

#[test]
fn service_account_is_left_out_among_others() {
    let channels = vec![channel(1, "Lobby"), channel(2, "Music")];
    let without = vec![client(1, "Alice", Some("de")), client(2, "Bob", None)];
    let expected = build_report(&without, &channels);
    assert_eq!(expected, "➖➖ TeamSpeak 3 ➖➖\n💬 Lobby\n └ 🔵 Alice 🇩🇪\n💬 Music\n └ 🔵 Bob -");
    for place in 0..=without.len() {
        let mut with = without.clone();
        with.insert(place, client(1, "serveradmin", Some("us")));
        let report = build_report(&with, &channels);
        assert_eq!(report, expected);
        assert!(!report.contains("serveradmin"));
    }
}

#[test]
fn service_account_name_is_matched_exactly() {
    let clients = vec![
        client(1, "ServerAdmin", None),
        client(1, "serveradmin ", None),
        client(1, "serveradmin2", None),
        client(1, "serveradmin", None),
    ];
    assert_eq!(
        render_report(&clients, &vec![channel(1, "Lobby")], Detail::Plain),
        "➖➖ TeamSpeak 3 ➖➖\n💬 Lobby\n ├ 🔵 ServerAdmin\n ├ 🔵 serveradmin \n └ 🔵 serveradmin2"
    );
}

#[test]
fn channel_of_the_service_account_alone_is_left_out() {
    let clients = vec![client(1, "serveradmin", None), client(2, "Alice", Some("nl"))];
    let channels = vec![channel(1, "Lobby"), channel(2, "Music")];
    assert_eq!(
        build_report(&clients, &channels),
        "➖➖ TeamSpeak 3 ➖➖\n💬 Music\n └ 🔵 Alice 🇳🇱"
    );
}

#[test]
fn empty_channels_are_left_out() {
    let clients = vec![client(2, "Alice", Some("se")), client(5, "Bob", Some("no"))];
    let occupied = vec![channel(2, "Two"), channel(5, "Five")];
    let expected = build_report(&clients, &occupied);
    assert_eq!(expected, "➖➖ TeamSpeak 3 ➖➖\n💬 Two\n └ 🔵 Alice 🇸🇪\n💬 Five\n └ 🔵 Bob 🇳🇴");
    for place in 0..=occupied.len() {
        let mut channels = occupied.clone();
        channels.insert(place, channel(9, "Empty"));
        let report = build_report(&clients, &channels);
        assert_eq!(report, expected);
        assert!(!report.contains("Empty"));
    }
}

#[test]
fn client_in_unknown_channel_is_not_listed() {
    let clients = vec![client(1, "Alice", None), client(77, "Ghost", None)];
    let channels = vec![channel(1, "Lobby")];
    assert_eq!(build_report(&clients, &channels), "➖➖ TeamSpeak 3 ➖➖\n💬 Lobby\n └ 🔵 Alice -");
    let lost = vec![client(77, "Ghost", None)];
    assert_eq!(build_report(&lost, &channels), "➖➖ TeamSpeak 3 ➖➖\n");
}

#[test]
fn channels_and_clients_keep_their_order() {
    let clients = vec![
        client(3, "Zoe", Some("GB")),
        client(1, "Bob", Some("us")),
        client(3, "Al", Some("ca")),
        client(1, "Ann", Some("xx")),
        client(3, "Max", Some("")),
    ];
    let channels = vec![channel(3, "Zulu"), channel(2, "Mike"), channel(1, "Alpha")];
    assert_eq!(
        build_report(&clients, &channels),
        "➖➖ TeamSpeak 3 ➖➖\n\
         💬 Zulu\n ├ 🔵 Zoe 🇬🇧\n ├ 🔵 Al 🇨🇦\n └ 🔵 Max -\n\
         💬 Alpha\n ├ 🔵 Bob 🇺🇸\n └ 🔵 Ann 🇽🇽"
    );
}

#[test]
fn dash_where_there_is_no_flag() {
    let clients = vec![
        client(1, "None", None),
        client(1, "Empty", Some("")),
        client(1, "Long", Some("usa")),
        client(1, "Digit", Some("u5")),
        client(1, "Fine", Some("at")),
    ];
    assert_eq!(
        build_report(&clients, &vec![channel(1, "Lobby")]),
        "➖➖ TeamSpeak 3 ➖➖\n💬 Lobby\n ├ 🔵 None -\n ├ 🔵 Empty -\n ├ 🔵 Long -\n ├ 🔵 Digit -\n └ 🔵 Fine 🇦🇹"
    );
}

#[test]
fn plain_detail_shows_no_country() {
    let clients = vec![client(1, "Alice", Some("us")), client(1, "Bob", None)];
    let channels = vec![channel(1, "Lobby")];
    assert_eq!(
        render_report(&clients, &channels, Detail::Plain),
        "➖➖ TeamSpeak 3 ➖➖\n💬 Lobby\n ├ 🔵 Alice\n └ 🔵 Bob"
    );
    assert_eq!(
        render_report(&clients, &channels, Detail::Country),
        build_report(&clients, &channels)
    );
}

#[test]
fn same_channel_id_listed_twice_is_shown_twice() {
    let clients = vec![client(1, "Alice", None)];
    let channels = vec![channel(1, "Lobby"), channel(1, "Lobby again")];
    assert_eq!(
        render_report(&clients, &channels, Detail::Plain),
        "➖➖ TeamSpeak 3 ➖➖\n💬 Lobby\n └ 🔵 Alice\n💬 Lobby again\n └ 🔵 Alice"
    );
}

#[test]
fn report_leaves_its_input_as_it_was() {
    let clients = vec![client(1, "serveradmin", None), client(1, "Alice", Some("us"))];
    let channels = vec![channel(2, "Empty"), channel(1, "Lobby")];
    let (clients_before, channels_before) = (clients.clone(), channels.clone());
    let first = build_report(&clients, &channels);
    let second = build_report(&clients, &channels);
    assert_eq!(first, second);
    assert_eq!(clients, clients_before);
    assert_eq!(channels, channels_before);
}

#[test]
fn each_channel_starts_a_line() {
    let clients = vec![client(1, "Alice", None), client(2, "Bob", None)];
    let channels = vec![channel(1, "Lobby"), channel(2, "Music")];
    assert_eq!(
        build_report(&clients, &channels),
        "➖➖ TeamSpeak 3 ➖➖\n💬 Lobby\n └ 🔵 Alice -\n💬 Music\n └ 🔵 Bob -"
    );
    assert_eq!(
        render_report(&clients, &channels, Detail::Plain),
        "➖➖ TeamSpeak 3 ➖➖\n💬 Lobby\n └ 🔵 Alice\n💬 Music\n └ 🔵 Bob"
    );
}

#[test]
fn channel_names_are_lines_of_their_own_in_order() {
    let clients = vec![
        client(5, "Eve", Some("ie")),
        client(1, "serveradmin", None),
        client(3, "Al", None),
        client(5, "Dan", Some("dk")),
        client(8, "Lost", None),
        client(2, "Bea", Some("be")),
    ];
    let channels = vec![
        channel(1, "Admin only"),
        channel(2, "Two"),
        channel(3, "Three"),
        channel(4, "Empty"),
        channel(5, "Five"),
    ];
    let report = build_report(&clients, &channels);
    let lines: Vec<&str> = report.lines().collect();
    assert_eq!(
        lines,
        [
            "➖➖ TeamSpeak 3 ➖➖",
            "💬 Two",
            " └ 🔵 Bea 🇧🇪",
            "💬 Three",
            " └ 🔵 Al -",
            "💬 Five",
            " ├ 🔵 Eve 🇮🇪",
            " └ 🔵 Dan 🇩🇰",
        ]
    );
    let names: Vec<&str> = lines.iter().filter(|l| l.starts_with("💬 ")).copied().collect();
    assert_eq!(names, ["💬 Two", "💬 Three", "💬 Five"]);
    assert!(!report.ends_with('\n'));
    assert!(!report.contains("\n\n"));
}

#[test]
fn empty_channel_between_two_adds_no_line_break() {
    let clients = vec![client(1, "Alice", None), client(3, "Bob", None)];
    let channels = vec![channel(2, "Empty"), channel(1, "One"), channel(2, "Empty"), channel(3, "Three"), channel(2, "Empty")];
    assert_eq!(
        render_report(&clients, &channels, Detail::Plain),
        "➖➖ TeamSpeak 3 ➖➖\n💬 One\n └ 🔵 Alice\n💬 Three\n └ 🔵 Bob"
    );
}
