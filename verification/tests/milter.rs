use postkeeper::config::{Config, Settings};
use postkeeper::consts::{
    MACRO_RECPT_ADDR, MACRO_SENDER_ADDR, NAME, POSTKEEPER_HEADER, POSTKEEPER_HEADER_VALUE,
};
use postkeeper::error::{Error, Kind};
use postkeeper::maps::map_parser::MapParser;
use postkeeper::maps::{is_allowed, load_allow_map, load_block_map, MapStore, Probe};
use postkeeper::milter::{
    eom_status, get_recipient_and_sender, handle_abort, handle_body, handle_close,
    handle_connect, handle_data, handle_eoh, handle_eom, handle_header, handle_helo,
    handle_mail, handle_negotiate, handle_rcpt, handle_unknown, Decision, Status,
};
use postkeeper::time::Timestamp;

fn config(on_block_action: Option<&str>) -> Config {
    Config::from_settings(Settings {
        allow_map: None,
        block_map: None,
        pid_file: None,
        log_file: None,
        socket: None,
        user: None,
        group: None,
        log_level: None,
        on_block_action: on_block_action.map(|a| a.to_string()),
        reload_interval: None,
    })
    .unwrap()
}

/// The two stores, the block map first.
struct Maps {
    block: MapStore,
    allow: MapStore,
}

fn maps(allow: &str, block: &str) -> Maps {
    let parse = |content: &str| MapParser::from_map_file(content.as_bytes()).into_map();
    let mut maps = Maps {
        block: MapStore::new(Timestamp::from_secs(0)),
        allow: MapStore::new(Timestamp::from_secs(0)),
    };
    load_allow_map(&mut maps.allow, Ok(parse(allow))).unwrap();
    load_block_map(&mut maps.block, Ok(parse(block))).unwrap();
    maps
}

fn decide(
    maps: &Maps,
    config: &Config,
    recipient: Result<Option<&str>, Error>,
    sender: Result<Option<&str>, Error>,
) -> Decision {
    handle_eom(&maps.block, &maps.allow, config, recipient, sender)
}

fn go_on() -> Decision {
    Decision { status: Status::Continue, add_header: false }
}

#[test]
fn blocked_sender_gets_the_configured_action() {
    let block = "alice@x.com bob@y.com\n";
    for (action, status) in [
        (None, Status::Reject),
        (Some("reject"), Status::Reject),
        (Some("discard"), Status::Discard),
        (Some("continue"), Status::Continue),
    ] {
        // whatever the allow map holds
        for allow in ["", "alice@x.com bob@y.com\n", "alice@x.com carol@z.com\n"] {
            let decision = decide(
                &maps(allow, block),
                &config(action),
                Ok(Some("alice@x.com")),
                Ok(Some("bob@y.com")),
            );
            assert_eq!(decision, Decision { status, add_header: false });
        }
    }
}

#[test]
fn allowed_sender_is_accepted_with_the_header() {
    let decision = decide(
        &maps("alice@x.com carol@z.com\n", ""),
        &config(None),
        Ok(Some("alice@x.com")),
        Ok(Some("carol@z.com")),
    );
    assert_eq!(decision, Decision { status: Status::Accept, add_header: true });
    assert_eq!(POSTKEEPER_HEADER, "X-Postkeeper-Allow");
    assert_eq!(POSTKEEPER_HEADER_VALUE, "Yes");
}

#[test]
fn unlisted_sender_goes_on() {
    let all = maps("alice@x.com carol@z.com\n", "alice@x.com bob@y.com\n");
    let conf = config(None);
    assert_eq!(decide(&all, &conf, Ok(Some("alice@x.com")), Ok(Some("dave@w.com"))), go_on());
    assert_eq!(decide(&all, &conf, Ok(Some("erin@x.com")), Ok(Some("bob@y.com"))), go_on());
    // the maps go from the recipient to the sender, not the other way round
    assert_eq!(decide(&all, &conf, Ok(Some("bob@y.com")), Ok(Some("alice@x.com"))), go_on());
    let none = maps("", "");
    assert_eq!(decide(&none, &conf, Ok(Some("alice@x.com")), Ok(Some("bob@y.com"))), go_on());
}

#[test]
fn missing_address_goes_on() {
    let all = maps("alice@x.com bob@y.com\n", "alice@x.com bob@y.com\n");
    let conf = config(Some("discard"));
    let failed = || Err(Error::with_msg(Kind::Internal, "macro lookup failed"));
    assert_eq!(decide(&all, &conf, Ok(None), Ok(Some("bob@y.com"))), go_on());
    assert_eq!(decide(&all, &conf, Ok(Some("alice@x.com")), Ok(None)), go_on());
    assert_eq!(decide(&all, &conf, Ok(None), Ok(None)), go_on());
    assert_eq!(decide(&all, &conf, failed(), Ok(Some("bob@y.com"))), go_on());
    assert_eq!(decide(&all, &conf, Ok(Some("alice@x.com")), failed()), go_on());
    assert_eq!(decide(&all, &conf, failed(), failed()), go_on());
}

#[test]
fn each_message_of_a_connection_is_decided_on_its_own() {
    let all = maps("alice@x.com carol@z.com\n", "alice@x.com bob@y.com\n");
    let conf = config(None);
    let first = decide(&all, &conf, Ok(Some("alice@x.com")), Ok(Some("bob@y.com")));
    let second = decide(&all, &conf, Ok(Some("alice@x.com")), Ok(Some("carol@z.com")));
    let third = decide(&all, &conf, Ok(Some("alice@x.com")), Ok(Some("bob@y.com")));
    assert_eq!(first.status, Status::Reject);
    assert_eq!(second, Decision { status: Status::Accept, add_header: true });
    assert_eq!(third, first);
}

#[test]
fn recipient_and_sender() {
    let failed = || Err(Error::with_msg(Kind::Internal, "macro lookup failed"));
    assert_eq!(
        get_recipient_and_sender(Ok(Some("alice@x.com")), Ok(Some("bob@y.com"))),
        Some(("alice@x.com", "bob@y.com"))
    );
    assert_eq!(get_recipient_and_sender(Ok(None), Ok(Some("bob@y.com"))), None);
    assert_eq!(get_recipient_and_sender(Ok(Some("alice@x.com")), Ok(None)), None);
    assert_eq!(get_recipient_and_sender(failed(), Ok(Some("bob@y.com"))), None);
    assert_eq!(get_recipient_and_sender(Ok(Some("alice@x.com")), failed()), None);
    assert_eq!(get_recipient_and_sender(Ok(None), failed()), None);
}

#[test]
fn negotiation_asks_for_the_two_addresses() {
    let n = handle_negotiate();
    assert_eq!(n.status, Status::AllOpts);
    // the recipient address at the mail stage, the sender address at the rcpt stage
    assert_eq!(n.mail_macros, "{rcpt_addr}");
    assert_eq!(n.rcpt_macros, "{mail_addr}");
    assert_eq!(n.mail_macros, MACRO_RECPT_ADDR);
    assert_eq!(n.rcpt_macros, MACRO_SENDER_ADDR);
    assert_eq!(MACRO_SENDER_ADDR, "{mail_addr}");
    assert_eq!(MACRO_RECPT_ADDR, "{rcpt_addr}");
    assert_eq!(NAME, "PostKeeper");
}

#[test]
fn header_that_cannot_be_attached_lets_the_message_go_on() {
    let accept = Decision { status: Status::Accept, add_header: true };
    assert_eq!(eom_status(accept, true), Status::Accept);
    assert_eq!(eom_status(accept, false), Status::Continue);
    // without a header to attach, the decision stands
    for status in [Status::Continue, Status::Reject, Status::Discard, Status::Accept] {
        let decision = Decision { status, add_header: false };
        assert_eq!(eom_status(decision, false), status);
        assert_eq!(eom_status(decision, true), status);
    }
    let all = maps("alice@x.com carol@z.com\n", "");
    let decision = decide(&all, &config(None), Ok(Some("alice@x.com")), Ok(Some("carol@z.com")));
    assert_eq!(eom_status(decision, false), Status::Continue);
    assert_eq!(eom_status(decision, true), Status::Accept);
}

#[test]
fn stages_without_map_interaction() {
    assert_eq!(handle_helo(), Status::Continue);
    assert_eq!(handle_mail(), Status::Continue);
    assert_eq!(handle_rcpt(), Status::Continue);
    assert_eq!(handle_data(), Status::Continue);
    assert_eq!(handle_header(), Status::Skip);
    assert_eq!(handle_eoh(), Status::Continue);
    assert_eq!(handle_body(), Status::Continue);
    assert_eq!(handle_abort(), Status::Continue);
    assert_eq!(handle_close(), Status::Continue);
    assert_eq!(handle_unknown(), Status::Continue);
}

#[test]
fn connect_reloads_what_is_due() {
    let all = maps("alice@x.com carol@z.com\n", "");
    let conf = config(None);
    let parse = |content: &str| MapParser::from_map_file(content.as_bytes()).into_map();
    let newer = Probe {
        checked_at: Timestamp::from_secs(60),
        modified: Some(Timestamp::from_secs(30)),
        map: Some(parse("alice@x.com dave@w.com\n")),
        loaded_at: Timestamp::from_secs(61),
    };
    let too_early = Probe {
        checked_at: Timestamp::from_secs(59),
        modified: Some(Timestamp::from_secs(30)),
        map: Some(parse("alice@x.com bob@y.com\n")),
        loaded_at: Timestamp::from_secs(59),
    };
    let connection = handle_connect(&all.allow, &all.block, &conf, newer, too_early);
    assert_eq!(connection.status, Status::Continue);
    assert!(connection.reloaded.block.is_none());
    let allow = connection.reloaded.allow.unwrap();
    assert_eq!(allow.last_updated(), Timestamp::from_secs(61));
    assert!(is_allowed(&allow, "alice@x.com", "dave@w.com"));
    assert!(!is_allowed(&allow, "alice@x.com", "carol@z.com"));
    let all = Maps { allow, block: all.block };
    assert_eq!(decide(&all, &conf, Ok(Some("alice@x.com")), Ok(Some("bob@y.com"))), go_on());
}

#[test]
fn connect_without_anything_due() {
    let all = maps("alice@x.com carol@z.com\n", "alice@x.com bob@y.com\n");
    let idle = |at: i64| Probe {
        checked_at: Timestamp::from_secs(at),
        modified: None,
        map: None,
        loaded_at: Timestamp::from_secs(at),
    };
    let connection = handle_connect(&all.allow, &all.block, &config(None), idle(5), idle(5));
    assert_eq!(connection.status, Status::Continue);
    assert!(connection.reloaded.allow.is_none());
    assert!(connection.reloaded.block.is_none());
}
