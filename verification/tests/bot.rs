use imdb_bot::codec::{decode, parse, split_once, ChatMessage, DecodedEvent, InboundFrame};
use imdb_bot::dispatch::{dispatch, find_trigger, trim_spaces, Dispatch};
use imdb_bot::search::{format_response, search_response, select_best, SearchHit, SearchOutcome};
use imdb_bot::session::{auth_cookie, frame_action, greeting, session_config, FrameAction};
use imdb_bot::startup::{index_checkpoint, startup_plan};

fn text(s: &str) -> InboundFrame {
    InboundFrame::Text(String::from(s))
}

fn hit(title: &str, id: &str) -> SearchHit {
    SearchHit {
        title: String::from(title),
        id: String::from(id),
        rating_tenths: None,
    }
}

#[test]
fn test_split_once() {
    let in_msg: &str = "MSG {\"nick\":\"jbpratt\",\"features\":[],\"timestamp\":1568160987374,\"data\":\"test\"}";
    let out = vec![
        String::from("MSG"),
        String::from("{\"nick\":\"jbpratt\",\"features\":[],\"timestamp\":1568160987374,\"data\":\"test\"}"),
    ];
    assert_eq!(split_once(in_msg), out)
}

#[test]
fn test_parse() {
    let out = ChatMessage {
        nick: String::from("jbpratt"),
        body: String::from("test"),
    };
    let in_msg = vec![
        String::from("MSG"),
        String::from("{\"nick\":\"jbpratt\",\"features\":[],\"timestamp\":1568160987374,\"data\":\"test\"}"),
    ];
    assert_eq!(parse(in_msg).unwrap(), out)
}

#[test]
fn parse_ignores_extra_fields() {
    let frame = text("MSG {\"nick\":\"alice\",\"extra\":42,\"data\":\"hi there\"}");
    match decode(frame).unwrap() {
        DecodedEvent::MessagePosted(m) => {
            assert_eq!(m.nick, "alice");
            assert_eq!(m.body, "hi there");
        }
        other => panic!("expected a chat message, got {:?}", other),
    }
}

#[test]
fn parse_rejects_short_input() {
    assert!(parse(vec![String::from("MSG")]).is_err());
}

#[test]
fn parse_rejects_missing_fields() {
    let in_msg = vec![String::from("MSG"), String::from("{\"nick\":\"alice\"}")];
    assert!(parse(in_msg).is_err());
}

#[test]
fn split_no_whitespace_is_whole_frame() {
    let parts = split_once("PING");
    assert_eq!(parts, vec![String::from("PING")]);
}

#[test]
fn split_on_first_whitespace_only() {
    let parts = split_once("JOIN alice bob");
    assert_eq!(
        parts,
        vec![String::from("JOIN"), String::from("alice bob")]
    );
}

#[test]
fn split_empty_frame() {
    let parts = split_once("");
    assert_eq!(parts, vec![String::from("")]);
}

#[test]
fn dispatch_without_trigger_runs_no_search() {
    let event = DecodedEvent::MessagePosted(ChatMessage {
        nick: String::from("alice"),
        body: String::from("just chatting"),
    });
    let mut search_calls: u32 = 0;
    match dispatch(&event) {
        Dispatch::RunSearch(_) => search_calls += 1,
        Dispatch::NoAction => {}
    }
    assert_eq!(search_calls, 0);
}

#[test]
fn dispatch_bare_trigger_runs_empty_query() {
    let event = DecodedEvent::MessagePosted(ChatMessage {
        nick: String::from("alice"),
        body: String::from("!imdb"),
    });
    match dispatch(&event) {
        Dispatch::RunSearch(q) => assert_eq!(q, ""),
        Dispatch::NoAction => panic!("bare trigger must still run a search"),
    }
}

#[test]
fn dispatch_membership_runs_no_search() {
    let event = DecodedEvent::MembershipChange(String::from("JOIN"), String::from("alice"));
    assert!(matches!(dispatch(&event), Dispatch::NoAction));
}

#[test]
fn trigger_query_is_trimmed() {
    let q = find_trigger("!imdb   dune  ").unwrap();
    assert_eq!(q, "dune");
}

#[test]
fn trigger_prefix_is_case_sensitive() {
    assert!(find_trigger("!IMDB dune").is_none());
    assert!(find_trigger("imdb dune").is_none());
    assert!(find_trigger("say !imdb dune").is_none());
}

#[test]
fn trim_spaces_both_ends() {
    assert_eq!(trim_spaces(" \t a b \n"), "a b");
    assert_eq!(trim_spaces("   "), "");
    assert_eq!(trim_spaces(""), "");
}

#[test]
fn empty_results_give_no_results_reply() {
    let reply = search_response(Vec::new());
    assert_eq!(reply, "No results found");
}

#[test]
fn select_best_takes_first_ranked() {
    let o = select_best(vec![hit("Dune", "tt1160419"), hit("Dune: Part Two", "tt15239678")]);
    match o {
        SearchOutcome::Best(h) => assert_eq!(h.title, "Dune"),
        SearchOutcome::NoResults => panic!("a non-empty result set has a best match"),
    }
}

#[test]
fn select_best_of_empty_is_no_results() {
    assert!(matches!(select_best(Vec::new()), SearchOutcome::NoResults));
}

#[test]
fn format_response_builds_reference_url() {
    let r = format_response(&SearchOutcome::Best(hit("Dune", "tt1160419")));
    assert_eq!(r, "Found: Dune https://www.imdb.com/title/tt1160419");
}

#[test]
fn format_response_rating_is_optional_enrichment() {
    let rated = SearchHit {
        title: String::from("Dune"),
        id: String::from("tt1160419"),
        rating_tenths: Some(81),
    };
    let r = format_response(&SearchOutcome::Best(rated));
    assert_eq!(r, "Found: Dune https://www.imdb.com/title/tt1160419");
}

#[test]
fn index_checkpoint_idempotent() {
    let (exists, built_first) = index_checkpoint(false);
    assert!(built_first);
    let (exists_again, built_second) = index_checkpoint(exists);
    assert!(exists_again);
    assert!(!built_second);
    let (_, built_on_existing) = index_checkpoint(true);
    assert!(!built_on_existing);
}

#[test]
fn startup_plan_follows_flag_and_index() {
    let p = startup_plan(true, false);
    assert!(p.download);
    assert!(p.build_index);
    let p = startup_plan(false, true);
    assert!(!p.download);
    assert!(!p.build_index);
}

#[test]
fn session_config_requires_credential() {
    assert!(session_config(String::new()).is_none());
    let c = session_config(String::from("sometoken")).unwrap();
    assert_eq!(auth_cookie(&c.credential), "jwt=sometoken");
}

#[test]
fn greeting_frame_text() {
    assert_eq!(greeting(), "Hello WebSocket");
}

#[test]
fn end_to_end_trigger_frame() {
    let frame = text("MSG {\"nick\":\"alice\",\"data\":\"!imdb dune\"}");
    let query = match frame_action(frame) {
        FrameAction::RunSearch(q) => q,
        other => panic!("expected a search, got {:?}", other),
    };
    assert_eq!(query, "dune");
    let reply = search_response(vec![hit("Dune", "tt1160419")]);
    assert_eq!(reply, "Found: Dune https://www.imdb.com/title/tt1160419");
}

#[test]
fn end_to_end_join_frame() {
    let frame = text("JOIN alice");
    assert!(matches!(frame_action(frame), FrameAction::NoOutbound));
    match decode(text("JOIN alice")).unwrap() {
        DecodedEvent::MembershipChange(kind, ident) => {
            assert_eq!(kind, "JOIN");
            assert_eq!(ident, "alice");
        }
        other => panic!("expected a membership change, got {:?}", other),
    }
}

#[test]
fn end_to_end_bad_payload_keeps_loop_alive() {
    let bad = text("MSG not-json");
    match frame_action(bad) {
        FrameAction::DecodeFailed(raw) => assert_eq!(raw, "not-json"),
        other => panic!("expected a decode failure, got {:?}", other),
    }
    let next = text("MSG {\"nick\":\"bob\",\"data\":\"!imdb alien\"}");
    match frame_action(next) {
        FrameAction::RunSearch(q) => assert_eq!(q, "alien"),
        other => panic!("expected the loop to keep going, got {:?}", other),
    }
}

#[test]
fn msg_frame_without_payload_is_a_decode_error() {
    match decode(text("MSG")) {
        Err(err) => assert_eq!(err.raw, ""),
        Ok(other) => panic!("expected a decode error, got {:?}", other),
    }
}

#[test]
fn binary_frame_is_ignored() {
    let frame = InboundFrame::Binary(vec![0, 1, 2]);
    assert!(matches!(frame_action(frame), FrameAction::NoOutbound));
    assert!(matches!(
        decode(InboundFrame::Binary(Vec::new())).unwrap(),
        DecodedEvent::Ignored
    ));
}

#[test]
fn unrecognized_kind_is_preserved() {
    match decode(text("NAMES {\"users\":[]}")).unwrap() {
        DecodedEvent::Unrecognized(kind, rest) => {
            assert_eq!(kind, "NAMES");
            assert_eq!(rest, "{\"users\":[]}");
        }
        other => panic!("expected an unrecognized event, got {:?}", other),
    }
}
