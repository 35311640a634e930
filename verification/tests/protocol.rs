use rimecmd::client::{ReplyFramer, ReplyState};
use rimecmd::error::Error;
use rimecmd::json_reader::{p_reply_exec, p_request_exec};
use rimecmd::json_request_processor::{
    query_for_call, reply_for_clear_composition, reply_for_config_value, reply_for_process_key,
    reply_for_schema_name, reply_for_stop_client, reply_for_stop_server, EngineQuery, ErrorId,
    Outcome, Reply, Request,
};
use rimecmd::json_writer::{serialize_reply_string, serialize_request_string};
use rimecmd::key_processor::{Action, KeyProcessor};
use rimecmd::poll_data::PollBuffer;
use rimecmd::rime_api::{
    RimeCandidate, RimeCommit, RimeComposition, RimeContext, RimeMenu, RimeStatus,
};
use rimecmd::server_mode::{
    arbitrate_reply, bind_decision, close_handshake_outcome, error_reply, BindDecision,
    RequestFramer, RequestState, SessionDisposition,
};
use rimecmd::json_mode::{handle_input, Input as JsonInput, JsonModeAction};
use rimecmd::terminal_interface::{call_for_input, Input as TerminalInput, TerminalInterface};
use rimecmd::input_parser::ParserStateImpl;
use rimecmd::json_reader::JErr;
use rimecmd::poll_data::hangup_check;
use rimecmd::terminal_interface::{
    composition_ui_bytes, cpr_wait_step, cursor_to_bytes, menu_top_row, CprStep,
};
use rimecmd::terminal_mode::{reply_action, TerminalAction};
use rimecmd::{Call, Effect};

fn status(schema_name: &str) -> RimeStatus {
    RimeStatus {
        schema_id: "luna_pinyin".to_string(),
        schema_name: schema_name.to_string(),
        is_disabled: false,
        is_composing: false,
        is_ascii_mode: false,
        is_full_shape: false,
        is_simplified: false,
        is_traditional: false,
        is_ascii_punct: false,
    }
}

fn context(preedit: &str, candidates: Vec<RimeCandidate>) -> RimeContext {
    RimeContext {
        commit_text_preview: preedit.to_string(),
        composition: RimeComposition {
            length: preedit.len(),
            cursor_pos: 0,
            sel_start: 0,
            sel_end: 0,
            preedit: preedit.to_string(),
        },
        menu: RimeMenu {
            candidates,
            page_no: 0,
            highlighted_candidate_index: 0,
            is_last_page: false,
        },
    }
}

fn parse_request(text: &str) -> Request {
    let chars: Vec<char> = text.chars().collect();
    let (request, consumed) = p_request_exec(&chars, 0).expect("request should parse");
    assert_eq!(consumed, chars.len());
    request
}

fn parse_reply(text: &str) -> Reply {
    let chars: Vec<char> = text.chars().collect();
    let (reply, consumed) = p_reply_exec(&chars, 0).expect("reply should parse");
    assert_eq!(consumed, chars.len());
    reply
}

#[test]
fn schema_query_round_trip() {
    // the schema query scenario, with the engine's answer given
    let request = parse_request(r#"{"id":"22","call":{"method":"schema_name"}}"#);
    assert_eq!(request.id, "22");
    assert!(matches!(request.call, Call::SchemaName));
    assert!(matches!(query_for_call(&request.call), EngineQuery::Status));
    let reply = reply_for_schema_name(request.id, status("luna_pinyin"));
    assert_eq!(
        serialize_reply_string(&reply),
        r#"{"id":"22","outcome":{"schema_name":"luna_pinyin"}}"#
    );
}

#[test]
fn request_round_trips_every_call_variant() {
    let calls = vec![
        Call::ProcessKey { keycode: 109, mask: 0 },
        Call::ProcessKey { keycode: 0xff0d, mask: 0 },
        Call::SchemaName,
        Call::ConfigValueInteger {
            config_id: "default".to_string(),
            option_key: "menu/page_size".to_string(),
        },
        Call::ClearComposition,
        Call::StopClient,
        Call::StopServer,
    ];
    for call in calls {
        let request = Request { id: "id-1".to_string(), call };
        let text = serialize_request_string(&request);
        let back = parse_request(&text);
        assert_eq!(serialize_request_string(&back), text);
        assert_eq!(back.id, request.id);
    }
}

#[test]
fn reply_round_trips_every_outcome_variant() {
    let outcomes = vec![
        Outcome::Effect(Effect::StopClient),
        Outcome::Effect(Effect::StopServer),
        Outcome::Effect(Effect::CommitString("mno".to_string())),
        Outcome::Effect(Effect::UpdateUi {
            composition: RimeComposition {
                length: 2,
                cursor_pos: 2,
                sel_start: 0,
                sel_end: 2,
                preedit: "mi".to_string(),
            },
            menu: RimeMenu {
                candidates: vec![
                    RimeCandidate { text: "中文".to_string(), comment: Some("→ 西文".to_string()) },
                    RimeCandidate { text: "密".to_string(), comment: None },
                ],
                page_no: 0,
                highlighted_candidate_index: 1,
                is_last_page: true,
            },
        }),
        Outcome::Error { id: ErrorId::JsonError, message: "bad \"input\"\n".to_string() },
        Outcome::SchemaName("luna_pinyin".to_string()),
        Outcome::ConfigValueInteger(5),
        Outcome::ConfigValueInteger(-9),
    ];
    for outcome in outcomes {
        for id in [Some("22".to_string()), None] {
            let reply = Reply { id: id.clone(), outcome: outcome.clone() };
            let text = serialize_reply_string(&reply);
            let back = parse_reply(&text);
            assert_eq!(serialize_reply_string(&back), text);
            assert_eq!(back.id, id);
        }
    }
}

#[test]
fn parse_reserializes_canonical_engine_reply() {
    // the exact reply text the engine produces for the schema menu
    let text = r#"{"id":"22","outcome":{"effect":{"update_ui":{"composition":{"length":18,"cursor_pos":0,"sel_start":0,"sel_end":0,"preedit":"〔方案選單〕"},"menu":{"candidates":[{"text":"朙月拼音","comment":null},{"text":"中／半／漢／。","comment":null},{"text":"朙月拼音·简化字","comment":null},{"text":"朙月拼音·語句流","comment":null},{"text":"bopomofo","comment":null}],"page_no":0,"highlighted_candidate_index":0,"is_last_page":false}}}}}"#;
    let reply = parse_reply(text);
    assert_eq!(serialize_reply_string(&reply), text);
    match &reply.outcome {
        Outcome::Effect(Effect::UpdateUi { composition, menu }) => {
            assert_eq!(composition.preedit, "〔方案選單〕");
            assert_eq!(composition.length, 18);
            assert_eq!(menu.candidates.len(), 5);
            assert_eq!(menu.candidates[0].text, "朙月拼音");
            assert!(!menu.is_last_page);
        }
        _ => panic!(),
    }
}

#[test]
fn parser_accepts_whitespace_between_tokens() {
    let request = parse_request(
        "{\n    \"id\": \"22\",\n    \"call\": {\n        \"method\": \"process_key\",\n        \"params\": {\n            \"keycode\": 96,\n            \"mask\": 4\n        }\n    }\n}",
    );
    assert_eq!(request.id, "22");
    assert!(matches!(request.call, Call::ProcessKey { keycode: 96, mask: 4 }));
}

#[test]
fn framer_reassembles_a_request_split_at_every_boundary() {
    // framing idempotence: any split yields exactly one value
    let request = Request {
        id: "22".to_string(),
        call: Call::ConfigValueInteger {
            config_id: "默认".to_string(),
            option_key: "menu/page_size".to_string(),
        },
    };
    let text = serialize_request_string(&request);
    let bytes = text.as_bytes();
    for cut in 0..=bytes.len() {
        let mut framer = RequestFramer::new();
        framer.feed(&bytes[..cut]).unwrap();
        let mut complete_before_end = false;
        if let RequestState::Complete(_) = framer.next().unwrap() {
            complete_before_end = cut == bytes.len();
            assert!(complete_before_end, "complete before all bytes arrived");
        }
        if cut < bytes.len() {
            framer.feed(&bytes[cut..]).unwrap();
        }
        if !complete_before_end {
            match framer.next().unwrap() {
                RequestState::Complete(back) => {
                    assert_eq!(serialize_request_string(&back), text);
                }
                RequestState::Incomplete => panic!("value missing after all bytes arrived"),
            }
        }
        // exactly one value: nothing else is left in the framer
        assert!(matches!(framer.next().unwrap(), RequestState::Incomplete));
    }
}

#[test]
fn framer_handles_concatenated_values_and_newlines() {
    let a = serialize_request_string(&Request { id: "1".to_string(), call: Call::SchemaName });
    let b = serialize_request_string(&Request { id: "2".to_string(), call: Call::StopClient });
    let joined = format!("{}\n{}", a, b);
    let mut framer = RequestFramer::new();
    framer.feed(joined.as_bytes()).unwrap();
    match framer.next().unwrap() {
        RequestState::Complete(first) => assert_eq!(first.id, "1"),
        _ => panic!(),
    }
    match framer.next().unwrap() {
        RequestState::Complete(second) => assert_eq!(second.id, "2"),
        _ => panic!(),
    }
    assert!(matches!(framer.next().unwrap(), RequestState::Incomplete));
}

#[test]
fn framer_rejects_malformed_text_and_resets() {
    let mut framer = ReplyFramer::new();
    framer.feed(b"garbage").unwrap();
    assert!(matches!(framer.next(), Err(Error::Json(_))));
    // after the reset a valid reply still goes through
    let reply = Reply {
        id: None,
        outcome: Outcome::Error { id: ErrorId::IoError, message: "gone".to_string() },
    };
    let text = serialize_reply_string(&reply);
    framer.feed(text.as_bytes()).unwrap();
    match framer.next().unwrap() {
        ReplyState::Complete(back) => {
            assert_eq!(back.id, None);
        }
        _ => panic!(),
    }
}

#[test]
fn framer_rejects_invalid_utf8() {
    let mut framer = ReplyFramer::new();
    assert!(matches!(framer.feed(&[0xff, 0xfe]), Err(Error::Json(_))));
}

#[test]
fn stop_server_refused_with_two_clients() {
    // two clients connected; client A asks the server to stop
    let reply = reply_for_stop_server("A".to_string());
    match arbitrate_reply(reply, 2) {
        SessionDisposition::SendRefusal(refusal) => {
            assert_eq!(refusal.id, Some("A".to_string()));
            match refusal.outcome {
                Outcome::Error { id, .. } => assert!(matches!(id, ErrorId::MoreThanOneClient)),
                _ => panic!(),
            }
            let text = serialize_reply_string(&refusal);
            assert!(text.starts_with(r#"{"id":"A","outcome":{"error":{"id":"more_than_one_client""#));
        }
        _ => panic!("server must refuse to stop"),
    }
}

#[test]
fn stop_server_granted_to_sole_client() {
    let reply = reply_for_stop_server("A".to_string());
    assert!(matches!(
        arbitrate_reply(reply, 1),
        SessionDisposition::SendAndStopServer(_)
    ));
}

#[test]
fn stop_client_always_honored() {
    let reply = reply_for_stop_client("B".to_string());
    assert!(matches!(
        arbitrate_reply(reply, 7),
        SessionDisposition::SendAndExpectClose(_)
    ));
}

#[test]
fn request_id_is_echoed_on_every_dispatched_reply() {
    let commit = RimeCommit { text: Some("mno".to_string()) };
    let ctx = context("", vec![]);
    assert_eq!(reply_for_process_key("a".to_string(), commit, ctx).id, Some("a".to_string()));
    assert_eq!(reply_for_schema_name("b".to_string(), status("s")).id, Some("b".to_string()));
    assert_eq!(
        reply_for_config_value("c".to_string(), Ok(5)).id,
        Some("c".to_string())
    );
    // a failed lookup is a protocol-level error: its reply drops the id
    assert_eq!(
        reply_for_config_value(
            "d".to_string(),
            Err(Error::ConfigNotFound("default".to_string()))
        )
        .id,
        None
    );
    assert_eq!(
        reply_for_clear_composition("e".to_string(), context("", vec![])).id,
        Some("e".to_string())
    );
    assert_eq!(reply_for_stop_client("f".to_string()).id, Some("f".to_string()));
    assert_eq!(reply_for_stop_server("g".to_string()).id, Some("g".to_string()));
}

#[test]
fn protocol_errors_answer_with_null_id() {
    let reply = error_reply(&Error::Json("unexpected character".to_string())).unwrap();
    assert_eq!(reply.id, None);
    let text = serialize_reply_string(&reply);
    assert!(text.starts_with(r#"{"id":null,"outcome":{"error":{"id":"json_error""#));
    // fatal errors have no protocol form
    assert!(error_reply(&Error::NotATerminal).is_none());
}

#[test]
fn config_lookup_errors_become_outcomes() {
    let reply = reply_for_config_value(
        "22".to_string(),
        Err(Error::OptionNotFound("menu/page_size".to_string())),
    );
    assert_eq!(reply.id, None);
    match reply.outcome {
        Outcome::Error { id, message } => {
            assert!(matches!(id, ErrorId::OptionNotFound));
            assert_eq!(message, "the config option menu/page_size");
        }
        _ => panic!(),
    }
    let ok = reply_for_config_value("22".to_string(), Ok(5));
    assert_eq!(
        serialize_reply_string(&ok),
        r#"{"id":"22","outcome":{"config_value_integer":5}}"#
    );
}

#[test]
fn key_processor_prefers_commit_over_redraw() {
    let key_processor = KeyProcessor::new();
    let report = key_processor.process_key(
        RimeCommit { text: Some("mno".to_string()) },
        context("", vec![]),
    );
    match report {
        Action::CommitString(commit) => assert_eq!(commit, "mno"),
        _ => panic!(),
    }
    let report = key_processor.process_key(
        RimeCommit { text: None },
        context("mi", vec![]),
    );
    match report {
        Action::UpdateUi { composition, .. } => assert_eq!(composition.preedit, "mi"),
        _ => panic!(),
    }
}

#[test]
fn pinyin_commit_wire_sequence() {
    // the keystrokes of the commit scenario, as requests on the wire
    for (key, expected) in [
        (109u32, r#"{"id":"0","call":{"method":"process_key","params":{"keycode":109,"mask":0}}}"#),
        (110, r#"{"id":"0","call":{"method":"process_key","params":{"keycode":110,"mask":0}}}"#),
        (111, r#"{"id":"0","call":{"method":"process_key","params":{"keycode":111,"mask":0}}}"#),
        (0xff0d, r#"{"id":"0","call":{"method":"process_key","params":{"keycode":65293,"mask":0}}}"#),
    ] {
        let request = Request {
            id: "0".to_string(),
            call: Call::ProcessKey { keycode: key, mask: 0 },
        };
        assert_eq!(serialize_request_string(&request), expected);
    }
    // after the final key the engine commits; the reply carries the text
    let reply = reply_for_process_key(
        "0".to_string(),
        RimeCommit { text: Some("mno".to_string()) },
        context("", vec![]),
    );
    assert_eq!(
        serialize_reply_string(&reply),
        r#"{"id":"0","outcome":{"effect":{"commit_string":"mno"}}}"#
    );
}

#[test]
fn poller_delivers_every_item_exactly_once() {
    let mut buffer: PollBuffer<u32> = PollBuffer::new();
    buffer.stash_batch(vec![1, 2, 3]);
    buffer.stash_batch(vec![4]);
    buffer.stash_batch(vec![5, 6]);
    let mut delivered = Vec::new();
    while let Some(item) = buffer.pop() {
        delivered.push(item);
    }
    assert_eq!(delivered, vec![1, 2, 3, 4, 5, 6]);
    assert!(buffer.pop().is_none());
}

#[test]
fn termios_snapshot_survives_the_session() {
    let mut terminal: TerminalInterface<[u32; 4]> = TerminalInterface::new();
    let snapshot = [1, 2, 3, 4];
    terminal.open(snapshot);
    terminal.stash_input(rimecmd::terminal_interface::Input::Char('a'));
    terminal.stash_input(rimecmd::terminal_interface::Input::Cr);
    assert_eq!(
        terminal.take_buffered(),
        Some(rimecmd::terminal_interface::Input::Char('a'))
    );
    let restored = terminal.close();
    assert_eq!(restored, snapshot);
    assert_eq!(terminal.take_buffered(), Some(rimecmd::terminal_interface::Input::Cr));
}

#[test]
fn force_start_reclaims_stale_socket() {
    assert_eq!(bind_decision(true, false), BindDecision::RefuseAlreadyExists);
    assert_eq!(Error::UnixSocketAlreadyExists.exit_code(), 4);
    assert_eq!(bind_decision(true, true), BindDecision::RemoveThenBind);
    assert_eq!(bind_decision(false, false), BindDecision::Bind);
}

#[test]
fn exit_codes_match_the_error_taxonomy() {
    assert_eq!(Error::OneOfMultipleInputClosed.exit_code(), 2);
    assert_eq!(Error::UnsupportedInput.exit_code(), 3);
    assert_eq!(Error::UnixSocketAlreadyExists.exit_code(), 4);
    assert_eq!(Error::MoreThanOneClient.exit_code(), 5);
    assert_eq!(Error::NotATerminal.exit_code(), 1);
    assert_eq!(Error::Json("x".to_string()).exit_code(), 1);
}

#[test]
fn close_handshake_accepts_only_a_clean_end() {
    assert!(close_handshake_outcome(Err(Error::InputClosed)).is_ok());
    assert!(matches!(
        close_handshake_outcome(Ok(Request { id: "1".to_string(), call: Call::SchemaName })),
        Err(Error::ClientShouldCloseConnection)
    ));
    assert!(matches!(
        close_handshake_outcome(Err(Error::Io("reset".to_string()))),
        Err(Error::Io(_))
    ));
}

#[test]
fn socket_path_resolution() {
    assert_eq!(
        rimecmd::resolve_socket_path(Some("/tmp/x.sock".to_string()), None, "/tmp".to_string()),
        "/tmp/x.sock"
    );
    assert_eq!(
        rimecmd::resolve_socket_path(
            None,
            Some("/run/user/1000/rimecmd/socket".to_string()),
            "/tmp".to_string()
        ),
        "/run/user/1000/rimecmd/socket/rimecmd.sock"
    );
    assert_eq!(
        rimecmd::resolve_socket_path(None, None, "/tmp".to_string()),
        "/tmp/rimecmd.sock"
    );
}

#[test]
fn schema_menu_toggle_request() {
    // Ctrl-` carries the Control mask
    let request = Request {
        id: "22".to_string(),
        call: Call::ProcessKey { keycode: 96, mask: 1 << 2 },
    };
    assert_eq!(
        serialize_request_string(&request),
        r#"{"id":"22","call":{"method":"process_key","params":{"keycode":96,"mask":4}}}"#
    );
}

#[test]
fn menu_rendering_marks_the_highlighted_candidate() {
    let menu = RimeMenu {
        candidates: vec![
            RimeCandidate { text: "朙月拼音".to_string(), comment: None },
            RimeCandidate { text: "中文".to_string(), comment: Some("→ 西文".to_string()) },
        ],
        page_no: 0,
        highlighted_candidate_index: 1,
        is_last_page: false,
    };
    let text = rimecmd::terminal_interface::menu_ui_string(&menu);
    assert_eq!(
        text,
        "\r\n1. 朙月拼音\x1b[0K\r\n\x1b[7m2.\x1b[0m 中文\x1b[2m → 西文\x1b[0m\x1b[0K\x1b[0J"
    );
}

#[test]
fn json_mode_decisions() {
    match handle_input(JsonInput::Stdin(b"abc".to_vec()), false) {
        JsonModeAction::ForwardToServer(bytes) => assert_eq!(bytes, b"abc".to_vec()),
        _ => panic!(),
    }
    let stop = Reply { id: Some("1".to_string()), outcome: Outcome::Effect(Effect::StopClient) };
    match handle_input(JsonInput::ServerReply(ReplyState::Complete(stop)), true) {
        JsonModeAction::Emit { exit, .. } => assert!(exit),
        _ => panic!(),
    }
    let commit = Reply {
        id: Some("1".to_string()),
        outcome: Outcome::Effect(Effect::CommitString("mno".to_string())),
    };
    match handle_input(JsonInput::ServerReply(ReplyState::Complete(commit)), true) {
        JsonModeAction::Emit { exit, text } => {
            assert!(!exit);
            assert_eq!(
                text,
                r#"{"id":"1","outcome":{"effect":{"commit_string":"mno"}}}"#
            );
        }
        _ => panic!(),
    }
}

#[test]
fn terminal_mode_decisions() {
    let commit = Reply {
        id: Some("1".to_string()),
        outcome: Outcome::Effect(Effect::CommitString("mno".to_string())),
    };
    match reply_action(commit, false) {
        TerminalAction::PrintCommit { text, exit } => {
            assert_eq!(text, "mno");
            assert!(exit);
        }
        _ => panic!(),
    }
    let schema = Reply {
        id: Some("1".to_string()),
        outcome: Outcome::SchemaName("luna_pinyin".to_string()),
    };
    assert!(matches!(reply_action(schema, false), TerminalAction::Ignore));
}

#[test]
fn ctrl_c_and_ctrl_d_stop_the_client() {
    assert!(matches!(call_for_input(TerminalInput::Etx), Ok(Call::StopClient)));
    assert!(matches!(call_for_input(TerminalInput::Eot), Ok(Call::StopClient)));
    assert!(matches!(
        call_for_input(TerminalInput::Char('a')),
        Ok(Call::ProcessKey { keycode: 0x61, mask: 0 })
    ));
    assert!(matches!(
        call_for_input(TerminalInput::Char('天')),
        Err(Error::UnsupportedInput)
    ));
}

#[test]
fn string_escapes_cover_the_basic_plane_and_pairs() {
    // \u escapes below and above the control range, and a surrogate pair
    let request = parse_request(r#"{"id":"ABé","call":{"method":"schema_name"}}"#);
    assert_eq!(request.id, "ABé");
    let request = parse_request(r#"{"id":"😀","call":{"method":"schema_name"}}"#);
    assert_eq!(request.id, "😀");
    let request = parse_request("{\"id\":\"a\\u0009b\",\"call\":{\"method\":\"schema_name\"}}");
    assert_eq!(request.id, "a\tb");
}

#[test]
fn lone_surrogate_halves_are_rejected() {
    let chars: Vec<char> = r#"{"id":"\ude00","call":{"method":"schema_name"}}"#
        .chars()
        .collect();
    assert!(matches!(p_request_exec(&chars, 0), Err(JErr::Fail)));
    let chars: Vec<char> = r#"{"id":"\ud83dx","call":{"method":"schema_name"}}"#
        .chars()
        .collect();
    assert!(matches!(p_request_exec(&chars, 0), Err(JErr::Fail)));
}

#[test]
fn leading_zeros_are_not_numbers() {
    let chars: Vec<char> =
        r#"{"id":"1","call":{"method":"process_key","params":{"keycode":01,"mask":0}}}"#
            .chars()
            .collect();
    assert!(matches!(p_request_exec(&chars, 0), Err(JErr::Fail)));
    // a plain zero still is one
    let request = parse_request(
        r#"{"id":"1","call":{"method":"process_key","params":{"keycode":0,"mask":0}}}"#,
    );
    assert!(matches!(request.call, Call::ProcessKey { keycode: 0, mask: 0 }));
}

#[test]
fn saturated_cursor_report_parameters_fail() {
    // far more digits than any terminal coordinate: the sequence fails
    let mut state = ParserStateImpl::Start.consume_byte(0x1b).consume_byte(0x5b);
    for _ in 0..9 {
        state = state.consume_byte(b'9');
    }
    state = state.consume_byte(0x3b).consume_byte(b'5').consume_byte(b'R');
    assert!(matches!(state, ParserStateImpl::Failed));
}

#[test]
fn composition_rendering_marks_selection_and_cursor() {
    let composition = RimeComposition {
        length: 2,
        cursor_pos: 2,
        sel_start: 0,
        sel_end: 2,
        preedit: "mi".to_string(),
    };
    // prompt, faint, normal at the selection start, the preedit, normal,
    // erase right, and the cursor query after the end-of-line cursor
    assert_eq!(
        composition_ui_bytes(&composition),
        b"\r> \x1b[2m\x1b[0mmi\x1b[0m\x1b[0K\x1b[6n".to_vec()
    );
    let composition = RimeComposition {
        length: 2,
        cursor_pos: 1,
        sel_start: 1,
        sel_end: 2,
        preedit: "mi".to_string(),
    };
    assert_eq!(
        composition_ui_bytes(&composition),
        b"\r> \x1b[2mm\x1b[0m\x1b[6ni\x1b[0m\x1b[0K".to_vec()
    );
}

#[test]
fn cursor_move_bytes() {
    assert_eq!(cursor_to_bytes(12, 34), b"\x1b[12;34H".to_vec());
    assert_eq!(cursor_to_bytes(1, 1), b"\x1b[1;1H".to_vec());
}

#[test]
fn cursor_wait_defers_everything_but_the_report() {
    assert!(matches!(
        cpr_wait_step(TerminalInput::CursorPositionReport { row: 3, col: 7 }),
        CprStep::Report { row: 3, col: 7 }
    ));
    assert!(matches!(
        cpr_wait_step(TerminalInput::Char('a')),
        CprStep::Defer(TerminalInput::Char('a'))
    ));
    assert_eq!(menu_top_row(10, 3), 7);
    assert_eq!(menu_top_row(2, 5), 1);
}

#[test]
fn a_closed_source_fails_the_poll() {
    assert!(matches!(
        hangup_check(true),
        Err(Error::OneOfMultipleInputClosed)
    ));
    assert!(hangup_check(false).is_ok());
}
