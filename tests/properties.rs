use vndb::codec::{parse_response, Codec};
use vndb::decode::Decimal;
use vndb::json::{Json, JsonError};
use vndb::request::{Filters, Flags, Get, Login, Options, Request, Type};
use vndb::response::{Response, ResponseParseError, VndbError};
use vndb::results::{CharacterGender, VnStatus};

use bytes::BufMut;

fn buffer_of(message: &[u8]) -> bytes::BytesMut {
    let mut bytes = bytes::BytesMut::with_capacity(message.len());
    bytes.put(message);
    bytes
}

fn decode_one(message: &[u8]) -> (Result<Option<Response>, ResponseParseError>, usize) {
    let mut bytes = buffer_of(message);
    let mut codec = Codec::new();
    let result = codec.decode(&mut bytes);
    (result, bytes.len())
}

#[test]
fn decode_ok_in_two_chunks_of_one_buffer() {
    let mut bytes = buffer_of(b"ok");
    let mut codec = Codec::new();
    assert!(codec.decode(&mut bytes).unwrap().is_none());
    assert_eq!(bytes.len(), 2);
    bytes.put(&b"\x04"[..]);
    match codec.decode(&mut bytes).unwrap() {
        Some(Response::Okay) => {},
        other => panic!("unexpected {:?}", other),
    }
    assert_eq!(bytes.len(), 0);
}

#[test]
fn decode_unknown_command_consumes_frame() {
    let mut bytes = buffer_of(b"bogus\x04");
    let mut codec = Codec::new();
    assert!(matches!(codec.decode(&mut bytes), Err(ResponseParseError::UnknownCommand)));
    assert_eq!(bytes.len(), 0);
    bytes.put(&b"ok\x04"[..]);
    assert!(matches!(codec.decode(&mut bytes), Ok(Some(Response::Okay))));
    assert_eq!(bytes.len(), 0);
}

#[test]
fn decode_takes_one_frame_per_call() {
    let mut bytes = buffer_of(b"ok\x04error {\"id\":\"auth\",\"msg\":\"no\"}\x04dbsta");
    let mut codec = Codec::new();
    assert!(matches!(codec.decode(&mut bytes), Ok(Some(Response::Okay))));
    match codec.decode(&mut bytes) {
        Ok(Some(Response::Error(e))) => {
            assert_eq!(e.id, "auth");
            assert_eq!(e.msg, "no");
        },
        other => panic!("unexpected {:?}", other),
    }
    assert!(matches!(codec.decode(&mut bytes), Ok(None)));
    assert_eq!(&bytes[..], &b"dbsta"[..]);
}

#[test]
fn round_trip_requests_one_byte_at_a_time() {
    let requests = vec![
        Request::Login(Login::new(None)),
        Request::DBstats,
        Request::Get(Get {
            kind: Type::vn(),
            flags: Flags::new().basic(),
            filters: Filters::new().filter("id = 17"),
            options: None,
        }),
    ];
    let mut codec = Codec::new();
    let mut stream = bytes::BytesMut::new();
    let mut texts = Vec::new();
    for r in requests {
        texts.push(r.render());
        codec.encode(r, &mut stream).unwrap();
    }
    let mut buffer = bytes::BytesMut::new();
    let mut decoder = Codec::new();
    let mut frames = 0;
    let mut incomplete = 0;
    for b in stream.iter() {
        buffer.put_u8(*b);
        loop {
            match decoder.decode(&mut buffer) {
                Ok(None) => {
                    incomplete += 1;
                    break;
                },
                _ => frames += 1,
            }
        }
    }
    assert_eq!(frames, 3);
    assert_eq!(incomplete, stream.len());
    assert_eq!(buffer.len(), 0);
    let total: usize = texts.iter().map(|t| t.len()).sum();
    assert_eq!(total, stream.len());
}

#[test]
fn round_trip_responses_in_uneven_chunks() {
    let stream = b"ok\x04dbstats {\"vn\":3}\x04results {\"num\":0,\"more\":false,\"items\":[]}\x04";
    let mut buffer = bytes::BytesMut::new();
    let mut codec = Codec::new();
    let mut kinds = Vec::new();
    for chunk in stream.chunks(7) {
        buffer.put(chunk);
        while let Some(r) = codec.decode(&mut buffer).unwrap() {
            kinds.push(match r {
                Response::Okay => "ok",
                Response::DBstats(_) => "dbstats",
                Response::Results(_) => "results",
                Response::Error(_) => "error",
            });
        }
    }
    assert_eq!(kinds, vec!["ok", "dbstats", "results"]);
    assert_eq!(buffer.len(), 0);
}

#[test]
fn decode_errors_each_kind() {
    assert!(matches!(decode_one(b"\x04"), (Err(ResponseParseError::EmptyResponse), 0)));
    assert!(matches!(decode_one(b"ok\xff\x04"), (Err(ResponseParseError::NotUtf8), 0)));
    assert!(matches!(decode_one(b"results\x04"), (Err(ResponseParseError::EmptyResults), 0)));
    assert!(matches!(decode_one(b"dbstats\x04"), (Err(ResponseParseError::EmptyDbStats), 0)));
    assert!(matches!(decode_one(b"error\x04"), (Err(ResponseParseError::EmptyError), 0)));
    assert!(matches!(
        decode_one(b"results {\x04"),
        (Err(ResponseParseError::InvalidResults(JsonError::Syntax(_))), 0)
    ));
    assert!(matches!(
        decode_one(b"dbstats {\"vn\":\"many\"}\x04"),
        (Err(ResponseParseError::InvalidDbStats(JsonError::Mismatch)), 0)
    ));
    assert!(matches!(
        decode_one(b"dbstats nope\x04"),
        (Err(ResponseParseError::InvalidDbStats(JsonError::Syntax(_))), 0)
    ));
    assert!(matches!(
        decode_one(b"error {\"id\":1,\"msg\":\"x\"}\x04"),
        (Err(ResponseParseError::InvalidError(JsonError::Mismatch)), 0)
    ));
    assert!(matches!(decode_one(b" ok\x04"), (Err(ResponseParseError::UnknownCommand), 0)));
}

#[test]
fn ok_ignores_its_payload() {
    assert!(matches!(Response::from_str("ok whatever"), Ok(Response::Okay)));
}

#[test]
fn parse_response_needs_the_terminator() {
    assert!(matches!(parse_response(b"ok\x04"), Ok(Some(Response::Okay))));
    assert!(matches!(parse_response(b"ok"), Ok(None)));
    assert!(matches!(parse_response(b""), Ok(None)));
}

#[test]
fn projection_twice_gives_equal_values() {
    let text = "results {\"num\":1,\"more\":true,\"items\":[{\"id\":5,\"title\":\"A\",\"tags\":[{\"id\":3,\"score\":2.5,\"spoiler level\":1}],\"popularity\":12.75}]}";
    match Response::from_str(text).unwrap() {
        Response::Results(results) => {
            let first = results.vn().unwrap();
            let second = results.vn().unwrap();
            assert_eq!(first, second);
            assert_eq!(first.more, true);
            assert_eq!(first.items[0].tags[0].score, Decimal { text: "2.5".to_string() });
            assert_eq!(first.items[0].tags[0].spoiler, 1);
            assert_eq!(first.items[0].popularity, Some(Decimal { text: "12.75".to_string() }));
        },
        other => panic!("unexpected {:?}", other),
    }
}

#[test]
fn projection_of_wrong_shape_is_mismatch() {
    match Response::from_str("results {\"num\":1,\"more\":false}").unwrap() {
        Response::Results(results) => {
            assert!(matches!(results.vn(), Err(JsonError::Mismatch)));
            assert!(matches!(results.user(), Err(JsonError::Mismatch)));
        },
        other => panic!("unexpected {:?}", other),
    }
    match Response::from_str("results {\"num\":1,\"more\":false,\"items\":[{\"id\":\"x\"}]}").unwrap() {
        Response::Results(results) => assert!(matches!(results.vn(), Err(JsonError::Mismatch))),
        other => panic!("unexpected {:?}", other),
    }
}

#[test]
fn projection_of_characters_and_lists() {
    let text = "results {\"num\":1,\"more\":false,\"items\":[{\"id\":9,\"gender\":\"f\",\"birthday\":[24,12],\"traits\":[[1,0],[2,2]],\"vns\":[[17,33,0,\"main\"]],\"voiced\":[{\"id\":1,\"aid\":2,\"vid\":17,\"note\":\"\"}]}]}";
    match Response::from_str(text).unwrap() {
        Response::Results(results) => {
            let c = results.character().unwrap();
            let item = &c.items[0];
            assert_eq!(item.gender, Some(CharacterGender::Female));
            assert_eq!(item.birthday, Some((24, 12)));
            assert_eq!(item.traits, vec![(1, 0), (2, 2)]);
            assert_eq!(item.vns, vec![(17, 33, 0, "main".to_string())]);
            assert_eq!(item.voiced[0].vid, 17);
            assert_eq!(item.bust, None);
        },
        other => panic!("unexpected {:?}", other),
    }
    let text = "results {\"num\":1,\"more\":false,\"items\":[{\"uid\":1,\"vn\":2,\"status\":2}]}";
    match Response::from_str(text).unwrap() {
        Response::Results(results) => {
            let l = results.vn_list().unwrap();
            assert_eq!(l.items[0].status, Some(VnStatus::Finished));
            assert_eq!(l.items[0].added, 0);
            let u = results.u_list().unwrap();
            assert_eq!(u.items[0].last_mod, 0);
            assert_eq!(u.items[0].vn, Some(2));
        },
        other => panic!("unexpected {:?}", other),
    }
    let text = "results {\"num\":1,\"more\":false,\"items\":[{\"status\":7}]}";
    match Response::from_str(text).unwrap() {
        Response::Results(results) => assert!(results.vn_list().is_err()),
        other => panic!("unexpected {:?}", other),
    }
}

#[test]
fn projection_of_release_and_producer() {
    let text = "results {\"num\":1,\"more\":false,\"items\":[{\"id\":33,\"type\":\"complete\",\"minage\":18,\"animation\":[1,2],\"media\":[{\"medium\":\"dvd\",\"qty\":2}],\"producers\":[{\"id\":4,\"developer\":true,\"publisher\":false,\"name\":\"KID\",\"original\":null,\"type\":\"co\"}]}]}";
    match Response::from_str(text).unwrap() {
        Response::Results(results) => {
            let r = results.release().unwrap();
            let item = &r.items[0];
            assert_eq!(item.kind, Some("complete".to_string()));
            assert_eq!(item.age, Some(18));
            assert_eq!(item.animation, Some((1, 2)));
            assert_eq!(item.media[0].quantity, Some(2));
            assert_eq!(item.producers[0].name, "KID");
            assert!(item.languages.is_empty());
            let p = results.producer().unwrap();
            assert_eq!(p.items[0].kind, Some("complete".to_string()));
        },
        other => panic!("unexpected {:?}", other),
    }
}

#[test]
fn json_integers_fit_or_fail() {
    assert_eq!(Json::Number("18446744073709551615".to_string()).as_u64(), Some(u64::MAX));
    assert_eq!(Json::Number("18446744073709551616".to_string()).as_u64(), None);
    assert_eq!(Json::Number("-1".to_string()).as_u64(), None);
    assert_eq!(Json::Number("1.5".to_string()).as_u64(), None);
    assert_eq!(Json::Number("300".to_string()).as_uint(255), None);
    assert_eq!(Json::Str("7".to_string()).as_u64(), None);
}

#[test]
fn flags_render_in_declaration_order_once() {
    assert_eq!(Flags::new().render(), "");
    assert_eq!(Flags::new().voiced().basic().basic().render(), "basic,voiced");
    let all = Flags::new()
        .basic().details().anime().relations().tags().stats().screens()
        .staff().vn().producers().meas().traits().vns().voiced();
    assert_eq!(
        all.render(),
        "basic,details,anime,relations,tags,stats,screens,staff,vn,producers,meas,traits,vns,voiced"
    );
}

#[test]
fn filters_render() {
    assert_eq!(Filters::new().render(), "");
    assert_eq!(Filters::new().filter("id = 1").render(), "(id = 1)");
    assert_eq!(Filters::new().filter("id = 1").and("id = 2").or("id = 3").render(), "(id = 1 and id = 2 or id = 3)");
}

#[test]
fn get_with_empty_filters_keeps_the_spaces() {
    let get = Request::Get(Get {
        kind: Type::character(),
        flags: Flags::new().basic(),
        filters: Filters::new(),
        options: Some(Options { page: Some(1), results: Some(25), sort: Some("name".to_string()), reverse: Some(false) }),
    });
    assert_eq!(
        get.render(),
        "get character basic  {\"page\":1,\"results\":25,\"sort\":\"name\",\"reverse\":false}\x04"
    );
}

#[test]
fn options_render_only_present_members() {
    let o = Options { page: None, results: None, sort: None, reverse: None };
    assert_eq!(o.render(), "{}");
    let o = Options { page: None, results: Some(4294967295), sort: None, reverse: None };
    assert_eq!(o.render(), "{\"results\":4294967295}");
}

#[test]
fn login_defaults() {
    let login = Login::default();
    assert_eq!(Request::from(login).render(), "login {\"protocol\":1,\"client\":\"rusty\",\"clientver\":0.1}\x04");
    let login = Login::new(Some(("u".to_string(), "p".to_string())));
    assert_eq!(login.render(), "login {\"protocol\":1,\"client\":\"rusty\",\"clientver\":0.1,\"username\":\"u\",\"password\":\"p\"}");
}

#[test]
fn types_names_and_codes() {
    let all = [
        (Type::vn(), "vn", "v"),
        (Type::release(), "release", "r"),
        (Type::producer(), "producer", "p"),
        (Type::character(), "character", "c"),
        (Type::staff(), "staff", "s"),
        (Type::user(), "user", "u"),
        (Type::votelist(), "votelist", "v"),
        (Type::vnlist(), "vnlist", "v"),
        (Type::wishlist(), "wishlist", "w"),
        (Type::ulist(), "ulist", "u"),
    ];
    for (t, name, short) in all.iter() {
        assert_eq!(t.name(), *name);
        assert_eq!(t.short(), *short);
    }
}

#[test]
fn error_descriptions() {
    let e = VndbError { id: "parse".to_string(), msg: "bad".to_string() };
    assert_eq!(e.describe(), "Error(id='parse')=bad");
    assert_eq!(ResponseParseError::UnknownCommand.describe(), "VNDB sent unknown command");
    let parsed = VndbError::from_str("{\"id\":\"auth\",\"msg\":\"denied\"}").unwrap();
    assert_eq!(parsed, VndbError { id: "auth".to_string(), msg: "denied".to_string() });
    assert!(matches!(VndbError::from_str("{\"id\":\"auth\"}"), Err(JsonError::Mismatch)));
    assert!(matches!(VndbError::from_str("{"), Err(JsonError::Syntax(_))));
}

#[test]
fn codes_of_gender_and_status() {
    assert_eq!(CharacterGender::Both.code(), "b");
    assert_eq!(VnStatus::Dropped.code(), 4);
}

#[test]
fn login_strings_are_json_escaped() {
    let login = Login {
        protocol: 1,
        client: "a\"b\\c".to_string(),
        clientver: "1.5".to_string(),
        creds: Some(("line\nbreak\u{1}".to_string(), "tab\tq\u{1f}é".to_string())),
    };
    assert_eq!(
        login.render(),
        "login {\"protocol\":1,\"client\":\"a\\\"b\\\\c\",\"clientver\":1.5,\"username\":\"line\\nbreak\\u0001\",\"password\":\"tab\\tq\\u001fé\"}"
    );
}

#[test]
fn sort_is_a_json_string() {
    let o = Options { page: None, results: None, sort: Some("ti\"tle\r\u{8}\u{c}".to_string()), reverse: None };
    assert_eq!(o.render(), "{\"sort\":\"ti\\\"tle\\r\\b\\f\"}");
}

#[test]
fn decode_all_takes_every_whole_frame() {
    let mut bytes = buffer_of(b"ok\x04bogus\x04dbstats {\"vn\":1}\x04resu");
    let mut codec = Codec::new();
    let all = codec.decode_all(&mut bytes);
    assert_eq!(all.len(), 3);
    assert!(matches!(all[0], Ok(Response::Okay)));
    assert!(matches!(all[1], Err(ResponseParseError::UnknownCommand)));
    match &all[2] {
        Ok(Response::DBstats(d)) => assert_eq!(d.vn, Some(1)),
        other => panic!("unexpected {:?}", other),
    }
    assert_eq!(&bytes[..], &b"resu"[..]);
    assert_eq!(codec.cursor(), 4);
    bytes.put(&b"lts {\"num\":0,\"more\":false,\"items\":[]}\x04"[..]);
    let rest = codec.decode_all(&mut bytes);
    assert_eq!(rest.len(), 1);
    assert_eq!(bytes.len(), 0);
}

#[test]
fn description_carries_the_parser_message() {
    match decode_one(b"results {\x04") {
        (Err(e), _) => {
            let text = e.describe();
            assert!(text.starts_with("VNDB sent invalid JSON in Results: "));
            assert!(text.len() > "VNDB sent invalid JSON in Results: ".len());
        },
        other => panic!("unexpected {:?}", other),
    }
    match decode_one(b"dbstats []\x04") {
        (Err(e), _) => assert_eq!(e.describe(), "VNDB sent DBstats of another shape."),
        other => panic!("unexpected {:?}", other),
    }
}
