use capbridge::codec::{base64_decode, base64_encode, hex};
use capbridge::ctx::Ctx;
use capbridge::digest::{md5, sha1, sha2_256, sha2_512, sha3_256, sha3_512};
use capbridge::ldap::{
    ldap_escape, search_bind_step, LdapAction, LdapEvent, LdapOutcome, SearchBindInputs,
    SearchBindState, SimpleBindState, simple_bind_step,
};
use capbridge::options::{parse_options, OptionsError};
use capbridge::random::rand;
use capbridge::registry::Registry;
use capbridge::render::render;
use capbridge::spawn::{execve_args, execve_outcome};
use capbridge::transport::{basic_auth_authorized, response_value};
use capbridge::value::{from_native_bytes, to_native_bytes, ConversionError, Num, Value};

fn num(n: i64) -> Value {
    Value::Num(Num { trunc: n, exact: true })
}

fn inexact(n: i64) -> Value {
    Value::Num(Num { trunc: n, exact: false })
}

fn byte_array(bytes: &[i64]) -> Value {
    let mut pairs = Vec::new();
    for (i, b) in bytes.iter().enumerate() {
        pairs.push((num(i as i64 + 1), num(*b)));
    }
    Value::Arr(pairs)
}

#[test]
fn bytes_round_trip() {
    let v = from_native_bytes(&[0u8, 255, 16, 7]);
    assert_eq!(to_native_bytes(v).unwrap(), vec![0u8, 255, 16, 7]);
}

#[test]
fn single_byte_array_conversions() {
    for n in [0i64, 1, 127, 255] {
        let v = Value::Arr(vec![(num(1), num(n))]);
        assert_eq!(to_native_bytes(v).unwrap(), vec![n as u8]);
    }
    for n in [-1i64, 256, 1000] {
        let v = Value::Arr(vec![(num(1), num(n))]);
        match to_native_bytes(v) {
            Err(ConversionError::NumOutOfRange(bad)) => assert_eq!(bad.trunc, n),
            other => panic!("expected out-of-range error, got {:?}", other),
        }
    }
    let v = Value::Arr(vec![(num(1), inexact(3))]);
    assert!(matches!(
        to_native_bytes(v),
        Err(ConversionError::NumOutOfRange(_))
    ));
    let v = Value::Arr(vec![(num(1), Value::Bool(true))]);
    assert!(matches!(
        to_native_bytes(v),
        Err(ConversionError::UnexpectedType(_, _))
    ));
    assert!(matches!(
        to_native_bytes(Value::Nil),
        Err(ConversionError::InvalidType(_))
    ));
}

#[test]
fn text_converts_to_utf8_bytes() {
    assert_eq!(
        to_native_bytes(Value::Str("abc".to_string())).unwrap(),
        b"abc".to_vec()
    );
}

#[test]
fn hex_example() {
    let mut ctx = Ctx::new();
    let v = from_native_bytes(&[0u8, 255, 16]);
    assert_eq!(hex(&mut ctx, v).unwrap(), "00ff10");
    assert!(ctx.last_err().is_none());
}

#[test]
fn hex_of_numeric_array_and_empty() {
    let mut ctx = Ctx::new();
    assert_eq!(hex(&mut ctx, byte_array(&[0, 255, 16])).unwrap(), "00ff10");
    assert_eq!(hex(&mut ctx, from_native_bytes(&[])).unwrap(), "");
}

#[test]
fn hex_conversion_failure_sets_error() {
    let mut ctx = Ctx::new();
    assert!(hex(&mut ctx, byte_array(&[300])).is_err());
    assert_eq!(
        ctx.last_err().unwrap(),
        "number is out of range: 300.0"
    );
    assert!(hex(&mut ctx, Value::Bool(true)).is_err());
    assert_eq!(ctx.last_err().unwrap(), "invalid type: true");
}

#[test]
fn base64_encode_decode() {
    let mut ctx = Ctx::new();
    let encoded = base64_encode(&mut ctx, Value::Str("foobar".to_string())).unwrap();
    assert_eq!(encoded, "Zm9vYmFy");
    let decoded = base64_decode(&mut ctx, "Zm9vYmFy").unwrap();
    assert_eq!(to_native_bytes(decoded).unwrap(), b"foobar".to_vec());
}

#[test]
fn base64_decode_malformed_sets_error() {
    let mut ctx = Ctx::new();
    let r = base64_decode(&mut ctx, "====");
    assert!(r.is_err());
    assert!(ctx.last_err().is_some());
}

#[test]
fn failure_message_outlives_later_successes() {
    let mut ctx = Ctx::new();
    assert!(base64_decode(&mut ctx, "====").is_err());
    let message = ctx.last_err().unwrap().clone();
    let _ = hex(&mut ctx, from_native_bytes(&[1, 2])).unwrap();
    let _ = ctx.http_mksession();
    assert_eq!(ctx.last_err().unwrap(), &message);
}

#[test]
fn digests_match_known_vectors() {
    let mut ctx = Ctx::new();
    let empty = || from_native_bytes(&[]);
    let abc = || Value::Str("abc".to_string());
    let d = md5(&mut ctx, empty()).unwrap();
    assert_eq!(
        hex(&mut ctx, d).unwrap(),
        "d41d8cd98f00b204e9800998ecf8427e"
    );
    let d = sha1(&mut ctx, empty()).unwrap();
    assert_eq!(
        hex(&mut ctx, d).unwrap(),
        "da39a3ee5e6b4b0d3255bfef95601890afd80709"
    );
    let d = sha2_256(&mut ctx, abc()).unwrap();
    assert_eq!(
        hex(&mut ctx, d).unwrap(),
        "ba7816bf8f01cfea414140de5dae2223b00361a396177a9cb410ff61f20015ad"
    );
    let d = sha2_512(&mut ctx, abc()).unwrap();
    assert_eq!(
        hex(&mut ctx, d).unwrap(),
        "ddaf35a193617abacc417349ae20413112e6fa4e89a97ea20a9eeee64b55d39a\
         2192992a274fc1a836ba3c23a3feebbd454d4423643ce80e2a9ac94fa54ca49f"
    );
    let d = sha3_256(&mut ctx, empty()).unwrap();
    assert_eq!(
        hex(&mut ctx, d).unwrap(),
        "a7ffc6f8bf1ed76651c14756a061d662f580ff4de43b49fa82d80a4b80f8434a"
    );
    let d = sha3_512(&mut ctx, empty()).unwrap();
    assert_eq!(
        hex(&mut ctx, d).unwrap(),
        "a69f73cca23a9ac5c8b567dc185a756e97c982164fe25859e0d1dcc1475c80a6\
         15b2123af1f5f94c11e3e9402c3ac558f500199d95b6d3e301758586281dcd26"
    );
    assert!(ctx.last_err().is_none());
}

#[test]
fn digest_rejects_bad_argument() {
    let mut ctx = Ctx::new();
    assert!(md5(&mut ctx, Value::Other).is_err());
    assert_eq!(ctx.last_err().unwrap(), "invalid type: LuaOther");
}

#[test]
fn session_and_request_tokens_are_distinct() {
    let mut ctx = Ctx::new();
    let session = ctx.http_mksession();
    let token = ctx
        .http_request(
            &session,
            "GET".to_string(),
            "http://example".to_string(),
            Value::Arr(vec![]),
        )
        .unwrap();
    assert_ne!(token, session);
}

#[test]
fn send_consumes_the_request_token() {
    let mut ctx = Ctx::new();
    let session = ctx.http_mksession();
    let token = ctx
        .http_request(
            &session,
            "GET".to_string(),
            "http://example".to_string(),
            Value::Arr(vec![]),
        )
        .unwrap();
    let first = ctx.http_send_take(&token);
    assert!(first.is_ok());
    let req = first.unwrap();
    assert_eq!(req.session, session);
    assert_eq!(req.method, "GET");
    assert_eq!(req.url, "http://example");
    let second = ctx.http_send_take(&token);
    assert!(second.is_err());
    assert_eq!(ctx.last_err().unwrap(), "unknown request");
}

#[test]
fn send_of_fabricated_token_is_unknown() {
    let mut ctx = Ctx::new();
    let _session = ctx.http_mksession();
    let bogus = "r999".to_string();
    assert!(ctx.http_send_take(&bogus).is_err());
    assert_eq!(ctx.last_err().unwrap(), "unknown request");
}

#[test]
fn request_with_unknown_session_fails() {
    let mut ctx = Ctx::new();
    let bogus = "s7".to_string();
    let r = ctx.http_request(
        &bogus,
        "GET".to_string(),
        "http://example".to_string(),
        Value::Arr(vec![]),
    );
    assert!(r.is_err());
    assert_eq!(ctx.last_err().unwrap(), "unknown session");
}

#[test]
fn request_options_are_validated() {
    let opts = parse_options(Value::Arr(vec![
        (Value::Str("timeout".into()), num(30)),
        (Value::Str("tls_verify".into()), Value::Bool(false)),
        (
            Value::Str("headers".into()),
            Value::Arr(vec![(
                Value::Str("user-agent".into()),
                Value::Str("probe".into()),
            )]),
        ),
        (Value::Str("body".into()), byte_array(&[1, 2])),
    ]))
    .unwrap();
    assert_eq!(opts.timeout, Some(30));
    assert!(!opts.tls_verify);
    assert!(opts.follow_redirects);
    assert_eq!(opts.headers.len(), 1);
    assert_eq!(opts.headers[0].0, "user-agent");
    assert_eq!(opts.headers[0].1, "probe");
    assert_eq!(opts.body, Some(vec![1, 2]));

    let bad = parse_options(Value::Arr(vec![(
        Value::Str("nonsense".into()),
        Value::Bool(true),
    )]));
    match bad {
        Err(OptionsError::UnknownKey(k)) => assert_eq!(k, "nonsense"),
        other => panic!("expected unknown-key error, got {:?}", other),
    }
    assert!(matches!(
        parse_options(Value::Arr(vec![(
            Value::Str("timeout".into()),
            Value::Bool(true)
        )])),
        Err(OptionsError::BadValue(_))
    ));
    assert!(matches!(
        parse_options(Value::Nil),
        Err(OptionsError::NotAMap)
    ));
    assert!(matches!(
        parse_options(Value::Arr(vec![(num(1), Value::Bool(true))])),
        Err(OptionsError::KeyNotText)
    ));
}

#[test]
fn invalid_options_become_a_soft_failure() {
    let mut ctx = Ctx::new();
    let session = ctx.http_mksession();
    let r = ctx.http_request(
        &session,
        "GET".to_string(),
        "http://example".to_string(),
        Value::Arr(vec![(Value::Str("nonsense".into()), Value::Bool(true))]),
    );
    assert!(r.is_err());
    assert_eq!(ctx.last_err().unwrap(), "invalid request options");
}

#[test]
fn search_bind_stops_without_third_bind_on_empty_search() {
    let mut ctx = Ctx::new();
    let inputs = SearchBindInputs {
        url: "ldap://example".into(),
        search_user: "cn=search".into(),
        search_pw: "pw".into(),
        base_dn: "dc=example".into(),
        user: "alice".into(),
        password: "secret".into(),
    };
    let (state, action) = search_bind_step(
        &mut ctx,
        &inputs,
        SearchBindState::Searching,
        LdapEvent::Searched(Ok(vec![])),
    );
    assert_eq!(state, SearchBindState::Done(LdapOutcome::Rejected));
    assert!(matches!(action, LdapAction::Stop));
    assert!(ctx.last_err().is_none());
}

#[test]
fn search_bind_walks_the_whole_procedure() {
    let mut ctx = Ctx::new();
    let inputs = SearchBindInputs {
        url: "ldap://example".into(),
        search_user: "cn=search".into(),
        search_pw: "pw".into(),
        base_dn: "dc=example".into(),
        user: "ali,ce".into(),
        password: "secret".into(),
    };
    let (state, action) = search_bind_step(&mut ctx, &inputs, SearchBindState::Init, LdapEvent::Start);
    assert_eq!(state, SearchBindState::Connecting);
    assert!(matches!(action, LdapAction::Connect(url) if url == "ldap://example"));
    let (state, action) =
        search_bind_step(&mut ctx, &inputs, state, LdapEvent::Connected(None));
    assert_eq!(state, SearchBindState::BindingSearchUser);
    assert!(matches!(action, LdapAction::Bind(dn, pw) if dn == "cn=search" && pw == "pw"));
    let (state, action) = search_bind_step(&mut ctx, &inputs, state, LdapEvent::Bound(Ok(true)));
    assert_eq!(state, SearchBindState::Searching);
    match action {
        LdapAction::Search(base, filter) => {
            assert_eq!(base, "dc=example");
            assert_eq!(filter, "uid=ali\\2cce");
        }
        other => panic!("expected a search action, got a different one: {:?}", state_of(other)),
    }
    let (state, action) = search_bind_step(
        &mut ctx,
        &inputs,
        state,
        LdapEvent::Searched(Ok(vec!["uid=alice,dc=example".into()])),
    );
    assert_eq!(state, SearchBindState::BindingCandidate);
    assert!(
        matches!(action, LdapAction::Bind(dn, pw) if dn == "uid=alice,dc=example" && pw == "secret")
    );
    let (state, action) = search_bind_step(&mut ctx, &inputs, state, LdapEvent::Bound(Ok(true)));
    assert_eq!(state, SearchBindState::Done(LdapOutcome::Accepted));
    assert!(matches!(action, LdapAction::Stop));
    assert!(ctx.last_err().is_none());
}

fn state_of(a: LdapAction) -> &'static str {
    match a {
        LdapAction::Connect(_) => "connect",
        LdapAction::Bind(_, _) => "bind",
        LdapAction::Search(_, _) => "search",
        LdapAction::Stop => "stop",
    }
}

#[test]
fn search_bind_rejected_search_user_is_an_error() {
    let mut ctx = Ctx::new();
    let inputs = SearchBindInputs {
        url: "ldap://example".into(),
        search_user: "cn=search".into(),
        search_pw: "pw".into(),
        base_dn: "dc=example".into(),
        user: "alice".into(),
        password: "secret".into(),
    };
    let (state, _) = search_bind_step(
        &mut ctx,
        &inputs,
        SearchBindState::BindingSearchUser,
        LdapEvent::Bound(Ok(false)),
    );
    assert_eq!(state, SearchBindState::Done(LdapOutcome::Failed));
    assert_eq!(ctx.last_err().unwrap(), "login with search user failed");
}

#[test]
fn simple_bind_reports_the_server_answer() {
    let mut ctx = Ctx::new();
    let url = "ldap://example".to_string();
    let dn = "cn=admin".to_string();
    let pw = "pw".to_string();
    let (state, _) =
        simple_bind_step(&mut ctx, &url, &dn, &pw, SimpleBindState::Init, LdapEvent::Start);
    assert_eq!(state, SimpleBindState::Connecting);
    let (state, _) = simple_bind_step(&mut ctx, &url, &dn, &pw, state, LdapEvent::Connected(None));
    assert_eq!(state, SimpleBindState::Binding);
    let (state, _) = simple_bind_step(&mut ctx, &url, &dn, &pw, state, LdapEvent::Bound(Ok(false)));
    assert_eq!(state, SimpleBindState::Done(LdapOutcome::Rejected));
    assert!(ctx.last_err().is_none());
    let (state, _) = simple_bind_step(
        &mut ctx,
        &url,
        &dn,
        &pw,
        SimpleBindState::Connecting,
        LdapEvent::Connected(Some("ldap connection failed".into())),
    );
    assert_eq!(state, SimpleBindState::Done(LdapOutcome::Failed));
    assert_eq!(ctx.last_err().unwrap(), "ldap connection failed");
}

#[test]
fn ldap_escape_follows_rfc_4514() {
    assert_eq!(ldap_escape("alice"), "alice");
    assert_eq!(ldap_escape("ali,ce"), "ali\\2cce");
}

#[test]
fn rendering_is_deterministic() {
    assert_eq!(render(&Value::Nil), "null");
    assert_eq!(render(&Value::Bool(true)), "true");
    assert_eq!(render(&num(3)), "3.0");
    assert_eq!(render(&num(-12)), "-12.0");
    assert_eq!(render(&inexact(3)), "~3");
    assert_eq!(render(&Value::Str("a\"b\\c".into())), "\"a\\\"b\\\\c\"");
    assert_eq!(render(&Value::Str("a\nb\tc".into())), "\"a\\nb\\tc\"");
    assert_eq!(render(&Value::Str("\u{1}\u{1f}\u{7f}".into())), "\"\\u{1}\\u{1f}\\u{7f}\"");
    assert_eq!(render(&from_native_bytes(&[0, 255, 16])), "[0, 255, 16]");
    let map = Value::Arr(vec![
        (Value::Str("a".into()), num(1)),
        (Value::Str("b".into()), Value::Arr(vec![])),
    ]);
    assert_eq!(render(&map), "{\"a\": 1.0, \"b\": {}}");
    assert_eq!(render(&Value::Other), "LuaOther");
}

#[test]
fn response_map_has_the_documented_shape() {
    let v = response_value(
        200,
        vec![("set-cookie".to_string(), "a=1".to_string())],
        vec![104, 105],
    );
    assert_eq!(
        render(&v),
        "{\"status\": 200.0, \"headers\": {\"set-cookie\": \"a=1\"}, \"body\": [104, 105]}"
    );
}

#[test]
fn basic_auth_decision() {
    assert!(basic_auth_authorized(false, 200));
    assert!(!basic_auth_authorized(true, 200));
    assert!(!basic_auth_authorized(false, 401));
    assert!(!basic_auth_authorized(true, 401));
}

#[test]
fn execve_argument_filtering_and_outcome() {
    let args = vec![
        Value::Str("-l".into()),
        num(3),
        Value::Str("/tmp".into()),
        Value::Nil,
    ];
    assert_eq!(execve_args(&args), vec!["-l".to_string(), "/tmp".to_string()]);
    let mut ctx = Ctx::new();
    assert_eq!(execve_outcome(&mut ctx, Some(2)).unwrap(), 2);
    assert!(ctx.last_err().is_none());
    assert!(execve_outcome(&mut ctx, None).is_err());
    assert_eq!(ctx.last_err().unwrap(), "process didn't return exit code");
}

#[test]
fn bounded_random_stays_in_range() {
    for _ in 0..100 {
        let r = rand(10, 13);
        assert!((10..13).contains(&r));
    }
    assert_eq!(rand(7, 8), 7);
}

#[test]
fn registry_names_are_unique() {
    let mut reg = Registry::new();
    assert!(reg.register("hex".to_string(), 1).is_ok());
    assert!(reg.register("http_request".to_string(), 4).is_ok());
    assert!(reg.register("hex".to_string(), 2).is_err());
    assert_eq!(reg.lookup("hex"), Some(1));
    assert_eq!(reg.lookup("nope"), None);
    assert!(reg.arity_ok("http_request", 4));
    assert!(!reg.arity_ok("http_request", 3));
    assert!(!reg.arity_ok("nope", 0));
}

#[test]
fn last_err_value_mirrors_the_slot() {
    let mut ctx = Ctx::new();
    assert!(matches!(ctx.last_err_value(), Value::Nil));
    assert!(hex(&mut ctx, Value::Other).is_err());
    match ctx.last_err_value() {
        Value::Str(m) => assert_eq!(m, "invalid type: LuaOther"),
        other => panic!("expected text, got {:?}", other),
    }
}

#[test]
fn html_selection_finds_elements() {
    let mut ctx = Ctx::new();
    let doc = "<html><body><a href=\"/one\">first</a><a href=\"/two\">second</a></body></html>";
    let first = capbridge::htmlq::html_select(&mut ctx, doc, "a").unwrap();
    match first {
        Value::Arr(pairs) => {
            assert_eq!(pairs.len(), 3);
            match &pairs[1] {
                (Value::Str(k), Value::Str(text)) => {
                    assert_eq!(k, "text");
                    assert_eq!(text, "first");
                }
                other => panic!("expected the text field, got {:?}", other),
            }
        }
        other => panic!("expected an element map, got {:?}", other),
    }
    let all = capbridge::htmlq::html_select_list(&mut ctx, doc, "a").unwrap();
    assert_eq!(all.len(), 2);
    assert!(ctx.last_err().is_none());
}

#[test]
fn html_selection_failures_set_the_error_slot() {
    let mut ctx = Ctx::new();
    assert!(capbridge::htmlq::html_select(&mut ctx, "<html></html>", "!!!").is_err());
    assert!(ctx.last_err().is_some());
    let mut ctx = Ctx::new();
    assert!(capbridge::htmlq::html_select(&mut ctx, "<html></html>", "a").is_err());
    assert_eq!(ctx.last_err().unwrap(), "no element matched the selector");
    let all = capbridge::htmlq::html_select_list(&mut ctx, "<html></html>", "a").unwrap();
    assert!(all.is_empty());
}
