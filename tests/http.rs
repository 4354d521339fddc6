use daybreak::http::{complete, decode_response, encode_params, Method, Request, RequestError, API_BASE, USER_AGENT};
use daybreak::model::Id;
use daybreak::permission::{PermissionSet, Permissions};
use daybreak::{Context, ContextConfig};

fn ctx_with(flags: &[Permissions]) -> Context {
    let mut set = PermissionSet::empty();
    for flag in flags {
        set = set.union(PermissionSet::from_flag(*flag));
    }
    Context::new(&ContextConfig { token: "foo" }).with_permissions(set)
}

#[test]
fn context_new() {
    assert_eq!(
        Context::new(&ContextConfig { token: "foo" }).token,
        "Bot foo"
    );
}

#[test]
fn new_context_holds_every_permission() {
    assert_eq!(Context::new(&ContextConfig { token: "foo" }).permissions, PermissionSet::all());
}

#[test]
fn missing_permissions_are_refused_before_sending() {
    let ctx = ctx_with(&[Permissions::ViewChannel]);
    let required = PermissionSet::from_flag(Permissions::ManageGuild)
        .union(PermissionSet::from_flag(Permissions::ViewChannel));
    let request = Request::new(required, Method::Get, "/guilds/1/auto-moderation/rules".to_string());
    match ctx.prepare(request, None) {
        Err(RequestError::MissingPermissions(lacking)) => {
            assert_eq!(lacking, PermissionSet::from_flag(Permissions::ManageGuild))
        }
        other => panic!("expected a refusal, got {:?}", other),
    }
}

#[test]
fn authorized_request_is_formed() {
    let ctx = ctx_with(&[Permissions::ManageGuild]);
    let request = Request::new(
        PermissionSet::from_flag(Permissions::ManageGuild),
        Method::Delete,
        "/guilds/5/auto-moderation/rules/6".to_string(),
    );
    let wire = ctx.prepare(request, Some("{}".to_string())).unwrap();
    assert_eq!(wire.method, Method::Delete);
    assert_eq!(wire.uri, "https://discord.com/api/v10/guilds/5/auto-moderation/rules/6");
    assert_eq!(wire.user_agent, USER_AGENT);
    assert_eq!(wire.authorization, "Bot foo");
    assert_eq!(wire.body.as_deref(), Some("{}"));
    assert_eq!(API_BASE, "https://discord.com/api/v10");
}

#[test]
fn empty_request_has_no_body() {
    let ctx = ctx_with(&[]);
    let request = Request::new(PermissionSet::empty(), Method::Get, "/gateway".to_string());
    let wire = ctx.empty_request(request).unwrap();
    assert_eq!(wire.body, None);
    assert_eq!(wire.uri, "https://discord.com/api/v10/gateway");
}

#[test]
fn request_with_params_writes_json_body() {
    let ctx = ctx_with(&[Permissions::ManageEmojisAndStickers]);
    let request = Request::new(
        PermissionSet::from_flag(Permissions::ManageEmojisAndStickers),
        Method::Post,
        "/guilds/1/emojis".to_string(),
    );
    let wire = ctx.request_with_params(request, &vec![1u64, 2, 3]).unwrap();
    assert_eq!(wire.body.as_deref(), Some("[1,2,3]"));
    assert_eq!(wire.method, Method::Post);
}

#[test]
fn request_with_params_checks_permissions_first() {
    let ctx = ctx_with(&[]);
    let request = Request::new(
        PermissionSet::from_flag(Permissions::ManageEmojisAndStickers),
        Method::Post,
        "/guilds/1/emojis".to_string(),
    );
    assert!(matches!(
        ctx.request_with_params(request, &"x"),
        Err(RequestError::MissingPermissions(_))
    ));
}

#[test]
fn encode_params_of_a_string() {
    assert_eq!(encode_params(&"a\"b").unwrap(), "\"a\\\"b\"");
}

#[test]
fn encode_params_failure_is_decode() {
    let mut map = std::collections::BTreeMap::new();
    map.insert(vec![1u8], 2u8);
    assert!(matches!(encode_params(&map), Err(RequestError::Decode(_))));
}

#[test]
fn non_utf8_response_is_decode() {
    let r: Result<u64, RequestError> = complete(Ok(vec![0xff, 0xfe, 0x31]));
    assert!(matches!(r, Err(RequestError::Decode(_))));
    let r: Result<u64, RequestError> = decode_response(&[0xc3]);
    assert!(matches!(r, Err(RequestError::Decode(_))));
}

#[test]
fn json_of_the_wrong_shape_is_decode() {
    let r: Result<Vec<u64>, RequestError> = complete(Ok(br#"{"id": "1"}"#.to_vec()));
    assert!(matches!(r, Err(RequestError::Decode(_))));
    let r: Result<(u64, String), RequestError> = complete(Ok(b"[1]".to_vec()));
    assert!(matches!(r, Err(RequestError::Decode(_))));
}

#[test]
fn malformed_json_is_decode() {
    let r: Result<u64, RequestError> = complete(Ok(b"{".to_vec()));
    assert!(matches!(r, Err(RequestError::Decode(_))));
}

#[test]
fn connection_failure_is_transport() {
    let r: Result<u64, RequestError> = complete(Err("connection refused".to_string()));
    match r {
        Err(RequestError::Transport(message)) => assert_eq!(message, "connection refused"),
        other => panic!("expected a transport error, got {:?}", other),
    }
}

#[test]
fn well_formed_response_is_decoded() {
    let r: Result<Vec<u64>, RequestError> = complete(Ok(b"[1, 2]".to_vec()));
    assert_eq!(r.unwrap(), vec![1, 2]);
    let r: Result<String, RequestError> = decode_response("\"h\u{e9}\"".as_bytes());
    assert_eq!(r.unwrap(), "h\u{e9}");
}

#[test]
fn routes_build_paths_and_permissions() {
    let ctx = ctx_with(&[Permissions::ManageGuild, Permissions::ViewChannel]);
    let wire = ctx.auto_moderation_rule(Id(12), Id(345)).unwrap();
    assert_eq!(wire.uri, "https://discord.com/api/v10/guilds/12/auto-moderation/rules/345");
    assert_eq!(wire.method, Method::Get);
    let wire = ctx.edit(Id(9), "{\"name\":\"x\"}".to_string()).unwrap();
    assert_eq!(wire.uri, "https://discord.com/api/v10/channels/9");
    assert_eq!(wire.method, Method::Patch);
    assert_eq!(wire.body.as_deref(), Some("{\"name\":\"x\"}"));
    let wire = ctx.emojis(Id(3)).unwrap();
    assert_eq!(wire.uri, "https://discord.com/api/v10/guilds/3/emojis");
    match ctx.delete_sticker(Id(3), Id(4)) {
        Err(RequestError::MissingPermissions(lacking)) => {
            assert_eq!(lacking, PermissionSet::from_flag(Permissions::ManageEmojisAndStickers))
        }
        other => panic!("expected a refusal, got {:?}", other),
    }
    let wire = ctx.get_gateway_bot().unwrap();
    assert_eq!(wire.uri, "https://discord.com/api/v10/gateway/bot");
}
