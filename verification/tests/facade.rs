use dbx_bridge::config::{ConnectionConfig, Environment};
use dbx_bridge::buffer::{settle, Buffer, Outcome};
use dbx_bridge::error::BridgeError;
use dbx_bridge::facade::{
    append_request, dbx_append_event, dbx_append_event_reply, dbx_client_new,
    dbx_client_new_reply, dbx_create_aggregate, dbx_create_aggregate_reply, dbx_get_aggregate,
    dbx_get_aggregate_reply, dbx_list_aggregates, dbx_list_aggregates_reply, dbx_list_events,
    dbx_list_events_reply, dbx_patch_event, dbx_patch_event_reply, dbx_select_aggregate,
    dbx_select_aggregate_reply, dbx_set_archive, dbx_set_archive_reply, dbx_verify_aggregate,
    dbx_verify_aggregate_reply, lookup_payload, object1, object2, page_payload, patch_request,
    reply, select_aggregate_request, AggregateRef, ConnectOutcome, ListEventsRequest, Lookup, Page,
    SelectAggregateRequest, SetArchiveRequest, WriteRequest,
};
use dbx_bridge::json::{Json, JsonNumber};
use dbx_bridge::options::{ListAggregatesOptions, ListEventsOptions, PublishTarget};
use dbx_bridge::sort::{AggregateSort, AggregateSortField};

const BAD: &[u8] = &[0xff];

fn text(s: &str) -> Json {
    Json::String(s.to_string())
}

fn object(members: Vec<(&str, Json)>) -> Json {
    Json::Object(members.into_iter().map(|(k, v)| (k.to_string(), v)).collect())
}

fn unsigned(n: u64) -> Json {
    Json::Number(JsonNumber::Unsigned(n))
}

fn buffer(s: &str) -> Buffer {
    Buffer::new(s.to_string()).unwrap()
}

fn encoding(index: usize) -> BridgeError {
    BridgeError::Encoding(format!("invalid utf-8 sequence of 1 bytes from index {}", index))
}

fn write(payload: Json) -> WriteRequest {
    WriteRequest {
        aggregate_type: "order".to_string(),
        aggregate_id: "o-1".to_string(),
        event_type: "created".to_string(),
        payload,
        note: None,
        metadata: None,
        token: None,
        publish_targets: vec![],
    }
}

#[test]
fn null_handle_fails_every_operation() {
    assert_eq!(
        dbx_list_aggregates(true, Some(b"order"), Some(b"{}")),
        Err(BridgeError::NullHandle)
    );
    assert_eq!(dbx_get_aggregate(true, Some(b"order"), Some(b"o-1")), Err(BridgeError::NullHandle));
    assert_eq!(
        dbx_select_aggregate(true, Some(b"order"), Some(b"o-1"), Some(b"[]")),
        Err(BridgeError::NullHandle)
    );
    assert_eq!(
        dbx_list_events(true, Some(b"order"), Some(b"o-1"), None),
        Err(BridgeError::NullHandle)
    );
    assert_eq!(
        dbx_append_event(true, Some(b"order"), Some(b"o-1"), Some(b"created"), None),
        Err(BridgeError::NullHandle)
    );
    assert_eq!(
        dbx_create_aggregate(true, Some(b"order"), Some(b"o-1"), Some(b"created"), None),
        Err(BridgeError::NullHandle)
    );
    assert_eq!(
        dbx_patch_event(true, Some(b"order"), Some(b"o-1"), Some(b"created"), None, None),
        Err(BridgeError::NullHandle)
    );
    assert_eq!(
        dbx_set_archive(true, Some(b"order"), Some(b"o-1"), true, None),
        Err(BridgeError::NullHandle)
    );
    assert_eq!(
        dbx_verify_aggregate(true, Some(b"order"), Some(b"o-1")),
        Err(BridgeError::NullHandle)
    );
}

#[test]
fn null_handle_is_reported_before_any_other_failure() {
    assert_eq!(dbx_list_aggregates(true, Some(BAD), Some(b"{")), Err(BridgeError::NullHandle));
    assert_eq!(dbx_get_aggregate(true, Some(BAD), Some(BAD)), Err(BridgeError::NullHandle));
    assert_eq!(
        dbx_patch_event(true, Some(BAD), Some(BAD), Some(BAD), Some(b"{"), Some(b"{")),
        Err(BridgeError::NullHandle)
    );
    assert_eq!(
        settle(dbx_verify_aggregate(true, None, None).map(|_| buffer(""))),
        Outcome { buffer: None, error: Some(buffer("handle is null")) }
    );
}

#[test]
fn text_inputs_are_checked_in_order_before_documents() {
    assert_eq!(dbx_get_aggregate(false, Some(BAD), Some(b"x\xff")), Err(encoding(0)));
    assert_eq!(dbx_get_aggregate(false, Some(b"order"), Some(b"x\xff")), Err(encoding(1)));
    assert_eq!(
        dbx_append_event(false, Some(b"order"), Some(b"o-1"), Some(b"ab\xff"), Some(b"{")),
        Err(encoding(2))
    );
    assert_eq!(
        dbx_select_aggregate(false, Some(b"order"), Some(BAD), Some(b"\"x\"")),
        Err(encoding(0))
    );
    assert_eq!(
        dbx_list_events(false, Some(b"order"), Some(b"o-1"), Some(b"x\xff")),
        Err(encoding(1))
    );
}

#[test]
fn documents_are_parsed_before_options_are_judged() {
    assert_eq!(
        dbx_select_aggregate(false, Some(b"order"), Some(b"o-1"), Some(b"{")),
        Err(BridgeError::Parse("EOF while parsing an object at line 1 column 1".to_string()))
    );
    assert_eq!(
        dbx_select_aggregate(false, Some(b"order"), Some(b"o-1"), Some(b"{}")),
        Err(BridgeError::InvalidOption("fields must be an array of strings".to_string()))
    );
    assert_eq!(
        dbx_patch_event(false, Some(b"a"), Some(b"b"), Some(b"c"), Some(b"["), Some(b"{")),
        Err(BridgeError::Parse("EOF while parsing a list at line 1 column 1".to_string()))
    );
    assert_eq!(
        dbx_patch_event(false, Some(b"a"), Some(b"b"), Some(b"c"), Some(b"[]"), Some(b"{")),
        Err(BridgeError::Parse("EOF while parsing an object at line 1 column 1".to_string()))
    );
}

#[test]
fn list_aggregates_plans_options() {
    assert_eq!(
        dbx_list_aggregates(
            false,
            Some(b"order"),
            Some(br#"{"take": 10, "sort": "created_at:desc, id", "includeArchived": true}"#)
        ),
        Ok(ListAggregatesOptions {
            cursor: None,
            take: Some(10),
            filter: Some("aggregate_type = \"order\"".to_string()),
            sort: vec![
                AggregateSort { field: AggregateSortField::CreatedAt, descending: true },
                AggregateSort { field: AggregateSortField::AggregateId, descending: false },
            ],
            include_archived: true,
            archived_only: false,
            token: None,
        })
    );
    let bare = ListAggregatesOptions {
        cursor: None,
        take: None,
        filter: None,
        sort: vec![],
        include_archived: false,
        archived_only: false,
        token: None,
    };
    assert_eq!(dbx_list_aggregates(false, None, None), Ok(bare));
}

#[test]
fn get_and_verify_plan_the_aggregate() {
    let expected =
        AggregateRef { aggregate_type: "order".to_string(), aggregate_id: "o-1".to_string() };
    assert_eq!(dbx_get_aggregate(false, Some(b"order"), Some(b"o-1")), Ok(expected));
    assert_eq!(
        dbx_verify_aggregate(false, None, Some(b"o-1")),
        Ok(AggregateRef { aggregate_type: String::new(), aggregate_id: "o-1".to_string() })
    );
}

#[test]
fn select_aggregate_plans_fields() {
    assert_eq!(
        dbx_select_aggregate(
            false,
            Some(b"order"),
            Some(b"o-1"),
            Some(br#"["total", "state"]"#)
        ),
        Ok(SelectAggregateRequest {
            aggregate_type: "order".to_string(),
            aggregate_id: "o-1".to_string(),
            fields: vec!["total".to_string(), "state".to_string()],
        })
    );
    assert_eq!(
        dbx_select_aggregate(false, Some(b"order"), Some(b"o-1"), None),
        Ok(SelectAggregateRequest {
            aggregate_type: "order".to_string(),
            aggregate_id: "o-1".to_string(),
            fields: vec![],
        })
    );
    assert_eq!(
        select_aggregate_request("a".to_string(), "b".to_string(), &text("total")),
        Err(BridgeError::InvalidOption("fields must be an array of strings".to_string()))
    );
}

#[test]
fn select_aggregate_refuses_fields_that_are_not_all_strings() {
    let planned =
        dbx_select_aggregate(false, Some(b"order"), Some(b"o-1"), Some(br#"["name", 1]"#));
    assert_eq!(
        planned,
        Err(BridgeError::InvalidOption("fields must be an array of strings".to_string()))
    );
    assert_eq!(
        settle(planned.map(|_| buffer(""))),
        Outcome { buffer: None, error: Some(buffer("fields must be an array of strings")) }
    );
    assert_eq!(
        dbx_select_aggregate(false, Some(b"order"), Some(b"o-1"), Some(b"[null]")),
        Err(BridgeError::InvalidOption("fields must be an array of strings".to_string()))
    );
}

#[test]
fn list_events_plans_options() {
    assert_eq!(
        dbx_list_events(
            false,
            Some(b"order"),
            Some(b"o-1"),
            Some(br#"{"cursor": "e:5", "take": 2, "filter": "type = 'x'", "token": "t"}"#)
        ),
        Ok(ListEventsRequest {
            aggregate_type: "order".to_string(),
            aggregate_id: "o-1".to_string(),
            options: ListEventsOptions {
                cursor: Some("e:5".to_string()),
                take: Some(2),
                filter: Some("type = 'x'".to_string()),
                token: Some("t".to_string()),
            },
        })
    );
}

#[test]
fn append_and_create_normalize_a_null_payload() {
    assert_eq!(
        dbx_append_event(false, Some(b"order"), Some(b"o-1"), Some(b"created"), None),
        Ok(write(Json::Object(vec![])))
    );
    assert_eq!(
        dbx_create_aggregate(
            false,
            Some(b"order"),
            Some(b"o-1"),
            Some(b"created"),
            Some(br#"{"payload": null}"#)
        ),
        Ok(write(Json::Object(vec![])))
    );
    assert_eq!(
        dbx_append_event(
            false,
            Some(b"order"),
            Some(b"o-1"),
            Some(b"created"),
            Some(br#"{"payload": [1]}"#)
        ),
        Ok(write(Json::Array(vec![unsigned(1)])))
    );
}

#[test]
fn append_reads_payload_options() {
    let opts = br#"{"payload": {"name": "Ada"}, "metadata": {"@source": "test"}, "note": "demo",
        "token": "abc", "publishTargets": [{"plugin": "search", "mode": "all"}, {"mode": "x"}]}"#;
    let expected = WriteRequest {
        aggregate_type: "person".to_string(),
        aggregate_id: "p-1".to_string(),
        event_type: "person_created".to_string(),
        payload: object(vec![("name", text("Ada"))]),
        note: Some("demo".to_string()),
        metadata: Some(object(vec![("@source", text("test"))])),
        token: Some("abc".to_string()),
        publish_targets: vec![PublishTarget {
            plugin: "search".to_string(),
            mode: Some("all".to_string()),
            priority: None,
        }],
    };
    assert_eq!(
        dbx_create_aggregate(
            false,
            Some(b"person"),
            Some(b"p-1"),
            Some(b"person_created"),
            Some(opts)
        ),
        Ok(expected)
    );
}

#[test]
fn patch_passes_the_patch_through() {
    assert_eq!(
        dbx_patch_event(false, Some(b"order"), Some(b"o-1"), Some(b"created"), None, None),
        Ok(write(Json::Null))
    );
    let planned = dbx_patch_event(
        false,
        Some(b"order"),
        Some(b"o-1"),
        Some(b"created"),
        Some(br#"[{"op": "remove", "path": "/x"}]"#),
        Some(br#"{"payload": {"ignored": true}, "note": "fix"}"#),
    )
    .unwrap();
    assert_eq!(
        planned.payload,
        Json::Array(vec![object(vec![("op", text("remove")), ("path", text("/x"))])])
    );
    assert_eq!(planned.note, Some("fix".to_string()));
    assert_eq!(
        patch_request("a".to_string(), "b".to_string(), "c".to_string(), Json::Null, Json::Null)
            .payload,
        Json::Null
    );
    assert_eq!(
        append_request("a".to_string(), "b".to_string(), "c".to_string(), Json::Null).payload,
        Json::Object(vec![])
    );
}

#[test]
fn set_archive_plans_flag_note_and_token() {
    assert_eq!(
        dbx_set_archive(
            false,
            Some(b"order"),
            Some(b"o-1"),
            true,
            Some(br#"{"note": "stale", "token": "t", "payload": 1}"#)
        ),
        Ok(SetArchiveRequest {
            aggregate_type: "order".to_string(),
            aggregate_id: "o-1".to_string(),
            archived: true,
            note: Some("stale".to_string()),
            token: Some("t".to_string()),
        })
    );
    assert_eq!(
        dbx_set_archive(false, Some(b"order"), Some(b"o-1"), false, Some(b"[]")),
        Ok(SetArchiveRequest {
            aggregate_type: "order".to_string(),
            aggregate_id: "o-1".to_string(),
            archived: false,
            note: None,
            token: None,
        })
    );
}

#[test]
fn client_new_resolves_the_configuration() {
    let env = Environment {
        host: Some("env.example".to_string()),
        token: Some("env-token".to_string()),
        tenant_id: None,
    };
    assert_eq!(
        dbx_client_new(Some(br#"{"port": 7001, "tenant": "acme", "noNoise": true}"#), &env),
        Ok(ConnectionConfig {
            host: "env.example".to_string(),
            port: Some(7001),
            token: "env-token".to_string(),
            tenant: "acme".to_string(),
            connect_timeout_ms: None,
            request_timeout_ms: None,
            protocol_version: None,
            noise_enabled: false,
        })
    );
    assert_eq!(dbx_client_new(None, &env).unwrap().token, "env-token");
}

#[test]
fn client_new_fails_without_token() {
    let env = Environment { host: None, token: None, tenant_id: None };
    assert_eq!(dbx_client_new(None, &env), Err(BridgeError::MissingToken));
    assert_eq!(dbx_client_new(Some(b"{}"), &env), Err(BridgeError::MissingToken));
    assert_eq!(
        settle(dbx_client_new(Some(b"  "), &env).map(|c| buffer(&c.host))),
        Outcome { buffer: None, error: Some(buffer("token is required")) }
    );
}

#[test]
fn client_new_reports_bad_documents() {
    let env = Environment { host: None, token: Some("t".to_string()), tenant_id: None };
    assert_eq!(dbx_client_new(Some(BAD), &env), Err(encoding(0)));
    assert_eq!(
        dbx_client_new(Some(b"{\"port\":"), &env),
        Err(BridgeError::Parse("EOF while parsing a value at line 1 column 8".to_string()))
    );
    assert_eq!(dbx_client_new(Some(b"[]"), &env), Err(BridgeError::InvalidConfig(None)));
    assert_eq!(
        dbx_client_new(Some(br#"{"port": "x"}"#), &env),
        Err(BridgeError::InvalidConfig(Some("port".to_string())))
    );
}

#[test]
fn client_new_reply_hands_out_a_handle_only_when_connected() {
    assert_eq!(dbx_client_new_reply(ConnectOutcome::Connected), Ok(()));
    assert_eq!(
        dbx_client_new_reply(ConnectOutcome::RuntimeFailed("no threads".to_string())),
        Err(BridgeError::Connect("failed to create runtime: no threads".to_string()))
    );
    assert_eq!(
        dbx_client_new_reply(ConnectOutcome::ConnectFailed("request timed out".to_string())),
        Err(BridgeError::Connect("failed to connect: request timed out".to_string()))
    );
}

#[test]
fn list_replies_hold_items_and_cursor() {
    assert_eq!(
        dbx_list_aggregates_reply(Ok(Page {
            items: Json::Array(vec![object(vec![("id", text("o-1"))])]),
            next_cursor: Some("c2".to_string()),
        })),
        Ok(buffer(r#"{"items":[{"id":"o-1"}],"nextCursor":"c2"}"#))
    );
    assert_eq!(
        dbx_list_events_reply(Ok(Page { items: Json::Array(vec![]), next_cursor: None })),
        Ok(buffer(r#"{"items":[],"nextCursor":null}"#))
    );
}

#[test]
fn lookup_replies_hold_found_and_value() {
    assert_eq!(
        dbx_get_aggregate_reply(Ok(Lookup { found: false, value: None })),
        Ok(buffer(r#"{"aggregate":null,"found":false}"#))
    );
    assert_eq!(
        dbx_get_aggregate_reply(Ok(Lookup {
            found: true,
            value: Some(object(vec![("version", unsigned(2))])),
        })),
        Ok(buffer(r#"{"aggregate":{"version":2},"found":true}"#))
    );
    assert_eq!(
        dbx_select_aggregate_reply(Ok(Lookup { found: true, value: Some(text("x")) })),
        Ok(buffer(r#"{"found":true,"selection":"x"}"#))
    );
}

#[test]
fn write_replies_hold_one_member() {
    let event = || object(vec![("type", text("created"))]);
    assert_eq!(
        dbx_append_event_reply(Ok(event())),
        Ok(buffer(r#"{"event":{"type":"created"}}"#))
    );
    assert_eq!(
        dbx_patch_event_reply(Ok(event())),
        Ok(buffer(r#"{"event":{"type":"created"}}"#))
    );
    assert_eq!(
        dbx_create_aggregate_reply(Ok(Json::Null)),
        Ok(buffer(r#"{"aggregate":null}"#))
    );
    assert_eq!(
        dbx_set_archive_reply(Ok(object(vec![("archived", Json::Bool(true))]))),
        Ok(buffer(r#"{"aggregate":{"archived":true}}"#))
    );
    assert_eq!(
        dbx_verify_aggregate_reply(Ok("9f86d081".to_string())),
        Ok(buffer(r#"{"merkleRoot":"9f86d081"}"#))
    );
}

#[test]
fn client_failures_are_passed_on_verbatim() {
    let message = "server responded with an error: not_found: no such aggregate";
    let failed = Err(BridgeError::Client(message.to_string()));
    assert_eq!(dbx_list_aggregates_reply(Err(message.to_string())), failed);
    assert_eq!(dbx_list_events_reply(Err(message.to_string())), failed);
    assert_eq!(dbx_get_aggregate_reply(Err(message.to_string())), failed);
    assert_eq!(dbx_select_aggregate_reply(Err(message.to_string())), failed);
    assert_eq!(dbx_append_event_reply(Err(message.to_string())), failed);
    assert_eq!(dbx_create_aggregate_reply(Err(message.to_string())), failed);
    assert_eq!(dbx_patch_event_reply(Err(message.to_string())), failed);
    assert_eq!(dbx_set_archive_reply(Err(message.to_string())), failed);
    assert_eq!(dbx_verify_aggregate_reply(Err(message.to_string())), failed);
    assert_eq!(reply(Err(String::new())), Err(BridgeError::Client(String::new())));
    assert_eq!(
        settle(dbx_get_aggregate_reply(Err(message.to_string()))),
        Outcome { buffer: None, error: Some(buffer(message)) }
    );
}

#[test]
fn payload_builders_shape_objects() {
    assert_eq!(object1("event", Json::Null), object(vec![("event", Json::Null)]));
    assert_eq!(
        object2("a", unsigned(1), "b", unsigned(2)),
        object(vec![("a", unsigned(1)), ("b", unsigned(2))])
    );
    assert_eq!(
        page_payload(Page { items: Json::Array(vec![]), next_cursor: Some("n".to_string()) }),
        object(vec![("items", Json::Array(vec![])), ("nextCursor", text("n"))])
    );
    assert_eq!(
        lookup_payload("selection", Lookup { found: true, value: None }),
        object(vec![("found", Json::Bool(true)), ("selection", Json::Null)])
    );
    assert_eq!(reply(Ok(Json::Bool(true))), Ok(buffer("true")));
}

#[test]
fn a_successful_reply_settles_with_a_buffer_and_no_message() {
    let outcome = settle(dbx_verify_aggregate_reply(Ok("abc".to_string())));
    assert_eq!(
        outcome,
        Outcome { buffer: Some(buffer(r#"{"merkleRoot":"abc"}"#)), error: None }
    );
}
