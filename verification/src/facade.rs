//! The operation façade: what each operation decides before the store's
//! client is called, and what it makes of the client's answer.
//!
//! An operation is checked in a fixed order, and the first failure ends it:
//! the handle, then each text input in the order of the arguments, then the
//! documents, then what the operation asks of its options. The call itself is
//! the caller's business; its outcome comes back through the operation's
//! `_reply` function, which shapes and encodes the result.

use crate::buffer::{outcome_of, Buffer, OutcomeValue};
use crate::config::{
    client_config, config_input, resolve_config, text_field, ConnectionConfig,
    ConnectionConfigValue, Environment, EnvironmentValue,
};
use crate::error::{result_value, BridgeError, ErrorValue};
use crate::json::{member, object_value, text_member, text_option, Json, JsonValue};
use crate::options::{
    list_aggregates_options, list_events_options, owned_json_option, parse_archive_options,
    parse_list_aggregates_options, parse_list_events_options, parse_payload_options,
    parse_select_fields, payload_of, publish_targets_spec, select_fields, targets_value,
    texts_value, ListAggregatesOptions, ListAggregatesOptionsValue, ListEventsOptions,
    ListEventsOptionsValue, PublishTarget, PublishTargetValue,
};
use crate::text::{blank, has_nul};
use crate::transit::{
    buffer_of, bytes_value, json_input, json_text, parse_json, string_from_bytes, text_input,
    to_cstring,
};
use vstd::prelude::*;
use vstd::string::*;

verus! {

/// The aggregate that an operation is about.
#[derive(Debug, PartialEq, Eq)]
pub struct AggregateRef {
    pub aggregate_type: String,
    pub aggregate_id: String,
}

/// The mathematical value of an [`AggregateRef`].
pub struct AggregateRefValue {
    pub aggregate_type: Seq<char>,
    pub aggregate_id: Seq<char>,
}

impl View for AggregateRef {
    type V = AggregateRefValue;

    open spec fn view(&self) -> AggregateRefValue {
        AggregateRefValue { aggregate_type: self.aggregate_type@, aggregate_id: self.aggregate_id@ }
    }
}

/// A request for some fields of an aggregate.
#[derive(Debug, PartialEq, Eq)]
pub struct SelectAggregateRequest {
    pub aggregate_type: String,
    pub aggregate_id: String,
    pub fields: Vec<String>,
}

/// The mathematical value of a [`SelectAggregateRequest`].
pub struct SelectAggregateRequestValue {
    pub aggregate_type: Seq<char>,
    pub aggregate_id: Seq<char>,
    pub fields: Seq<Seq<char>>,
}

impl View for SelectAggregateRequest {
    type V = SelectAggregateRequestValue;

    open spec fn view(&self) -> SelectAggregateRequestValue {
        SelectAggregateRequestValue {
            aggregate_type: self.aggregate_type@,
            aggregate_id: self.aggregate_id@,
            fields: texts_value(self.fields@),
        }
    }
}

/// A request for the events of an aggregate.
#[derive(Debug, PartialEq, Eq)]
pub struct ListEventsRequest {
    pub aggregate_type: String,
    pub aggregate_id: String,
    pub options: ListEventsOptions,
}

/// The mathematical value of a [`ListEventsRequest`].
pub struct ListEventsRequestValue {
    pub aggregate_type: Seq<char>,
    pub aggregate_id: Seq<char>,
    pub options: ListEventsOptionsValue,
}

impl View for ListEventsRequest {
    type V = ListEventsRequestValue;

    open spec fn view(&self) -> ListEventsRequestValue {
        ListEventsRequestValue {
            aggregate_type: self.aggregate_type@,
            aggregate_id: self.aggregate_id@,
            options: self.options@,
        }
    }
}

/// A write: the event to append, the event that creates an aggregate, or the
/// patch of an event. `payload` is the event's body, or the patch.
#[derive(Debug, PartialEq)]
pub struct WriteRequest {
    pub aggregate_type: String,
    pub aggregate_id: String,
    pub event_type: String,
    pub payload: Json,
    pub note: Option<String>,
    pub metadata: Option<Json>,
    pub token: Option<String>,
    pub publish_targets: Vec<PublishTarget>,
}

/// The mathematical value of a [`WriteRequest`].
pub struct WriteRequestValue {
    pub aggregate_type: Seq<char>,
    pub aggregate_id: Seq<char>,
    pub event_type: Seq<char>,
    pub payload: JsonValue,
    pub note: Option<Seq<char>>,
    pub metadata: Option<JsonValue>,
    pub token: Option<Seq<char>>,
    pub publish_targets: Seq<PublishTargetValue>,
}

impl View for WriteRequest {
    type V = WriteRequestValue;

    open spec fn view(&self) -> WriteRequestValue {
        WriteRequestValue {
            aggregate_type: self.aggregate_type@,
            aggregate_id: self.aggregate_id@,
            event_type: self.event_type@,
            payload: self.payload@,
            note: text_option(self.note),
            metadata: owned_json_option(self.metadata),
            token: text_option(self.token),
            publish_targets: targets_value(self.publish_targets@),
        }
    }
}

/// A request to set or clear the archive flag of an aggregate.
#[derive(Debug, PartialEq, Eq)]
pub struct SetArchiveRequest {
    pub aggregate_type: String,
    pub aggregate_id: String,
    pub archived: bool,
    pub note: Option<String>,
    pub token: Option<String>,
}

/// The mathematical value of a [`SetArchiveRequest`].
pub struct SetArchiveRequestValue {
    pub aggregate_type: Seq<char>,
    pub aggregate_id: Seq<char>,
    pub archived: bool,
    pub note: Option<Seq<char>>,
    pub token: Option<Seq<char>>,
}

impl View for SetArchiveRequest {
    type V = SetArchiveRequestValue;

    open spec fn view(&self) -> SetArchiveRequestValue {
        SetArchiveRequestValue {
            aggregate_type: self.aggregate_type@,
            aggregate_id: self.aggregate_id@,
            archived: self.archived,
            note: text_option(self.note),
            token: text_option(self.token),
        }
    }
}

/// One page of a listing, as the client returned it.
#[derive(Debug, PartialEq)]
pub struct Page {
    pub items: Json,
    pub next_cursor: Option<String>,
}

/// What a lookup found, as the client returned it.
#[derive(Debug, PartialEq)]
pub struct Lookup {
    pub found: bool,
    pub value: Option<Json>,
}

/// How the attempt to set up a handle ended.
#[derive(Debug, PartialEq, Eq)]
pub enum ConnectOutcome {
    /// The execution context was created and the client is connected.
    Connected,
    /// No execution context could be created; the text says why.
    RuntimeFailed(String),
    /// The handshake failed; the text is the client's message.
    ConnectFailed(String),
}

/// The texts of two input buffers, or the failure of the first that is not
/// text.
pub open spec fn two_texts(a: Option<Seq<u8>>, b: Option<Seq<u8>>) -> Result<
    (Seq<char>, Seq<char>),
    ErrorValue,
> {
    match text_input(a) {
        Err(e) => Err(e),
        Ok(x) => match text_input(b) {
            Err(e) => Err(e),
            Ok(y) => Ok((x, y)),
        },
    }
}

/// The texts of three input buffers, or the failure of the first that is not
/// text.
pub open spec fn three_texts(
    a: Option<Seq<u8>>,
    b: Option<Seq<u8>>,
    c: Option<Seq<u8>>,
) -> Result<(Seq<char>, Seq<char>, Seq<char>), ErrorValue> {
    match two_texts(a, b) {
        Err(e) => Err(e),
        Ok((x, y)) => match text_input(c) {
            Err(e) => Err(e),
            Ok(z) => Ok((x, y, z)),
        },
    }
}

/// The payload of a write whose body is missing or null: an empty object.
pub open spec fn normalized(payload: JsonValue) -> JsonValue {
    if payload is Null {
        JsonValue::Object(Map::empty())
    } else {
        payload
    }
}

/// The write that the inputs and the options ask for, with the given body.
pub open spec fn write_request(
    aggregate_type: Seq<char>,
    aggregate_id: Seq<char>,
    event_type: Seq<char>,
    payload: JsonValue,
    opts: JsonValue,
) -> WriteRequestValue {
    WriteRequestValue {
        aggregate_type,
        aggregate_id,
        event_type,
        payload,
        note: text_member(opts, "note"@),
        metadata: member(opts, "metadata"@),
        token: text_member(opts, "token"@),
        publish_targets: publish_targets_spec(member(opts, "publishTargets"@)),
    }
}

/// What listing aggregates decides.
pub open spec fn list_aggregates_plan(
    handle_is_null: bool,
    aggregate_type: Option<Seq<u8>>,
    options: Option<Seq<u8>>,
) -> Result<ListAggregatesOptionsValue, ErrorValue> {
    if handle_is_null {
        Err(ErrorValue::NullHandle)
    } else {
        match text_input(aggregate_type) {
            Err(e) => Err(e),
            Ok(t) => match json_input(options) {
                Err(e) => Err(e),
                Ok(opts) => Ok(list_aggregates_options(t, opts)),
            },
        }
    }
}

/// What getting or verifying an aggregate decides.
pub open spec fn aggregate_plan(
    handle_is_null: bool,
    aggregate_type: Option<Seq<u8>>,
    aggregate_id: Option<Seq<u8>>,
) -> Result<AggregateRefValue, ErrorValue> {
    if handle_is_null {
        Err(ErrorValue::NullHandle)
    } else {
        match two_texts(aggregate_type, aggregate_id) {
            Err(e) => Err(e),
            Ok((t, id)) => Ok(AggregateRefValue { aggregate_type: t, aggregate_id: id }),
        }
    }
}

/// The selection that the inputs and the field document ask for.
pub open spec fn select_request(
    aggregate_type: Seq<char>,
    aggregate_id: Seq<char>,
    fields: JsonValue,
) -> Result<SelectAggregateRequestValue, ErrorValue> {
    match select_fields(fields) {
        Err(e) => Err(e),
        Ok(names) => Ok(
            SelectAggregateRequestValue { aggregate_type, aggregate_id, fields: names },
        ),
    }
}

/// What selecting fields of an aggregate decides.
pub open spec fn select_aggregate_plan(
    handle_is_null: bool,
    aggregate_type: Option<Seq<u8>>,
    aggregate_id: Option<Seq<u8>>,
    fields: Option<Seq<u8>>,
) -> Result<SelectAggregateRequestValue, ErrorValue> {
    if handle_is_null {
        Err(ErrorValue::NullHandle)
    } else {
        match two_texts(aggregate_type, aggregate_id) {
            Err(e) => Err(e),
            Ok((t, id)) => match json_input(fields) {
                Err(e) => Err(e),
                Ok(doc) => select_request(t, id, doc),
            },
        }
    }
}

/// What listing the events of an aggregate decides.
pub open spec fn list_events_plan(
    handle_is_null: bool,
    aggregate_type: Option<Seq<u8>>,
    aggregate_id: Option<Seq<u8>>,
    options: Option<Seq<u8>>,
) -> Result<ListEventsRequestValue, ErrorValue> {
    if handle_is_null {
        Err(ErrorValue::NullHandle)
    } else {
        match two_texts(aggregate_type, aggregate_id) {
            Err(e) => Err(e),
            Ok((t, id)) => match json_input(options) {
                Err(e) => Err(e),
                Ok(opts) => Ok(
                    ListEventsRequestValue {
                        aggregate_type: t,
                        aggregate_id: id,
                        options: list_events_options(opts),
                    },
                ),
            },
        }
    }
}

/// What appending an event or creating an aggregate decides. A body that is
/// missing or null becomes an empty object.
pub open spec fn append_plan(
    handle_is_null: bool,
    aggregate_type: Option<Seq<u8>>,
    aggregate_id: Option<Seq<u8>>,
    event_type: Option<Seq<u8>>,
    options: Option<Seq<u8>>,
) -> Result<WriteRequestValue, ErrorValue> {
    if handle_is_null {
        Err(ErrorValue::NullHandle)
    } else {
        match three_texts(aggregate_type, aggregate_id, event_type) {
            Err(e) => Err(e),
            Ok((t, id, ev)) => match json_input(options) {
                Err(e) => Err(e),
                Ok(opts) => Ok(write_request(t, id, ev, normalized(payload_of(opts)), opts)),
            },
        }
    }
}

/// What patching an event decides. The patch is passed on as it is, null
/// included; a `payload` among the options is not read.
pub open spec fn patch_plan(
    handle_is_null: bool,
    aggregate_type: Option<Seq<u8>>,
    aggregate_id: Option<Seq<u8>>,
    event_type: Option<Seq<u8>>,
    patch: Option<Seq<u8>>,
    options: Option<Seq<u8>>,
) -> Result<WriteRequestValue, ErrorValue> {
    if handle_is_null {
        Err(ErrorValue::NullHandle)
    } else {
        match three_texts(aggregate_type, aggregate_id, event_type) {
            Err(e) => Err(e),
            Ok((t, id, ev)) => match json_input(patch) {
                Err(e) => Err(e),
                Ok(body) => match json_input(options) {
                    Err(e) => Err(e),
                    Ok(opts) => Ok(write_request(t, id, ev, body, opts)),
                },
            },
        }
    }
}

/// What setting the archive flag decides.
pub open spec fn set_archive_plan(
    handle_is_null: bool,
    aggregate_type: Option<Seq<u8>>,
    aggregate_id: Option<Seq<u8>>,
    archived: bool,
    options: Option<Seq<u8>>,
) -> Result<SetArchiveRequestValue, ErrorValue> {
    if handle_is_null {
        Err(ErrorValue::NullHandle)
    } else {
        match two_texts(aggregate_type, aggregate_id) {
            Err(e) => Err(e),
            Ok((t, id)) => match json_input(options) {
                Err(e) => Err(e),
                Ok(opts) => Ok(
                    SetArchiveRequestValue {
                        aggregate_type: t,
                        aggregate_id: id,
                        archived,
                        note: text_member(opts, "note"@),
                        token: text_member(opts, "token"@),
                    },
                ),
            },
        }
    }
}

/// What constructing a handle decides before it connects.
pub open spec fn client_new_plan(config: Option<Seq<u8>>, env: EnvironmentValue) -> Result<
    ConnectionConfigValue,
    ErrorValue,
> {
    match json_input(config) {
        Err(e) => Err(e),
        Ok(doc) => client_config(doc, env),
    }
}

/// The structured result of a listing.
pub open spec fn page_value(items: JsonValue, next_cursor: Option<Seq<char>>) -> JsonValue {
    JsonValue::Object(
        map![
            "items"@ => items,
            "nextCursor"@ => match next_cursor {
                Some(cursor) => JsonValue::String(cursor),
                None => JsonValue::Null,
            },
        ],
    )
}

/// The structured result of a lookup, with what was found under `key`.
pub open spec fn lookup_value(key: Seq<char>, found: bool, value: Option<JsonValue>) -> JsonValue {
    JsonValue::Object(
        map![
            "found"@ => JsonValue::Bool(found),
            key => match value {
                Some(v) => v,
                None => JsonValue::Null,
            },
        ],
    )
}

/// A structured result with one member.
pub open spec fn single_value(key: Seq<char>, value: JsonValue) -> JsonValue {
    JsonValue::Object(map![key => value])
}

/// The reply to an operation whose call ended with the given structured
/// result or with the client's message.
pub open spec fn reply_of(outcome: Result<JsonValue, Seq<char>>) -> Result<Seq<char>, ErrorValue> {
    match outcome {
        Err(message) => Err(ErrorValue::Client(message)),
        Ok(value) => buffer_of(json_text(value)),
    }
}

/// The value of a page that the client returned, or of its message.
pub open spec fn page_outcome(outcome: Result<Page, String>) -> Result<JsonValue, Seq<char>> {
    match outcome {
        Ok(page) => Ok(page_value(page.items@, text_option(page.next_cursor))),
        Err(m) => Err(m@),
    }
}

/// The value of a lookup that the client returned, or of its message.
pub open spec fn lookup_outcome(key: Seq<char>, outcome: Result<Lookup, String>) -> Result<
    JsonValue,
    Seq<char>,
> {
    match outcome {
        Ok(lookup) => Ok(lookup_value(key, lookup.found, owned_json_option(lookup.value))),
        Err(m) => Err(m@),
    }
}

/// The value of a single result that the client returned, or of its message.
pub open spec fn single_outcome(key: Seq<char>, outcome: Result<Json, String>) -> Result<
    JsonValue,
    Seq<char>,
> {
    match outcome {
        Ok(value) => Ok(single_value(key, value@)),
        Err(m) => Err(m@),
    }
}

/// Without a handle every operation fails with `NullHandle`, whatever its
/// other inputs are; it hands back no buffer, and its message is
/// `handle is null`.
pub proof fn lemma_null_handle(
    a: Option<Seq<u8>>,
    b: Option<Seq<u8>>,
    c: Option<Seq<u8>>,
    d: Option<Seq<u8>>,
    e: Option<Seq<u8>>,
    archived: bool,
)
    ensures
        list_aggregates_plan(true, a, b) == Err::<ListAggregatesOptionsValue, ErrorValue>(
            ErrorValue::NullHandle,
        ),
        aggregate_plan(true, a, b) == Err::<AggregateRefValue, ErrorValue>(ErrorValue::NullHandle),
        select_aggregate_plan(true, a, b, c) == Err::<SelectAggregateRequestValue, ErrorValue>(
            ErrorValue::NullHandle,
        ),
        list_events_plan(true, a, b, c) == Err::<ListEventsRequestValue, ErrorValue>(
            ErrorValue::NullHandle,
        ),
        append_plan(true, a, b, c, d) == Err::<WriteRequestValue, ErrorValue>(
            ErrorValue::NullHandle,
        ),
        patch_plan(true, a, b, c, d, e) == Err::<WriteRequestValue, ErrorValue>(
            ErrorValue::NullHandle,
        ),
        set_archive_plan(true, a, b, archived, c) == Err::<SetArchiveRequestValue, ErrorValue>(
            ErrorValue::NullHandle,
        ),
        outcome_of(Err(ErrorValue::NullHandle)) == (OutcomeValue {
            buffer: None,
            error: Some("handle is null"@),
        }),
{
    reveal_strlit("handle is null");
    assert(!has_nul("handle is null"@));
}

/// Without a token in the configuration and in the environment, the
/// construction of a handle fails with `MissingToken`: for every configuration
/// document whose fields are well-formed, and so for an absent one. It hands
/// back nothing, and its message is `token is required`.
pub proof fn lemma_client_new_missing_token(config: Option<Seq<u8>>, env: EnvironmentValue)
    requires
        env.token is None,
        config is Some ==> (json_input(config) matches Ok(doc) && (doc is Object || doc is Null)
            && config_input(doc) is Ok && text_field(doc, "token"@) == Ok::<
            Option<Seq<char>>,
            (),
        >(None)),
    ensures
        client_new_plan(config, env) == Err::<ConnectionConfigValue, ErrorValue>(
            ErrorValue::MissingToken,
        ),
        outcome_of(Err(ErrorValue::MissingToken)) == (OutcomeValue {
            buffer: None,
            error: Some("token is required"@),
        }),
{
    reveal_strlit("token is required");
    assert(!has_nul("token is required"@));
    if config is None {
        assert(blank(Seq::<char>::empty()));
        assert(json_input(config) == Ok::<JsonValue, ErrorValue>(JsonValue::Null));
    }
}

/// Decodes two text inputs, in order.
fn read_two(a: Option<&[u8]>, b: Option<&[u8]>) -> (r: Result<(String, String), BridgeError>)
    ensures
        match r {
            Ok(texts) => two_texts(bytes_value(a), bytes_value(b)) == Ok::<
                (Seq<char>, Seq<char>),
                ErrorValue,
            >((texts.0@, texts.1@)),
            Err(e) => two_texts(bytes_value(a), bytes_value(b)) == Err::<
                (Seq<char>, Seq<char>),
                ErrorValue,
            >(e@),
        },
{
    let x = match string_from_bytes(a) {
        Ok(x) => x,
        Err(e) => {
            return Err(e);
        },
    };
    let y = match string_from_bytes(b) {
        Ok(y) => y,
        Err(e) => {
            return Err(e);
        },
    };
    Ok((x, y))
}

/// Decodes three text inputs, in order.
fn read_three(a: Option<&[u8]>, b: Option<&[u8]>, c: Option<&[u8]>) -> (r: Result<
    (String, String, String),
    BridgeError,
>)
    ensures
        match r {
            Ok(texts) => three_texts(bytes_value(a), bytes_value(b), bytes_value(c)) == Ok::<
                (Seq<char>, Seq<char>, Seq<char>),
                ErrorValue,
            >((texts.0@, texts.1@, texts.2@)),
            Err(e) => three_texts(bytes_value(a), bytes_value(b), bytes_value(c)) == Err::<
                (Seq<char>, Seq<char>, Seq<char>),
                ErrorValue,
            >(e@),
        },
{
    let (x, y) = match read_two(a, b) {
        Ok(texts) => texts,
        Err(e) => {
            return Err(e);
        },
    };
    let z = match string_from_bytes(c) {
        Ok(z) => z,
        Err(e) => {
            return Err(e);
        },
    };
    Ok((x, y, z))
}

/// Builds the write that appends an event or creates an aggregate.
pub fn append_request(
    aggregate_type: String,
    aggregate_id: String,
    event_type: String,
    opts: Json,
) -> (r: WriteRequest)
    ensures
        r@ == write_request(
            aggregate_type@,
            aggregate_id@,
            event_type@,
            normalized(payload_of(opts@)),
            opts@,
        ),
{
    let (payload, note, metadata, token, publish_targets) = parse_payload_options(opts);
    let payload = if payload.is_null() {
        let empty = Json::Object(Vec::new());
        assert(empty@ == JsonValue::Object(Map::empty()));
        empty
    } else {
        payload
    };
    WriteRequest {
        aggregate_type,
        aggregate_id,
        event_type,
        payload,
        note,
        metadata,
        token,
        publish_targets,
    }
}

/// Builds the write that patches an event.
pub fn patch_request(
    aggregate_type: String,
    aggregate_id: String,
    event_type: String,
    patch: Json,
    opts: Json,
) -> (r: WriteRequest)
    ensures
        r@ == write_request(aggregate_type@, aggregate_id@, event_type@, patch@, opts@),
{
    let (_, note, metadata, token, publish_targets) = parse_payload_options(opts);
    WriteRequest {
        aggregate_type,
        aggregate_id,
        event_type,
        payload: patch,
        note,
        metadata,
        token,
        publish_targets,
    }
}

/// Builds the selection of fields of an aggregate.
pub fn select_aggregate_request(aggregate_type: String, aggregate_id: String, fields: &Json) -> (r:
    Result<SelectAggregateRequest, BridgeError>)
    ensures
        result_value(r) == select_request(aggregate_type@, aggregate_id@, fields@),
{
    match parse_select_fields(fields) {
        Ok(fields) => Ok(SelectAggregateRequest { aggregate_type, aggregate_id, fields }),
        Err(e) => Err(e),
    }
}

/// Plans a listing of aggregates.
pub fn dbx_list_aggregates(
    handle_is_null: bool,
    aggregate_type: Option<&[u8]>,
    options_json: Option<&[u8]>,
) -> (r: Result<ListAggregatesOptions, BridgeError>)
    ensures
        result_value(r) == list_aggregates_plan(
            handle_is_null,
            bytes_value(aggregate_type),
            bytes_value(options_json),
        ),
        handle_is_null ==> (r matches Err(e) && e@ == ErrorValue::NullHandle),
{
    if handle_is_null {
        return Err(BridgeError::NullHandle);
    }
    let agg_type = match string_from_bytes(aggregate_type) {
        Ok(s) => s,
        Err(e) => {
            return Err(e);
        },
    };
    let opts = match parse_json(options_json) {
        Ok(v) => v,
        Err(e) => {
            return Err(e);
        },
    };
    Ok(parse_list_aggregates_options(agg_type.as_str(), &opts))
}

/// Plans the lookup of an aggregate.
pub fn dbx_get_aggregate(
    handle_is_null: bool,
    aggregate_type: Option<&[u8]>,
    aggregate_id: Option<&[u8]>,
) -> (r: Result<AggregateRef, BridgeError>)
    ensures
        result_value(r) == aggregate_plan(
            handle_is_null,
            bytes_value(aggregate_type),
            bytes_value(aggregate_id),
        ),
        handle_is_null ==> (r matches Err(e) && e@ == ErrorValue::NullHandle),
{
    if handle_is_null {
        return Err(BridgeError::NullHandle);
    }
    match read_two(aggregate_type, aggregate_id) {
        Ok((aggregate_type, aggregate_id)) => Ok(AggregateRef { aggregate_type, aggregate_id }),
        Err(e) => Err(e),
    }
}

/// Plans the selection of fields of an aggregate.
pub fn dbx_select_aggregate(
    handle_is_null: bool,
    aggregate_type: Option<&[u8]>,
    aggregate_id: Option<&[u8]>,
    fields_json: Option<&[u8]>,
) -> (r: Result<SelectAggregateRequest, BridgeError>)
    ensures
        result_value(r) == select_aggregate_plan(
            handle_is_null,
            bytes_value(aggregate_type),
            bytes_value(aggregate_id),
            bytes_value(fields_json),
        ),
        handle_is_null ==> (r matches Err(e) && e@ == ErrorValue::NullHandle),
{
    if handle_is_null {
        return Err(BridgeError::NullHandle);
    }
    let (agg_type, agg_id) = match read_two(aggregate_type, aggregate_id) {
        Ok(texts) => texts,
        Err(e) => {
            return Err(e);
        },
    };
    let fields = match parse_json(fields_json) {
        Ok(v) => v,
        Err(e) => {
            return Err(e);
        },
    };
    select_aggregate_request(agg_type, agg_id, &fields)
}

/// Plans a listing of the events of an aggregate.
pub fn dbx_list_events(
    handle_is_null: bool,
    aggregate_type: Option<&[u8]>,
    aggregate_id: Option<&[u8]>,
    options_json: Option<&[u8]>,
) -> (r: Result<ListEventsRequest, BridgeError>)
    ensures
        result_value(r) == list_events_plan(
            handle_is_null,
            bytes_value(aggregate_type),
            bytes_value(aggregate_id),
            bytes_value(options_json),
        ),
        handle_is_null ==> (r matches Err(e) && e@ == ErrorValue::NullHandle),
{
    if handle_is_null {
        return Err(BridgeError::NullHandle);
    }
    let (agg_type, agg_id) = match read_two(aggregate_type, aggregate_id) {
        Ok(texts) => texts,
        Err(e) => {
            return Err(e);
        },
    };
    let opts = match parse_json(options_json) {
        Ok(v) => v,
        Err(e) => {
            return Err(e);
        },
    };
    Ok(
        ListEventsRequest {
            aggregate_type: agg_type,
            aggregate_id: agg_id,
            options: parse_list_events_options(&opts),
        },
    )
}

/// Plans the appending of an event.
pub fn dbx_append_event(
    handle_is_null: bool,
    aggregate_type: Option<&[u8]>,
    aggregate_id: Option<&[u8]>,
    event_type: Option<&[u8]>,
    options_json: Option<&[u8]>,
) -> (r: Result<WriteRequest, BridgeError>)
    ensures
        result_value(r) == append_plan(
            handle_is_null,
            bytes_value(aggregate_type),
            bytes_value(aggregate_id),
            bytes_value(event_type),
            bytes_value(options_json),
        ),
        handle_is_null ==> (r matches Err(e) && e@ == ErrorValue::NullHandle),
{
    if handle_is_null {
        return Err(BridgeError::NullHandle);
    }
    let (agg_type, agg_id, evt_type) = match read_three(aggregate_type, aggregate_id, event_type) {
        Ok(texts) => texts,
        Err(e) => {
            return Err(e);
        },
    };
    let opts = match parse_json(options_json) {
        Ok(v) => v,
        Err(e) => {
            return Err(e);
        },
    };
    Ok(append_request(agg_type, agg_id, evt_type, opts))
}

/// Plans the creation of an aggregate by its first event.
pub fn dbx_create_aggregate(
    handle_is_null: bool,
    aggregate_type: Option<&[u8]>,
    aggregate_id: Option<&[u8]>,
    event_type: Option<&[u8]>,
    options_json: Option<&[u8]>,
) -> (r: Result<WriteRequest, BridgeError>)
    ensures
        result_value(r) == append_plan(
            handle_is_null,
            bytes_value(aggregate_type),
            bytes_value(aggregate_id),
            bytes_value(event_type),
            bytes_value(options_json),
        ),
        handle_is_null ==> (r matches Err(e) && e@ == ErrorValue::NullHandle),
{
    if handle_is_null {
        return Err(BridgeError::NullHandle);
    }
    let (agg_type, agg_id, evt_type) = match read_three(aggregate_type, aggregate_id, event_type) {
        Ok(texts) => texts,
        Err(e) => {
            return Err(e);
        },
    };
    let opts = match parse_json(options_json) {
        Ok(v) => v,
        Err(e) => {
            return Err(e);
        },
    };
    Ok(append_request(agg_type, agg_id, evt_type, opts))
}

/// Plans the patching of an event.
pub fn dbx_patch_event(
    handle_is_null: bool,
    aggregate_type: Option<&[u8]>,
    aggregate_id: Option<&[u8]>,
    event_type: Option<&[u8]>,
    patch_json: Option<&[u8]>,
    options_json: Option<&[u8]>,
) -> (r: Result<WriteRequest, BridgeError>)
    ensures
        result_value(r) == patch_plan(
            handle_is_null,
            bytes_value(aggregate_type),
            bytes_value(aggregate_id),
            bytes_value(event_type),
            bytes_value(patch_json),
            bytes_value(options_json),
        ),
        handle_is_null ==> (r matches Err(e) && e@ == ErrorValue::NullHandle),
{
    if handle_is_null {
        return Err(BridgeError::NullHandle);
    }
    let (agg_type, agg_id, evt_type) = match read_three(aggregate_type, aggregate_id, event_type) {
        Ok(texts) => texts,
        Err(e) => {
            return Err(e);
        },
    };
    let patch = match parse_json(patch_json) {
        Ok(v) => v,
        Err(e) => {
            return Err(e);
        },
    };
    let opts = match parse_json(options_json) {
        Ok(v) => v,
        Err(e) => {
            return Err(e);
        },
    };
    Ok(patch_request(agg_type, agg_id, evt_type, patch, opts))
}

/// Plans a change of the archive flag of an aggregate.
pub fn dbx_set_archive(
    handle_is_null: bool,
    aggregate_type: Option<&[u8]>,
    aggregate_id: Option<&[u8]>,
    archived: bool,
    options_json: Option<&[u8]>,
) -> (r: Result<SetArchiveRequest, BridgeError>)
    ensures
        result_value(r) == set_archive_plan(
            handle_is_null,
            bytes_value(aggregate_type),
            bytes_value(aggregate_id),
            archived,
            bytes_value(options_json),
        ),
        handle_is_null ==> (r matches Err(e) && e@ == ErrorValue::NullHandle),
{
    if handle_is_null {
        return Err(BridgeError::NullHandle);
    }
    let (agg_type, agg_id) = match read_two(aggregate_type, aggregate_id) {
        Ok(texts) => texts,
        Err(e) => {
            return Err(e);
        },
    };
    let opts = match parse_json(options_json) {
        Ok(v) => v,
        Err(e) => {
            return Err(e);
        },
    };
    let (note, token) = parse_archive_options(&opts);
    Ok(
        SetArchiveRequest {
            aggregate_type: agg_type,
            aggregate_id: agg_id,
            archived,
            note,
            token,
        },
    )
}

/// Plans the verification of an aggregate.
pub fn dbx_verify_aggregate(
    handle_is_null: bool,
    aggregate_type: Option<&[u8]>,
    aggregate_id: Option<&[u8]>,
) -> (r: Result<AggregateRef, BridgeError>)
    ensures
        result_value(r) == aggregate_plan(
            handle_is_null,
            bytes_value(aggregate_type),
            bytes_value(aggregate_id),
        ),
        handle_is_null ==> (r matches Err(e) && e@ == ErrorValue::NullHandle),
{
    dbx_get_aggregate(handle_is_null, aggregate_type, aggregate_id)
}

/// Plans the construction of a handle: the configuration to connect with.
pub fn dbx_client_new(config_json: Option<&[u8]>, env: &Environment) -> (r: Result<
    ConnectionConfig,
    BridgeError,
>)
    ensures
        result_value(r) == client_new_plan(bytes_value(config_json), env@),
        r matches Ok(c) ==> c.wf(),
{
    match parse_json(config_json) {
        Ok(doc) => resolve_config(&doc, env),
        Err(e) => Err(e),
    }
}

/// Settles the construction of a handle: a handle is handed out only where
/// the execution context was created and the client is connected.
pub fn dbx_client_new_reply(outcome: ConnectOutcome) -> (r: Result<(), BridgeError>)
    ensures
        match outcome {
            ConnectOutcome::Connected => r is Ok,
            ConnectOutcome::RuntimeFailed(m) => r matches Err(e) && e@ == ErrorValue::Connect(
                "failed to create runtime: "@ + m@,
            ),
            ConnectOutcome::ConnectFailed(m) => r matches Err(e) && e@ == ErrorValue::Connect(
                "failed to connect: "@ + m@,
            ),
        },
{
    match outcome {
        ConnectOutcome::Connected => Ok(()),
        ConnectOutcome::RuntimeFailed(m) => Err(
            BridgeError::Connect(String::from_str("failed to create runtime: ").concat(m.as_str())),
        ),
        ConnectOutcome::ConnectFailed(m) => Err(
            BridgeError::Connect(String::from_str("failed to connect: ").concat(m.as_str())),
        ),
    }
}

/// An object with one member.
pub fn object1(key: &str, value: Json) -> (r: Json)
    ensures
        r@ == single_value(key@, value@),
{
    let ghost v = value@;
    let mut members: Vec<(String, Json)> = Vec::new();
    members.push((String::from_str(key), value));
    proof {
        let m = members@;
        assert(object_value(m.drop_last()) == Map::<Seq<char>, JsonValue>::empty());
        assert(object_value(m) == Map::<Seq<char>, JsonValue>::empty().insert(key@, v));
    }
    Json::Object(members)
}

/// An object with two members.
pub fn object2(first_key: &str, first: Json, second_key: &str, second: Json) -> (r: Json)
    ensures
        r@ == JsonValue::Object(map![first_key@ => first@, second_key@ => second@]),
{
    let ghost v1 = first@;
    let ghost v2 = second@;
    let mut members: Vec<(String, Json)> = Vec::new();
    members.push((String::from_str(first_key), first));
    members.push((String::from_str(second_key), second));
    proof {
        let m = members@;
        let front = m.drop_last();
        assert(front.last() == m[0]);
        assert(object_value(front.drop_last()) == Map::<Seq<char>, JsonValue>::empty());
        assert(object_value(front) == Map::<Seq<char>, JsonValue>::empty().insert(
            first_key@,
            v1,
        ));
        assert(object_value(m) == object_value(front).insert(second_key@, v2));
    }
    Json::Object(members)
}

/// The structured result of a listing: `items` and `nextCursor`.
pub fn page_payload(page: Page) -> (r: Json)
    ensures
        r@ == page_value(page.items@, text_option(page.next_cursor)),
{
    let cursor = match page.next_cursor {
        Some(cursor) => Json::String(cursor),
        None => Json::Null,
    };
    object2("items", page.items, "nextCursor", cursor)
}

/// The structured result of a lookup: `found`, and what was found under
/// `key`, or null.
pub fn lookup_payload(key: &str, lookup: Lookup) -> (r: Json)
    ensures
        r@ == lookup_value(key@, lookup.found, owned_json_option(lookup.value)),
{
    let value = match lookup.value {
        Some(value) => value,
        None => Json::Null,
    };
    object2("found", Json::Bool(lookup.found), key, value)
}

/// Encodes the structured result of a call, or passes on the client's
/// message as it is.
pub fn reply(outcome: Result<Json, String>) -> (r: Result<Buffer, BridgeError>)
    ensures
        result_value(r) == reply_of(
            match outcome {
                Ok(value) => Ok(value@),
                Err(m) => Err(m@),
            },
        ),
{
    match outcome {
        Ok(value) => to_cstring(&value),
        Err(message) => Err(BridgeError::Client(message)),
    }
}

/// Shapes and encodes the result of a listing of aggregates.
pub fn dbx_list_aggregates_reply(outcome: Result<Page, String>) -> (r: Result<Buffer, BridgeError>)
    ensures
        result_value(r) == reply_of(page_outcome(outcome)),
{
    match outcome {
        Ok(page) => reply(Ok(page_payload(page))),
        Err(m) => reply(Err(m)),
    }
}

/// Shapes and encodes the result of a listing of events.
pub fn dbx_list_events_reply(outcome: Result<Page, String>) -> (r: Result<Buffer, BridgeError>)
    ensures
        result_value(r) == reply_of(page_outcome(outcome)),
{
    dbx_list_aggregates_reply(outcome)
}

/// Shapes and encodes the result of the lookup of an aggregate.
pub fn dbx_get_aggregate_reply(outcome: Result<Lookup, String>) -> (r: Result<Buffer, BridgeError>)
    ensures
        result_value(r) == reply_of(lookup_outcome("aggregate"@, outcome)),
{
    match outcome {
        Ok(lookup) => reply(Ok(lookup_payload("aggregate", lookup))),
        Err(m) => reply(Err(m)),
    }
}

/// Shapes and encodes the result of a selection of fields.
pub fn dbx_select_aggregate_reply(outcome: Result<Lookup, String>) -> (r: Result<
    Buffer,
    BridgeError,
>)
    ensures
        result_value(r) == reply_of(lookup_outcome("selection"@, outcome)),
{
    match outcome {
        Ok(lookup) => reply(Ok(lookup_payload("selection", lookup))),
        Err(m) => reply(Err(m)),
    }
}

/// Shapes and encodes a result with the single member `key`.
fn single_reply(key: &str, outcome: Result<Json, String>) -> (r: Result<Buffer, BridgeError>)
    ensures
        result_value(r) == reply_of(single_outcome(key@, outcome)),
{
    match outcome {
        Ok(value) => reply(Ok(object1(key, value))),
        Err(m) => reply(Err(m)),
    }
}

/// Shapes and encodes the result of appending an event: the event.
pub fn dbx_append_event_reply(outcome: Result<Json, String>) -> (r: Result<Buffer, BridgeError>)
    ensures
        result_value(r) == reply_of(single_outcome("event"@, outcome)),
{
    single_reply("event", outcome)
}

/// Shapes and encodes the result of patching an event: the event.
pub fn dbx_patch_event_reply(outcome: Result<Json, String>) -> (r: Result<Buffer, BridgeError>)
    ensures
        result_value(r) == reply_of(single_outcome("event"@, outcome)),
{
    single_reply("event", outcome)
}

/// Shapes and encodes the result of creating an aggregate: the aggregate.
pub fn dbx_create_aggregate_reply(outcome: Result<Json, String>) -> (r: Result<
    Buffer,
    BridgeError,
>)
    ensures
        result_value(r) == reply_of(single_outcome("aggregate"@, outcome)),
{
    single_reply("aggregate", outcome)
}

/// Shapes and encodes the result of a change of the archive flag: the
/// aggregate.
pub fn dbx_set_archive_reply(outcome: Result<Json, String>) -> (r: Result<Buffer, BridgeError>)
    ensures
        result_value(r) == reply_of(single_outcome("aggregate"@, outcome)),
{
    single_reply("aggregate", outcome)
}

/// The value of a Merkle root that the client returned, or of its message.
pub open spec fn root_outcome(outcome: Result<String, String>) -> Result<JsonValue, Seq<char>> {
    match outcome {
        Ok(root) => Ok(single_value("merkleRoot"@, JsonValue::String(root@))),
        Err(m) => Err(m@),
    }
}

/// Shapes and encodes the result of a verification: the Merkle root that the
/// client computed.
pub fn dbx_verify_aggregate_reply(outcome: Result<String, String>) -> (r: Result<
    Buffer,
    BridgeError,
>)
    ensures
        result_value(r) == reply_of(root_outcome(outcome)),
{
    match outcome {
        Ok(root) => reply(Ok(object1("merkleRoot", Json::String(root)))),
        Err(m) => reply(Err(m)),
    }
}

} // verus!
