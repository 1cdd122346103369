//! Request decoders: from a structured value to the typed options of an
//! operation.
//!
//! The decoders of options are permissive: a member of the wrong shape counts
//! as absent, and a sort token or a publish target that cannot be read is left
//! out. The field selection is strict: it must be an array of strings, or
//! null.

use crate::error::{BridgeError, ErrorValue};
use crate::json::{
    array_value, bool_member, json_option, member, text_member, text_option, u64_member, Json,
    JsonValue,
};
use crate::sort::{parse_sort, sort_spec, AggregateSort};
use vstd::prelude::*;
use vstd::string::*;

verus! {

/// A downstream plugin that a write is published to.
#[derive(Debug, PartialEq, Eq)]
pub struct PublishTarget {
    pub plugin: String,
    pub mode: Option<String>,
    pub priority: Option<String>,
}

/// The mathematical value of a [`PublishTarget`].
pub struct PublishTargetValue {
    pub plugin: Seq<char>,
    pub mode: Option<Seq<char>>,
    pub priority: Option<Seq<char>>,
}

impl View for PublishTarget {
    type V = PublishTargetValue;

    open spec fn view(&self) -> PublishTargetValue {
        PublishTargetValue {
            plugin: self.plugin@,
            mode: text_option(self.mode),
            priority: text_option(self.priority),
        }
    }
}

impl PublishTarget {
    /// A target with neither mode nor priority.
    pub fn new(plugin: String) -> (r: Self)
        ensures
            r@ == (PublishTargetValue { plugin: plugin@, mode: None, priority: None }),
    {
        PublishTarget { plugin, mode: None, priority: None }
    }
}

/// The values of a list of targets, in order.
pub open spec fn targets_value(targets: Seq<PublishTarget>) -> Seq<PublishTargetValue> {
    Seq::new(targets.len(), |i: int| targets[i]@)
}

/// The values of a list of texts, in order.
pub open spec fn texts_value(texts: Seq<String>) -> Seq<Seq<char>> {
    Seq::new(texts.len(), |i: int| texts[i]@)
}

/// The target that an entry denotes: one with a string `plugin`; `mode` and
/// `priority` are taken over where they are strings.
pub open spec fn publish_target(item: JsonValue) -> Option<PublishTargetValue> {
    match text_member(item, "plugin"@) {
        Some(plugin) => Some(
            PublishTargetValue {
                plugin,
                mode: text_member(item, "mode"@),
                priority: text_member(item, "priority"@),
            },
        ),
        None => None,
    }
}

/// What one entry adds to the targets: nothing, or one target.
pub open spec fn publish_entry(item: JsonValue) -> Seq<PublishTargetValue> {
    match publish_target(item) {
        Some(target) => seq![target],
        None => Seq::empty(),
    }
}

/// The targets of a list of entries: those that the entries denote, in the
/// order of the entries.
pub open spec fn publish_targets(items: Seq<JsonValue>) -> Seq<PublishTargetValue>
    decreases items.len(),
{
    if items.len() == 0 {
        Seq::empty()
    } else {
        publish_targets(items.drop_last()) + publish_entry(items.last())
    }
}

/// The targets of an option: those of its entries where it is an array, and
/// none otherwise.
pub open spec fn publish_targets_spec(value: Option<JsonValue>) -> Seq<PublishTargetValue> {
    match value {
        Some(JsonValue::Array(items)) => publish_targets(items),
        _ => Seq::empty(),
    }
}

/// Entries are read one by one and in order: the targets of two lists joined
/// are the targets of the first followed by those of the second.
pub proof fn lemma_publish_targets_order(a: Seq<JsonValue>, b: Seq<JsonValue>)
    ensures
        publish_targets(a + b) == publish_targets(a) + publish_targets(b),
    decreases b.len(),
{
    if b.len() == 0 {
        assert(a + b == a);
        assert(publish_targets(a) + publish_targets(b) == publish_targets(a));
    } else {
        assert((a + b).drop_last() == a + b.drop_last());
        assert((a + b).last() == b.last());
        lemma_publish_targets_order(a, b.drop_last());
        assert((publish_targets(a) + publish_targets(b.drop_last())) + publish_entry(b.last())
            == publish_targets(a) + (publish_targets(b.drop_last()) + publish_entry(b.last())));
    }
}

/// An entry without a string `plugin` adds nothing; any other entry adds one
/// target that holds the entry's `plugin`, `mode` and `priority` as they are.
pub proof fn lemma_publish_entry(item: JsonValue)
    ensures
        publish_targets(seq![item]) == publish_entry(item),
        text_member(item, "plugin"@) is None ==> publish_entry(item).len() == 0,
        text_member(item, "plugin"@) matches Some(plugin) ==> publish_entry(item) == seq![
            PublishTargetValue {
                plugin,
                mode: text_member(item, "mode"@),
                priority: text_member(item, "priority"@),
            },
        ],
{
    assert(seq![item].drop_last() == Seq::<JsonValue>::empty());
    assert(publish_targets(Seq::<JsonValue>::empty()) + publish_entry(item) == publish_entry(
        item,
    ));
}

/// Reads the target that one entry denotes.
pub fn parse_publish_target(item: &Json) -> (r: Option<PublishTarget>)
    ensures
        match r {
            Some(target) => publish_target(item@) == Some(target@),
            None => publish_target(item@) is None,
        },
{
    match item.get_str("plugin") {
        Some(plugin) => {
            let mut target = PublishTarget::new(plugin);
            target.mode = item.get_str("mode");
            target.priority = item.get_str("priority");
            Some(target)
        },
        None => None,
    }
}

/// Reads a list of publish targets.
pub fn parse_publish_targets(value: Option<&Json>) -> (targets: Vec<PublishTarget>)
    ensures
        targets_value(targets@) == publish_targets_spec(json_option(value)),
        targets@.len() == publish_targets_spec(json_option(value)).len(),
{
    let mut targets: Vec<PublishTarget> = Vec::new();
    let items = match value {
        Some(v) => match v.as_array() {
            Some(items) => items,
            None => {
                assert(targets_value(targets@) == Seq::<PublishTargetValue>::empty());
                return targets;
            },
        },
        None => {
            assert(targets_value(targets@) == Seq::<PublishTargetValue>::empty());
            return targets;
        },
    };
    let ghost values = array_value(items@);
    assert(targets_value(targets@) == publish_targets(values.take(0)));
    let mut i: usize = 0;
    while i < items.len()
        invariant
            i <= items.len(),
            values == array_value(items@),
            targets_value(targets@) == publish_targets(values.take(i as int)),
        decreases items.len() - i,
    {
        let ghost before = targets_value(targets@);
        proof {
            assert(values.take(i + 1).drop_last() == values.take(i as int));
            assert(values.take(i + 1).last() == items@[i as int]@);
        }
        match parse_publish_target(&items[i]) {
            Some(target) => {
                targets.push(target);
                assert(targets_value(targets@) == before + seq![target@]);
            },
            None => {
                assert(targets_value(targets@) == before + Seq::<PublishTargetValue>::empty());
            },
        }
        i += 1;
    }
    assert(values.take(i as int) == values);
    targets
}

/// The value of an optional structured value that is owned.
pub open spec fn owned_json_option(value: Option<Json>) -> Option<JsonValue> {
    match value {
        Some(v) => Some(v@),
        None => None,
    }
}

/// The payload of payload options: the `payload` member, or null.
pub open spec fn payload_of(opts: JsonValue) -> JsonValue {
    match member(opts, "payload"@) {
        Some(payload) => payload,
        None => JsonValue::Null,
    }
}

/// Reads payload options: the payload (null where there is none), the note,
/// the metadata, the token for this call, and the publish targets.
pub fn parse_payload_options(opts_value: Json) -> (r: (
    Json,
    Option<String>,
    Option<Json>,
    Option<String>,
    Vec<PublishTarget>,
))
    ensures
        r.0@ == payload_of(opts_value@),
        text_option(r.1) == text_member(opts_value@, "note"@),
        owned_json_option(r.2) == member(opts_value@, "metadata"@),
        text_option(r.3) == text_member(opts_value@, "token"@),
        targets_value(r.4@) == publish_targets_spec(member(opts_value@, "publishTargets"@)),
        r.4@.len() == publish_targets_spec(member(opts_value@, "publishTargets"@)).len(),
{
    let payload = match opts_value.get("payload") {
        Some(p) => p.clone(),
        None => Json::Null,
    };
    let metadata = match opts_value.get("metadata") {
        Some(m) => Some(m.clone()),
        None => None,
    };
    let note = opts_value.get_str("note");
    let token = opts_value.get_str("token");
    let publish_targets = parse_publish_targets(opts_value.get("publishTargets"));
    (payload, note, metadata, token, publish_targets)
}

/// How aggregates are listed.
#[derive(Debug, PartialEq, Eq)]
pub struct ListAggregatesOptions {
    pub cursor: Option<String>,
    pub take: Option<u64>,
    pub filter: Option<String>,
    pub sort: Vec<AggregateSort>,
    pub include_archived: bool,
    pub archived_only: bool,
    pub token: Option<String>,
}

/// The mathematical value of [`ListAggregatesOptions`].
pub struct ListAggregatesOptionsValue {
    pub cursor: Option<Seq<char>>,
    pub take: Option<u64>,
    pub filter: Option<Seq<char>>,
    pub sort: Seq<AggregateSort>,
    pub include_archived: bool,
    pub archived_only: bool,
    pub token: Option<Seq<char>>,
}

impl View for ListAggregatesOptions {
    type V = ListAggregatesOptionsValue;

    open spec fn view(&self) -> ListAggregatesOptionsValue {
        ListAggregatesOptionsValue {
            cursor: text_option(self.cursor),
            take: self.take,
            filter: text_option(self.filter),
            sort: self.sort@,
            include_archived: self.include_archived,
            archived_only: self.archived_only,
            token: text_option(self.token),
        }
    }
}

/// The filter that selects the aggregates of one type. The type is inserted
/// as it is, without escaping.
pub open spec fn type_filter(aggregate_type: Seq<char>) -> Seq<char> {
    "aggregate_type = \""@ + aggregate_type + "\""@
}

/// The filter of a listing: the `filter` member where it is a string; else
/// the filter for the aggregate type where one is given; else none.
pub open spec fn list_filter(aggregate_type: Seq<char>, opts: JsonValue) -> Option<Seq<char>> {
    match text_member(opts, "filter"@) {
        Some(filter) => Some(filter),
        None => if aggregate_type.len() > 0 {
            Some(type_filter(aggregate_type))
        } else {
            None
        },
    }
}

/// The options that a listing of aggregates is made with. An empty aggregate
/// type counts as none.
pub open spec fn list_aggregates_options(
    aggregate_type: Seq<char>,
    opts: JsonValue,
) -> ListAggregatesOptionsValue {
    ListAggregatesOptionsValue {
        cursor: text_member(opts, "cursor"@),
        take: u64_member(opts, "take"@),
        filter: list_filter(aggregate_type, opts),
        sort: sort_spec(member(opts, "sort"@)),
        include_archived: bool_member(opts, "includeArchived"@) == Some(true),
        archived_only: bool_member(opts, "archivedOnly"@) == Some(true),
        token: text_member(opts, "token"@),
    }
}

/// Reads the options of a listing of aggregates.
pub fn parse_list_aggregates_options(aggregate_type: &str, opts: &Json) -> (r:
    ListAggregatesOptions)
    ensures
        r@ == list_aggregates_options(aggregate_type@, opts@),
{
    let filter = match opts.get_str("filter") {
        Some(filter) => Some(filter),
        None => if !aggregate_type.is_empty() {
            Some(String::from_str("aggregate_type = \"").concat(aggregate_type).concat("\""))
        } else {
            None
        },
    };
    let include_archived = match opts.get_bool("includeArchived") {
        Some(b) => b,
        None => false,
    };
    let archived_only = match opts.get_bool("archivedOnly") {
        Some(b) => b,
        None => false,
    };
    ListAggregatesOptions {
        cursor: opts.get_str("cursor"),
        take: opts.get_u64("take"),
        filter,
        sort: parse_sort(opts.get("sort")),
        include_archived,
        archived_only,
        token: opts.get_str("token"),
    }
}

/// How the events of an aggregate are listed.
#[derive(Debug, PartialEq, Eq)]
pub struct ListEventsOptions {
    pub cursor: Option<String>,
    pub take: Option<u64>,
    pub filter: Option<String>,
    pub token: Option<String>,
}

/// The mathematical value of [`ListEventsOptions`].
pub struct ListEventsOptionsValue {
    pub cursor: Option<Seq<char>>,
    pub take: Option<u64>,
    pub filter: Option<Seq<char>>,
    pub token: Option<Seq<char>>,
}

impl View for ListEventsOptions {
    type V = ListEventsOptionsValue;

    open spec fn view(&self) -> ListEventsOptionsValue {
        ListEventsOptionsValue {
            cursor: text_option(self.cursor),
            take: self.take,
            filter: text_option(self.filter),
            token: text_option(self.token),
        }
    }
}

/// The options that a listing of events is made with.
pub open spec fn list_events_options(opts: JsonValue) -> ListEventsOptionsValue {
    ListEventsOptionsValue {
        cursor: text_member(opts, "cursor"@),
        take: u64_member(opts, "take"@),
        filter: text_member(opts, "filter"@),
        token: text_member(opts, "token"@),
    }
}

/// Reads the options of a listing of events.
pub fn parse_list_events_options(opts: &Json) -> (r: ListEventsOptions)
    ensures
        r@ == list_events_options(opts@),
{
    ListEventsOptions {
        cursor: opts.get_str("cursor"),
        take: opts.get_u64("take"),
        filter: opts.get_str("filter"),
        token: opts.get_str("token"),
    }
}

/// Every entry of the list is a string.
pub open spec fn all_strings(items: Seq<JsonValue>) -> bool {
    forall|i: int| 0 <= i < items.len() ==> #[trigger] items[i] is String
}

/// The texts of a list of strings, in the order of the entries.
pub open spec fn field_names(items: Seq<JsonValue>) -> Seq<Seq<char>> {
    Seq::new(items.len(), |i: int| items[i]->String_0)
}

/// The field selection of a document: the texts of an array of strings,
/// nothing for null, and a refusal of anything else, an array with an entry
/// that is no string included.
pub open spec fn select_fields(fields: JsonValue) -> Result<Seq<Seq<char>>, ErrorValue> {
    match fields {
        JsonValue::Array(items) => if all_strings(items) {
            Ok(field_names(items))
        } else {
            Err(ErrorValue::InvalidOption("fields must be an array of strings"@))
        },
        JsonValue::Null => Ok(Seq::empty()),
        _ => Err(ErrorValue::InvalidOption("fields must be an array of strings"@)),
    }
}

/// The value of a field selection result.
pub open spec fn fields_result(r: Result<Vec<String>, BridgeError>) -> Result<
    Seq<Seq<char>>,
    ErrorValue,
> {
    match r {
        Ok(fields) => Ok(texts_value(fields@)),
        Err(e) => Err(e@),
    }
}

/// The refusal of a field document.
fn fields_refused() -> (e: BridgeError)
    ensures
        e@ == ErrorValue::InvalidOption("fields must be an array of strings"@),
{
    BridgeError::InvalidOption(String::from_str("fields must be an array of strings"))
}

/// Reads a field selection. One entry that is no string refuses the whole
/// document.
pub fn parse_select_fields(fields: &Json) -> (r: Result<Vec<String>, BridgeError>)
    ensures
        fields_result(r) == select_fields(fields@),
{
    let mut names: Vec<String> = Vec::new();
    if fields.is_null() {
        assert(texts_value(names@) == Seq::<Seq<char>>::empty());
        return Ok(names);
    }
    let items = match fields.as_array() {
        Some(items) => items,
        None => {
            return Err(fields_refused());
        },
    };
    let ghost values = array_value(items@);
    let mut i: usize = 0;
    while i < items.len()
        invariant
            i <= items.len(),
            names.len() == i,
            values == array_value(items@),
            fields@ == JsonValue::Array(values),
            forall|k: int| 0 <= k < i ==> #[trigger] values[k] is String,
            forall|k: int| 0 <= k < i ==> names@[k]@ == (#[trigger] values[k])->String_0,
        decreases items.len() - i,
    {
        assert(values[i as int] == items@[i as int]@);
        match items[i].as_str() {
            Some(name) => {
                names.push(String::from_str(name));
            },
            None => {
                assert(!all_strings(values));
                return Err(fields_refused());
            },
        }
        i += 1;
    }
    assert(texts_value(names@) == field_names(values));
    Ok(names)
}

/// Reads the options of an archive change: the note and the token for this
/// call.
pub fn parse_archive_options(opts: &Json) -> (r: (Option<String>, Option<String>))
    ensures
        text_option(r.0) == text_member(opts@, "note"@),
        text_option(r.1) == text_member(opts@, "token"@),
{
    (opts.get_str("note"), opts.get_str("token"))
}

/// Reading publish targets is repeatable: two readings of options with the
/// same value give the same targets.
pub proof fn lemma_parse_publish_targets_repeatable(
    a: Option<&Json>,
    b: Option<&Json>,
    first: Vec<PublishTarget>,
    second: Vec<PublishTarget>,
)
    requires
        json_option(a) == json_option(b),
        call_ensures(parse_publish_targets, (a,), first),
        call_ensures(parse_publish_targets, (b,), second),
    ensures
        targets_value(first@) == targets_value(second@),
{
}

/// Reading payload options is repeatable: two readings of documents with the
/// same value agree in every part.
pub proof fn lemma_parse_payload_options_repeatable(
    a: Json,
    b: Json,
    first: (Json, Option<String>, Option<Json>, Option<String>, Vec<PublishTarget>),
    second: (Json, Option<String>, Option<Json>, Option<String>, Vec<PublishTarget>),
)
    requires
        a@ == b@,
        call_ensures(parse_payload_options, (a,), first),
        call_ensures(parse_payload_options, (b,), second),
    ensures
        first.0@ == second.0@,
        text_option(first.1) == text_option(second.1),
        owned_json_option(first.2) == owned_json_option(second.2),
        text_option(first.3) == text_option(second.3),
        targets_value(first.4@) == targets_value(second.4@),
{
}

/// Reading list options is repeatable: two readings of the same aggregate
/// type and of documents with the same value give the same options.
pub proof fn lemma_parse_list_options_repeatable(
    aggregate_type: &str,
    a: &Json,
    b: &Json,
    first: ListAggregatesOptions,
    second: ListAggregatesOptions,
)
    requires
        a@ == b@,
        call_ensures(parse_list_aggregates_options, (aggregate_type, a), first),
        call_ensures(parse_list_aggregates_options, (aggregate_type, b), second),
    ensures
        first@ == second@,
{
}

/// Reading a field selection is repeatable: two readings of documents with
/// the same value give the same fields, or fail alike.
pub proof fn lemma_parse_select_fields_repeatable(
    a: &Json,
    b: &Json,
    first: Result<Vec<String>, BridgeError>,
    second: Result<Vec<String>, BridgeError>,
)
    requires
        a@ == b@,
        call_ensures(parse_select_fields, (a,), first),
        call_ensures(parse_select_fields, (b,), second),
    ensures
        fields_result(first) == fields_result(second),
{
}

} // verus!
