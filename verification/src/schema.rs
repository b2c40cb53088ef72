//! The canonical, strictly-typed block schema, and the normalizer/decoder
//! that turns a raw block's loosely-shaped JSON into it.  Normalization
//! repairs the irregular spots before strict decoding: an extrinsic's `args`
//! and `info` become opaque strings (nested structures are re-encoded as
//! compact JSON text, strings stay as they are), and the `data` of an
//! extrinsic's events keeps only the elements that are already strings.
//! Decoding failure is a permanent error for the height, never skipped
//! silently.

use vstd::prelude::*;
use crate::json::{JsonValue, json_text, json_to_string, spec_obj_get, obj_get};
use crate::coordinator::Network;
use crate::coordinator::blocks_behind;

verus! {

/// Permanent failure to decode a block: a required field is missing or has
/// the wrong shape.
#[derive(Clone, Copy, PartialEq, Eq, Structural, Debug)]
pub enum DecodeError {
    Malformed,
}

/// A method descriptor: the pallet and the method called.
#[derive(Debug, PartialEq)]
pub struct Method {
    pub pallet: String,
    pub method: String,
}

/// An extrinsic's era descriptor.
#[derive(Debug, PartialEq)]
pub struct Era {
    pub immortal_era: String,
}

/// A weight record inside structured event data.
#[derive(Debug, PartialEq)]
pub struct Weight {
    pub ref_time: Option<String>,
    pub proof_size: Option<String>,
}

/// Structured weight/fee event data.
#[derive(Debug, PartialEq)]
pub struct EventData {
    pub weight: Weight,
    pub class: String,
    pub pays_fee: String,
}

/// One heterogeneous value in an event's data: a structured record, a plain
/// string, a list of strings, or a number.
#[derive(Debug, PartialEq)]
pub enum DataValue {
    EventData(EventData),
    Str(String),
    Array(Vec<String>),
    Numeric(u64),
}

/// One event: a method descriptor and its data values.
#[derive(Debug, PartialEq)]
pub struct Event {
    pub method: Method,
    pub data: Vec<DataValue>,
}

/// The events of a block's pre or post hook.
#[derive(Debug, PartialEq)]
pub struct InitializeFinalize {
    pub events: Vec<Event>,
}

/// One digest log entry.
#[derive(Debug, PartialEq)]
pub struct Log {
    pub log_type: String,
    pub index: String,
    pub value: Vec<String>,
}

/// One extrinsic, with `args` and `info` kept as opaque strings.
#[derive(Debug, PartialEq)]
pub struct Extrinsic {
    pub method: Method,
    pub signature: Option<String>,
    pub nonce: Option<String>,
    pub args: String,
    pub tip: Option<String>,
    pub hash: String,
    pub info: String,
    pub era: Era,
    pub events: Vec<Event>,
    pub success: bool,
    pub pays_fee: bool,
}

/// A flattened string-to-string JSON object.
pub struct JsonMap {
    pub data: std::collections::HashMap<String, String>,
}

/// The canonical block.
#[derive(Debug, PartialEq)]
pub struct Block {
    pub number: String,
    pub hash: String,
    pub parent_hash: String,
    pub state_root: String,
    pub extrinsics_root: String,
    pub author_id: String,
    pub logs: Vec<Log>,
    pub on_initialize: InitializeFinalize,
    pub extrinsics: Vec<Extrinsic>,
    pub on_finalize: InitializeFinalize,
    pub finalized: bool,
}

// What a well-shaped raw value looks like, and what decoding it yields.

pub open spec fn str_field_ok(fs: Seq<(String, JsonValue)>, key: Seq<char>) -> bool {
    spec_obj_get(fs, key) matches Some(JsonValue::Str(_))
}

pub open spec fn str_field_rel(fs: Seq<(String, JsonValue)>, key: Seq<char>, out: Seq<char>) -> bool {
    spec_obj_get(fs, key) matches Some(JsonValue::Str(s)) && s@ == out
}

pub open spec fn opt_str_field_ok(fs: Seq<(String, JsonValue)>, key: Seq<char>) -> bool {
    match spec_obj_get(fs, key) {
        Option::None => true,
        Option::Some(JsonValue::Null) => true,
        Option::Some(JsonValue::Str(_)) => true,
        _ => false,
    }
}

pub open spec fn opt_str_field_rel(
    fs: Seq<(String, JsonValue)>,
    key: Seq<char>,
    out: Option<String>,
) -> bool {
    match spec_obj_get(fs, key) {
        Option::None => out is None,
        Option::Some(JsonValue::Null) => out is None,
        Option::Some(JsonValue::Str(s)) => out matches Some(t) && t@ == s@,
        _ => false,
    }
}

pub open spec fn bool_field_ok(fs: Seq<(String, JsonValue)>, key: Seq<char>) -> bool {
    spec_obj_get(fs, key) matches Some(JsonValue::Bool(_))
}

pub open spec fn bool_field_rel(fs: Seq<(String, JsonValue)>, key: Seq<char>, out: bool) -> bool {
    spec_obj_get(fs, key) matches Some(JsonValue::Bool(b)) && b == out
}

pub open spec fn method_ok(v: JsonValue) -> bool {
    v matches JsonValue::Obj(fs) && str_field_ok(fs@, "pallet"@) && str_field_ok(fs@, "method"@)
}

pub open spec fn method_rel(m: Method, v: JsonValue) -> bool {
    v matches JsonValue::Obj(fs) && str_field_rel(fs@, "pallet"@, m.pallet@) && str_field_rel(
        fs@,
        "method"@,
        m.method@,
    )
}

pub open spec fn era_ok(v: JsonValue) -> bool {
    v matches JsonValue::Obj(fs) && str_field_ok(fs@, "immortalEra"@)
}

pub open spec fn era_rel(e: Era, v: JsonValue) -> bool {
    v matches JsonValue::Obj(fs) && str_field_rel(fs@, "immortalEra"@, e.immortal_era@)
}

pub open spec fn weight_ok(v: JsonValue) -> bool {
    v matches JsonValue::Obj(fs) && opt_str_field_ok(fs@, "refTime"@) && opt_str_field_ok(
        fs@,
        "proofSize"@,
    )
}

pub open spec fn weight_rel(w: Weight, v: JsonValue) -> bool {
    v matches JsonValue::Obj(fs) && opt_str_field_rel(fs@, "refTime"@, w.ref_time)
        && opt_str_field_rel(fs@, "proofSize"@, w.proof_size)
}

pub open spec fn event_data_ok(v: JsonValue) -> bool {
    v matches JsonValue::Obj(fs) && (spec_obj_get(fs@, "weight"@) matches Some(w) && weight_ok(w))
        && str_field_ok(fs@, "class"@) && str_field_ok(fs@, "paysFee"@)
}

pub open spec fn event_data_rel(ed: EventData, v: JsonValue) -> bool {
    v matches JsonValue::Obj(fs) && (spec_obj_get(fs@, "weight"@) matches Some(w) && weight_rel(
        ed.weight,
        w,
    )) && str_field_rel(fs@, "class"@, ed.class@) && str_field_rel(fs@, "paysFee"@, ed.pays_fee@)
}

pub open spec fn all_strings(es: Seq<JsonValue>) -> bool {
    forall|i: int| 0 <= i < es.len() ==> (#[trigger] es[i]) matches JsonValue::Str(_)
}

pub open spec fn strs_rel(out: Seq<String>, es: Seq<JsonValue>) -> bool {
    out.len() == es.len() && (forall|i: int|
        0 <= i < es.len() ==> ((#[trigger] es[i]) matches JsonValue::Str(s) && out[i]@ == s@))
}

/// One data value, decoded the way an untagged union decodes: a structured
/// record where the shape fits, else a string, a list of strings, or a
/// number.
pub open spec fn data_value_ok(v: JsonValue) -> bool {
    if event_data_ok(v) {
        true
    } else {
        match v {
            JsonValue::Str(_) => true,
            JsonValue::Arr(es) => all_strings(es@),
            JsonValue::Num(_) => true,
            _ => false,
        }
    }
}

pub open spec fn data_value_rel(d: DataValue, v: JsonValue) -> bool {
    if event_data_ok(v) {
        d matches DataValue::EventData(ed) && event_data_rel(ed, v)
    } else {
        match v {
            JsonValue::Str(s) => d matches DataValue::Str(o) && o@ == s@,
            JsonValue::Arr(es) => d matches DataValue::Array(ss) && strs_rel(ss@, es@),
            JsonValue::Num(n) => d matches DataValue::Numeric(m) && m == n,
            _ => false,
        }
    }
}

pub open spec fn data_values_ok(es: Seq<JsonValue>) -> bool {
    forall|i: int| 0 <= i < es.len() ==> data_value_ok(#[trigger] es[i])
}

pub open spec fn data_values_rel(out: Seq<DataValue>, es: Seq<JsonValue>) -> bool {
    out.len() == es.len() && (forall|i: int|
        0 <= i < es.len() ==> data_value_rel(#[trigger] out[i], es[i]))
}

/// A raw (not normalized) event, as the block-level hooks carry them.
pub open spec fn event_ok(v: JsonValue) -> bool {
    v matches JsonValue::Obj(fs) && (spec_obj_get(fs@, "method"@) matches Some(m) && method_ok(m))
        && (match spec_obj_get(fs@, "data"@) {
        Option::None => true,
        Option::Some(JsonValue::Arr(es)) => data_values_ok(es@),
        _ => false,
    })
}

pub open spec fn event_rel(e: Event, v: JsonValue) -> bool {
    v matches JsonValue::Obj(fs) && (spec_obj_get(fs@, "method"@) matches Some(m) && method_rel(
        e.method,
        m,
    )) && (match spec_obj_get(fs@, "data"@) {
        Option::None => e.data@.len() == 0,
        Option::Some(JsonValue::Arr(es)) => data_values_rel(e.data@, es@),
        _ => false,
    })
}

pub open spec fn events_ok(es: Seq<JsonValue>) -> bool {
    forall|i: int| 0 <= i < es.len() ==> event_ok(#[trigger] es[i])
}

pub open spec fn events_rel(out: Seq<Event>, es: Seq<JsonValue>) -> bool {
    out.len() == es.len() && (forall|i: int|
        0 <= i < es.len() ==> event_rel(#[trigger] out[i], es[i]))
}

/// The string values an event-data array keeps under normalization: exactly
/// its elements that are already strings, in order.
pub open spec fn kept_strings(es: Seq<JsonValue>) -> Seq<Seq<char>>
    decreases es.len(),
{
    if es.len() == 0 {
        Seq::empty()
    } else {
        kept_strings(es.drop_last()) + (match es.last() {
            JsonValue::Str(s) => seq![s@],
            _ => Seq::<Seq<char>>::empty(),
        })
    }
}

pub open spec fn kept_strs_rel(out: Seq<DataValue>, kept: Seq<Seq<char>>) -> bool {
    out.len() == kept.len() && (forall|i: int|
        0 <= i < out.len() ==> ((#[trigger] out[i]) matches DataValue::Str(s) && s@ == kept[i]))
}

/// An extrinsic's event after normalization: its data, when present, must be
/// an array, of which only the string elements are kept.
pub open spec fn norm_event_ok(v: JsonValue) -> bool {
    v matches JsonValue::Obj(fs) && (spec_obj_get(fs@, "method"@) matches Some(m) && method_ok(m))
        && (match spec_obj_get(fs@, "data"@) {
        Option::None => true,
        Option::Some(JsonValue::Arr(_)) => true,
        _ => false,
    })
}

pub open spec fn norm_event_rel(e: Event, v: JsonValue) -> bool {
    v matches JsonValue::Obj(fs) && (spec_obj_get(fs@, "method"@) matches Some(m) && method_rel(
        e.method,
        m,
    )) && (match spec_obj_get(fs@, "data"@) {
        Option::None => e.data@.len() == 0,
        Option::Some(JsonValue::Arr(es)) => kept_strs_rel(e.data@, kept_strings(es@)),
        _ => false,
    })
}

pub open spec fn norm_events_ok(es: Seq<JsonValue>) -> bool {
    forall|i: int| 0 <= i < es.len() ==> norm_event_ok(#[trigger] es[i])
}

pub open spec fn norm_events_rel(out: Seq<Event>, es: Seq<JsonValue>) -> bool {
    out.len() == es.len() && (forall|i: int|
        0 <= i < es.len() ==> norm_event_rel(#[trigger] out[i], es[i]))
}

/// What an extrinsic's `args` or `info` is stored as: a string stays as it
/// is, any other value is re-encoded as compact JSON text.
pub open spec fn norm_opaque(v: JsonValue) -> Seq<char> {
    match v {
        JsonValue::Str(s) => s@,
        _ => json_text(v),
    }
}

pub open spec fn log_ok(v: JsonValue) -> bool {
    v matches JsonValue::Obj(fs) && str_field_ok(fs@, "type"@) && str_field_ok(fs@, "index"@) && (
    spec_obj_get(fs@, "value"@) matches Some(JsonValue::Arr(es)) && all_strings(es@))
}

pub open spec fn log_rel(l: Log, v: JsonValue) -> bool {
    v matches JsonValue::Obj(fs) && str_field_rel(fs@, "type"@, l.log_type@) && str_field_rel(
        fs@,
        "index"@,
        l.index@,
    ) && (spec_obj_get(fs@, "value"@) matches Some(JsonValue::Arr(es)) && strs_rel(l.value@, es@))
}

pub open spec fn logs_ok(es: Seq<JsonValue>) -> bool {
    forall|i: int| 0 <= i < es.len() ==> log_ok(#[trigger] es[i])
}

pub open spec fn logs_rel(out: Seq<Log>, es: Seq<JsonValue>) -> bool {
    out.len() == es.len() && (forall|i: int| 0 <= i < es.len() ==> log_rel(#[trigger] out[i], es[i]))
}

pub open spec fn init_fin_ok(v: JsonValue) -> bool {
    v matches JsonValue::Obj(fs) && (spec_obj_get(fs@, "events"@) matches Some(
        JsonValue::Arr(es),
    ) && events_ok(es@))
}

pub open spec fn init_fin_rel(f: InitializeFinalize, v: JsonValue) -> bool {
    v matches JsonValue::Obj(fs) && (spec_obj_get(fs@, "events"@) matches Some(
        JsonValue::Arr(es),
    ) && events_rel(f.events@, es@))
}

pub open spec fn extrinsic_ok(v: JsonValue) -> bool {
    v matches JsonValue::Obj(fs) && (spec_obj_get(fs@, "method"@) matches Some(m) && method_ok(m))
        && opt_str_field_ok(fs@, "signature"@) && opt_str_field_ok(fs@, "nonce"@) && (spec_obj_get(
        fs@,
        "args"@,
    ) is Some) && opt_str_field_ok(fs@, "tip"@) && str_field_ok(fs@, "hash"@) && (spec_obj_get(
        fs@,
        "info"@,
    ) is Some) && (spec_obj_get(fs@, "era"@) matches Some(e) && era_ok(e)) && (spec_obj_get(
        fs@,
        "events"@,
    ) matches Some(JsonValue::Arr(es)) && norm_events_ok(es@)) && bool_field_ok(fs@, "success"@)
        && bool_field_ok(fs@, "paysFee"@)
}

pub open spec fn extrinsic_rel(x: Extrinsic, v: JsonValue) -> bool {
    v matches JsonValue::Obj(fs) && (spec_obj_get(fs@, "method"@) matches Some(m) && method_rel(
        x.method,
        m,
    )) && opt_str_field_rel(fs@, "signature"@, x.signature) && opt_str_field_rel(
        fs@,
        "nonce"@,
        x.nonce,
    ) && (spec_obj_get(fs@, "args"@) matches Some(a) && x.args@ == norm_opaque(a))
        && opt_str_field_rel(fs@, "tip"@, x.tip) && str_field_rel(fs@, "hash"@, x.hash@) && (
    spec_obj_get(fs@, "info"@) matches Some(inf) && x.info@ == norm_opaque(inf)) && (spec_obj_get(
        fs@,
        "era"@,
    ) matches Some(e) && era_rel(x.era, e)) && (spec_obj_get(fs@, "events"@) matches Some(
        JsonValue::Arr(es),
    ) && norm_events_rel(x.events@, es@)) && bool_field_rel(fs@, "success"@, x.success)
        && bool_field_rel(fs@, "paysFee"@, x.pays_fee)
}

pub open spec fn extrinsics_ok(es: Seq<JsonValue>) -> bool {
    forall|i: int| 0 <= i < es.len() ==> extrinsic_ok(#[trigger] es[i])
}

pub open spec fn extrinsics_rel(out: Seq<Extrinsic>, es: Seq<JsonValue>) -> bool {
    out.len() == es.len() && (forall|i: int|
        0 <= i < es.len() ==> extrinsic_rel(#[trigger] out[i], es[i]))
}

/// A raw block value that normalizes and decodes into a canonical block.
pub open spec fn block_ok(v: JsonValue) -> bool {
    v matches JsonValue::Obj(fs) && str_field_ok(fs@, "number"@) && str_field_ok(fs@, "hash"@)
        && str_field_ok(fs@, "parentHash"@) && str_field_ok(fs@, "stateRoot"@) && str_field_ok(
        fs@,
        "extrinsicsRoot"@,
    ) && str_field_ok(fs@, "authorId"@) && (spec_obj_get(fs@, "logs"@) matches Some(
        JsonValue::Arr(ls),
    ) && logs_ok(ls@)) && (spec_obj_get(fs@, "onInitialize"@) matches Some(oi) && init_fin_ok(oi))
        && (spec_obj_get(fs@, "extrinsics"@) matches Some(JsonValue::Arr(xs)) && extrinsics_ok(xs@))
        && (spec_obj_get(fs@, "onFinalize"@) matches Some(of) && init_fin_ok(of)) && bool_field_ok(
        fs@,
        "finalized"@,
    )
}

/// What the decoded canonical block holds, field for field, for a
/// well-shaped raw value.
pub open spec fn block_rel(b: Block, v: JsonValue) -> bool {
    v matches JsonValue::Obj(fs) && str_field_rel(fs@, "number"@, b.number@) && str_field_rel(
        fs@,
        "hash"@,
        b.hash@,
    ) && str_field_rel(fs@, "parentHash"@, b.parent_hash@) && str_field_rel(
        fs@,
        "stateRoot"@,
        b.state_root@,
    ) && str_field_rel(fs@, "extrinsicsRoot"@, b.extrinsics_root@) && str_field_rel(
        fs@,
        "authorId"@,
        b.author_id@,
    ) && (spec_obj_get(fs@, "logs"@) matches Some(JsonValue::Arr(ls)) && logs_rel(b.logs@, ls@))
        && (spec_obj_get(fs@, "onInitialize"@) matches Some(oi) && init_fin_rel(b.on_initialize, oi))
        && (spec_obj_get(fs@, "extrinsics"@) matches Some(JsonValue::Arr(xs)) && extrinsics_rel(
        b.extrinsics@,
        xs@,
    )) && (spec_obj_get(fs@, "onFinalize"@) matches Some(of) && init_fin_rel(b.on_finalize, of))
        && bool_field_rel(fs@, "finalized"@, b.finalized)
}

// The decoder.

fn get_field<'a>(fields: &'a Vec<(String, JsonValue)>, key: &str) -> (r: Option<&'a JsonValue>)
    ensures
        (r is Some) == (spec_obj_get(fields@, key@) is Some),
        r matches Some(v) ==> spec_obj_get(fields@, key@) == Option::Some(*v),
{
    let k: String = key.to_owned();
    obj_get(fields, &k)
}

fn get_str_field(fields: &Vec<(String, JsonValue)>, key: &str) -> (r: Result<String, DecodeError>)
    ensures
        (r is Ok) == str_field_ok(fields@, key@),
        r matches Ok(s) ==> str_field_rel(fields@, key@, s@),
{
    match get_field(fields, key) {
        Option::Some(v) => match v {
            JsonValue::Str(s) => Ok(s.clone()),
            _ => Err(DecodeError::Malformed),
        },
        Option::None => Err(DecodeError::Malformed),
    }
}

fn get_opt_str_field(fields: &Vec<(String, JsonValue)>, key: &str) -> (r: Result<
    Option<String>,
    DecodeError,
>)
    ensures
        (r is Ok) == opt_str_field_ok(fields@, key@),
        r matches Ok(o) ==> opt_str_field_rel(fields@, key@, o),
{
    match get_field(fields, key) {
        Option::None => Ok(Option::None),
        Option::Some(v) => match v {
            JsonValue::Null => Ok(Option::None),
            JsonValue::Str(s) => Ok(Option::Some(s.clone())),
            _ => Err(DecodeError::Malformed),
        },
    }
}

fn get_bool_field(fields: &Vec<(String, JsonValue)>, key: &str) -> (r: Result<bool, DecodeError>)
    ensures
        (r is Ok) == bool_field_ok(fields@, key@),
        r matches Ok(b) ==> bool_field_rel(fields@, key@, b),
{
    match get_field(fields, key) {
        Option::Some(v) => match v {
            JsonValue::Bool(b) => Ok(*b),
            _ => Err(DecodeError::Malformed),
        },
        Option::None => Err(DecodeError::Malformed),
    }
}

fn decode_method(v: &JsonValue) -> (r: Result<Method, DecodeError>)
    ensures
        (r is Ok) == method_ok(*v),
        r matches Ok(m) ==> method_rel(m, *v),
{
    match v {
        JsonValue::Obj(fs) => {
            let pallet = match get_str_field(fs, "pallet") {
                Ok(s) => s,
                Err(e) => {
                    return Err(e);
                },
            };
            let method = match get_str_field(fs, "method") {
                Ok(s) => s,
                Err(e) => {
                    return Err(e);
                },
            };
            Ok(Method { pallet, method })
        },
        _ => Err(DecodeError::Malformed),
    }
}

fn decode_era(v: &JsonValue) -> (r: Result<Era, DecodeError>)
    ensures
        (r is Ok) == era_ok(*v),
        r matches Ok(e) ==> era_rel(e, *v),
{
    match v {
        JsonValue::Obj(fs) => {
            match get_str_field(fs, "immortalEra") {
                Ok(s) => Ok(Era { immortal_era: s }),
                Err(e) => Err(e),
            }
        },
        _ => Err(DecodeError::Malformed),
    }
}

fn decode_weight(v: &JsonValue) -> (r: Result<Weight, DecodeError>)
    ensures
        (r is Ok) == weight_ok(*v),
        r matches Ok(w) ==> weight_rel(w, *v),
{
    match v {
        JsonValue::Obj(fs) => {
            let ref_time = match get_opt_str_field(fs, "refTime") {
                Ok(o) => o,
                Err(e) => {
                    return Err(e);
                },
            };
            let proof_size = match get_opt_str_field(fs, "proofSize") {
                Ok(o) => o,
                Err(e) => {
                    return Err(e);
                },
            };
            Ok(Weight { ref_time, proof_size })
        },
        _ => Err(DecodeError::Malformed),
    }
}

fn decode_event_data(v: &JsonValue) -> (r: Result<EventData, DecodeError>)
    ensures
        (r is Ok) == event_data_ok(*v),
        r matches Ok(ed) ==> event_data_rel(ed, *v),
{
    match v {
        JsonValue::Obj(fs) => {
            let weight = match get_field(fs, "weight") {
                Option::Some(w) => match decode_weight(w) {
                    Ok(w) => w,
                    Err(e) => {
                        return Err(e);
                    },
                },
                Option::None => {
                    return Err(DecodeError::Malformed);
                },
            };
            let class = match get_str_field(fs, "class") {
                Ok(s) => s,
                Err(e) => {
                    return Err(e);
                },
            };
            let pays_fee = match get_str_field(fs, "paysFee") {
                Ok(s) => s,
                Err(e) => {
                    return Err(e);
                },
            };
            Ok(EventData { weight, class, pays_fee })
        },
        _ => Err(DecodeError::Malformed),
    }
}

fn decode_str_vec(es: &Vec<JsonValue>) -> (r: Result<Vec<String>, DecodeError>)
    ensures
        (r is Ok) == all_strings(es@),
        r matches Ok(ss) ==> strs_rel(ss@, es@),
{
    let mut out: Vec<String> = Vec::new();
    let mut i: usize = 0;
    while i < es.len()
        invariant
            i <= es@.len(),
            out@.len() == i,
            forall|j: int|
                0 <= j < i ==> ((#[trigger] es@[j]) matches JsonValue::Str(s) && out@[j]@ == s@),
        decreases es@.len() - i,
    {
        match &es[i] {
            JsonValue::Str(s) => {
                out.push(s.clone());
            },
            _ => {
                return Err(DecodeError::Malformed);
            },
        }
        i = i + 1;
    }
    Ok(out)
}

fn decode_data_value(v: &JsonValue) -> (r: Result<DataValue, DecodeError>)
    ensures
        (r is Ok) == data_value_ok(*v),
        r matches Ok(d) ==> data_value_rel(d, *v),
{
    match v {
        JsonValue::Obj(_) => {
            match decode_event_data(v) {
                Ok(ed) => Ok(DataValue::EventData(ed)),
                Err(e) => Err(e),
            }
        },
        JsonValue::Str(s) => Ok(DataValue::Str(s.clone())),
        JsonValue::Arr(es) => {
            match decode_str_vec(es) {
                Ok(ss) => Ok(DataValue::Array(ss)),
                Err(e) => Err(e),
            }
        },
        JsonValue::Num(n) => Ok(DataValue::Numeric(*n)),
        _ => Err(DecodeError::Malformed),
    }
}

fn decode_data_values(es: &Vec<JsonValue>) -> (r: Result<Vec<DataValue>, DecodeError>)
    ensures
        (r is Ok) == data_values_ok(es@),
        r matches Ok(ds) ==> data_values_rel(ds@, es@),
{
    let mut out: Vec<DataValue> = Vec::new();
    let mut i: usize = 0;
    while i < es.len()
        invariant
            i <= es@.len(),
            out@.len() == i,
            forall|j: int| 0 <= j < i ==> data_value_rel(#[trigger] out@[j], es@[j]),
            forall|j: int| 0 <= j < i ==> data_value_ok(#[trigger] es@[j]),
        decreases es@.len() - i,
    {
        match decode_data_value(&es[i]) {
            Ok(d) => {
                out.push(d);
            },
            Err(e) => {
                return Err(e);
            },
        }
        i = i + 1;
    }
    Ok(out)
}

/// Decodes one raw event, as the block-level hooks carry them.
fn decode_event(v: &JsonValue) -> (r: Result<Event, DecodeError>)
    ensures
        (r is Ok) == event_ok(*v),
        r matches Ok(e) ==> event_rel(e, *v),
{
    match v {
        JsonValue::Obj(fs) => {
            let method = match get_field(fs, "method") {
                Option::Some(m) => match decode_method(m) {
                    Ok(m) => m,
                    Err(e) => {
                        return Err(e);
                    },
                },
                Option::None => {
                    return Err(DecodeError::Malformed);
                },
            };
            let data = match get_field(fs, "data") {
                Option::None => Vec::new(),
                Option::Some(d) => match d {
                    JsonValue::Arr(es) => match decode_data_values(es) {
                        Ok(ds) => ds,
                        Err(e) => {
                            return Err(e);
                        },
                    },
                    _ => {
                        return Err(DecodeError::Malformed);
                    },
                },
            };
            Ok(Event { method, data })
        },
        _ => Err(DecodeError::Malformed),
    }
}

fn decode_events(es: &Vec<JsonValue>) -> (r: Result<Vec<Event>, DecodeError>)
    ensures
        (r is Ok) == events_ok(es@),
        r matches Ok(out) ==> events_rel(out@, es@),
{
    let mut out: Vec<Event> = Vec::new();
    let mut i: usize = 0;
    while i < es.len()
        invariant
            i <= es@.len(),
            out@.len() == i,
            forall|j: int| 0 <= j < i ==> event_rel(#[trigger] out@[j], es@[j]),
            forall|j: int| 0 <= j < i ==> event_ok(#[trigger] es@[j]),
        decreases es@.len() - i,
    {
        match decode_event(&es[i]) {
            Ok(e) => {
                out.push(e);
            },
            Err(e) => {
                return Err(e);
            },
        }
        i = i + 1;
    }
    Ok(out)
}

/// Normalizes one event-data array: only the elements that are already
/// strings are kept, everything else is dropped.
fn normalize_data(es: &Vec<JsonValue>) -> (r: Vec<DataValue>)
    ensures
        kept_strs_rel(r@, kept_strings(es@)),
{
    let mut out: Vec<DataValue> = Vec::new();
    let mut i: usize = 0;
    proof {
        assert(es@.take(0) =~= Seq::<JsonValue>::empty());
    }
    while i < es.len()
        invariant
            i <= es@.len(),
            kept_strs_rel(out@, kept_strings(es@.take(i as int))),
        decreases es@.len() - i,
    {
        proof {
            assert(es@.take(i as int + 1).drop_last() =~= es@.take(i as int));
            assert(es@.take(i as int + 1).last() == es@[i as int]);
        }
        match &es[i] {
            JsonValue::Str(s) => {
                out.push(DataValue::Str(s.clone()));
            },
            _ => {},
        }
        i = i + 1;
    }
    proof {
        assert(es@.take(es@.len() as int) =~= es@);
    }
    out
}

/// Decodes one extrinsic's event after normalizing its data.
fn decode_norm_event(v: &JsonValue) -> (r: Result<Event, DecodeError>)
    ensures
        (r is Ok) == norm_event_ok(*v),
        r matches Ok(e) ==> norm_event_rel(e, *v),
{
    match v {
        JsonValue::Obj(fs) => {
            let method = match get_field(fs, "method") {
                Option::Some(m) => match decode_method(m) {
                    Ok(m) => m,
                    Err(e) => {
                        return Err(e);
                    },
                },
                Option::None => {
                    return Err(DecodeError::Malformed);
                },
            };
            let data = match get_field(fs, "data") {
                Option::None => Vec::new(),
                Option::Some(d) => match d {
                    JsonValue::Arr(es) => normalize_data(es),
                    _ => {
                        return Err(DecodeError::Malformed);
                    },
                },
            };
            Ok(Event { method, data })
        },
        _ => Err(DecodeError::Malformed),
    }
}

fn decode_norm_events(es: &Vec<JsonValue>) -> (r: Result<Vec<Event>, DecodeError>)
    ensures
        (r is Ok) == norm_events_ok(es@),
        r matches Ok(out) ==> norm_events_rel(out@, es@),
{
    let mut out: Vec<Event> = Vec::new();
    let mut i: usize = 0;
    while i < es.len()
        invariant
            i <= es@.len(),
            out@.len() == i,
            forall|j: int| 0 <= j < i ==> norm_event_rel(#[trigger] out@[j], es@[j]),
            forall|j: int| 0 <= j < i ==> norm_event_ok(#[trigger] es@[j]),
        decreases es@.len() - i,
    {
        match decode_norm_event(&es[i]) {
            Ok(e) => {
                out.push(e);
            },
            Err(e) => {
                return Err(e);
            },
        }
        i = i + 1;
    }
    Ok(out)
}

/// The opaque-string normalization for `args` and `info`.
fn normalize_opaque(v: &JsonValue) -> (r: String)
    ensures
        r@ == norm_opaque(*v),
{
    match v {
        JsonValue::Str(s) => s.clone(),
        _ => json_to_string(v),
    }
}

fn decode_extrinsic(v: &JsonValue) -> (r: Result<Extrinsic, DecodeError>)
    ensures
        (r is Ok) == extrinsic_ok(*v),
        r matches Ok(x) ==> extrinsic_rel(x, *v),
{
    match v {
        JsonValue::Obj(fs) => {
            let method = match get_field(fs, "method") {
                Option::Some(m) => match decode_method(m) {
                    Ok(m) => m,
                    Err(e) => {
                        return Err(e);
                    },
                },
                Option::None => {
                    return Err(DecodeError::Malformed);
                },
            };
            let signature = match get_opt_str_field(fs, "signature") {
                Ok(o) => o,
                Err(e) => {
                    return Err(e);
                },
            };
            let nonce = match get_opt_str_field(fs, "nonce") {
                Ok(o) => o,
                Err(e) => {
                    return Err(e);
                },
            };
            let args = match get_field(fs, "args") {
                Option::Some(a) => normalize_opaque(a),
                Option::None => {
                    return Err(DecodeError::Malformed);
                },
            };
            let tip = match get_opt_str_field(fs, "tip") {
                Ok(o) => o,
                Err(e) => {
                    return Err(e);
                },
            };
            let hash = match get_str_field(fs, "hash") {
                Ok(s) => s,
                Err(e) => {
                    return Err(e);
                },
            };
            let info = match get_field(fs, "info") {
                Option::Some(inf) => normalize_opaque(inf),
                Option::None => {
                    return Err(DecodeError::Malformed);
                },
            };
            let era = match get_field(fs, "era") {
                Option::Some(e) => match decode_era(e) {
                    Ok(e) => e,
                    Err(e) => {
                        return Err(e);
                    },
                },
                Option::None => {
                    return Err(DecodeError::Malformed);
                },
            };
            let events = match get_field(fs, "events") {
                Option::Some(ev) => match ev {
                    JsonValue::Arr(es) => match decode_norm_events(es) {
                        Ok(out) => out,
                        Err(e) => {
                            return Err(e);
                        },
                    },
                    _ => {
                        return Err(DecodeError::Malformed);
                    },
                },
                Option::None => {
                    return Err(DecodeError::Malformed);
                },
            };
            let success = match get_bool_field(fs, "success") {
                Ok(b) => b,
                Err(e) => {
                    return Err(e);
                },
            };
            let pays_fee = match get_bool_field(fs, "paysFee") {
                Ok(b) => b,
                Err(e) => {
                    return Err(e);
                },
            };
            Ok(Extrinsic {
                method,
                signature,
                nonce,
                args,
                tip,
                hash,
                info,
                era,
                events,
                success,
                pays_fee,
            })
        },
        _ => Err(DecodeError::Malformed),
    }
}

fn decode_extrinsics(es: &Vec<JsonValue>) -> (r: Result<Vec<Extrinsic>, DecodeError>)
    ensures
        (r is Ok) == extrinsics_ok(es@),
        r matches Ok(out) ==> extrinsics_rel(out@, es@),
{
    let mut out: Vec<Extrinsic> = Vec::new();
    let mut i: usize = 0;
    while i < es.len()
        invariant
            i <= es@.len(),
            out@.len() == i,
            forall|j: int| 0 <= j < i ==> extrinsic_rel(#[trigger] out@[j], es@[j]),
            forall|j: int| 0 <= j < i ==> extrinsic_ok(#[trigger] es@[j]),
        decreases es@.len() - i,
    {
        match decode_extrinsic(&es[i]) {
            Ok(x) => {
                out.push(x);
            },
            Err(e) => {
                return Err(e);
            },
        }
        i = i + 1;
    }
    Ok(out)
}

fn decode_logs(es: &Vec<JsonValue>) -> (r: Result<Vec<Log>, DecodeError>)
    ensures
        (r is Ok) == logs_ok(es@),
        r matches Ok(out) ==> logs_rel(out@, es@),
{
    let mut out: Vec<Log> = Vec::new();
    let mut i: usize = 0;
    while i < es.len()
        invariant
            i <= es@.len(),
            out@.len() == i,
            forall|j: int| 0 <= j < i ==> log_rel(#[trigger] out@[j], es@[j]),
            forall|j: int| 0 <= j < i ==> log_ok(#[trigger] es@[j]),
        decreases es@.len() - i,
    {
        match decode_log(&es[i]) {
            Ok(l) => {
                out.push(l);
            },
            Err(e) => {
                return Err(e);
            },
        }
        i = i + 1;
    }
    Ok(out)
}

fn decode_log(v: &JsonValue) -> (r: Result<Log, DecodeError>)
    ensures
        (r is Ok) == log_ok(*v),
        r matches Ok(l) ==> log_rel(l, *v),
{
    match v {
        JsonValue::Obj(fs) => {
            let log_type = match get_str_field(fs, "type") {
                Ok(s) => s,
                Err(e) => {
                    return Err(e);
                },
            };
            let index = match get_str_field(fs, "index") {
                Ok(s) => s,
                Err(e) => {
                    return Err(e);
                },
            };
            let value = match get_field(fs, "value") {
                Option::Some(val) => match val {
                    JsonValue::Arr(es) => match decode_str_vec(es) {
                        Ok(ss) => ss,
                        Err(e) => {
                            return Err(e);
                        },
                    },
                    _ => {
                        return Err(DecodeError::Malformed);
                    },
                },
                Option::None => {
                    return Err(DecodeError::Malformed);
                },
            };
            Ok(Log { log_type, index, value })
        },
        _ => Err(DecodeError::Malformed),
    }
}

fn decode_init_fin(v: &JsonValue) -> (r: Result<InitializeFinalize, DecodeError>)
    ensures
        (r is Ok) == init_fin_ok(*v),
        r matches Ok(f) ==> init_fin_rel(f, *v),
{
    match v {
        JsonValue::Obj(fs) => {
            match get_field(fs, "events") {
                Option::Some(ev) => match ev {
                    JsonValue::Arr(es) => match decode_events(es) {
                        Ok(out) => Ok(InitializeFinalize { events: out }),
                        Err(e) => Err(e),
                    },
                    _ => Err(DecodeError::Malformed),
                },
                Option::None => Err(DecodeError::Malformed),
            }
        },
        _ => Err(DecodeError::Malformed),
    }
}

impl Block {
    /// Normalizes a raw block value and decodes it into the canonical block:
    /// every extrinsic's `args` and `info` become opaque strings, the data
    /// of every extrinsic's events keeps its string elements only, and the
    /// repaired value is then decoded strictly.  Succeeds exactly on
    /// well-shaped raw values; failure is permanent for the height.
    pub fn load_block_from_value(value: &JsonValue) -> (r: Result<Block, DecodeError>)
        ensures
            (r is Ok) == block_ok(*value),
            r matches Ok(b) ==> block_rel(b, *value),
            r matches Err(e) ==> e == DecodeError::Malformed,
    {
        match value {
            JsonValue::Obj(fs) => {
                let number = match get_str_field(fs, "number") {
                    Ok(s) => s,
                    Err(e) => {
                        return Err(e);
                    },
                };
                let hash = match get_str_field(fs, "hash") {
                    Ok(s) => s,
                    Err(e) => {
                        return Err(e);
                    },
                };
                let parent_hash = match get_str_field(fs, "parentHash") {
                    Ok(s) => s,
                    Err(e) => {
                        return Err(e);
                    },
                };
                let state_root = match get_str_field(fs, "stateRoot") {
                    Ok(s) => s,
                    Err(e) => {
                        return Err(e);
                    },
                };
                let extrinsics_root = match get_str_field(fs, "extrinsicsRoot") {
                    Ok(s) => s,
                    Err(e) => {
                        return Err(e);
                    },
                };
                let author_id = match get_str_field(fs, "authorId") {
                    Ok(s) => s,
                    Err(e) => {
                        return Err(e);
                    },
                };
                let logs = match get_field(fs, "logs") {
                    Option::Some(l) => match l {
                        JsonValue::Arr(ls) => match decode_logs(ls) {
                            Ok(out) => out,
                            Err(e) => {
                                return Err(e);
                            },
                        },
                        _ => {
                            return Err(DecodeError::Malformed);
                        },
                    },
                    Option::None => {
                        return Err(DecodeError::Malformed);
                    },
                };
                let on_initialize = match get_field(fs, "onInitialize") {
                    Option::Some(oi) => match decode_init_fin(oi) {
                        Ok(f) => f,
                        Err(e) => {
                            return Err(e);
                        },
                    },
                    Option::None => {
                        return Err(DecodeError::Malformed);
                    },
                };
                let extrinsics = match get_field(fs, "extrinsics") {
                    Option::Some(x) => match x {
                        JsonValue::Arr(xs) => match decode_extrinsics(xs) {
                            Ok(out) => out,
                            Err(e) => {
                                return Err(e);
                            },
                        },
                        _ => {
                            return Err(DecodeError::Malformed);
                        },
                    },
                    Option::None => {
                        return Err(DecodeError::Malformed);
                    },
                };
                let on_finalize = match get_field(fs, "onFinalize") {
                    Option::Some(of) => match decode_init_fin(of) {
                        Ok(f) => f,
                        Err(e) => {
                            return Err(e);
                        },
                    },
                    Option::None => {
                        return Err(DecodeError::Malformed);
                    },
                };
                let finalized = match get_bool_field(fs, "finalized") {
                    Ok(b) => b,
                    Err(e) => {
                        return Err(e);
                    },
                };
                Ok(Block {
                    number,
                    hash,
                    parent_hash,
                    state_root,
                    extrinsics_root,
                    author_id,
                    logs,
                    on_initialize,
                    extrinsics,
                    on_finalize,
                    finalized,
                })
            },
            _ => Err(DecodeError::Malformed),
        }
    }
}

/// The data the information surface serves: archiving extremes of both
/// streams, the live gap, counts, and the identities involved.  Balances
/// arrive as decimal strings from the balance query.
#[derive(Debug, PartialEq)]
pub struct InfoServerResponse {
    pub first_livesync_archived_block: Option<u64>,
    pub last_livesync_archived_block: Option<u64>,
    pub first_backfill_archived_block: Option<u64>,
    pub last_backfill_archived_block: Option<u64>,
    pub livesync_start_block: u64,
    pub total_archived_blocks: u64,
    pub blocks_behind_live_blockheight: u64,
    pub archiver_balance: String,
    pub archiver_address: String,
    pub backfill_address: String,
    pub backfill_balance: String,
    pub network_name: String,
    pub network_rpc: String,
}

impl InfoServerResponse {
    /// Assembles the info response from already-queried values.  The gap is
    /// the distance from the last live-synced height to the chain head,
    /// zero when caught up.
    pub fn new(
        first_livesync_block: Option<u64>,
        last_livesync_block: Option<u64>,
        first_backfill_block: Option<u64>,
        last_backfill_block: Option<u64>,
        current_live_block: u64,
        total_archived_blocks: u64,
        archiver_balance: String,
        backfill_balance: String,
        network: &Network,
    ) -> (r: InfoServerResponse)
        ensures
            r.first_livesync_archived_block == first_livesync_block,
            r.last_livesync_archived_block == last_livesync_block,
            r.first_backfill_archived_block == first_backfill_block,
            r.last_backfill_archived_block == last_backfill_block,
            r.livesync_start_block == network.start_block,
            r.total_archived_blocks == total_archived_blocks,
            ({
                let l = match last_livesync_block {
                    Option::Some(h) => h,
                    Option::None => 0u64,
                };
                r.blocks_behind_live_blockheight == if l <= current_live_block {
                    (current_live_block - l) as u64
                } else {
                    0u64
                }
            }),
            r.archiver_balance == archiver_balance,
            r.backfill_balance == backfill_balance,
            r.archiver_address@ == network.archiver_address@,
            r.backfill_address@ == network.backfill_address@,
            r.network_name@ == network.name@,
            r.network_rpc@ == network.network_rpc@,
    {
        let gap = blocks_behind(current_live_block, last_livesync_block);
        InfoServerResponse {
            first_livesync_archived_block: first_livesync_block,
            last_livesync_archived_block: last_livesync_block,
            first_backfill_archived_block: first_backfill_block,
            last_backfill_archived_block: last_backfill_block,
            livesync_start_block: network.start_block,
            total_archived_blocks,
            blocks_behind_live_blockheight: gap,
            archiver_balance,
            backfill_balance,
            archiver_address: network.archiver_address.clone(),
            backfill_address: network.backfill_address.clone(),
            network_name: network.name.clone(),
            network_rpc: network.network_rpc.clone(),
        }
    }
}

} // verus!
