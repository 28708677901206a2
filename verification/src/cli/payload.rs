//! The JSON payload of `--schedule-set`: its schema and its validation.
use crate::cli::values::{spec_invalid_usage, spec_schedule_error_from, validate_schedule_value, invalid_usage};
use crate::config::{
    default_schedule_window_days, default_schedule_window_end, default_schedule_window_start,
    default_window_days, strings_view, windows_view, RecurringFocusWindowConfig,
    RecurringScheduleConfig, WindowView,
};
use crate::json::{json_document, json_outcome, parse_json_document, JsonMember, JsonValue};
use crate::text::{concat, concat3, owned, str_eq};
use vstd::prelude::*;

verus! {

/// How a JSON value is named in a type error.
pub open spec fn kind_name(v: JsonValue) -> Seq<char> {
    match v {
        JsonValue::Null => "null"@,
        JsonValue::Bool(_) => "boolean"@,
        JsonValue::Number(_) => "number"@,
        JsonValue::Text(_) => "string"@,
        JsonValue::Array(_) => "sequence"@,
        JsonValue::Object(_) => "map"@,
    }
}

pub open spec fn type_error(v: JsonValue, expected: Seq<char>) -> Seq<char> {
    "invalid type: "@ + kind_name(v) + ", expected "@ + expected
}

fn kind_name_of(v: &JsonValue) -> (r: &'static str)
    ensures
        r@ == kind_name(*v),
{
    match v {
        JsonValue::Null => "null",
        JsonValue::Bool(_) => "boolean",
        JsonValue::Number(_) => "number",
        JsonValue::Text(_) => "string",
        JsonValue::Array(_) => "sequence",
        JsonValue::Object(_) => "map",
    }
}

fn type_error_of(v: &JsonValue, expected: &str) -> (r: String)
    ensures
        r@ == type_error(*v, expected@),
{
    let mut m = concat("invalid type: ", kind_name_of(v));
    m.append(", expected ");
    m.append(expected);
    m
}

pub open spec fn spec_decode_string(v: JsonValue) -> Result<Seq<char>, Seq<char>> {
    match v {
        JsonValue::Text(s) => Ok(s@),
        _ => Err(type_error(v, "a string"@)),
    }
}

pub open spec fn spec_decode_strings(items: Seq<JsonValue>) -> Result<Seq<Seq<char>>, Seq<char>>
    decreases items.len(),
{
    if items.len() == 0 {
        Ok(Seq::empty())
    } else {
        match spec_decode_strings(items.drop_last()) {
            Err(e) => Err(e),
            Ok(prev) => match spec_decode_string(items.last()) {
                Err(e) => Err(e),
                Ok(s) => Ok(prev.push(s)),
            },
        }
    }
}

pub open spec fn spec_decode_days(v: JsonValue) -> Result<Seq<Seq<char>>, Seq<char>> {
    match v {
        JsonValue::Array(items) => spec_decode_strings(items@),
        _ => Err(type_error(v, "a sequence"@)),
    }
}

/// The fields read so far from a window object: days, start, end.
pub type WindowFields = (Option<Seq<Seq<char>>>, Option<Seq<char>>, Option<Seq<char>>);

/// Reads the members of a window object in order; other keys are ignored.
pub open spec fn spec_window_fields(ms: Seq<JsonMember>) -> Result<WindowFields, Seq<char>>
    decreases ms.len(),
{
    if ms.len() == 0 {
        Ok((None, None, None))
    } else {
        match spec_window_fields(ms.drop_last()) {
            Err(e) => Err(e),
            Ok((d, s, e)) => {
                let m = ms.last();
                if m.key@ == "days"@ {
                    match spec_decode_days(m.value) {
                        Err(x) => Err(x),
                        Ok(v) => Ok((Some(v), s, e)),
                    }
                } else if m.key@ == "start"@ {
                    match spec_decode_string(m.value) {
                        Err(x) => Err(x),
                        Ok(v) => Ok((d, Some(v), e)),
                    }
                } else if m.key@ == "end"@ {
                    match spec_decode_string(m.value) {
                        Err(x) => Err(x),
                        Ok(v) => Ok((d, s, Some(v))),
                    }
                } else {
                    Ok((d, s, e))
                }
            },
        }
    }
}

/// A recurring window object; a missing field takes its default.
pub open spec fn spec_decode_window(v: JsonValue) -> Result<WindowView, Seq<char>> {
    match v {
        JsonValue::Object(ms) => match spec_window_fields(ms@) {
            Err(e) => Err(e),
            Ok((d, s, e)) => Ok(
                WindowView {
                    days: match d {
                        Some(x) => x,
                        None => default_window_days(),
                    },
                    start: match s {
                        Some(x) => x,
                        None => "09:00"@,
                    },
                    end: match e {
                        Some(x) => x,
                        None => "10:00"@,
                    },
                },
            ),
        },
        _ => Err(type_error(v, "struct RecurringFocusWindowConfig"@)),
    }
}

pub open spec fn spec_decode_window_list(items: Seq<JsonValue>) -> Result<Seq<WindowView>, Seq<char>>
    decreases items.len(),
{
    if items.len() == 0 {
        Ok(Seq::empty())
    } else {
        match spec_decode_window_list(items.drop_last()) {
            Err(e) => Err(e),
            Ok(prev) => match spec_decode_window(items.last()) {
                Err(e) => Err(e),
                Ok(w) => Ok(prev.push(w)),
            },
        }
    }
}

pub open spec fn spec_decode_windows(v: JsonValue) -> Result<Seq<WindowView>, Seq<char>> {
    match v {
        JsonValue::Array(items) => spec_decode_window_list(items@),
        _ => Err(type_error(v, "a sequence"@)),
    }
}

/// Reads the members of a schedule object: `windows` is the only field accepted.
pub open spec fn spec_schedule_fields(ms: Seq<JsonMember>) -> Result<
    Option<Seq<WindowView>>,
    Seq<char>,
>
    decreases ms.len(),
{
    if ms.len() == 0 {
        Ok(None)
    } else {
        match spec_schedule_fields(ms.drop_last()) {
            Err(e) => Err(e),
            Ok(w) => {
                let m = ms.last();
                if m.key@ == "windows"@ {
                    match spec_decode_windows(m.value) {
                        Err(x) => Err(x),
                        Ok(v) => Ok(Some(v)),
                    }
                } else {
                    Err("unknown field `"@ + m.key@ + "`, expected `windows`"@)
                }
            },
        }
    }
}

/// A schedule object; without `windows` the schedule is empty.
pub open spec fn spec_decode_schedule(v: JsonValue) -> Result<Seq<WindowView>, Seq<char>> {
    match v {
        JsonValue::Object(ms) => match spec_schedule_fields(ms@) {
            Err(e) => Err(e),
            Ok(Some(w)) => Ok(w),
            Ok(None) => Ok(Seq::empty()),
        },
        _ => Err(type_error(v, "struct RecurringScheduleConfig"@)),
    }
}

fn decode_string(v: &JsonValue) -> (r: Result<String, String>)
    ensures
        r matches Ok(s) ==> spec_decode_string(*v) == Ok::<Seq<char>, Seq<char>>(s@),
        r matches Err(e) ==> spec_decode_string(*v) == Err::<Seq<char>, Seq<char>>(e@),
{
    match v {
        JsonValue::Text(s) => Ok(s.clone()),
        _ => Err(type_error_of(v, "a string")),
    }
}

#[verifier::loop_isolation(false)]
fn decode_days(v: &JsonValue) -> (r: Result<Vec<String>, String>)
    ensures
        r matches Ok(d) ==> spec_decode_days(*v) == Ok::<Seq<Seq<char>>, Seq<char>>(
            strings_view(d@),
        ),
        r matches Err(e) ==> spec_decode_days(*v) == Err::<Seq<Seq<char>>, Seq<char>>(e@),
{
    match v {
        JsonValue::Array(items) => {
            let mut out: Vec<String> = Vec::new();
            let mut i: usize = 0;
            assert(items@.subrange(0, 0) =~= Seq::<JsonValue>::empty());
            assert(strings_view(out@) =~= Seq::<Seq<char>>::empty());
            while i < items.len()
                invariant
                    i <= items.len(),
                    spec_decode_strings(items@.subrange(0, i as int)) == Ok::<
                        Seq<Seq<char>>,
                        Seq<char>,
                    >(strings_view(out@)),
                decreases items.len() - i,
            {
                assert(items@.subrange(0, i + 1).drop_last() =~= items@.subrange(0, i as int));
                assert(items@.subrange(0, i + 1).last() == items@[i as int]);
                let s = match decode_string(&items[i]) {
                    Ok(s) => s,
                    Err(e) => {
                        proof {
                            assert(spec_decode_string(items@[i as int]) == Err::<Seq<char>, Seq<char>>(e@));
                            assert(spec_decode_strings(items@.subrange(0, i + 1)) == Err::<Seq<Seq<char>>, Seq<char>>(e@));
                            lemma_strings_error_persists(items@, i + 1);
                            assert(spec_decode_strings(items@) == Err::<Seq<Seq<char>>, Seq<char>>(e@));
                        }
                        return Err(e);
                    },
                };
                let ghost before = out@;
                out.push(s);
                assert(strings_view(out@) =~= strings_view(before).push(s@));
                i = i + 1;
            }
            assert(items@.subrange(0, items.len() as int) =~= items@);
            Ok(out)
        },
        _ => Err(type_error_of(v, "a sequence")),
    }
}

proof fn lemma_strings_error_persists(items: Seq<JsonValue>, k: int)
    requires
        0 <= k <= items.len(),
        spec_decode_strings(items.subrange(0, k)) is Err,
    ensures
        spec_decode_strings(items) == spec_decode_strings(items.subrange(0, k)),
    decreases items.len() - k,
{
    if k == items.len() {
        assert(items.subrange(0, k) =~= items);
    } else {
        assert(items.subrange(0, k + 1).drop_last() =~= items.subrange(0, k));
        lemma_strings_error_persists(items, k + 1);
    }
}

proof fn lemma_window_fields_error_persists(ms: Seq<JsonMember>, k: int)
    requires
        0 <= k <= ms.len(),
        spec_window_fields(ms.subrange(0, k)) is Err,
    ensures
        spec_window_fields(ms) == spec_window_fields(ms.subrange(0, k)),
    decreases ms.len() - k,
{
    if k == ms.len() {
        assert(ms.subrange(0, k) =~= ms);
    } else {
        assert(ms.subrange(0, k + 1).drop_last() =~= ms.subrange(0, k));
        lemma_window_fields_error_persists(ms, k + 1);
    }
}

#[verifier::loop_isolation(false)]
fn decode_window(v: &JsonValue) -> (r: Result<RecurringFocusWindowConfig, String>)
    ensures
        r matches Ok(w) ==> spec_decode_window(*v) == Ok::<WindowView, Seq<char>>(w@),
        r matches Err(e) ==> spec_decode_window(*v) == Err::<WindowView, Seq<char>>(e@),
{
    match v {
        JsonValue::Object(ms) => {
            let mut days: Option<Vec<String>> = None;
            let mut start: Option<String> = None;
            let mut end: Option<String> = None;
            let mut i: usize = 0;
            while i < ms.len()
                invariant
                    i <= ms.len(),
                    spec_window_fields(ms@.subrange(0, i as int)) == Ok::<WindowFields, Seq<char>>(
                        (
                            match days {
                                Some(d) => Some(strings_view(d@)),
                                None => None,
                            },
                            match start {
                                Some(s) => Some(s@),
                                None => None,
                            },
                            match end {
                                Some(s) => Some(s@),
                                None => None,
                            },
                        ),
                    ),
                decreases ms.len() - i,
            {
                assert(ms@.subrange(0, i + 1).drop_last() =~= ms@.subrange(0, i as int));
                assert(ms@.subrange(0, i + 1).last() == ms@[i as int]);
                let m = &ms[i];
                if str_eq(m.key.as_str(), "days") {
                    match decode_days(&m.value) {
                        Ok(d) => {
                            days = Some(d);
                        },
                        Err(e) => {
                            proof {
                                lemma_window_fields_error_persists(ms@, i + 1);
                            }
                            return Err(e);
                        },
                    }
                } else if str_eq(m.key.as_str(), "start") {
                    match decode_string(&m.value) {
                        Ok(s) => {
                            start = Some(s);
                        },
                        Err(e) => {
                            proof {
                                lemma_window_fields_error_persists(ms@, i + 1);
                            }
                            return Err(e);
                        },
                    }
                } else if str_eq(m.key.as_str(), "end") {
                    match decode_string(&m.value) {
                        Ok(s) => {
                            end = Some(s);
                        },
                        Err(e) => {
                            proof {
                                lemma_window_fields_error_persists(ms@, i + 1);
                            }
                            return Err(e);
                        },
                    }
                }
                i = i + 1;
            }
            assert(ms@.subrange(0, ms.len() as int) =~= ms@);
            let days = match days {
                Some(d) => d,
                None => default_schedule_window_days(),
            };
            let start = match start {
                Some(s) => s,
                None => default_schedule_window_start(),
            };
            let end = match end {
                Some(s) => s,
                None => default_schedule_window_end(),
            };
            Ok(RecurringFocusWindowConfig { days, start, end })
        },
        _ => Err(type_error_of(v, "struct RecurringFocusWindowConfig")),
    }
}

proof fn lemma_window_list_error_persists(items: Seq<JsonValue>, k: int)
    requires
        0 <= k <= items.len(),
        spec_decode_window_list(items.subrange(0, k)) is Err,
    ensures
        spec_decode_window_list(items) == spec_decode_window_list(items.subrange(0, k)),
    decreases items.len() - k,
{
    if k == items.len() {
        assert(items.subrange(0, k) =~= items);
    } else {
        assert(items.subrange(0, k + 1).drop_last() =~= items.subrange(0, k));
        lemma_window_list_error_persists(items, k + 1);
    }
}

#[verifier::loop_isolation(false)]
fn decode_windows(v: &JsonValue) -> (r: Result<Vec<RecurringFocusWindowConfig>, String>)
    ensures
        r matches Ok(w) ==> spec_decode_windows(*v) == Ok::<Seq<WindowView>, Seq<char>>(
            windows_view(w@),
        ),
        r matches Err(e) ==> spec_decode_windows(*v) == Err::<Seq<WindowView>, Seq<char>>(e@),
{
    match v {
        JsonValue::Array(items) => {
            let mut out: Vec<RecurringFocusWindowConfig> = Vec::new();
            let mut i: usize = 0;
            assert(items@.subrange(0, 0) =~= Seq::<JsonValue>::empty());
            assert(windows_view(out@) =~= Seq::<WindowView>::empty());
            while i < items.len()
                invariant
                    i <= items.len(),
                    spec_decode_window_list(items@.subrange(0, i as int)) == Ok::<
                        Seq<WindowView>,
                        Seq<char>,
                    >(windows_view(out@)),
                decreases items.len() - i,
            {
                assert(items@.subrange(0, i + 1).drop_last() =~= items@.subrange(0, i as int));
                assert(items@.subrange(0, i + 1).last() == items@[i as int]);
                let w = match decode_window(&items[i]) {
                    Ok(w) => w,
                    Err(e) => {
                        proof {
                            lemma_window_list_error_persists(items@, i + 1);
                        }
                        return Err(e);
                    },
                };
                let ghost before = out@;
                out.push(w);
                assert(windows_view(out@) =~= windows_view(before).push(w@));
                i = i + 1;
            }
            assert(items@.subrange(0, items.len() as int) =~= items@);
            Ok(out)
        },
        _ => Err(type_error_of(v, "a sequence")),
    }
}

proof fn lemma_schedule_fields_error_persists(ms: Seq<JsonMember>, k: int)
    requires
        0 <= k <= ms.len(),
        spec_schedule_fields(ms.subrange(0, k)) is Err,
    ensures
        spec_schedule_fields(ms) == spec_schedule_fields(ms.subrange(0, k)),
    decreases ms.len() - k,
{
    if k == ms.len() {
        assert(ms.subrange(0, k) =~= ms);
    } else {
        assert(ms.subrange(0, k + 1).drop_last() =~= ms.subrange(0, k));
        lemma_schedule_fields_error_persists(ms, k + 1);
    }
}

/// Reads a recurring schedule from a JSON tree.
#[verifier::loop_isolation(false)]
pub fn decode_schedule(v: &JsonValue) -> (r: Result<RecurringScheduleConfig, String>)
    ensures
        r matches Ok(s) ==> spec_decode_schedule(*v) == Ok::<Seq<WindowView>, Seq<char>>(s@),
        r matches Err(e) ==> spec_decode_schedule(*v) == Err::<Seq<WindowView>, Seq<char>>(e@),
{
    match v {
        JsonValue::Object(ms) => {
            let mut windows: Option<Vec<RecurringFocusWindowConfig>> = None;
            let mut i: usize = 0;
            while i < ms.len()
                invariant
                    i <= ms.len(),
                    spec_schedule_fields(ms@.subrange(0, i as int)) == Ok::<
                        Option<Seq<WindowView>>,
                        Seq<char>,
                    >(
                        match windows {
                            Some(w) => Some(windows_view(w@)),
                            None => None,
                        },
                    ),
                decreases ms.len() - i,
            {
                assert(ms@.subrange(0, i + 1).drop_last() =~= ms@.subrange(0, i as int));
                assert(ms@.subrange(0, i + 1).last() == ms@[i as int]);
                let m = &ms[i];
                if str_eq(m.key.as_str(), "windows") {
                    match decode_windows(&m.value) {
                        Ok(w) => {
                            windows = Some(w);
                        },
                        Err(e) => {
                            proof {
                                lemma_schedule_fields_error_persists(ms@, i + 1);
                            }
                            return Err(e);
                        },
                    }
                } else {
                    proof {
                        lemma_schedule_fields_error_persists(ms@, i + 1);
                    }
                    return Err(concat3("unknown field `", m.key.as_str(), "`, expected `windows`"));
                }
                i = i + 1;
            }
            assert(ms@.subrange(0, ms.len() as int) =~= ms@);
            match windows {
                Some(w) => Ok(RecurringScheduleConfig { windows: w }),
                None => {
                    let r = RecurringScheduleConfig { windows: Vec::new() };
                    assert(r@ =~= Seq::<WindowView>::empty());
                    Ok(r)
                },
            }
        },
        _ => Err(type_error_of(v, "struct RecurringScheduleConfig")),
    }
}

pub open spec fn payload_error(detail: Seq<char>) -> Seq<char> {
    spec_invalid_usage(
        "Invalid schedule JSON payload: "@ + detail + ". Use `--schedule-set='{\"windows\":[...]}'`."@,
    )
}

/// The recurring schedule that a `--schedule-set` payload holds, once checked.
pub open spec fn spec_parse_schedule_value(value: Seq<char>) -> Result<Seq<WindowView>, Seq<char>> {
    match json_document(value) {
        Err(e) => Err(payload_error(e)),
        Ok(tree) => match spec_decode_schedule(tree) {
            Err(e) => Err(payload_error(e)),
            Ok(ws) => match spec_schedule_error_from(ws, 0) {
                Some(e) => Err(e),
                None => Ok(ws),
            },
        },
    }
}

fn payload_error_of(detail: &str) -> (r: String)
    ensures
        r@ == payload_error(detail@),
{
    let m = concat3(
        "Invalid schedule JSON payload: ",
        detail,
        ". Use `--schedule-set='{\"windows\":[...]}'`.",
    );
    invalid_usage(m.as_str())
}

/// Reads and checks the JSON payload of `--schedule-set`.
pub fn parse_schedule_value(value: &str) -> (r: Result<RecurringScheduleConfig, String>)
    ensures
        r matches Ok(s) ==> spec_parse_schedule_value(value@) == Ok::<Seq<WindowView>, Seq<char>>(
            s@,
        ),
        r matches Err(e) ==> spec_parse_schedule_value(value@) == Err::<Seq<WindowView>, Seq<char>>(
            e@,
        ),
{
    let tree = match parse_json_document(value) {
        Ok(t) => t,
        Err(e) => return Err(payload_error_of(e.as_str())),
    };
    let schedule = match decode_schedule(&tree) {
        Ok(s) => s,
        Err(e) => return Err(payload_error_of(e.as_str())),
    };
    validate_schedule_value(&schedule)?;
    Ok(schedule)
}

} // verus!
