//! Field extractors: coded text, instants, quantities and other small values
//! read from a loosely-typed record, each with a fixed fallback order.

use vstd::prelude::*;
use crate::clock::{Timestamp, parse_instant, rfc3339_instant};
use crate::decimal::{Decimal, decimal_of_text, decimal_text, format_decimal, parse_decimal};
use crate::json::{Json, field, str_field, array_field, deref};
use crate::text::{trim, trimmed};
use crate::model::{ReferenceView, ResourceReference, source_view};

verus! {

/// The texts of a list of strings.
pub open spec fn views(v: Seq<String>) -> Seq<Seq<char>> {
    v.map_values(|p: String| p@)
}

/// The parts with `sep` between each two.
pub open spec fn joined(parts: Seq<Seq<char>>, sep: Seq<char>) -> Seq<char>
    decreases parts.len(),
{
    if parts.len() == 0 {
        Seq::empty()
    } else if parts.len() == 1 {
        parts[0]
    } else {
        joined(parts.drop_last(), sep) + sep + parts.last()
    }
}

/// The parts with `sep` between each two (see `joined`).
pub fn join(parts: &Vec<String>, sep: &str) -> (r: String)
    ensures
        r@ == joined(views(parts@), sep@),
{
    if parts.len() == 0 {
        return String::new();
    }
    let mut out = parts[0].clone();
    let mut i: usize = 1;
    assert(views(parts@).subrange(0, 1) =~= seq![parts@[0]@]);
    while i < parts.len()
        invariant
            1 <= i <= parts@.len(),
            out@ == joined(views(parts@).subrange(0, i as int), sep@),
        decreases parts.len() - i,
    {
        out.append(sep);
        out.append(parts[i].as_str());
        assert(views(parts@).subrange(0, i + 1).drop_last() =~= views(parts@).subrange(0, i as int));
        i += 1;
    }
    assert(views(parts@).subrange(0, i as int) =~= views(parts@));
    out
}

/// The trimmed text of a string value, if that is not empty.
pub open spec fn nonblank(v: Option<Json>) -> Option<Seq<char>> {
    match v {
        Some(Json::Str(s)) => if trimmed(s@).len() > 0 { Some(trimmed(s@)) } else { None },
        _ => None,
    }
}

fn nonblank_of(v: Option<&Json>) -> (r: Option<String>)
    ensures
        match r {
            Some(t) => nonblank(deref(v)) == Some(t@),
            None => nonblank(deref(v)) is None,
        },
{
    match v {
        Some(Json::Str(s)) => {
            let t = trim(s.as_str());
            if t.unicode_len() > 0 { Some(t) } else { None }
        },
        _ => None,
    }
}

/// The first nonblank member `key` among the codings.
pub open spec fn first_coding(codings: Seq<Json>, key: Seq<char>) -> Option<Seq<char>>
    decreases codings.len(),
{
    if codings.len() == 0 {
        None
    } else {
        match nonblank(field(codings[0], key)) {
            Some(t) => Some(t),
            None => first_coding(codings.drop_first(), key),
        }
    }
}

fn first_coding_of(codings: &Vec<Json>, key: &str) -> (r: Option<String>)
    ensures
        match r {
            Some(t) => first_coding(codings@, key@) == Some(t@),
            None => first_coding(codings@, key@) is None,
        },
{
    let mut i: usize = 0;
    assert(codings@.subrange(0, codings@.len() as int) =~= codings@);
    while i < codings.len()
        invariant
            i <= codings@.len(),
            first_coding(codings@, key@) == first_coding(codings@.subrange(i as int, codings@.len() as int), key@),
        decreases codings.len() - i,
    {
        let ghost rest = codings@.subrange(i as int, codings@.len() as int);
        assert(rest.drop_first() =~= codings@.subrange(i + 1, codings@.len() as int));
        assert(rest[0] == codings@[i as int]);
        match nonblank_of(codings[i].get(key)) {
            Some(t) => {
                return Some(t);
            },
            None => {},
        }
        i += 1;
    }
    None
}

/// The text of a coded concept: its nonblank free text, else the first
/// nonblank coding display, else the first nonblank coding code, each trimmed.
pub open spec fn codeable_text(v: Json) -> Option<Seq<char>> {
    match nonblank(field(v, "text"@)) {
        Some(t) => Some(t),
        None => match array_field(v, "coding"@) {
            Some(codings) => match first_coding(codings, "display"@) {
                Some(t) => Some(t),
                None => first_coding(codings, "code"@),
            },
            None => None,
        },
    }
}

/// `codeable_text` of an optional value.
pub open spec fn codeable_opt(v: Option<Json>) -> Option<Seq<char>> {
    match v {
        Some(j) => codeable_text(j),
        None => None,
    }
}

/// The text of a coded concept (see `codeable_text`).
pub fn extract_codeable_text(v: &Json) -> (r: Option<String>)
    ensures
        match r {
            Some(t) => codeable_text(*v) == Some(t@),
            None => codeable_text(*v) is None,
        },
{
    match nonblank_of(v.get("text")) {
        Some(t) => {
            return Some(t);
        },
        None => {},
    }
    match v.array_field("coding") {
        Some(codings) => match first_coding_of(codings, "display") {
            Some(t) => Some(t),
            None => first_coding_of(codings, "code"),
        },
        None => None,
    }
}

/// The text of an optional coded concept (see `codeable_opt`).
pub fn codeable_of(v: Option<&Json>) -> (r: Option<String>)
    ensures
        match r {
            Some(t) => codeable_opt(deref(v)) == Some(t@),
            None => codeable_opt(deref(v)) is None,
        },
{
    match v {
        Some(j) => extract_codeable_text(j),
        None => None,
    }
}

/// The instant of a string value.
pub open spec fn text_instant(v: Option<Json>) -> Option<Timestamp> {
    match v {
        Some(Json::Str(s)) => rfc3339_instant(s@),
        _ => None,
    }
}

/// The instant a field holds: a date-time text, or a period whose end is
/// preferred to its start.
pub open spec fn value_instant(v: Json) -> Option<Timestamp> {
    match v {
        Json::Str(s) => rfc3339_instant(s@),
        Json::Object(_) => match text_instant(field(v, "end"@)) {
            Some(t) => Some(t),
            None => text_instant(field(v, "start"@)),
        },
        _ => None,
    }
}

/// The instant of the first of `fields` that yields one.
pub open spec fn first_instant(r: Json, fields: Seq<Seq<char>>) -> Option<Timestamp>
    decreases fields.len(),
{
    if fields.len() == 0 {
        None
    } else {
        match field(r, fields[0]) {
            Some(v) => match value_instant(v) {
                Some(t) => Some(t),
                None => first_instant(r, fields.drop_first()),
            },
            None => first_instant(r, fields.drop_first()),
        }
    }
}

/// The names of a list of fields.
pub open spec fn names(fields: Seq<&str>) -> Seq<Seq<char>> {
    fields.map_values(|f: &str| f@)
}

fn text_instant_of(v: Option<&Json>) -> (r: Option<Timestamp>)
    ensures
        r == text_instant(deref(v)),
{
    match v {
        Some(Json::Str(s)) => parse_instant(s.as_str()),
        _ => None,
    }
}

fn value_instant_of(v: &Json) -> (r: Option<Timestamp>)
    ensures
        r == value_instant(*v),
{
    match v {
        Json::Str(s) => parse_instant(s.as_str()),
        Json::Object(_) => match text_instant_of(v.get("end")) {
            Some(t) => Some(t),
            None => text_instant_of(v.get("start")),
        },
        _ => None,
    }
}

/// The instant of the first of `fields` that yields one (see `first_instant`).
pub fn extract_datetime(resource: &Json, fields: &[&str]) -> (r: Option<Timestamp>)
    ensures
        r == first_instant(*resource, names(fields@)),
{
    let mut i: usize = 0;
    assert(names(fields@).subrange(0, fields@.len() as int) =~= names(fields@));
    while i < fields.len()
        invariant
            i <= fields@.len(),
            first_instant(*resource, names(fields@)) == first_instant(
                *resource,
                names(fields@).subrange(i as int, fields@.len() as int),
            ),
        decreases fields.len() - i,
    {
        let ghost rest = names(fields@).subrange(i as int, fields@.len() as int);
        assert(rest.drop_first() =~= names(fields@).subrange(i + 1, fields@.len() as int));
        assert(rest[0] == fields@[i as int]@);
        match resource.get(fields[i]) {
            Some(v) => match value_instant_of(v) {
                Some(t) => {
                    return Some(t);
                },
                None => {},
            },
            None => {},
        }
        i += 1;
    }
    None
}

/// The decimal a number value denotes.
pub open spec fn number_of(v: Option<Json>) -> Option<Decimal> {
    match v {
        Some(Json::Number(t)) => decimal_of_text(t@),
        _ => None,
    }
}

/// The decimal a number value denotes (see `number_of`).
pub fn number_value(v: Option<&Json>) -> (r: Option<Decimal>)
    ensures
        r == number_of(deref(v)),
        r matches Some(d) ==> d.wf(),
{
    match v {
        Some(Json::Number(t)) => parse_decimal(t.as_str()),
        _ => None,
    }
}

/// A quantity written "value unit", or the value alone without a unit; its
/// value is required.
pub open spec fn quantity_text(q: Json) -> Option<Seq<char>> {
    match number_of(field(q, "value"@)) {
        Some(d) => {
            let number = decimal_text(d);
            match str_field(q, "unit"@) {
                Some(u) => if u.len() > 0 { Some(number + " "@ + u) } else { Some(number) },
                None => Some(number),
            }
        },
        None => None,
    }
}

/// A quantity written out (see `quantity_text`).
pub fn format_quantity_value(q: &Json) -> (r: Option<String>)
    ensures
        match r {
            Some(t) => quantity_text(*q) == Some(t@),
            None => quantity_text(*q) is None,
        },
{
    let d = match number_value(q.get("value")) {
        Some(d) => d,
        None => {
            return None;
        },
    };
    let mut number = format_decimal(&d);
    match q.str_field("unit") {
        Some(u) => {
            if u.unicode_len() > 0 {
                number.append(" ");
                number.append(u);
            }
        },
        None => {},
    }
    Some(number)
}

/// The record's "id", or `fallback` followed by "-unknown".
pub open spec fn resource_id_text(r: Json, fallback: Seq<char>) -> Seq<char> {
    match str_field(r, "id"@) {
        Some(id) => id,
        None => fallback + "-unknown"@,
    }
}

/// The record's identifier (see `resource_id_text`).
pub fn resource_id(resource: &Json, fallback: &str) -> (r: String)
    ensures
        r@ == resource_id_text(*resource, fallback@),
{
    match resource.str_field("id") {
        Some(id) => id.to_string(),
        None => {
            let mut s = fallback.to_string();
            s.append("-unknown");
            s
        },
    }
}

/// A back-pointer to a record with both a type and an id: system "FHIR",
/// reference "type/id", and the record's coded name as display.
pub open spec fn reference_of(r: Json) -> Option<ReferenceView> {
    match (str_field(r, "resourceType"@), str_field(r, "id"@)) {
        (Some(t), Some(id)) => Some(
            ReferenceView {
                system: Some("FHIR"@),
                reference: Some(t + "/"@ + id),
                display: codeable_opt(field(r, "code"@)),
            },
        ),
        _ => None,
    }
}

/// The texts of an optional text.
pub open spec fn opt_view(o: Option<String>) -> Option<Seq<char>> {
    match o {
        Some(s) => Some(s@),
        None => None,
    }
}

/// A back-pointer to the record (see `reference_of`).
pub fn make_reference(resource: &Json) -> (r: Option<ResourceReference>)
    ensures
        source_view(r) == reference_of(*resource),
{
    let kind = match resource.str_field("resourceType") {
        Some(k) => k,
        None => {
            return None;
        },
    };
    let id = match resource.str_field("id") {
        Some(id) => id,
        None => {
            return None;
        },
    };
    let mut reference = kind.to_string();
    reference.append("/");
    reference.append(id);
    Some(
        ResourceReference {
            system: Some("FHIR".to_string()),
            reference: Some(reference),
            display: codeable_of(resource.get("code")),
        },
    )
}

/// A status: the coded text of the value, else the value itself if it is a string.
pub open spec fn status_text(v: Option<Json>) -> Option<Seq<char>> {
    match v {
        Some(j) => match codeable_text(j) {
            Some(t) => Some(t),
            None => crate::json::str_of(j),
        },
        None => None,
    }
}

/// A status (see `status_text`).
pub fn extract_status_code(v: Option<&Json>) -> (r: Option<String>)
    ensures
        opt_view(r) == status_text(deref(v)),
{
    match v {
        Some(j) => match extract_codeable_text(j) {
            Some(t) => Some(t),
            None => match j.as_str() {
                Some(s) => Some(s.to_string()),
                None => None,
            },
        },
        None => None,
    }
}

} // verus!
