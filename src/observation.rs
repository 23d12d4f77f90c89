//! The displayable value of an observation, its numeric reading and unit,
//! and the recognition of code-status observations.

use vstd::prelude::*;
use crate::clock::Timestamp;
use crate::decimal::Decimal;
use crate::detail::{bp_from_detail, nth_word, number_from_detail, numeric_from_detail, parse_blood_pressure_from_detail, word_at};
use crate::extract::{codeable_opt, codeable_of, codeable_text, extract_codeable_text, extract_datetime, first_instant, format_quantity_value, joined, join, names, number_of, number_value, opt_view, quantity_text, views};
use crate::json::{Json, field, str_field, array_field};
use crate::text::{contains, has_text, lower_of, to_lower, words};

verus! {

/// The text of a code-status observation's value: its coded value when it
/// has one (and nothing if that has no text), else its nonempty string value.
pub open spec fn status_value(r: Json) -> Option<Seq<char>> {
    match field(r, "valueCodeableConcept"@) {
        Some(v) => codeable_text(v),
        None => match str_field(r, "valueString"@) {
            Some(s) => if s.len() > 0 { Some(s) } else { None },
            None => None,
        },
    }
}

/// The text of a code-status observation's value (see `status_value`).
pub fn observation_value_text(resource: &Json) -> (r: Option<String>)
    ensures
        opt_view(r) == status_value(*resource),
{
    match resource.get("valueCodeableConcept") {
        Some(v) => extract_codeable_text(v),
        None => match resource.str_field("valueString") {
            Some(s) => if s.unicode_len() > 0 { Some(s.to_string()) } else { None },
            None => None,
        },
    }
}

/// Whether an observation records a code status: its lower-cased coded name
/// mentions "code status", "dnr", "do not resuscitate", "resuscitation
/// status" or "advance directive".
pub open spec fn is_code_status(r: Json) -> bool {
    match codeable_opt(field(r, "code"@)) {
        Some(t) => {
            let l = lower_of(t);
            has_text(l, "code status"@) || has_text(l, "dnr"@) || has_text(l, "do not resuscitate"@)
                || has_text(l, "resuscitation status"@) || has_text(l, "advance directive"@)
        },
        None => false,
    }
}

/// Whether an observation records a code status (see `is_code_status`).
pub fn observation_is_code_status(resource: &Json) -> (r: bool)
    ensures
        r == is_code_status(*resource),
{
    match codeable_of(resource.get("code")) {
        Some(t) => {
            let lowered = to_lower(t.as_str());
            let l = lowered.as_str();
            contains(l, "code status") || contains(l, "dnr") || contains(l, "do not resuscitate")
                || contains(l, "resuscitation status") || contains(l, "advance directive")
        },
        None => false,
    }
}

/// The instant of an observation.
pub open spec fn observation_instant(r: Json) -> Option<Timestamp> {
    first_instant(r, seq!["effectiveDateTime"@, "effectiveInstant"@, "effectivePeriod"@, "issued"@])
}

/// The instant of an observation (see `observation_instant`).
pub fn extract_observation_timestamp(resource: &Json) -> (r: Option<Timestamp>)
    ensures
        r == observation_instant(*resource),
{
    let fields = ["effectiveDateTime", "effectiveInstant", "effectivePeriod", "issued"];
    let r = extract_datetime(resource, &fields);
    assert(names(fields@) =~= seq!["effectiveDateTime"@, "effectiveInstant"@, "effectivePeriod"@, "issued"@]);
    r
}

/// The instant a condition was recorded or began (see `condition_instant`).
pub fn condition_instant_of(resource: &Json) -> (r: Option<Timestamp>)
    ensures
        r == crate::aggregate::condition_instant(*resource),
{
    let fields = ["recordedDate", "onsetDateTime", "onsetDate", "assertedDate"];
    let r = extract_datetime(resource, &fields);
    assert(names(fields@) =~= seq!["recordedDate"@, "onsetDateTime"@, "onsetDate"@, "assertedDate"@]);
    r
}

/// Systolic value, diastolic value and unit gathered from blood-pressure components.
pub type PressureParts = (Option<Seq<char>>, Option<Seq<char>>, Option<Seq<char>>);

/// The first word of a text, or nothing.
pub open spec fn first_word_or_empty(t: Seq<char>) -> Seq<char> {
    if words(t).len() > 0 {
        words(t)[0]
    } else {
        Seq::empty()
    }
}

/// One component's contribution: a component with a quantity whose
/// lower-cased name mentions "systolic" (or "diastolic") gives the first
/// word of the rendered quantity as the systolic (or diastolic) value, if
/// that is not yet set, and its unit, present or not, as the unit.
pub open spec fn pressure_step(state: PressureParts, c: Json) -> PressureParts {
    let label = lower_of(
        match codeable_opt(field(c, "code"@)) {
            Some(t) => t,
            None => Seq::empty(),
        },
    );
    match field(c, "valueQuantity"@) {
        None => state,
        Some(q) => {
            let take_sys = state.0 is None && has_text(label, "systolic"@) && quantity_text(q) is Some;
            let s1 = if take_sys { Some(first_word_or_empty(quantity_text(q)->0)) } else { state.0 };
            let u1 = if take_sys { str_field(q, "unit"@) } else { state.2 };
            let take_dia = state.1 is None && has_text(label, "diastolic"@) && quantity_text(q) is Some;
            let d1 = if take_dia { Some(first_word_or_empty(quantity_text(q)->0)) } else { state.1 };
            let u2 = if take_dia { str_field(q, "unit"@) } else { u1 };
            (s1, d1, u2)
        },
    }
}

/// The parts gathered from a list of components, in order.
pub open spec fn pressure_parts(cs: Seq<Json>) -> PressureParts
    decreases cs.len(),
{
    if cs.len() == 0 {
        (None, None, None)
    } else {
        pressure_step(pressure_parts(cs.drop_last()), cs.last())
    }
}

/// Blood pressure written "sys/dia unit" from components, "mmHg" standing
/// for a missing unit; only when both values were found.
pub open spec fn pressure_text(cs: Seq<Json>) -> Option<Seq<char>> {
    let p = pressure_parts(cs);
    match (p.0, p.1) {
        (Some(s), Some(d)) => Some(
            s + "/"@ + d + " "@ + match p.2 {
                Some(u) => u,
                None => "mmHg"@,
            },
        ),
        _ => None,
    }
}

fn first_word(t: &str) -> (r: String)
    ensures
        r@ == first_word_or_empty(t@),
{
    match word_at(t, 0) {
        Some(w) => w,
        None => String::new(),
    }
}

/// Blood pressure from components (see `pressure_text`).
pub fn summarize_blood_pressure(components: &Vec<Json>) -> (r: Option<String>)
    ensures
        opt_view(r) == pressure_text(components@),
{
    let mut systolic: Option<String> = None;
    let mut diastolic: Option<String> = None;
    let mut unit: Option<String> = None;
    let mut i: usize = 0;
    while i < components.len()
        invariant
            i <= components@.len(),
            (opt_view(systolic), opt_view(diastolic), opt_view(unit)) == pressure_parts(
                components@.subrange(0, i as int),
            ),
        decreases components.len() - i,
    {
        let c = &components[i];
        assert(components@.subrange(0, i + 1).drop_last() =~= components@.subrange(0, i as int));
        let name = match codeable_of(c.get("code")) {
            Some(t) => t,
            None => String::new(),
        };
        let label = to_lower(name.as_str());
        match c.get("valueQuantity") {
            Some(q) => {
                if systolic.is_none() && contains(label.as_str(), "systolic") {
                    match format_quantity_value(q) {
                        Some(value) => {
                            unit = match q.str_field("unit") {
                                Some(u) => Some(u.to_string()),
                                None => None,
                            };
                            systolic = Some(first_word(value.as_str()));
                        },
                        None => {},
                    }
                }
                if diastolic.is_none() && contains(label.as_str(), "diastolic") {
                    match format_quantity_value(q) {
                        Some(value) => {
                            unit = match q.str_field("unit") {
                                Some(u) => Some(u.to_string()),
                                None => None,
                            };
                            diastolic = Some(first_word(value.as_str()));
                        },
                        None => {},
                    }
                }
            },
            None => {},
        }
        i += 1;
    }
    assert(components@.subrange(0, i as int) =~= components@);
    match (systolic, diastolic) {
        (Some(sys), Some(dia)) => {
            let mut out = sys;
            out.append("/");
            out.append(dia.as_str());
            out.append(" ");
            match unit {
                Some(u) => out.append(u.as_str()),
                None => out.append("mmHg"),
            }
            Some(out)
        },
        _ => None,
    }
}

/// One component written "label: value", the label being its coded name or
/// "Component"; only for components with a renderable quantity.
pub open spec fn component_part(c: Json) -> Option<Seq<char>> {
    match field(c, "valueQuantity"@) {
        Some(q) => match quantity_text(q) {
            Some(v) => Some(
                match codeable_opt(field(c, "code"@)) {
                    Some(t) => t,
                    None => "Component"@,
                } + ": "@ + v,
            ),
            None => None,
        },
        None => None,
    }
}

/// The parts of the components that have one, in order.
pub open spec fn component_parts(cs: Seq<Json>) -> Seq<Seq<char>>
    decreases cs.len(),
{
    if cs.len() == 0 {
        Seq::empty()
    } else {
        match component_part(cs.last()) {
            Some(p) => component_parts(cs.drop_last()).push(p),
            None => component_parts(cs.drop_last()),
        }
    }
}

/// The displayable value of an observation: its rendered quantity when it
/// has one (nothing if that cannot be rendered); else its nonempty string;
/// else the text of its coded value; else, from its components, a blood
/// pressure, or else the component parts joined by " | "; else nothing.
pub open spec fn observation_value(r: Json) -> Option<Seq<char>> {
    match field(r, "valueQuantity"@) {
        Some(q) => quantity_text(q),
        None => {
            let s = str_field(r, "valueString"@);
            if s is Some && s->0.len() > 0 {
                s
            } else if codeable_opt(field(r, "valueCodeableConcept"@)) is Some {
                codeable_opt(field(r, "valueCodeableConcept"@))
            } else {
                match array_field(r, "component"@) {
                    Some(cs) => if pressure_text(cs) is Some {
                        pressure_text(cs)
                    } else if component_parts(cs).len() > 0 {
                        Some(joined(component_parts(cs), " | "@))
                    } else {
                        None
                    },
                    None => None,
                }
            }
        },
    }
}

/// The displayable value of an observation (see `observation_value`).
pub fn summarize_observation_value(resource: &Json) -> (r: Option<String>)
    ensures
        opt_view(r) == observation_value(*resource),
{
    match resource.get("valueQuantity") {
        Some(q) => {
            return format_quantity_value(q);
        },
        None => {},
    }
    match resource.str_field("valueString") {
        Some(s) => {
            if s.unicode_len() > 0 {
                return Some(s.to_string());
            }
        },
        None => {},
    }
    match codeable_of(resource.get("valueCodeableConcept")) {
        Some(t) => {
            return Some(t);
        },
        None => {},
    }
    let components = match resource.array_field("component") {
        Some(cs) => cs,
        None => {
            return None;
        },
    };
    match summarize_blood_pressure(components) {
        Some(bp) => {
            return Some(bp);
        },
        None => {},
    }
    let mut parts: Vec<String> = Vec::new();
    let mut i: usize = 0;
    while i < components.len()
        invariant
            i <= components@.len(),
            views(parts@) == component_parts(components@.subrange(0, i as int)),
        decreases components.len() - i,
    {
        let c = &components[i];
        assert(components@.subrange(0, i + 1).drop_last() =~= components@.subrange(0, i as int));
        match c.get("valueQuantity") {
            Some(q) => match format_quantity_value(q) {
                Some(value) => {
                    let mut part = match codeable_of(c.get("code")) {
                        Some(t) => t,
                        None => "Component".to_string(),
                    };
                    part.append(": ");
                    part.append(value.as_str());
                    let ghost before = parts@;
                    parts.push(part);
                    assert(views(parts@) =~= views(before).push(part@));
                },
                None => {},
            },
            None => {},
        }
        i += 1;
    }
    assert(components@.subrange(0, i as int) =~= components@);
    if parts.len() > 0 {
        Some(join(&parts, " | "))
    } else {
        None
    }
}

/// The numeric reading and unit of an observation: those of its quantity
/// when it has one; for a blood pressure, the systolic value read from the
/// detail; else the number that starts the detail. Without a quantity the
/// unit is the detail's second word.
pub open spec fn observation_numbers(name: Seq<char>, r: Json, detail: Seq<char>) -> (Option<Decimal>, Option<Seq<char>>) {
    match field(r, "valueQuantity"@) {
        Some(q) => (number_of(field(q, "value"@)), str_field(q, "unit"@)),
        None => if has_text(lower_of(name), "blood pressure"@) && bp_from_detail(detail) is Some {
            let bp = bp_from_detail(detail)->0;
            (Some(Decimal { mantissa: bp.0 as i64, scale: 0 }), nth_word(detail, 1))
        } else {
            (number_from_detail(detail), nth_word(detail, 1))
        },
    }
}

/// The numeric reading and unit of an observation (see `observation_numbers`).
pub fn observation_numeric_metadata(name: &str, resource: &Json, detail: &str) -> (r: (Option<Decimal>, Option<String>))
    ensures
        (r.0, opt_view(r.1)) == observation_numbers(name@, *resource, detail@),
        r.0 matches Some(d) ==> d.wf(),
{
    match resource.get("valueQuantity") {
        Some(q) => {
            let value = number_value(q.get("value"));
            let unit = match q.str_field("unit") {
                Some(u) => Some(u.to_string()),
                None => None,
            };
            return (value, unit);
        },
        None => {},
    }
    let lowered = to_lower(name);
    if contains(lowered.as_str(), "blood pressure") {
        match parse_blood_pressure_from_detail(detail) {
            Some((systolic, _)) => {
                return (Some(Decimal::from_int(systolic)), word_at(detail, 1));
            },
            None => {},
        }
    }
    (numeric_from_detail(detail), word_at(detail, 1))
}

} // verus!
