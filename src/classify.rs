//! Severity rules for allergies, conditions and observations, and the
//! recognition of vital signs and diagnostic studies.

use vstd::prelude::*;
use crate::decimal::Decimal;
use crate::detail::{bp_from_detail, parse_blood_pressure_from_detail};
use crate::extract::{codeable_text, extract_codeable_text, number_of, number_value};
use crate::json::{Json, field, str_field, array_field};
use crate::model::{DiagnosticKind, Severity};
use crate::text::{contains, has_text, lower_of, pieces, same_text, split_pieces, to_lower};

verus! {

/// Severity of a condition, from keywords of its lower-cased name.
pub open spec fn condition_severity(name: Seq<char>) -> Severity {
    let n = lower_of(name);
    if has_text(n, "sepsis"@) || has_text(n, "shock"@) || has_text(n, "arrest"@) || has_text(
        n,
        "respiratory failure"@,
    ) {
        Severity::Critical
    } else if has_text(n, "pneumonia"@) || has_text(n, "infarction"@) || has_text(n, "stroke"@)
        || has_text(n, "pulmonary embolism"@) {
        Severity::High
    } else {
        Severity::Moderate
    }
}

/// Severity of a condition (see `condition_severity`).
pub fn map_condition_severity(condition: &str) -> (r: Severity)
    ensures
        r == condition_severity(condition@),
{
    let n = to_lower(condition);
    let n = n.as_str();
    if contains(n, "sepsis") || contains(n, "shock") || contains(n, "arrest") || contains(
        n,
        "respiratory failure",
    ) {
        Severity::Critical
    } else if contains(n, "pneumonia") || contains(n, "infarction") || contains(n, "stroke")
        || contains(n, "pulmonary embolism") {
        Severity::High
    } else {
        Severity::Moderate
    }
}

/// Severity from an allergy's criticality code.
pub open spec fn criticality_severity(c: Seq<char>) -> Severity {
    if c == "high"@ || c == "unable-to-assess"@ {
        Severity::Critical
    } else {
        Severity::Moderate
    }
}

/// Severity from a reaction's severity code.
pub open spec fn reaction_severity(c: Seq<char>) -> Severity {
    if c == "severe"@ {
        Severity::Critical
    } else if c == "moderate"@ {
        Severity::High
    } else {
        Severity::Moderate
    }
}

/// The severity code of the first reaction that has one.
pub open spec fn first_reaction_code(reactions: Seq<Json>) -> Option<Seq<char>>
    decreases reactions.len(),
{
    if reactions.len() == 0 {
        None
    } else {
        match str_field(reactions[0], "severity"@) {
            Some(c) => Some(c),
            None => first_reaction_code(reactions.drop_first()),
        }
    }
}

/// Severity of an allergy: from its criticality, else from the first
/// reaction severity, else moderate.
pub open spec fn allergy_severity(r: Json) -> Severity {
    match str_field(r, "criticality"@) {
        Some(c) => criticality_severity(c),
        None => match array_field(r, "reaction"@) {
            Some(rs) => match first_reaction_code(rs) {
                Some(c) => reaction_severity(c),
                None => Severity::Moderate,
            },
            None => Severity::Moderate,
        },
    }
}

/// Severity of an allergy record (see `allergy_severity`).
pub fn map_allergy_severity(resource: &Json) -> (r: Severity)
    ensures
        r == allergy_severity(*resource),
{
    match resource.str_field("criticality") {
        Some(c) => {
            return if same_text(c, "high") || same_text(c, "unable-to-assess") {
                Severity::Critical
            } else {
                Severity::Moderate
            };
        },
        None => {},
    }
    let reactions = match resource.array_field("reaction") {
        Some(rs) => rs,
        None => {
            return Severity::Moderate;
        },
    };
    let mut i: usize = 0;
    assert(reactions@.subrange(0, reactions@.len() as int) =~= reactions@);
    while i < reactions.len()
        invariant
            str_field(*resource, "criticality"@) is None,
            array_field(*resource, "reaction"@) == Some(reactions@),
            i <= reactions@.len(),
            first_reaction_code(reactions@) == first_reaction_code(
                reactions@.subrange(i as int, reactions@.len() as int),
            ),
        decreases reactions.len() - i,
    {
        let ghost rest = reactions@.subrange(i as int, reactions@.len() as int);
        assert(rest[0] == reactions@[i as int]);
        match reactions[i].str_field("severity") {
            Some(c) => {
                return if same_text(c, "severe") {
                    Severity::Critical
                } else if same_text(c, "moderate") {
                    Severity::High
                } else {
                    Severity::Moderate
                };
            },
            None => {},
        }
        assert(rest.drop_first() =~= reactions@.subrange(i + 1, reactions@.len() as int));
        i += 1;
    }
    Severity::Moderate
}

/// Severity an interpretation code calls for, if any: "critical", "HH" or
/// "LL" is critical; "H", "L" or "abnormal" is high (case ignored).
pub open spec fn interpretation_code_severity(code: Seq<char>) -> Option<Severity> {
    let l = lower_of(code);
    if has_text(l, "critical"@) || l == "hh"@ || l == "ll"@ {
        Some(Severity::Critical)
    } else if l == "h"@ || l == "l"@ || has_text(l, "abnormal"@) {
        Some(Severity::High)
    } else {
        None
    }
}

/// The severity of the first interpretation entry that calls for one.
pub open spec fn first_interpretation(entries: Seq<Json>) -> Option<Severity>
    decreases entries.len(),
{
    if entries.len() == 0 {
        None
    } else {
        match codeable_text(entries[0]) {
            Some(c) => match interpretation_code_severity(c) {
                Some(s) => Some(s),
                None => first_interpretation(entries.drop_first()),
            },
            None => first_interpretation(entries.drop_first()),
        }
    }
}

/// The severity an observation's interpretation codes call for.
pub open spec fn interpretation_severity(r: Json) -> Option<Severity> {
    match array_field(r, "interpretation"@) {
        Some(entries) => first_interpretation(entries),
        None => None,
    }
}

fn code_severity(code: &str) -> (r: Option<Severity>)
    ensures
        r == interpretation_code_severity(code@),
{
    let l = to_lower(code);
    let l = l.as_str();
    if contains(l, "critical") || same_text(l, "hh") || same_text(l, "ll") {
        Some(Severity::Critical)
    } else if same_text(l, "h") || same_text(l, "l") || contains(l, "abnormal") {
        Some(Severity::High)
    } else {
        None
    }
}

/// The severity an observation's interpretation codes call for (see
/// `interpretation_severity`).
pub fn severity_from_interpretation(resource: &Json) -> (r: Option<Severity>)
    ensures
        r == interpretation_severity(*resource),
{
    let entries = match resource.array_field("interpretation") {
        Some(es) => es,
        None => {
            return None;
        },
    };
    let mut i: usize = 0;
    assert(entries@.subrange(0, entries@.len() as int) =~= entries@);
    while i < entries.len()
        invariant
            array_field(*resource, "interpretation"@) == Some(entries@),
            i <= entries@.len(),
            first_interpretation(entries@) == first_interpretation(
                entries@.subrange(i as int, entries@.len() as int),
            ),
        decreases entries.len() - i,
    {
        let ghost rest = entries@.subrange(i as int, entries@.len() as int);
        assert(rest[0] == entries@[i as int]);
        assert(rest.drop_first() =~= entries@.subrange(i + 1, entries@.len() as int));
        match extract_codeable_text(&entries[i]) {
            Some(c) => match code_severity(c.as_str()) {
                Some(s) => {
                    return Some(s);
                },
                None => {},
            },
            None => {},
        }
        i += 1;
    }
    None
}

/// The value of an observation's `valueQuantity`.
pub open spec fn quantity_number(r: Json) -> Option<Decimal> {
    match field(r, "valueQuantity"@) {
        Some(q) => number_of(field(q, "value"@)),
        None => None,
    }
}

/// The value of an observation's `valueQuantity` (see `quantity_number`).
pub fn parse_value_quantity(resource: &Json) -> (r: Option<Decimal>)
    ensures
        r == quantity_number(*resource),
        r matches Some(d) ==> d.wf(),
{
    match resource.get("valueQuantity") {
        Some(q) => number_value(q.get("value")),
        None => None,
    }
}

/// Heart rate: at least 140 or at most 40 is critical, at least 120 or at
/// most 50 is high.
pub open spec fn heart_rate_band(v: Decimal) -> Severity {
    if v.spec_at_least(140) {
        Severity::Critical
    } else if v.spec_at_least(120) {
        Severity::High
    } else if v.spec_at_most(40) {
        Severity::Critical
    } else if v.spec_at_most(50) {
        Severity::High
    } else {
        Severity::Moderate
    }
}

/// Respiratory rate: at least 35 or at most 8 is critical, at least 28 or
/// at most 10 is high.
pub open spec fn respiratory_rate_band(v: Decimal) -> Severity {
    if v.spec_at_least(35) {
        Severity::Critical
    } else if v.spec_at_least(28) {
        Severity::High
    } else if v.spec_at_most(8) {
        Severity::Critical
    } else if v.spec_at_most(10) {
        Severity::High
    } else {
        Severity::Moderate
    }
}

/// Oxygen saturation: below 85 is critical, below 92 high.
pub open spec fn saturation_band(v: Decimal) -> Severity {
    if !v.spec_at_least(85) {
        Severity::Critical
    } else if !v.spec_at_least(92) {
        Severity::High
    } else {
        Severity::Moderate
    }
}

/// Blood pressure: systolic at least 200 or diastolic at least 120 is
/// critical; systolic at least 180 or diastolic at least 110 is high, and so
/// is systolic at most 80 or diastolic at most 50.
pub open spec fn blood_pressure_band(sys: int, dia: int) -> Severity {
    if sys >= 200 || dia >= 120 {
        Severity::Critical
    } else if sys >= 180 || dia >= 110 {
        Severity::High
    } else if sys <= 80 || dia <= 50 {
        Severity::High
    } else {
        Severity::Moderate
    }
}

/// Lactate: at least 4 is critical, at least 2 high.
pub open spec fn lactate_band(v: Decimal) -> Severity {
    if v.spec_at_least(4) {
        Severity::Critical
    } else if v.spec_at_least(2) {
        Severity::High
    } else {
        Severity::Moderate
    }
}

/// Severity of an observation: its interpretation codes first; then the
/// thresholds of the vital sign or lab its lower-cased name mentions, where
/// the value they need is present; else informational.
pub open spec fn observation_severity(name: Seq<char>, r: Json, detail: Seq<char>) -> Severity {
    let n = lower_of(name);
    let q = quantity_number(r);
    match interpretation_severity(r) {
        Some(s) => s,
        None => if (has_text(n, "heart rate"@) || has_text(n, "pulse"@)) && q is Some {
            heart_rate_band(q->0)
        } else if has_text(n, "respiratory rate"@) && q is Some {
            respiratory_rate_band(q->0)
        } else if (has_text(n, "spo2"@) || has_text(n, "oxygen saturation"@)) && q is Some {
            saturation_band(q->0)
        } else if has_text(n, "blood pressure"@) && bp_from_detail(detail) is Some {
            let bp = bp_from_detail(detail)->0;
            blood_pressure_band(bp.0, bp.1)
        } else if has_text(n, "lactate"@) && q is Some {
            lactate_band(q->0)
        } else {
            Severity::Info
        },
    }
}

/// Severity of an observation (see `observation_severity`).
pub fn classify_observation(name: &str, resource: &Json, detail: &str) -> (r: Severity)
    ensures
        r == observation_severity(name@, *resource, detail@),
{
    let lowered = to_lower(name);
    let n = lowered.as_str();
    match severity_from_interpretation(resource) {
        Some(s) => {
            return s;
        },
        None => {},
    }
    let q = parse_value_quantity(resource);
    if contains(n, "heart rate") || contains(n, "pulse") {
        if let Some(v) = q {
            return if v.at_least(140) {
                Severity::Critical
            } else if v.at_least(120) {
                Severity::High
            } else if v.at_most(40) {
                Severity::Critical
            } else if v.at_most(50) {
                Severity::High
            } else {
                Severity::Moderate
            };
        }
    }
    if contains(n, "respiratory rate") {
        if let Some(v) = q {
            return if v.at_least(35) {
                Severity::Critical
            } else if v.at_least(28) {
                Severity::High
            } else if v.at_most(8) {
                Severity::Critical
            } else if v.at_most(10) {
                Severity::High
            } else {
                Severity::Moderate
            };
        }
    }
    if contains(n, "spo2") || contains(n, "oxygen saturation") {
        if let Some(v) = q {
            return if !v.at_least(85) {
                Severity::Critical
            } else if !v.at_least(92) {
                Severity::High
            } else {
                Severity::Moderate
            };
        }
    }
    if contains(n, "blood pressure") {
        if let Some((sys, dia)) = parse_blood_pressure_from_detail(detail) {
            return if sys >= 200 || dia >= 120 {
                Severity::Critical
            } else if sys >= 180 || dia >= 110 {
                Severity::High
            } else if sys <= 80 || dia <= 50 {
                Severity::High
            } else {
                Severity::Moderate
            };
        }
    }
    if contains(n, "lactate") {
        if let Some(v) = q {
            return if v.at_least(4) {
                Severity::Critical
            } else if v.at_least(2) {
                Severity::High
            } else {
                Severity::Moderate
            };
        }
    }
    Severity::Info
}

/// The canonical vital-sign name that an observation name refers to.
pub open spec fn vital_label(name: Seq<char>) -> Option<Seq<char>> {
    let l = lower_of(name);
    if has_text(l, "heart rate"@) || has_text(l, "pulse"@) {
        Some("Heart rate"@)
    } else if has_text(l, "spo2"@) || has_text(l, "oxygen saturation"@) {
        Some("SpO2"@)
    } else if has_text(l, "blood pressure"@) {
        Some("Blood pressure"@)
    } else if has_text(l, "respiratory rate"@) {
        Some("Respiratory rate"@)
    } else if has_text(l, "temperature"@) {
        Some("Temperature"@)
    } else {
        None
    }
}

/// The canonical vital-sign name of an observation name (see `vital_label`).
pub fn infer_vital_label(name: &str) -> (r: Option<&'static str>)
    ensures
        match r {
            Some(l) => vital_label(name@) == Some(l@),
            None => vital_label(name@) is None,
        },
{
    let lowered = to_lower(name);
    let l = lowered.as_str();
    if contains(l, "heart rate") || contains(l, "pulse") {
        Some("Heart rate")
    } else if contains(l, "spo2") || contains(l, "oxygen saturation") {
        Some("SpO2")
    } else if contains(l, "blood pressure") {
        Some("Blood pressure")
    } else if contains(l, "respiratory rate") {
        Some("Respiratory rate")
    } else if contains(l, "temperature") {
        Some("Temperature")
    } else {
        None
    }
}

/// Whether the lower-cased member `key` of `j` holds `needle`.
pub open spec fn member_mentions(j: Json, key: Seq<char>, needle: Seq<char>) -> bool {
    match str_field(j, key) {
        Some(t) => has_text(lower_of(t), needle),
        None => false,
    }
}

/// Whether a category entry mentions `needle`: in its text, or in the
/// display or code of one of its codings.
pub open spec fn entry_mentions(e: Json, needle: Seq<char>) -> bool {
    member_mentions(e, "text"@, needle) || match array_field(e, "coding"@) {
        Some(cs) => codings_mention(cs, needle),
        None => false,
    }
}

/// Whether the display or code of one of the codings mentions `needle`.
pub open spec fn codings_mention(cs: Seq<Json>, needle: Seq<char>) -> bool {
    exists|j: int|
        0 <= j < cs.len() && (member_mentions(#[trigger] cs[j], "display"@, needle)
            || member_mentions(cs[j], "code"@, needle))
}

/// Whether one of the category entries mentions `needle`.
pub open spec fn entries_mention(cats: Seq<Json>, needle: Seq<char>) -> bool {
    exists|i: int| 0 <= i < cats.len() && entry_mentions(#[trigger] cats[i], needle)
}

/// Whether one of an observation's categories mentions the lower-cased keyword.
pub open spec fn category_matches(r: Json, keyword: Seq<char>) -> bool {
    match array_field(r, "category"@) {
        Some(cats) => entries_mention(cats, lower_of(keyword)),
        None => false,
    }
}

fn mentions(j: &Json, key: &str, needle: &str) -> (r: bool)
    ensures
        r == member_mentions(*j, key@, needle@),
{
    match j.str_field(key) {
        Some(t) => contains(to_lower(t).as_str(), needle),
        None => false,
    }
}

fn entry_mentions_of(e: &Json, needle: &str) -> (r: bool)
    ensures
        r == entry_mentions(*e, needle@),
{
    if mentions(e, "text", needle) {
        return true;
    }
    let cs = match e.array_field("coding") {
        Some(cs) => cs,
        None => {
            return false;
        },
    };
    let mut j: usize = 0;
    while j < cs.len()
        invariant
            array_field(*e, "coding"@) == Some(cs@),
            j <= cs@.len(),
            forall|k: int|
                0 <= k < j ==> !(member_mentions(#[trigger] cs@[k], "display"@, needle@)
                    || member_mentions(cs@[k], "code"@, needle@)),
        decreases cs.len() - j,
    {
        if mentions(&cs[j], "display", needle) || mentions(&cs[j], "code", needle) {
            assert(member_mentions(cs@[j as int], "display"@, needle@) || member_mentions(
                cs@[j as int],
                "code"@,
                needle@,
            ));
            assert(exists|k: int|
                0 <= k < cs@.len() && (member_mentions(#[trigger] cs@[k], "display"@, needle@)
                    || member_mentions(cs@[k], "code"@, needle@)));
            assert(codings_mention(cs@, needle@));
            return true;
        }
        j += 1;
    }
    false
}

/// Whether one of an observation's categories mentions a keyword (see `category_matches`).
pub fn observation_category_matches(resource: &Json, keyword: &str) -> (r: bool)
    ensures
        r == category_matches(*resource, keyword@),
{
    let cats = match resource.array_field("category") {
        Some(c) => c,
        None => {
            return false;
        },
    };
    let needle = to_lower(keyword);
    let mut i: usize = 0;
    while i < cats.len()
        invariant
            array_field(*resource, "category"@) == Some(cats@),
            i <= cats@.len(),
            needle@ == lower_of(keyword@),
            forall|k: int| 0 <= k < i ==> !entry_mentions(#[trigger] cats@[k], lower_of(keyword@)),
        decreases cats.len() - i,
    {
        if entry_mentions_of(&cats[i], needle.as_str()) {
            assert(entry_mentions(cats@[i as int], lower_of(keyword@)));
            assert(entries_mention(cats@, lower_of(keyword@)));
            return true;
        }
        i += 1;
    }
    false
}

/// The lower-cased alphanumeric runs of a text.
pub open spec fn tokens(text: Seq<char>) -> Seq<Seq<char>> {
    pieces(lower_of(text), false)
}

/// The lower-cased alphanumeric runs of a text (see `tokens`).
pub fn tokenize(text: &str) -> (r: Vec<Vec<char>>)
    ensures
        r@.len() == tokens(text@).len(),
        forall|i: int| 0 <= i < r@.len() ==> (#[trigger] r@[i])@ == tokens(text@)[i],
{
    let lowered = to_lower(text);
    split_pieces(lowered.as_str(), false)
}

/// Whether a token holds one of the lab keywords.
pub open spec fn lab_token(t: Seq<char>) -> bool {
    has_text(t, "lactate"@) || has_text(t, "troponin"@) || has_text(t, "glucose"@) || has_text(
        t,
        "creatinine"@,
    ) || has_text(t, "cbc"@) || has_text(t, "platelet"@) || has_text(t, "wbc"@) || has_text(
        t,
        "culture"@,
    ) || has_text(t, "bilirubin"@) || has_text(t, "sodium"@) || has_text(t, "potassium"@)
        || has_text(t, "magnesium"@)
}

/// Whether a token is one of the imaging keywords.
pub open spec fn imaging_token(t: Seq<char>) -> bool {
    t == "ct"@ || t == "cta"@ || t == "mri"@ || t == "xray"@ || t == "ultrasound"@ || t
        == "radiograph"@
}

fn is_lab_token(t: &str) -> (r: bool)
    ensures
        r == lab_token(t@),
{
    contains(t, "lactate") || contains(t, "troponin") || contains(t, "glucose") || contains(
        t,
        "creatinine",
    ) || contains(t, "cbc") || contains(t, "platelet") || contains(t, "wbc") || contains(
        t,
        "culture",
    ) || contains(t, "bilirubin") || contains(t, "sodium") || contains(t, "potassium")
        || contains(t, "magnesium")
}

fn is_imaging_token(t: &str) -> (r: bool)
    ensures
        r == imaging_token(t@),
{
    same_text(t, "ct") || same_text(t, "cta") || same_text(t, "mri") || same_text(t, "xray")
        || same_text(t, "ultrasound") || same_text(t, "radiograph")
}

/// Kind of diagnostic study an observation is: none if categorised as
/// vital; lab or imaging by category; else lab or imaging by keywords among
/// the tokens of its name.
pub open spec fn diagnostic_kind(name: Seq<char>, r: Json) -> Option<DiagnosticKind> {
    let ts = tokens(name);
    if category_matches(r, "vital"@) {
        None
    } else if category_matches(r, "laboratory"@) || category_matches(r, "lab"@) {
        Some(DiagnosticKind::Lab)
    } else if category_matches(r, "imaging"@) || category_matches(r, "radiology"@) {
        Some(DiagnosticKind::Imaging)
    } else if exists|i: int| 0 <= i < ts.len() && lab_token(#[trigger] ts[i]) {
        Some(DiagnosticKind::Lab)
    } else if exists|i: int| 0 <= i < ts.len() && imaging_token(#[trigger] ts[i]) {
        Some(DiagnosticKind::Imaging)
    } else {
        None
    }
}

/// Kind of diagnostic study an observation is (see `diagnostic_kind`).
pub fn guess_diagnostic_kind(name: &str, resource: &Json) -> (r: Option<DiagnosticKind>)
    ensures
        r == diagnostic_kind(name@, *resource),
{
    if observation_category_matches(resource, "vital") {
        return None;
    }
    if observation_category_matches(resource, "laboratory") || observation_category_matches(
        resource,
        "lab",
    ) {
        return Some(DiagnosticKind::Lab);
    }
    if observation_category_matches(resource, "imaging") || observation_category_matches(
        resource,
        "radiology",
    ) {
        return Some(DiagnosticKind::Imaging);
    }
    let ts = tokenize(name);
    let ghost model = tokens(name@);
    let mut i: usize = 0;
    while i < ts.len()
        invariant
            !category_matches(*resource, "vital"@),
            !(category_matches(*resource, "laboratory"@) || category_matches(*resource, "lab"@)),
            !(category_matches(*resource, "imaging"@) || category_matches(*resource, "radiology"@)),
            i <= ts@.len(),
            model == tokens(name@),
            ts@.len() == model.len(),
            forall|k: int| 0 <= k < ts@.len() ==> (#[trigger] ts@[k])@ == model[k],
            forall|k: int| 0 <= k < i ==> !lab_token(#[trigger] model[k]),
        decreases ts.len() - i,
    {
        let t = crate::text::string_of(&ts[i]);
        if is_lab_token(t.as_str()) {
            assert(lab_token(model[i as int]));
            return Some(DiagnosticKind::Lab);
        }
        i += 1;
    }
    let mut i: usize = 0;
    while i < ts.len()
        invariant
            !category_matches(*resource, "vital"@),
            !(category_matches(*resource, "laboratory"@) || category_matches(*resource, "lab"@)),
            !(category_matches(*resource, "imaging"@) || category_matches(*resource, "radiology"@)),
            i <= ts@.len(),
            model == tokens(name@),
            ts@.len() == model.len(),
            forall|k: int| 0 <= k < ts@.len() ==> (#[trigger] ts@[k])@ == model[k],
            forall|k: int| 0 <= k < model.len() ==> !lab_token(#[trigger] model[k]),
            forall|k: int| 0 <= k < i ==> !imaging_token(#[trigger] model[k]),
        decreases ts.len() - i,
    {
        let t = crate::text::string_of(&ts[i]);
        if is_imaging_token(t.as_str()) {
            assert(imaging_token(model[i as int]));
            return Some(DiagnosticKind::Imaging);
        }
        i += 1;
    }
    None
}

} // verus!
