use timeline_fhir::classify::{
    tokenize,
    classify_observation, guess_diagnostic_kind, infer_vital_label, map_allergy_severity,
    map_condition_severity,
};
use timeline_fhir::decimal::{format_decimal, parse_decimal};
use timeline_fhir::detail::{numeric_from_detail, parse_blood_pressure_from_detail};
use timeline_fhir::text::capitalize_first;
use timeline_fhir::{
    empty_snapshot, summarize_bundle_at, summarize_bundle_value, Decimal, DiagnosticKind,
    EventCategory, Json, Severity, TimelineConfig, TimelineError, TimelineSnapshot, Timestamp,
};

fn s(text: &str) -> Json {
    Json::Str(text.to_string())
}

fn n(text: &str) -> Json {
    Json::Number(text.to_string())
}

fn obj(members: Vec<(&str, Json)>) -> Json {
    Json::Object(members.into_iter().map(|(k, v)| (k.to_string(), v)).collect())
}

fn arr(items: Vec<Json>) -> Json {
    Json::Array(items)
}

fn coded(text: &str) -> Json {
    obj(vec![("text", s(text))])
}

fn bundle(resources: Vec<Json>) -> Json {
    obj(vec![
        ("resourceType", s("Bundle")),
        (
            "entry",
            arr(resources.into_iter().map(|r| obj(vec![("resource", r)])).collect()),
        ),
    ])
}

fn observation(id: &str, name: &str, value: &str, unit: &str, at: &str) -> Json {
    obj(vec![
        ("resourceType", s("Observation")),
        ("id", s(id)),
        ("code", coded(name)),
        ("valueQuantity", obj(vec![("value", n(value)), ("unit", s(unit))])),
        ("effectiveDateTime", s(at)),
    ])
}

fn summarize(b: &Json) -> TimelineSnapshot {
    summarize_bundle_value(b, &TimelineConfig::default()).expect("bundle summarises")
}

// 2024-06-15T00:00:00Z
const NOW: Timestamp = Timestamp { seconds: 1_718_409_600, nanos: 0 };

#[test]
fn missing_resource_type_is_missing_data() {
    let b = obj(vec![("entry", arr(vec![]))]);
    assert_eq!(
        summarize_bundle_value(&b, &TimelineConfig::default()).unwrap_err(),
        TimelineError::MissingData
    );
}

#[test]
fn bundle_without_entries_is_missing_data() {
    let b = obj(vec![("resourceType", s("Bundle"))]);
    assert_eq!(
        summarize_bundle_value(&b, &TimelineConfig::default()).unwrap_err(),
        TimelineError::MissingData
    );
}

#[test]
fn other_resource_type_is_parse_error() {
    let b = obj(vec![("resourceType", s("Patient")), ("entry", arr(vec![]))]);
    let err = summarize_bundle_value(&b, &TimelineConfig::default()).unwrap_err();
    assert_eq!(
        err,
        TimelineError::Parse("Expected resourceType Bundle, received Patient".to_string())
    );
    assert_eq!(
        err.message(),
        "Không đọc được dữ liệu: Expected resourceType Bundle, received Patient"
    );
}

#[test]
fn error_messages() {
    assert_eq!(
        TimelineError::MissingData.message(),
        "Dữ liệu đầu vào thiếu thông tin tối thiểu"
    );
    assert_eq!(TimelineError::Other("x".to_string()).message(), "Lỗi khác: x");
}

#[test]
fn default_config() {
    let c = TimelineConfig::default();
    assert_eq!(c.vital_recent_hours, 6);
    assert_eq!(c.clinical_event_days, 30);
}

#[test]
fn heart_rate_145_is_critical() {
    let b = bundle(vec![observation(
        "hr1",
        "Heart Rate",
        "145",
        "bpm",
        "2024-01-01T10:00:00Z",
    )]);
    let snap = summarize(&b);
    assert_eq!(snap.events.len(), 1);
    assert_eq!(snap.events[0].severity, Severity::Critical);
    assert_eq!(snap.events[0].detail.as_deref(), Some("145 bpm"));
    let vitals = &snap.critical.recent_vitals;
    assert_eq!(vitals.len(), 1);
    assert_eq!(vitals[0].name, "Heart rate");
    assert_eq!(vitals[0].value, "145 bpm");
    assert_eq!(vitals[0].numeric_value, Some(Decimal { mantissa: 145, scale: 0 }));
    assert_eq!(vitals[0].unit.as_deref(), Some("bpm"));
}

#[test]
fn heart_rate_bands() {
    let sev = |v: &str| {
        let r = observation("x", "Pulse", v, "bpm", "2024-01-01T10:00:00Z");
        classify_observation("Pulse", &r, "")
    };
    assert_eq!(sev("140"), Severity::Critical);
    assert_eq!(sev("139.9"), Severity::High);
    assert_eq!(sev("120"), Severity::High);
    assert_eq!(sev("80"), Severity::Moderate);
    assert_eq!(sev("50"), Severity::High);
    assert_eq!(sev("40"), Severity::Critical);
}

#[test]
fn saturation_and_lactate_bands() {
    let sat = observation("x", "SpO2", "84", "%", "2024-01-01T10:00:00Z");
    assert_eq!(classify_observation("SpO2", &sat, ""), Severity::Critical);
    let sat = observation("x", "SpO2", "91", "%", "2024-01-01T10:00:00Z");
    assert_eq!(classify_observation("SpO2", &sat, ""), Severity::High);
    let lac = observation("x", "Lactate", "4.0", "mmol/L", "2024-01-01T10:00:00Z");
    assert_eq!(classify_observation("Lactate", &lac, ""), Severity::Critical);
    let lac = observation("x", "Lactate", "1.9", "mmol/L", "2024-01-01T10:00:00Z");
    assert_eq!(classify_observation("Lactate", &lac, ""), Severity::Moderate);
    let rr = observation("x", "Respiratory rate", "36", "/min", "2024-01-01T10:00:00Z");
    assert_eq!(classify_observation("Respiratory rate", &rr, ""), Severity::Critical);
    let other = observation("x", "Weight", "80", "kg", "2024-01-01T10:00:00Z");
    assert_eq!(classify_observation("Weight", &other, ""), Severity::Info);
}

#[test]
fn interpretation_code_wins() {
    let r = obj(vec![
        ("code", coded("Potassium")),
        ("interpretation", arr(vec![coded("HH")])),
        ("valueQuantity", obj(vec![("value", n("6.5"))])),
    ]);
    assert_eq!(classify_observation("Potassium", &r, "6.5"), Severity::Critical);
    let r = obj(vec![("interpretation", arr(vec![coded("Abnormal result")]))]);
    assert_eq!(classify_observation("Heart rate", &r, ""), Severity::High);
}

#[test]
fn blood_pressure_from_components() {
    let component = |name: &str, value: &str| {
        obj(vec![
            ("code", coded(name)),
            ("valueQuantity", obj(vec![("value", n(value)), ("unit", s("mmHg"))])),
        ])
    };
    let bp = obj(vec![
        ("resourceType", s("Observation")),
        ("code", coded("Blood pressure panel")),
        (
            "component",
            arr(vec![component("Systolic BP", "210"), component("Diastolic BP", "100")]),
        ),
        ("effectiveDateTime", s("2024-01-01T10:00:00Z")),
    ]);
    let snap = summarize(&bundle(vec![bp]));
    assert_eq!(snap.events[0].detail.as_deref(), Some("210/100 mmHg"));
    assert_eq!(snap.events[0].severity, Severity::Critical);
    let v = &snap.critical.recent_vitals[0];
    assert_eq!(v.name, "Blood pressure");
    assert_eq!(v.numeric_value, Some(Decimal { mantissa: 210, scale: 0 }));
    assert_eq!(v.unit.as_deref(), Some("mmHg"));
    assert_eq!(parse_blood_pressure_from_detail("120/80 mmHg"), Some((120, 80)));
    assert_eq!(parse_blood_pressure_from_detail("x 1.5/80"), None);
    assert_eq!(parse_blood_pressure_from_detail("no pressure"), None);
}

#[test]
fn component_list_without_pressure() {
    let r = obj(vec![
        ("resourceType", s("Observation")),
        ("code", coded("Panel")),
        (
            "component",
            arr(vec![
                obj(vec![("code", coded("A")), ("valueQuantity", obj(vec![("value", n("1"))]))]),
                obj(vec![("valueQuantity", obj(vec![("value", n("2.5")), ("unit", s("g"))]))]),
            ]),
        ),
    ]);
    let snap = summarize(&bundle(vec![r]));
    assert_eq!(snap.events[0].detail.as_deref(), Some("A: 1 | Component: 2.5 g"));
    assert_eq!(snap.events[0].severity, Severity::Info);
}

#[test]
fn allergy_high_criticality_is_critical() {
    let allergy = obj(vec![
        ("resourceType", s("AllergyIntolerance")),
        ("id", s("a1")),
        ("code", coded("Penicillin")),
        ("criticality", s("high")),
        ("category", arr(vec![s("medication")])),
        (
            "reaction",
            arr(vec![obj(vec![
                ("severity", s("mild")),
                ("manifestation", arr(vec![coded("Hives")])),
            ])]),
        ),
        ("recordedDate", s("2024-01-01T00:00:00Z")),
    ]);
    assert_eq!(map_allergy_severity(&allergy), Severity::Critical);
    let snap = summarize(&bundle(vec![allergy]));
    let item = &snap.critical.allergies[0];
    assert_eq!(item.label, "Allergy: Penicillin");
    assert_eq!(item.severity, Severity::Critical);
    assert_eq!(
        item.detail.as_deref(),
        Some("Category: Medication. Reaction: Hives. Criticality HIGH.")
    );
    let ev = &snap.events[0];
    assert_eq!(ev.severity, Severity::Critical);
    assert_eq!(ev.title, "Allergy documented: Penicillin");
    assert_eq!(ev.category, EventCategory::Condition);
    assert_eq!(ev.occurred_at, Some(Timestamp { seconds: 1_704_067_200, nanos: 0 }));
    let src = ev.source.as_ref().unwrap();
    assert_eq!(src.reference.as_deref(), Some("AllergyIntolerance/a1"));
    assert_eq!(src.display.as_deref(), Some("Penicillin"));
}

#[test]
fn allergy_severity_from_reaction() {
    let a = obj(vec![(
        "reaction",
        arr(vec![obj(vec![]), obj(vec![("severity", s("moderate"))])]),
    )]);
    assert_eq!(map_allergy_severity(&a), Severity::High);
    assert_eq!(map_allergy_severity(&obj(vec![])), Severity::Moderate);
}

#[test]
fn later_vital_reading_wins_and_trend_keeps_both() {
    let b = bundle(vec![
        observation("o2", "Heart rate", "90", "bpm", "2024-01-01T10:30:00Z"),
        observation("o1", "Heart rate", "80", "bpm", "2024-01-01T10:00:00Z"),
    ]);
    let snap = summarize(&b);
    let vitals = &snap.critical.recent_vitals;
    assert_eq!(vitals.len(), 1);
    assert_eq!(vitals[0].value, "90 bpm");
    let trends = &snap.critical.vital_trends;
    assert_eq!(trends.len(), 1);
    assert_eq!(trends[0].name, "Heart rate");
    assert_eq!(trends[0].points.len(), 2);
    assert_eq!(trends[0].points[0].label.as_deref(), Some("80 bpm"));
    assert_eq!(trends[0].points[1].label.as_deref(), Some("90 bpm"));
}

#[test]
fn old_vital_outside_window_is_dropped() {
    let b = bundle(vec![
        observation("o1", "SpO2", "97", "%", "2024-01-01T00:00:00Z"),
        observation("o2", "Heart rate", "80", "bpm", "2024-01-01T12:00:00Z"),
    ]);
    let snap = summarize(&b);
    assert_eq!(snap.critical.recent_vitals.len(), 1);
    assert_eq!(snap.critical.recent_vitals[0].name, "Heart rate");
    assert_eq!(snap.critical.vital_trends.len(), 2);
    assert_eq!(snap.critical.vital_trends[0].name, "Heart rate");
}

#[test]
fn old_condition_is_excluded() {
    let condition = |id: &str, name: &str, at: &str| {
        obj(vec![
            ("resourceType", s("Condition")),
            ("id", s(id)),
            ("code", coded(name)),
            ("onsetDateTime", s(at)),
        ])
    };
    let b = bundle(vec![
        condition("c1", "Septic shock", "2024-03-01T00:00:00Z"),
        condition("c2", "Old pneumonia", "2023-01-01T00:00:00Z"),
    ]);
    let snap = summarize(&b);
    assert_eq!(snap.critical.chronic_conditions.len(), 1);
    assert_eq!(snap.critical.chronic_conditions[0].label, "Chronic condition: Septic shock");
    assert_eq!(snap.critical.chronic_conditions[0].severity, Severity::Critical);
    assert_eq!(snap.events.len(), 1);
}

#[test]
fn no_timestamps_keeps_everything() {
    let no_time = |name: &str, value: &str| {
        obj(vec![
            ("resourceType", s("Observation")),
            ("code", coded(name)),
            ("valueQuantity", obj(vec![("value", n(value))])),
        ])
    };
    let condition = obj(vec![
        ("resourceType", s("Condition")),
        ("code", coded("Stroke")),
        ("onsetDate", s("1990-01-01")),
    ]);
    let snap = summarize(&bundle(vec![no_time("Heart rate", "70"), no_time("Temperature", "37.5"), condition]));
    assert_eq!(snap.critical.recent_vitals.len(), 2);
    assert_eq!(snap.critical.chronic_conditions.len(), 1);
    assert_eq!(snap.critical.chronic_conditions[0].severity, Severity::High);
}

#[test]
fn events_in_time_order() {
    let b = bundle(vec![
        observation("a", "Weight", "80", "kg", "2024-01-03T00:00:00Z"),
        observation("b", "Weight", "81", "kg", "2024-01-01T00:00:00Z"),
        obj(vec![("resourceType", s("Procedure")), ("code", coded("Intubation"))]),
        observation("c", "Weight", "82", "kg", "2024-01-02T00:00:00+07:00"),
    ]);
    let snap = summarize(&b);
    let ids: Vec<&str> = snap.events.iter().map(|e| e.id.as_str()).collect();
    assert_eq!(ids, vec!["procedure-unknown", "b", "c", "a"]);
    for pair in snap.events.windows(2) {
        assert!(pair[0].occurred_at <= pair[1].occurred_at);
    }
}

#[test]
fn medications_sorted_by_severity_stably() {
    let med = |name: &str, status: &str| {
        obj(vec![
            ("resourceType", s("MedicationStatement")),
            ("medicationCodeableConcept", coded(name)),
            ("status", s(status)),
        ])
    };
    let b = bundle(vec![
        med("A", "completed"),
        med("B", "active"),
        med("C", "on-hold"),
        med("D", "intended"),
        med("E", "stopped"),
    ]);
    let snap = summarize(&b);
    let labels: Vec<&str> = snap.critical.medications.iter().map(|m| m.label.as_str()).collect();
    assert_eq!(
        labels,
        vec!["Medication: B", "Medication: D", "Medication: C", "Medication: E", "Medication: A"]
    );
    assert_eq!(snap.critical.medications[3].detail.as_deref(), Some("Status stopped."));
}

#[test]
fn medication_detail_phrases() {
    let med = obj(vec![
        ("resourceType", s("MedicationRequest")),
        ("id", s("m1")),
        ("medicationReference", obj(vec![("display", s("Heparin"))])),
        ("status", s("active")),
        ("reasonCode", arr(vec![coded("DVT prophylaxis")])),
        (
            "dosage",
            arr(vec![obj(vec![
                ("text", s("  5000 units SC q12h.. ")),
                ("route", coded("Subcutaneous")),
                ("rateQuantity", obj(vec![("value", n("2.50")), ("unit", s("mL/h"))])),
            ])]),
        ),
        ("authoredOn", s("2024-01-01T08:00:00Z")),
    ]);
    let snap = summarize(&bundle(vec![med]));
    let item = &snap.critical.medications[0];
    assert_eq!(item.label, "Medication: Heparin");
    assert_eq!(item.severity, Severity::High);
    assert_eq!(
        item.detail.as_deref(),
        Some("Active medication. Indication: DVT prophylaxis. 5000 units SC q12h. Administer via Subcutaneous. Rate 2.5 mL/h.")
    );
    assert_eq!(snap.events[0].title, "Heparin");
    assert_eq!(snap.events[0].category, EventCategory::Medication);
    let unnamed = obj(vec![("resourceType", s("MedicationStatement"))]);
    let snap = summarize(&bundle(vec![unnamed]));
    assert_eq!(snap.critical.medications[0].label, "Medication: Medication not specified");
    assert_eq!(snap.critical.medications[0].detail.as_deref(), Some("Status unknown."));
    assert_eq!(snap.critical.medications[0].severity, Severity::Moderate);
}

#[test]
fn rerun_gives_same_snapshot() {
    let b = bundle(vec![
        observation("hr1", "Heart rate", "130", "bpm", "2024-01-01T10:00:00Z"),
        obj(vec![("resourceType", s("Encounter")), ("period", obj(vec![("start", s("2024-01-01T09:00:00Z"))]))]),
    ]);
    let one = summarize(&b);
    let two = summarize(&b);
    assert_eq!(one.critical, two.critical);
    assert_eq!(one.events, two.events);
}

#[test]
fn patient_alert_with_age_and_gender() {
    let patient = |birth: &str| {
        obj(vec![
            ("resourceType", s("Patient")),
            (
                "name",
                arr(vec![obj(vec![
                    ("given", arr(vec![s("Lan")])),
                    ("family", s("Nguyen")),
                ])]),
            ),
            ("birthDate", s(birth)),
            ("gender", s("female")),
        ])
    };
    let cfg = TimelineConfig::default();
    let snap = summarize_bundle_at(&bundle(vec![patient("2000-06-16")]), &cfg, NOW).unwrap();
    assert_eq!(snap.generated_at, NOW);
    assert_eq!(snap.critical.alerts[0].label, "Patient: Lan Nguyen");
    assert_eq!(snap.critical.alerts[0].detail.as_deref(), Some("Age 23 | Female"));
    assert_eq!(snap.critical.alerts[0].severity, Severity::Info);
    let snap = summarize_bundle_at(&bundle(vec![patient("2000-06-15")]), &cfg, NOW).unwrap();
    assert_eq!(snap.critical.alerts[0].detail.as_deref(), Some("Age 24 | Female"));
    let unnamed = obj(vec![("resourceType", s("Patient")), ("gender", s("other"))]);
    let snap = summarize_bundle_at(&bundle(vec![unnamed]), &cfg, NOW).unwrap();
    assert!(snap.critical.alerts.is_empty());
}

#[test]
fn code_status_keeps_latest() {
    let cs = |id: &str, value: &str, at: &str| {
        obj(vec![
            ("resourceType", s("Observation")),
            ("id", s(id)),
            ("code", coded("Code Status")),
            ("valueString", s(value)),
            ("effectiveDateTime", s(at)),
        ])
    };
    let snap = summarize(&bundle(vec![
        cs("x", "DNR", "2024-01-02T00:00:00Z"),
        cs("y", "Full code", "2024-01-01T00:00:00Z"),
    ]));
    assert_eq!(snap.critical.code_status.as_deref(), Some("DNR"));
    assert_eq!(snap.events.len(), 2);
    assert!(snap.events.iter().all(|e| e.severity == Severity::Critical));
    assert!(snap.events.iter().all(|e| e.detail.as_deref() == Some("DNR")));
}

#[test]
fn diagnostics_latest_per_name() {
    let lab = |value: &str, at: &str| {
        obj(vec![
            ("resourceType", s("Observation")),
            ("code", coded("Troponin I")),
            ("valueQuantity", obj(vec![("value", n(value)), ("unit", s("ng/L"))])),
            ("effectiveDateTime", s(at)),
        ])
    };
    let snap = summarize(&bundle(vec![lab("12", "2024-01-01T01:00:00Z"), lab("30", "2024-01-01T03:00:00Z")]));
    let d = &snap.critical.recent_diagnostics;
    assert_eq!(d.len(), 1);
    assert_eq!(d[0].value, "30 ng/L");
    assert_eq!(d[0].kind, DiagnosticKind::Lab);
    assert_eq!(d[0].unit.as_deref(), Some("ng/L"));
}

#[test]
fn diagnostic_kinds() {
    let none = obj(vec![]);
    assert_eq!(guess_diagnostic_kind("Chest CT scan", &none), Some(DiagnosticKind::Imaging));
    assert_eq!(guess_diagnostic_kind("Serum sodium", &none), Some(DiagnosticKind::Lab));
    assert_eq!(guess_diagnostic_kind("Weight", &none), None);
    let vital_cat = obj(vec![("category", arr(vec![obj(vec![(
        "coding",
        arr(vec![obj(vec![("code", s("vital-signs"))])]),
    )])]))]);
    assert_eq!(guess_diagnostic_kind("Glucose", &vital_cat), None);
    let lab_cat = obj(vec![("category", arr(vec![coded("Laboratory")]))]);
    assert_eq!(guess_diagnostic_kind("Weight", &lab_cat), Some(DiagnosticKind::Lab));
    let toks: Vec<String> = tokenize("Chest-CT, w/ contrast").iter().map(|t| t.iter().collect()).collect();
    assert_eq!(toks, vec!["chest", "ct", "w", "contrast"]);
}

#[test]
fn vital_labels() {
    assert_eq!(infer_vital_label("Oxygen saturation in Arterial blood"), Some("SpO2"));
    assert_eq!(infer_vital_label("PULSE"), Some("Heart rate"));
    assert_eq!(infer_vital_label("Body temperature"), Some("Temperature"));
    assert_eq!(infer_vital_label("Glucose"), None);
}

#[test]
fn condition_severity_keywords() {
    assert_eq!(map_condition_severity("SEPSIS"), Severity::Critical);
    assert_eq!(map_condition_severity("Acute Respiratory Failure"), Severity::Critical);
    assert_eq!(map_condition_severity("Pulmonary embolism"), Severity::High);
    assert_eq!(map_condition_severity("Asthma"), Severity::Moderate);
}

#[test]
fn decimals_read_and_written() {
    let show = |t: &str| parse_decimal(t).map(|d| format_decimal(&d));
    assert_eq!(show("145"), Some("145".to_string()));
    assert_eq!(show("145.0"), Some("145".to_string()));
    assert_eq!(show("98.60"), Some("98.6".to_string()));
    assert_eq!(show("-2.50"), Some("-2.5".to_string()));
    assert_eq!(show("1e-7"), Some("0.0000001".to_string()));
    assert_eq!(show("1.5E3"), Some("1500".to_string()));
    assert_eq!(show("0.25"), Some("0.25".to_string()));
    assert_eq!(show(".5"), Some("0.5".to_string()));
    assert_eq!(show("5."), Some("5".to_string()));
    assert_eq!(show(""), None);
    assert_eq!(show("-"), None);
    assert_eq!(show("1.2.3"), None);
    assert_eq!(show("abc"), None);
    assert_eq!(parse_decimal("0.000"), Some(Decimal { mantissa: 0, scale: 0 }));
    assert_eq!(parse_decimal("36.60"), Some(Decimal { mantissa: 366, scale: 1 }));
}

#[test]
fn numbers_read_from_detail() {
    assert_eq!(numeric_from_detail("38.2C fever"), Some(Decimal { mantissa: 382, scale: 1 }));
    assert_eq!(numeric_from_detail("  -3 units"), Some(Decimal { mantissa: -3, scale: 0 }));
    assert_eq!(numeric_from_detail("high"), None);
    assert_eq!(numeric_from_detail(""), None);
}

#[test]
fn capitalizes_first_letter() {
    assert_eq!(capitalize_first("food"), "Food");
    assert_eq!(capitalize_first("élan"), "Élan");
    assert_eq!(capitalize_first(""), "");
}

#[test]
fn encounter_and_document_events() {
    let enc = obj(vec![
        ("resourceType", s("Encounter")),
        ("id", s("e1")),
        ("type", arr(vec![coded("Emergency visit")])),
        ("reasonCode", arr(vec![coded("Chest pain")])),
        ("period", obj(vec![("start", s("2024-01-01T09:00:00Z")), ("end", s("2024-01-01T11:00:00Z"))])),
    ]);
    let doc = obj(vec![
        ("resourceType", s("Composition")),
        ("description", s("Discharge summary")),
        ("content", arr(vec![obj(vec![("attachment", obj(vec![("title", s("summary.pdf"))]))])])),
        ("date", s("2024-01-01T12:00:00Z")),
    ]);
    let proc_ = obj(vec![
        ("resourceType", s("Procedure")),
        ("status", s("completed")),
        ("performedDateTime", s("2024-01-01T10:00:00Z")),
    ]);
    let snap = summarize(&bundle(vec![doc, enc, proc_, obj(vec![("resourceType", s("Unknown"))])]));
    assert_eq!(snap.events.len(), 3);
    let e = &snap.events[0];
    assert_eq!(e.title, "Procedure");
    assert_eq!(e.detail.as_deref(), Some("completed"));
    assert_eq!(e.severity, Severity::Moderate);
    assert!(e.source.is_none());
    let e = &snap.events[1];
    assert_eq!(e.title, "Encounter: Emergency visit");
    assert_eq!(e.detail.as_deref(), Some("Chest pain"));
    assert_eq!(e.occurred_at, Some(Timestamp { seconds: 1_704_106_800, nanos: 0 }));
    assert_eq!(e.severity, Severity::Info);
    let e = &snap.events[2];
    assert_eq!(e.title, "Discharge summary");
    assert_eq!(e.id, "document-unknown");
    assert_eq!(e.detail.as_deref(), Some("summary.pdf"));
    assert_eq!(e.category, EventCategory::Document);
    assert_eq!(e.severity, Severity::Low);
}

#[test]
fn coded_text_fallbacks() {
    let code = obj(vec![
        ("text", s("   ")),
        (
            "coding",
            arr(vec![obj(vec![("code", s(" 1234 "))]), obj(vec![("display", s(" Sepsis "))])]),
        ),
    ]);
    let cond = obj(vec![("resourceType", s("Condition")), ("code", code)]);
    let snap = summarize(&bundle(vec![cond]));
    assert_eq!(snap.critical.chronic_conditions[0].label, "Chronic condition: Sepsis");
}

#[test]
fn empty_snapshot_is_empty() {
    let e = empty_snapshot();
    assert!(e.events.is_empty());
    assert!(e.critical.allergies.is_empty());
    assert!(e.critical.code_status.is_none());
    assert!(e.timeline().is_empty());
    assert!(e.critical_panel().alerts.is_empty());
}

#[test]
fn empty_bundle_gives_empty_snapshot() {
    let snap = summarize(&bundle(vec![]));
    assert!(snap.events.is_empty());
    assert!(snap.critical.recent_vitals.is_empty());
    assert!(snap.critical.alerts.is_empty());
    assert!(snap.critical.code_status.is_none());
}

#[test]
fn entries_without_records_are_skipped() {
    let b = obj(vec![
        ("resourceType", s("Bundle")),
        (
            "entry",
            arr(vec![
                obj(vec![("fullUrl", s("urn:x"))]),
                s("not an object"),
                obj(vec![("resource", observation("k", "Heart rate", "72", "bpm", "2024-01-01T00:00:00Z"))]),
            ]),
        ),
    ]);
    let snap = summarize(&b);
    assert_eq!(snap.events.len(), 1);
    assert_eq!(snap.events[0].id, "k");
}

#[test]
fn equal_instants_keep_bundle_order() {
    let at = "2024-01-01T00:00:00Z";
    let b = bundle(vec![
        observation("first", "Weight", "1", "kg", at),
        observation("second", "Weight", "2", "kg", at),
        observation("third", "Weight", "3", "kg", at),
    ]);
    let snap = summarize(&b);
    let ids: Vec<&str> = snap.events.iter().map(|e| e.id.as_str()).collect();
    assert_eq!(ids, vec!["first", "second", "third"]);
}

#[test]
fn trend_keeps_first_unit() {
    let plain = obj(vec![
        ("resourceType", s("Observation")),
        ("code", coded("Temperature")),
        ("valueQuantity", obj(vec![("value", n("37"))])),
        ("effectiveDateTime", s("2024-01-01T00:00:00Z")),
    ]);
    let b = bundle(vec![
        plain,
        observation("t2", "Temperature", "38.5", "Cel", "2024-01-01T01:00:00Z"),
        observation("t3", "Temperature", "101", "degF", "2024-01-01T02:00:00Z"),
    ]);
    let snap = summarize(&b);
    let t = &snap.critical.vital_trends[0];
    assert_eq!(t.unit.as_deref(), Some("Cel"));
    assert_eq!(t.points.len(), 3);
    assert_eq!(t.points[1].value, Some(Decimal { mantissa: 385, scale: 1 }));
    let v = &snap.critical.recent_vitals[0];
    assert_eq!(v.value, "101 degF");
}

#[test]
fn held_vital_gains_missing_unit() {
    let later_plain = obj(vec![
        ("resourceType", s("Observation")),
        ("code", coded("Heart rate")),
        ("valueString", s("fast")),
        ("effectiveDateTime", s("2024-01-01T02:00:00Z")),
    ]);
    let b = bundle(vec![
        later_plain,
        observation("early", "Heart rate", "88", "bpm", "2024-01-01T01:00:00Z"),
    ]);
    let snap = summarize(&b);
    let v = &snap.critical.recent_vitals[0];
    assert_eq!(v.value, "fast");
    assert_eq!(v.unit.as_deref(), Some("bpm"));
    assert_eq!(v.numeric_value, Some(Decimal { mantissa: 88, scale: 0 }));
}

#[test]
fn imaging_by_category() {
    let img = obj(vec![
        ("resourceType", s("Observation")),
        ("code", coded("Chest film")),
        ("category", arr(vec![obj(vec![("coding", arr(vec![obj(vec![("display", s("Radiology"))])]))])])),
        ("valueString", s("No acute findings")),
        ("issued", s("2024-01-01T05:00:00Z")),
    ]);
    let snap = summarize(&bundle(vec![img]));
    let d = &snap.critical.recent_diagnostics[0];
    assert_eq!(d.kind, DiagnosticKind::Imaging);
    assert_eq!(d.value, "No acute findings");
    assert_eq!(d.severity, Severity::Info);
    assert_eq!(d.unit.as_deref(), Some("acute"));
}
