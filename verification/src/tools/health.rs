//! The Agnes API health check of the CLI `health` command: the probe
//! request, the check result, and the report.

use vstd::prelude::*;

use crate::json::{Json, JsonValue};
use crate::text::{decimal, owned, push_decimal, push_str};

verus! {

/// How the probe request ended.
#[derive(Debug, Clone)]
pub enum ProbeOutcome {
    /// The API answered the probe.
    Reachable,
    /// The probe failed; the text of the error.
    Failed(String),
    /// The probe did not finish in time.
    TimedOut,
}

/// Result of the Agnes API health check.
#[derive(Debug, Clone)]
pub struct HealthCheck {
    pub name: String,
    pub status: String,
    pub duration_ms: Option<u64>,
    pub message: Option<String>,
    pub error: Option<String>,
}

/// The message of a reachable API.
pub const REACHABLE_MESSAGE: &'static str = "Agnes API reachable and authenticated";

/// The error of a probe that timed out.
pub const TIMED_OUT_MESSAGE: &'static str = "Agnes API check timed out (20s)";

/// The probe request: a one-token chat completion.
pub open spec fn probe_body(model: Seq<char>) -> Json {
    Json::Obj(
        seq![
            ("model"@, Json::Str(model)),
            (
                "messages"@,
                Json::Arr(
                    seq![Json::Obj(seq![("role"@, Json::Str("user"@)), ("content"@, Json::Str("ping"@))])],
                ),
            ),
            ("max_tokens"@, Json::Num(decimal(1))),
        ],
    )
}

/// The body of the probe request for the chat model `model`.
pub fn health_probe_body(model: &str) -> (r: JsonValue)
    ensures
        r@ == probe_body(model@),
{
    let mut msg = crate::json::no_entries();
    crate::json::push_entry(&mut msg, "role", crate::json::string_value("user"));
    crate::json::push_entry(&mut msg, "content", crate::json::string_value("ping"));
    let ghost mv = crate::json::entries_view(msg@);
    assert(mv =~= seq![("role"@, Json::Str("user"@)), ("content"@, Json::Str("ping"@))]);
    let mut items: Vec<JsonValue> = Vec::new();
    assert(crate::json::items_view(items@) =~= Seq::<Json>::empty());
    crate::json::push_item(&mut items, JsonValue::Object(msg));
    let ghost iv = crate::json::items_view(items@);
    assert(iv =~= seq![Json::Obj(mv)]);
    let mut es = crate::json::no_entries();
    crate::json::push_entry(&mut es, "model", crate::json::string_value(model));
    crate::json::push_entry(&mut es, "messages", JsonValue::Array(items));
    crate::json::push_entry(&mut es, "max_tokens", crate::json::number_u64(1));
    assert(crate::json::entries_view(es@) =~= seq![
        ("model"@, Json::Str(model@)),
        ("messages"@, Json::Arr(iv)),
        ("max_tokens"@, Json::Num(decimal(1))),
    ]);
    JsonValue::Object(es)
}

impl HealthCheck {
    /// The check of a probe that ended with `outcome` after `duration_ms`.
    pub fn from_outcome(outcome: ProbeOutcome, duration_ms: u64) -> (r: Self)
        ensures
            r.name@ == "agnes"@,
            r.duration_ms == Some(duration_ms),
            match outcome {
                ProbeOutcome::Reachable => r.status@ == "healthy"@ && (r.message matches Some(
                    m,
                ) && m@ == REACHABLE_MESSAGE@) && r.error is None,
                ProbeOutcome::Failed(e) => r.status@ == "unhealthy"@ && r.message is None && (
                r.error matches Some(x) && x@ == e@),
                ProbeOutcome::TimedOut => r.status@ == "unhealthy"@ && r.message is None && (
                r.error matches Some(x) && x@ == TIMED_OUT_MESSAGE@),
            },
    {
        match outcome {
            ProbeOutcome::Reachable => HealthCheck {
                name: owned("agnes"),
                status: owned("healthy"),
                duration_ms: Some(duration_ms),
                message: Some(owned(REACHABLE_MESSAGE)),
                error: None,
            },
            ProbeOutcome::Failed(e) => HealthCheck {
                name: owned("agnes"),
                status: owned("unhealthy"),
                duration_ms: Some(duration_ms),
                message: None,
                error: Some(e),
            },
            ProbeOutcome::TimedOut => HealthCheck {
                name: owned("agnes"),
                status: owned("unhealthy"),
                duration_ms: Some(duration_ms),
                message: None,
                error: Some(owned(TIMED_OUT_MESSAGE)),
            },
        }
    }
}

/// The overall status of a check: healthy when the check is.
pub open spec fn overall(check: HealthCheck) -> Seq<char> {
    if check.status@ == "healthy"@ {
        "healthy"@
    } else {
        "unhealthy"@
    }
}

/// The text report of a check taken at `timestamp`; `details` is the
/// verbose JSON document, when asked for.
pub open spec fn report_text(check: HealthCheck, timestamp: Seq<char>, details: Option<Seq<char>>) -> Seq<char> {
    "Status: "@ + overall(check) + "\nTimestamp: "@ + timestamp + "\n\nCheck Results:\n- agnes: "@
        + check.status@ + (match check.duration_ms {
        Some(d) => " ("@ + decimal(d as nat) + "ms)"@,
        None => Seq::<char>::empty(),
    }) + (match check.message {
        Some(m) => " - "@ + m@,
        None => Seq::<char>::empty(),
    }) + (match check.error {
        Some(e) => " [Error: "@ + e@ + "]"@,
        None => Seq::<char>::empty(),
    }) + "\n"@ + match details {
        Some(d) => "\n"@ + d,
        None => Seq::<char>::empty(),
    }
}

/// The overall status of a check.
pub fn overall_status(check: &HealthCheck) -> (r: &'static str)
    ensures
        r@ == overall(*check),
{
    if crate::text::str_eq(check.status.as_str(), "healthy") {
        "healthy"
    } else {
        "unhealthy"
    }
}

/// The text report of a check.
pub fn health_report(check: &HealthCheck, timestamp: &str, details: Option<&str>) -> (r: String)
    ensures
        r@ == report_text(
            *check,
            timestamp@,
            match details {
                Some(d) => Some(d@),
                None => None,
            },
        ),
{
    let mut out = owned("Status: ");
    push_str(&mut out, overall_status(check));
    push_str(&mut out, "\nTimestamp: ");
    push_str(&mut out, timestamp);
    push_str(&mut out, "\n\nCheck Results:\n- agnes: ");
    push_str(&mut out, check.status.as_str());
    match check.duration_ms {
        Some(d) => {
            push_str(&mut out, " (");
            push_decimal(&mut out, d);
            push_str(&mut out, "ms)");
        },
        None => {},
    }
    match &check.message {
        Some(m) => {
            push_str(&mut out, " - ");
            push_str(&mut out, m.as_str());
        },
        None => {},
    }
    match &check.error {
        Some(e) => {
            push_str(&mut out, " [Error: ");
            push_str(&mut out, e.as_str());
            push_str(&mut out, "]");
        },
        None => {},
    }
    push_str(&mut out, "\n");
    match details {
        Some(d) => {
            push_str(&mut out, "\n");
            push_str(&mut out, d);
        },
        None => {},
    }
    out
}

/// The JSON of an optional string: the string, or null.
pub open spec fn opt_str_json(o: Option<String>) -> Json {
    match o {
        Some(s) => Json::Str(s@),
        None => Json::Null,
    }
}

/// The JSON of a check: its fields in order, absent ones as null.
pub open spec fn check_json(c: HealthCheck) -> Json {
    Json::Obj(
        seq![
            ("name"@, Json::Str(c.name@)),
            ("status"@, Json::Str(c.status@)),
            (
                "duration_ms"@,
                match c.duration_ms {
                    Some(d) => Json::Num(decimal(d as nat)),
                    None => Json::Null,
                },
            ),
            ("message"@, opt_str_json(c.message)),
            ("error"@, opt_str_json(c.error)),
        ],
    )
}

fn opt_str_value(o: &Option<String>) -> (r: JsonValue)
    ensures
        r@ == opt_str_json(*o),
{
    match o {
        Some(s) => crate::json::string_value(s.as_str()),
        None => JsonValue::Null,
    }
}

/// The verbose JSON document of a check taken at `timestamp`:
/// `{"status", "timestamp", "checks": [check]}`.
pub fn verbose_json(check: &HealthCheck, timestamp: &str) -> (r: JsonValue)
    ensures
        r@ == Json::Obj(
            seq![
                ("status"@, Json::Str(overall(*check))),
                ("timestamp"@, Json::Str(timestamp@)),
                ("checks"@, Json::Arr(seq![check_json(*check)])),
            ],
        ),
{
    let mut c = crate::json::no_entries();
    crate::json::push_entry(&mut c, "name", crate::json::string_value(check.name.as_str()));
    crate::json::push_entry(&mut c, "status", crate::json::string_value(check.status.as_str()));
    let d = match check.duration_ms {
        Some(d) => crate::json::number_u64(d),
        None => JsonValue::Null,
    };
    crate::json::push_entry(&mut c, "duration_ms", d);
    crate::json::push_entry(&mut c, "message", opt_str_value(&check.message));
    crate::json::push_entry(&mut c, "error", opt_str_value(&check.error));
    let ghost cv = crate::json::entries_view(c@);
    assert(Json::Obj(cv) == check_json(*check)) by {
        assert(cv =~= check_json(*check)->Obj_0);
    }
    let mut items: Vec<JsonValue> = Vec::new();
    assert(crate::json::items_view(items@) =~= Seq::<Json>::empty());
    crate::json::push_item(&mut items, JsonValue::Object(c));
    let ghost iv = crate::json::items_view(items@);
    assert(iv =~= seq![check_json(*check)]);
    let mut es = crate::json::no_entries();
    crate::json::push_entry(&mut es, "status", crate::json::string_value(overall_status(check)));
    crate::json::push_entry(&mut es, "timestamp", crate::json::string_value(timestamp));
    crate::json::push_entry(&mut es, "checks", JsonValue::Array(items));
    assert(crate::json::entries_view(es@) =~= seq![
        ("status"@, Json::Str(overall(*check))),
        ("timestamp"@, Json::Str(timestamp@)),
        ("checks"@, Json::Arr(iv)),
    ]);
    JsonValue::Object(es)
}

} // verus!
