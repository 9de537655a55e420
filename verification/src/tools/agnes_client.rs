//! The Agnes AI API client: key pool, retry decisions, and response reading.
//!
//! The client holds a round-robin pool of API keys with per-key cooldowns and
//! a table binding each video task to the key that created it. Requests are
//! driven by a [`RetryRun`]: the caller performs each HTTP request the run
//! asks for and reports the outcome, and the run decides what comes next.
//!
//! Video task affinity: Agnes ties each video `task_id` to the API key that
//! created it (querying with a different key is treated as a possible key
//! leak). The client records `task_id -> key_idx` on creation and reuses the
//! same key for every subsequent status query.
//!
//! Multi-key retry & cooldown: when an API key returns HTTP 429 (rate
//! limited) or 401/403 (auth failure), it is cooled down for a configurable
//! duration and the request is retried on the next healthy key. Video task
//! queries are pinned to the creating key and never retried on a different key.

use vstd::prelude::*;

use crate::json::{as_str, get, get_str, json_text, Json, JsonValue};
use crate::text::{has_prefix, lower, owned, push_string, starts_with, str_eq, to_lower};
use vstd::string::StringSliceAdditionalSpecFns;

verus! {

// ---------------------------------------------------------------------------
// Reading responses
// ---------------------------------------------------------------------------

/// Whether `s` is an http(s) URL.
pub open spec fn is_http_url(s: Seq<char>) -> bool {
    has_prefix(s, "http://"@) || has_prefix(s, "https://"@)
}

/// Whether `s` is an http(s) URL (`starts_with` on both schemes).
pub fn is_http(s: &str) -> (r: bool)
    ensures
        r == is_http_url(s@),
{
    starts_with(s, "http://") || starts_with(s, "https://")
}

/// The human-readable message of an Agnes/OpenAI-style error object, or
/// `None` when there is no error (including `"error": null`).
pub open spec fn error_message_of(v: JsonValue) -> Option<Seq<char>> {
    match v {
        JsonValue::Object(_) => match get(v, "error"@) {
            Some(err) => if err is Null {
                None
            } else if get_str(err, "message"@) is Some {
                get_str(err, "message"@)
            } else if get_str(err, "type"@) is Some {
                get_str(err, "type"@)
            } else if as_str(err) is Some {
                as_str(err)
            } else {
                Some(json_text(err))
            },
            None => get_str(v, "message"@),
        },
        _ => None,
    }
}

/// Extract a human-readable message from an Agnes/OpenAI-style error object.
///
/// Returns `None` when there is no error, including the common case where the
/// Agnes API includes an `"error": null` field in successful responses.
pub fn extract_error_message(value: &JsonValue) -> (r: Option<String>)
    ensures
        r matches Some(m) ==> error_message_of(*value) == Some(m@),
        r is None ==> error_message_of(*value) is None,
{
    match value {
        JsonValue::Object(_) => {},
        _ => return None,
    }
    if let Some(err) = value.get("error") {
        if err.is_null() {
            return None;
        }
        if let Some(m) = err.get_str("message") {
            return Some(owned(m));
        }
        if let Some(m) = err.get_str("type") {
            return Some(owned(m));
        }
        if let Some(s) = err.as_str() {
            return Some(owned(s));
        }
        return Some(crate::json::to_json_text(err));
    }
    match value.get_str("message") {
        Some(m) => Some(owned(m)),
        None => None,
    }
}

/// The assistant text of an OpenAI-style chat completion response.
pub open spec fn chat_text_of(r: JsonValue) -> Option<Seq<char>> {
    match get(r, "choices"@) {
        Some(JsonValue::Array(a)) => if a@.len() > 0 {
            match get(a@[0], "message"@) {
                Some(msg) => if get_str(msg, "content"@) is Some {
                    get_str(msg, "content"@)
                } else {
                    get_str(a@[0], "text"@)
                },
                None => None,
            }
        } else {
            None
        },
        _ => None,
    }
}

/// Extract the assistant text from an OpenAI-style chat completion response.
///
/// Returns `None` if the response shape is unexpected.
pub fn extract_chat_text(response: &JsonValue) -> (r: Option<String>)
    ensures
        r matches Some(t) ==> chat_text_of(*response) == Some(t@),
        r is None ==> chat_text_of(*response) is None,
{
    let choices = match response.get("choices") {
        Some(c) => c,
        None => return None,
    };
    let first = match choices {
        JsonValue::Array(a) => {
            if a.len() == 0 {
                return None;
            }
            &a[0]
        },
        _ => return None,
    };
    let message = match first.get("message") {
        Some(m) => m,
        None => return None,
    };
    if let Some(content) = message.get_str("content") {
        return Some(owned(content));
    }
    match first.get_str("text") {
        Some(t) => Some(owned(t)),
        None => None,
    }
}

/// Whether an object entry is a URL entry: key `url` or `image_url` holding
/// an http(s) string.
pub open spec fn is_url_entry(key: Seq<char>, v: JsonValue) -> bool {
    (key == "url"@ || key == "image_url"@) && (as_str(v) matches Some(s) && is_http_url(s))
}

/// All http(s) URLs under `url`/`image_url` keys in a JSON value, in
/// document order.
pub open spec fn urls_of(v: JsonValue) -> Seq<Seq<char>>
    decreases v,
{
    match v {
        JsonValue::Object(m) => entry_urls(m@),
        JsonValue::Array(a) => item_urls(a@),
        _ => Seq::<Seq<char>>::empty(),
    }
}

/// The URLs found in object entries, in order.
pub open spec fn entry_urls(entries: Seq<(String, JsonValue)>) -> Seq<Seq<char>>
    decreases entries,
{
    if entries.len() == 0 {
        Seq::<Seq<char>>::empty()
    } else {
        let e = entries.last();
        entry_urls(entries.drop_last()) + if is_url_entry(e.0@, e.1) {
            seq![as_str(e.1)->0]
        } else {
            urls_of(e.1)
        }
    }
}

/// The URLs found in array items, in order.
pub open spec fn item_urls(items: Seq<JsonValue>) -> Seq<Seq<char>>
    decreases items,
{
    if items.len() == 0 {
        Seq::<Seq<char>>::empty()
    } else {
        item_urls(items.drop_last()) + urls_of(items.last())
    }
}

fn collect_urls_inner(value: &JsonValue, urls: &mut Vec<String>)
    ensures
        final(urls).deep_view() == old(urls).deep_view() + urls_of(*value),
    decreases value,
{
    let ghost before = urls.deep_view();
    match value {
        JsonValue::Object(map) => {
            let mut i: usize = 0;
            while i < map.len()
                invariant
                    0 <= i <= map@.len(),
                    *value == JsonValue::Object(*map),
                    urls.deep_view() == before + entry_urls(map@.subrange(0, i as int)),
                decreases map@.len() - i,
            {
                let key = map[i].0.as_str();
                let val = &map[i].1;
                let is_url_key = str_eq(key, "url") || str_eq(key, "image_url");
                let ghost next = map@.subrange(0, i + 1 as int);
                assert(next.drop_last() =~= map@.subrange(0, i as int));
                assert(next.last() == map@[i as int]);
                let s = val.as_str();
                if is_url_key && s.is_some() && is_http(s.unwrap()) {
                    push_string(urls, owned(s.unwrap()));
                } else {
                    assert(decreases_to!(*value => (*value)->Object_0));
                    assert(decreases_to!(*map => map@));
                    assert(decreases_to!(map@ => map@[i as int]));
                    assert(decreases_to!(map@[i as int] => map@[i as int].1));
                    collect_urls_inner(val, urls);
                }
                i = i + 1;
                assert(urls.deep_view() =~= before + entry_urls(map@.subrange(0, i as int)));
            }
            assert(map@.subrange(0, map@.len() as int) =~= map@);
        },
        JsonValue::Array(arr) => {
            let mut i: usize = 0;
            while i < arr.len()
                invariant
                    0 <= i <= arr@.len(),
                    *value == JsonValue::Array(*arr),
                    urls.deep_view() == before + item_urls(arr@.subrange(0, i as int)),
                decreases arr@.len() - i,
            {
                let ghost next = arr@.subrange(0, i + 1 as int);
                assert(next.drop_last() =~= arr@.subrange(0, i as int));
                assert(decreases_to!(*value => (*value)->Array_0));
                assert(decreases_to!(*arr => arr@));
                assert(decreases_to!(arr@ => arr@[i as int]));
                collect_urls_inner(&arr[i], urls);
                i = i + 1;
                assert(urls.deep_view() =~= before + item_urls(arr@.subrange(0, i as int)));
            }
            assert(arr@.subrange(0, arr@.len() as int) =~= arr@);
        },
        _ => {
            assert(urls.deep_view() =~= before + urls_of(*value));
        },
    }
}

/// Recursively collect all `http(s)://` URLs found under `url`/`image_url`
/// keys in a JSON value.
pub fn collect_urls(value: &JsonValue) -> (r: Vec<String>)
    ensures
        r.deep_view() == urls_of(*value),
{
    let mut urls: Vec<String> = Vec::new();
    collect_urls_inner(value, &mut urls);
    assert(urls.deep_view() =~= urls_of(*value));
    urls
}

/// Status of an asynchronous video task.
#[derive(Debug, Clone, Copy, PartialEq, Eq, Structural)]
pub enum TaskStatus {
    /// Still running (queued / in_progress / processing / submitted / pending).
    Running,
    /// Completed successfully.
    Done,
    /// Failed / cancelled / errored.
    Failed,
    /// Unknown status string.
    Unknown,
}

/// The classification of a raw status string (compared ASCII
/// case-insensitively).
pub open spec fn classify(s: Seq<char>) -> TaskStatus {
    let l = lower(s);
    if l == "queued"@ || l == "in_progress"@ || l == "processing"@ || l == "submitted"@ || l
        == "pending"@ {
        TaskStatus::Running
    } else if l == "completed"@ || l == "succeeded"@ || l == "success"@ {
        TaskStatus::Done
    } else if l == "failed"@ || l == "cancelled"@ || l == "canceled"@ || l == "error"@ {
        TaskStatus::Failed
    } else {
        TaskStatus::Unknown
    }
}

impl TaskStatus {
    /// Classify a raw status string into a [`TaskStatus`].
    pub fn classify(status: &str) -> (r: Self)
        ensures
            r == classify(status@),
    {
        let l = to_lower(status);
        let l = l.as_str();
        if str_eq(l, "queued") || str_eq(l, "in_progress") || str_eq(l, "processing") || str_eq(
            l,
            "submitted",
        ) || str_eq(l, "pending") {
            TaskStatus::Running
        } else if str_eq(l, "completed") || str_eq(l, "succeeded") || str_eq(l, "success") {
            TaskStatus::Done
        } else if str_eq(l, "failed") || str_eq(l, "cancelled") || str_eq(l, "canceled")
            || str_eq(l, "error") {
            TaskStatus::Failed
        } else {
            TaskStatus::Unknown
        }
    }

    /// The label of this status in task summaries.
    pub fn label(&self) -> (r: &'static str)
        ensures
            r@ == status_label(*self),
    {
        match self {
            TaskStatus::Running => "running",
            TaskStatus::Done => "completed",
            TaskStatus::Failed => "failed",
            TaskStatus::Unknown => "unknown",
        }
    }
}

/// The label of a status in task summaries.
pub open spec fn status_label(s: TaskStatus) -> Seq<char> {
    match s {
        TaskStatus::Running => "running"@,
        TaskStatus::Done => "completed"@,
        TaskStatus::Failed => "failed"@,
        TaskStatus::Unknown => "unknown"@,
    }
}

/// The task id of a video creation or status response.
pub open spec fn task_id_of(r: JsonValue) -> Option<Seq<char>> {
    if get_str(r, "id"@) is Some {
        get_str(r, "id"@)
    } else if get_str(r, "task_id"@) is Some {
        get_str(r, "task_id"@)
    } else {
        match get(r, "data"@) {
            Some(d) => if get_str(d, "id"@) is Some {
                get_str(d, "id"@)
            } else {
                get_str(d, "task_id"@)
            },
            None => None,
        }
    }
}

/// Extract a task id from a video creation or status response.
pub fn extract_task_id(response: &JsonValue) -> (r: Option<String>)
    ensures
        r matches Some(t) ==> task_id_of(*response) == Some(t@),
        r is None ==> task_id_of(*response) is None,
{
    if let Some(id) = response.get_str("id") {
        return Some(owned(id));
    }
    if let Some(id) = response.get_str("task_id") {
        return Some(owned(id));
    }
    match response.get("data") {
        Some(d) => {
            if let Some(id) = d.get_str("id") {
                return Some(owned(id));
            }
            match d.get_str("task_id") {
                Some(id) => Some(owned(id)),
                None => None,
            }
        },
        None => None,
    }
}

/// The raw status string of a video task response.
pub open spec fn raw_status_of(r: JsonValue) -> Option<Seq<char>> {
    if get_str(r, "status"@) is Some {
        get_str(r, "status"@)
    } else {
        match get(r, "data"@) {
            Some(d) => get_str(d, "status"@),
            None => None,
        }
    }
}

/// The classified status of a video task response.
pub open spec fn task_status_of(r: JsonValue) -> TaskStatus {
    match raw_status_of(r) {
        Some(s) => classify(s),
        None => TaskStatus::Unknown,
    }
}

/// Extract the classified status of a video task.
pub fn extract_task_status(response: &JsonValue) -> (r: TaskStatus)
    ensures
        r == task_status_of(*response),
{
    let raw = match response.get_str("status") {
        Some(s) => Some(s),
        None => match response.get("data") {
            Some(d) => d.get_str("status"),
            None => None,
        },
    };
    match raw {
        Some(s) => TaskStatus::classify(s),
        None => TaskStatus::Unknown,
    }
}

/// The http(s) string stored under `key`, if any.
pub open spec fn http_str(r: JsonValue, key: Seq<char>) -> Option<Seq<char>> {
    match get_str(r, key) {
        Some(s) => if is_http_url(s) {
            Some(s)
        } else {
            None
        },
        None => None,
    }
}

/// The downloadable video URL of a task response: `video_url`, `url`, or
/// `remixed_from_video_id` holding an http(s) URL, else the same under
/// `data`.
pub open spec fn video_url_of(r: JsonValue) -> Option<Seq<char>>
    decreases r,
{
    if http_str(r, "video_url"@) is Some {
        http_str(r, "video_url"@)
    } else if http_str(r, "url"@) is Some {
        http_str(r, "url"@)
    } else if http_str(r, "remixed_from_video_id"@) is Some {
        http_str(r, "remixed_from_video_id"@)
    } else {
        match r {
            JsonValue::Object(m) => {
                let p = crate::json::entry_pos(m@, "data"@);
                if 0 <= p < m@.len() {
                    proof {
                        assert(decreases_to!(r => r->Object_0));
                        assert(decreases_to!(m => m@));
                        assert(decreases_to!(m@ => m@[p]));
                        assert(decreases_to!(m@[p] => m@[p].1));
                    }
                    video_url_of(m@[p].1)
                } else {
                    None
                }
            },
            _ => None,
        }
    }
}

fn http_entry<'a>(r: &'a JsonValue, key: &str) -> (out: Option<&'a str>)
    ensures
        out matches Some(s) ==> http_str(*r, key@) == Some(s@),
        out is None ==> http_str(*r, key@) is None,
{
    match r.get_str(key) {
        Some(s) => if is_http(s) {
            Some(s)
        } else {
            None
        },
        None => None,
    }
}

/// Extract the video URL from a completed task response.
///
/// The Agnes API exposes the downloadable video under `video_url`, `url`, or
/// (observed in practice) `remixed_from_video_id` for completed tasks.
pub fn extract_video_url(response: &JsonValue) -> (r: Option<String>)
    ensures
        r matches Some(u) ==> video_url_of(*response) == Some(u@),
        r is None ==> video_url_of(*response) is None,
    decreases response,
{
    if let Some(u) = http_entry(response, "video_url") {
        return Some(owned(u));
    }
    if let Some(u) = http_entry(response, "url") {
        return Some(owned(u));
    }
    if let Some(u) = http_entry(response, "remixed_from_video_id") {
        return Some(owned(u));
    }
    match response {
        JsonValue::Object(m) => {
            let mut i: usize = 0;
            while i < m.len()
                invariant
                    0 <= i <= m@.len(),
                    *response == JsonValue::Object(*m),
                    http_str(*response, "video_url"@) is None,
                    http_str(*response, "url"@) is None,
                    http_str(*response, "remixed_from_video_id"@) is None,
                    forall|k: int| 0 <= k < i ==> m@[k].0@ != "data"@,
                decreases m@.len() - i,
            {
                if str_eq(m[i].0.as_str(), "data") {
                    proof {
                        crate::json::lemma_entry_pos(m@, "data"@);
                        let p = crate::json::entry_pos(m@, "data"@);
                        if p < i {
                            assert(m@[p].0@ != "data"@);
                        }
                        if p > i {
                            assert(m@[i as int].0@ != "data"@);
                        }
                        assert(decreases_to!(*response => (*response)->Object_0));
                        assert(decreases_to!(*m => m@));
                        assert(decreases_to!(m@ => m@[i as int]));
                        assert(decreases_to!(m@[i as int] => m@[i as int].1));
                    }
                    return extract_video_url(&m[i].1);
                }
                i = i + 1;
            }
            proof {
                crate::json::lemma_entry_pos(m@, "data"@);
            }
            None
        },
        _ => None,
    }
}

// ---------------------------------------------------------------------------
// Key pool, cooldowns and task affinity
// ---------------------------------------------------------------------------

/// Per-key health state used by the retry/cooldown layer.
///
/// `cooldown_until` is a unix timestamp in seconds; `0` means the key is
/// healthy.
pub struct KeyHealth {
    /// Unix time (seconds) until which the key is cooled down; 0 if healthy.
    pub cooldown_until: u64,
}

impl KeyHealth {
    /// Whether the key is usable at time `now`.
    pub open spec fn available_at(self, now: u64) -> bool {
        self.cooldown_until == 0 || now >= self.cooldown_until
    }

    /// Seconds of cooldown left at time `now`.
    pub open spec fn remaining_at(self, now: u64) -> nat {
        if self.cooldown_until == 0 || now >= self.cooldown_until {
            0
        } else {
            (self.cooldown_until - now) as nat
        }
    }

    /// Returns `true` when the key is usable (cooldown expired or never set).
    pub fn is_available(&self, now: u64) -> (r: bool)
        ensures
            r == self.available_at(now),
    {
        let until = self.cooldown_until;
        until == 0 || now >= until
    }

    /// Seconds remaining until the cooldown elapses, or `0` if available.
    pub fn secs_remaining(&self, now: u64) -> (r: u64)
        ensures
            r == self.remaining_at(now),
    {
        let until = self.cooldown_until;
        if until == 0 {
            return 0;
        }
        if until > now {
            until - now
        } else {
            0
        }
    }
}

/// A video task bound to the key that created it.
struct TaskKey {
    task_id: String,
    key_idx: usize,
}

/// The key bound to task `t` in a task table, if any.
spec fn table_lookup(tbl: Seq<TaskKey>, t: Seq<char>) -> Option<usize> {
    if exists|i: int| 0 <= i < tbl.len() && (#[trigger] tbl[i]).task_id@ == t {
        Some(tbl[choose|i: int| 0 <= i < tbl.len() && (#[trigger] tbl[i]).task_id@ == t].key_idx)
    } else {
        None
    }
}

/// Task ids of a table are distinct.
spec fn table_distinct(tbl: Seq<TaskKey>) -> bool {
    forall|i: int, j: int|
        0 <= i < tbl.len() && 0 <= j < tbl.len() && i != j ==> (#[trigger] tbl[i]).task_id@
            != (#[trigger] tbl[j]).task_id@
}

proof fn lemma_table_lookup_at(tbl: Seq<TaskKey>, i: int)
    requires
        table_distinct(tbl),
        0 <= i < tbl.len(),
    ensures
        table_lookup(tbl, tbl[i].task_id@) == Some(tbl[i].key_idx),
{
    let t = tbl[i].task_id@;
    assert(tbl[i].task_id@ == t);
    let j = choose|j: int| 0 <= j < tbl.len() && (#[trigger] tbl[j]).task_id@ == t;
    assert(tbl[j].task_id@ == t);
}

/// Position `o` steps after `start` in a rotation over `n` keys.
pub open spec fn rot(start: int, o: int, n: int) -> int {
    if start + o < n {
        start + o
    } else {
        start + o - n
    }
}

/// Client state for the Agnes AI API: base URL, model identifiers, the
/// round-robin key pool with per-key cooldowns, and video task affinity.
pub struct AgnesClient {
    base_url: String,
    api_keys: Vec<String>,
    next_key: usize,
    task_keys: Vec<TaskKey>,
    model_text: String,
    model_image: String,
    model_video: String,
    key_health: Vec<KeyHealth>,
    auth_cooldown_secs: u64,
    rate_limit_cooldown_secs: u64,
}

impl AgnesClient {
    /// Maximum retry attempts in the round-robin path.
    pub const MAX_RETRY_ATTEMPTS: usize = 3;

    /// The client's internal consistency: a non-empty pool, one health
    /// record per key, distinct task ids bound to keys of the pool.
    pub closed spec fn wf(&self) -> bool {
        &&& self.api_keys@.len() > 0
        &&& self.key_health@.len() == self.api_keys@.len()
        &&& table_distinct(self.task_keys@)
        &&& forall|i: int|
            0 <= i < self.task_keys@.len() ==> (#[trigger] self.task_keys@[i]).key_idx
                < self.api_keys@.len()
    }

    /// The API keys of the pool, in round-robin order.
    pub closed spec fn keys(&self) -> Seq<Seq<char>> {
        self.api_keys.deep_view()
    }

    /// The round-robin cursor.
    pub closed spec fn cursor(&self) -> usize {
        self.next_key
    }

    /// The unix time until which key `i` is cooled down (0 when healthy).
    pub closed spec fn cooldown_until(&self, i: int) -> u64 {
        self.key_health@[i].cooldown_until
    }

    /// Whether key `i` exists and is usable at time `now`.
    pub closed spec fn available(&self, i: int, now: u64) -> bool {
        0 <= i < self.key_health@.len() && self.key_health@[i].available_at(now)
    }

    /// Seconds of cooldown left for key `i` at `now` (0 outside the pool).
    pub closed spec fn remaining(&self, i: int, now: u64) -> nat {
        if 0 <= i < self.key_health@.len() {
            self.key_health@[i].remaining_at(now)
        } else {
            0
        }
    }

    /// The key bound to video task `t`, if any.
    pub closed spec fn task_key(&self, t: Seq<char>) -> Option<usize> {
        table_lookup(self.task_keys@, t)
    }

    /// The API base URL.
    pub closed spec fn base_url_view(&self) -> Seq<char> {
        self.base_url@
    }

    /// The chat/text model identifier.
    pub closed spec fn text_model_view(&self) -> Seq<char> {
        self.model_text@
    }

    /// The image model identifier.
    pub closed spec fn image_model_view(&self) -> Seq<char> {
        self.model_image@
    }

    /// The video model identifier.
    pub closed spec fn video_model_view(&self) -> Seq<char> {
        self.model_video@
    }

    /// Cooldown (seconds) after HTTP 401/403.
    pub closed spec fn auth_cooldown(&self) -> u64 {
        self.auth_cooldown_secs
    }

    /// Cooldown (seconds) after HTTP 429.
    pub closed spec fn rate_limit_cooldown(&self) -> u64 {
        self.rate_limit_cooldown_secs
    }

    /// The parts of the client that never change after construction.
    pub open spec fn same_setup(&self, other: &AgnesClient) -> bool {
        &&& self.keys() == other.keys()
        &&& self.base_url_view() == other.base_url_view()
        &&& self.text_model_view() == other.text_model_view()
        &&& self.image_model_view() == other.image_model_view()
        &&& self.video_model_view() == other.video_model_view()
        &&& self.auth_cooldown() == other.auth_cooldown()
        &&& self.rate_limit_cooldown() == other.rate_limit_cooldown()
    }

    /// The cooldown state of every key is the same in both clients.
    pub open spec fn same_cooldowns(&self, other: &AgnesClient) -> bool {
        forall|i: int| 0 <= i < self.keys().len() ==> #[trigger] self.cooldown_until(i)
            == other.cooldown_until(i)
    }

    /// Both clients bind every task to the same key.
    pub open spec fn same_tasks(&self, other: &AgnesClient) -> bool {
        forall|t: Seq<char>| #[trigger] self.task_key(t) == other.task_key(t)
    }

    /// Create a new client from the Agnes configuration.
    ///
    /// Fails with a configuration error when no API key is configured.
    pub fn new(config: &crate::config::AgnesConfig) -> (r: crate::error::Result<Self>)
        ensures
            config.key_pool().len() > 0 <==> r is Ok,
            r matches Ok(c) ==> {
                &&& c.wf()
                &&& c.keys() == config.key_pool()
                &&& c.cursor() == 0
                &&& forall|i: int| 0 <= i < c.keys().len() ==> #[trigger] c.cooldown_until(i) == 0
                &&& forall|t: Seq<char>| #[trigger] c.task_key(t) is None
                &&& c.base_url_view() == config.base_url@
                &&& c.text_model_view() == config.model_text@
                &&& c.image_model_view() == config.model_image@
                &&& c.video_model_view() == config.model_video@
                &&& c.auth_cooldown() == config.key_cooldown_secs
                &&& c.rate_limit_cooldown() == config.key_rate_limit_cooldown_secs
            },
            r matches Err(e) ==> e.is_config_with(crate::config::KEY_NOT_SET_MESSAGE@),
    {
        let api_keys = match config.require_api_keys() {
            Ok(k) => k,
            Err(e) => return Err(e),
        };
        let key_count = api_keys.len();
        let mut key_health: Vec<KeyHealth> = Vec::new();
        let mut i: usize = 0;
        while i < key_count
            invariant
                0 <= i <= key_count,
                key_health@.len() == i,
                forall|k: int| 0 <= k < i ==> (#[trigger] key_health@[k]).cooldown_until == 0,
            decreases key_count - i,
        {
            key_health.push(KeyHealth { cooldown_until: 0 });
            i = i + 1;
        }
        let c = AgnesClient {
            base_url: owned(config.base_url.as_str()),
            api_keys,
            next_key: 0,
            task_keys: Vec::new(),
            model_text: owned(config.model_text.as_str()),
            model_image: owned(config.model_image.as_str()),
            model_video: owned(config.model_video.as_str()),
            key_health,
            auth_cooldown_secs: config.key_cooldown_secs,
            rate_limit_cooldown_secs: config.key_rate_limit_cooldown_secs,
        };
        Ok(c)
    }

    /// Number of API keys in the round-robin pool.
    pub fn api_key_count(&self) -> (r: usize)
        ensures
            r == self.keys().len(),
    {
        self.api_keys.len()
    }

    /// The API key at `key_idx`.
    pub fn api_key(&self, key_idx: usize) -> (r: &str)
        requires
            key_idx < self.keys().len(),
        ensures
            r@ == self.keys()[key_idx as int],
    {
        self.api_keys[key_idx].as_str()
    }

    /// Return the next API key in round-robin order, ignoring cooldown state.
    pub fn next_api_key(&mut self) -> (r: String)
        requires
            old(self).wf(),
        ensures
            final(self).wf(),
            r@ == old(self).keys()[(old(self).cursor() as int) % (old(self).keys().len() as int)],
            final(self).cursor() == (if old(self).cursor() == usize::MAX {
                0
            } else {
                old(self).cursor() + 1
            }),
            final(self).same_setup(&*old(self)),
            final(self).same_cooldowns(&*old(self)),
            final(self).same_tasks(&*old(self)),
    {
        let idx = self.next_key % self.api_keys.len();
        self.next_key = if self.next_key == usize::MAX {
            0
        } else {
            self.next_key + 1
        };
        owned(self.api_keys[idx].as_str())
    }

    /// Record that `task_id` was created with the key at `key_idx`.
    ///
    /// Subsequent lookups of `task_id` give `key_idx`; a later record for
    /// the same id rebinds it.
    pub fn record_task_key(&mut self, task_id: &str, key_idx: usize)
        requires
            old(self).wf(),
            key_idx < old(self).keys().len(),
        ensures
            final(self).wf(),
            final(self).task_key(task_id@) == Some(key_idx),
            forall|t: Seq<char>| t != task_id@ ==> #[trigger] final(self).task_key(t) == old(
                self,
            ).task_key(t),
            final(self).same_setup(&*old(self)),
            final(self).same_cooldowns(&*old(self)),
            final(self).cursor() == old(self).cursor(),
            records(*old(self), *final(self), task_id@, key_idx),
    {
        let ghost old_tbl = self.task_keys@;
        let ghost pre = *self;
        let mut i: usize = 0;
        while i < self.task_keys.len()
            invariant
                0 <= i <= self.task_keys@.len(),
                *self == pre,
                pre == *old(self),
                pre.wf(),
                key_idx < pre.keys().len(),
                self.task_keys@ == old_tbl,
                forall|k: int| 0 <= k < i ==> (#[trigger] old_tbl[k]).task_id@ != task_id@,
            decreases self.task_keys@.len() - i,
        {
            if str_eq(self.task_keys[i].task_id.as_str(), task_id) {
                self.task_keys[i] = TaskKey { task_id: owned(task_id), key_idx };
                proof {
                    let tbl = self.task_keys@;
                    assert(table_distinct(tbl)) by {
                        assert forall|a: int, b: int|
                            0 <= a < tbl.len() && 0 <= b < tbl.len() && a != b implies (
                            #[trigger] tbl[a]).task_id@ != (#[trigger] tbl[b]).task_id@ by {
                            assert(old_tbl[a].task_id@ != old_tbl[b].task_id@);
                        }
                    }
                    lemma_table_lookup_at(tbl, i as int);
                    assert forall|t: Seq<char>| t != task_id@ implies #[trigger] table_lookup(
                        tbl,
                        t,
                    ) == table_lookup(old_tbl, t) by {
                        if exists|k: int| 0 <= k < tbl.len() && (#[trigger] tbl[k]).task_id@ == t {
                            let k = choose|k: int| 0 <= k < tbl.len() && (#[trigger] tbl[k]).task_id@
                                == t;
                            lemma_table_lookup_at(tbl, k);
                            lemma_table_lookup_at(old_tbl, k);
                        } else {
                            assert forall|k: int| 0 <= k < old_tbl.len() implies (
                            #[trigger] old_tbl[k]).task_id@ != t by {
                                if k != i {
                                    assert(tbl[k] == old_tbl[k]);
                                }
                            }
                        }
                    }
                }
                return;
            }
            i = i + 1;
        }
        self.task_keys.push(TaskKey { task_id: owned(task_id), key_idx });
        proof {
            let tbl = self.task_keys@;
            let n = old_tbl.len() as int;
            assert(table_distinct(tbl)) by {
                assert forall|a: int, b: int|
                    0 <= a < tbl.len() && 0 <= b < tbl.len() && a != b implies (
                    #[trigger] tbl[a]).task_id@ != (#[trigger] tbl[b]).task_id@ by {
                    if a < n && b < n {
                        assert(old_tbl[a].task_id@ != old_tbl[b].task_id@);
                    } else if a < n {
                        assert(tbl[a] == old_tbl[a]);
                    } else {
                        assert(tbl[b] == old_tbl[b]);
                    }
                }
            }
            lemma_table_lookup_at(tbl, n);
            assert forall|t: Seq<char>| t != task_id@ implies #[trigger] table_lookup(tbl, t)
                == table_lookup(old_tbl, t) by {
                if exists|k: int| 0 <= k < tbl.len() && (#[trigger] tbl[k]).task_id@ == t {
                    let k = choose|k: int| 0 <= k < tbl.len() && (#[trigger] tbl[k]).task_id@ == t;
                    lemma_table_lookup_at(tbl, k);
                    assert(k < n);
                    assert(tbl[k] == old_tbl[k]);
                    lemma_table_lookup_at(old_tbl, k);
                } else {
                    assert forall|k: int| 0 <= k < old_tbl.len() implies (
                    #[trigger] old_tbl[k]).task_id@ != t by {
                        assert(tbl[k] == old_tbl[k]);
                    }
                }
            }
            assert forall|k: int| 0 <= k < tbl.len() implies (#[trigger] tbl[k]).key_idx
                < self.api_keys@.len() by {
                if k < n {
                    assert(tbl[k] == old_tbl[k]);
                }
            }
        }
    }

    /// Look up the key index bound to `task_id`, if any.
    ///
    /// Returns `None` for tasks created by a previous server session or by
    /// external tools.
    pub fn key_index_for_task(&self, task_id: &str) -> (r: Option<usize>)
        requires
            self.wf(),
        ensures
            r == self.task_key(task_id@),
            r matches Some(i) ==> i < self.keys().len(),
    {
        let mut i: usize = 0;
        while i < self.task_keys.len()
            invariant
                0 <= i <= self.task_keys@.len(),
                self.wf(),
                forall|k: int| 0 <= k < i ==> (#[trigger] self.task_keys@[k]).task_id@ != task_id@,
            decreases self.task_keys@.len() - i,
        {
            if str_eq(self.task_keys[i].task_id.as_str(), task_id) {
                proof {
                    lemma_table_lookup_at(self.task_keys@, i as int);
                }
                return Some(self.task_keys[i].key_idx);
            }
            i = i + 1;
        }
        None
    }

    /// Whether the key at `key_idx` is currently usable (cooldown expired
    /// or never set); `false` for an index outside the pool.
    pub fn key_available(&self, key_idx: usize, now: u64) -> (r: bool)
        ensures
            r == self.available(key_idx as int, now),
    {
        if key_idx < self.key_health.len() {
            self.key_health[key_idx].is_available(now)
        } else {
            false
        }
    }

    /// Cool down the key at `key_idx` for `secs` seconds from `now`; an
    /// index outside the pool changes nothing.
    pub fn mark_key_cooldown(&mut self, key_idx: usize, secs: u64, now: u64)
        requires
            old(self).wf(),
        ensures
            final(self).wf(),
            forall|i: int|
                0 <= i < old(self).keys().len() ==> #[trigger] final(self).cooldown_until(i) == if i
                    == key_idx {
                    if now as nat + secs as nat > u64::MAX {
                        u64::MAX
                    } else {
                        (now + secs) as u64
                    }
                } else {
                    old(self).cooldown_until(i)
                },
            final(self).same_setup(&*old(self)),
            final(self).same_tasks(&*old(self)),
            final(self).cursor() == old(self).cursor(),
    {
        if key_idx < self.key_health.len() {
            let until_unix = now.saturating_add(secs);
            self.key_health[key_idx] = KeyHealth { cooldown_until: until_unix };
        }
    }

    /// Seconds remaining on the cooldown for `key_idx`, or `0` if available
    /// or outside the pool.
    pub fn key_cooldown_remaining(&self, key_idx: usize, now: u64) -> (r: u64)
        ensures
            r == self.remaining(key_idx as int, now),
    {
        if key_idx < self.key_health.len() {
            self.key_health[key_idx].secs_remaining(now)
        } else {
            0
        }
    }

    /// Pick the next round-robin key index, skipping keys in cooldown at
    /// `now`. If every key is cooled down, falls back to the round-robin
    /// position itself.
    pub fn select_healthy_key_idx(&mut self, now: u64) -> (r: usize)
        requires
            old(self).wf(),
        ensures
            final(self).wf(),
            r < old(self).keys().len(),
            ({
                let n = old(self).keys().len() as int;
                let start = (old(self).cursor() as int) % n;
                &&& (forall|o: int| 0 <= o < n ==> !old(self).available(#[trigger] rot(start, o, n), now))
                    ==> r == start
                &&& (exists|o: int| 0 <= o < n && old(self).available(#[trigger] rot(start, o, n), now))
                    ==> exists|o: int|
                    0 <= o < n && r == rot(start, o, n) && old(self).available(r as int, now) && forall|
                        o2: int,
                    |
                        0 <= o2 < o ==> !old(self).available(#[trigger] rot(start, o2, n), now)
            }),
            final(self).cursor() == (if old(self).cursor() == usize::MAX {
                0
            } else {
                old(self).cursor() + 1
            }),
            final(self).same_setup(&*old(self)),
            final(self).same_cooldowns(&*old(self)),
            final(self).same_tasks(&*old(self)),
    {
        let n = self.api_keys.len();
        let start = self.next_key % n;
        let ghost pre = *self;
        self.next_key = if self.next_key == usize::MAX {
            0
        } else {
            self.next_key + 1
        };
        let ghost mid = *self;
        let mut offset: usize = 0;
        while offset < n
            invariant
                *self == mid,
                mid.wf(),
                pre == *old(self),
                pre.wf(),
                mid.same_setup(&pre),
                mid.same_cooldowns(&pre),
                mid.same_tasks(&pre),
                mid.cursor() == (if pre.cursor() == usize::MAX {
                    0
                } else {
                    pre.cursor() + 1
                }),
                n == pre.keys().len(),
                n == self.key_health@.len(),
                self.key_health == pre.key_health,
                start == (pre.cursor() as int) % (n as int),
                start < n,
                0 <= offset <= n,
                forall|o: int| 0 <= o < offset ==> !pre.available(#[trigger] rot(start as int, o, n as int), now),
            decreases n - offset,
        {
            let idx = if offset < n - start {
                start + offset
            } else {
                offset - (n - start)
            };
            if self.key_available(idx, now) {
                assert(idx == rot(start as int, offset as int, n as int));
                return idx;
            }
            offset = offset + 1;
        }
        start
    }

    /// The configured chat/text model identifier.
    pub fn text_model(&self) -> (r: &str)
        ensures
            r@ == self.text_model_view(),
    {
        self.model_text.as_str()
    }

    /// The configured image model identifier.
    pub fn image_model(&self) -> (r: &str)
        ensures
            r@ == self.image_model_view(),
    {
        self.model_image.as_str()
    }

    /// The configured video model identifier.
    pub fn video_model(&self) -> (r: &str)
        ensures
            r@ == self.video_model_view(),
    {
        self.model_video.as_str()
    }

    /// The full URL of an API path.
    pub fn request_url(&self, path: &str) -> (r: String)
        ensures
            r@ == self.base_url_view() + path@,
    {
        crate::text::concat(self.base_url.as_str(), path)
    }
}

// ---------------------------------------------------------------------------
// Requests over the key pool: retry and cooldown decisions
// ---------------------------------------------------------------------------

/// Whether an HTTP status marks the key as the cause: 429 (rate limited),
/// 401 or 403 (authentication failure).
pub open spec fn is_key_status(status: u16) -> bool {
    status == 429 || status == 401 || status == 403
}

/// Whether an error is an API error with a key-caused status.
pub open spec fn is_key_error(e: crate::error::Error) -> bool {
    e matches crate::error::Error::ApiStatus { status, .. } && is_key_status(status)
}

/// The cooldown a key-caused status earns: the rate-limit cooldown for 429,
/// the authentication cooldown otherwise.
pub open spec fn cooldown_for(c: AgnesClient, status: u16) -> u64 {
    if status == 429 {
        c.rate_limit_cooldown()
    } else {
        c.auth_cooldown()
    }
}

/// `now + secs`, saturating at `u64::MAX`.
pub open spec fn sat_add(now: u64, secs: u64) -> u64 {
    if now as nat + secs as nat > u64::MAX {
        u64::MAX
    } else {
        (now + secs) as u64
    }
}

/// The message of the error for a round-robin request that found no usable
/// key.
pub open spec fn all_cooled_message(n: nat) -> Seq<char> {
    "all "@ + crate::text::decimal(n) + " API keys are in cooldown; wait and retry, or add more keys"@
}

/// What the caller does next in a request run.
#[derive(Debug, Clone)]
pub enum RetryAction {
    /// Send the request with the key at this index and report the outcome.
    Send(usize),
    /// The request succeeded with the key at this index.
    Done(usize),
    /// The request failed for good with this error.
    Fail(crate::error::Error),
}

/// The state of one request over the key pool.
///
/// A run bound to a fixed key (video task affinity) sends once, to that key.
/// A round-robin run scans the pool once from a healthy starting key,
/// skipping keys in cooldown without spending its budget, and sends to at
/// most `min(pool size, MAX_RETRY_ATTEMPTS)` keys.
pub struct RetryRun {
    fixed: Option<usize>,
    n: usize,
    cap: usize,
    start: usize,
    next_offset: usize,
    attempts_made: usize,
    current: usize,
    waiting: bool,
    last_error: Option<crate::error::Error>,
    sent: Ghost<Seq<usize>>,
    offsets: Ghost<Seq<int>>,
}

impl RetryRun {
    /// The run's internal consistency.
    pub closed spec fn wf(&self) -> bool {
        &&& self.n > 0
        &&& self.cap <= self.n
        &&& self.cap <= AgnesClient::MAX_RETRY_ATTEMPTS
        &&& self.start < self.n
        &&& self.next_offset <= self.n
        &&& self.attempts_made <= self.cap
        &&& self.sent@.len() == self.attempts_made
        &&& self.offsets@.len() == self.attempts_made
        &&& self.waiting ==> self.attempts_made > 0 && self.current == self.sent@.last()
        &&& forall|k: int| 0 <= k < self.sent@.len() ==> #[trigger] self.sent@[k] < self.n
        &&& match self.fixed {
            Some(i) => i < self.n && self.attempts_made == 1 && self.sent@ == seq![i],
            None => {
                &&& forall|k: int|
                    0 <= k < self.sent@.len() ==> #[trigger] self.sent@[k] == rot(
                        self.start as int,
                        self.offsets@[k],
                        self.n as int,
                    )
                &&& forall|k: int|
                    0 <= k < self.offsets@.len() ==> 0 <= #[trigger] self.offsets@[k]
                        < self.next_offset
                &&& forall|k: int, l: int|
                    0 <= k < l < self.offsets@.len() ==> #[trigger] self.offsets@[k]
                        < #[trigger] self.offsets@[l]
            },
        }
    }

    /// The size of the key pool the run is over.
    pub closed spec fn pool_size(&self) -> nat {
        self.n as nat
    }

    /// The number of requests the run may send.
    pub closed spec fn cap(&self) -> nat {
        self.cap as nat
    }

    /// The keys requested so far, in order.
    pub closed spec fn sent(&self) -> Seq<usize> {
        self.sent@
    }

    /// Whether a request is in flight and its outcome is awaited.
    pub closed spec fn waiting(&self) -> bool {
        self.waiting
    }

    /// The key of the request in flight.
    pub closed spec fn current(&self) -> usize {
        self.current
    }

    /// The key the run is bound to, if any.
    pub closed spec fn fixed(&self) -> Option<usize> {
        self.fixed
    }

    /// The key a round-robin run's rotation starts from.
    pub closed spec fn start_key(&self) -> int {
        self.start as int
    }

    /// How many positions of the rotation a round-robin run has looked at.
    pub closed spec fn scanned(&self) -> int {
        self.next_offset as int
    }

    /// The run never requests the same key twice and stays within its
    /// budget of `min(pool size, MAX_RETRY_ATTEMPTS)` requests.
    pub proof fn lemma_budget(&self)
        requires
            self.wf(),
        ensures
            self.sent().no_duplicates(),
            self.sent().len() <= self.cap(),
            self.cap() <= self.pool_size(),
            self.cap() <= AgnesClient::MAX_RETRY_ATTEMPTS,
            forall|k: int| 0 <= k < self.sent().len() ==> #[trigger] self.sent()[k] < self.pool_size(),
    {
        assert forall|i: int, j: int|
            0 <= i < self.sent@.len() && 0 <= j < self.sent@.len() && i != j implies self.sent@[i]
            != self.sent@[j] by {
            if self.fixed is None {
                if i < j {
                    assert(self.offsets@[i] < self.offsets@[j]);
                } else {
                    assert(self.offsets@[j] < self.offsets@[i]);
                }
                assert(self.offsets@[i] < self.n && self.offsets@[j] < self.n);
            }
        }
    }
}

impl RetryRun {
    /// A run bound to a key (video task affinity) sends exactly one
    /// request, to that key: it is never retried on another key.
    pub proof fn law_fixed_run_uses_its_key(&self)
        requires
            self.wf(),
        ensures
            self.fixed() matches Some(i) ==> self.sent() == seq![i],
    {
    }
}

impl AgnesClient {
    fn all_cooled_error(&self) -> (e: crate::error::Error)
        ensures
            e.is_api_with(all_cooled_message(self.keys().len())),
    {
        let mut m = owned("all ");
        crate::text::push_decimal(&mut m, self.api_keys.len() as u64);
        crate::text::push_str(&mut m, " API keys are in cooldown; wait and retry, or add more keys");
        crate::error::Error::api(m)
    }

    /// Scan the rest of the rotation for the next usable key.
    fn scan(&self, run: &mut RetryRun, now: u64) -> (a: RetryAction)
        requires
            self.wf(),
            old(run).wf(),
            old(run).fixed is None,
            !old(run).waiting,
            old(run).n == self.keys().len(),
        ensures
            final(run).wf(),
            final(run).fixed is None,
            final(run).n == old(run).n,
            final(run).start == old(run).start,
            final(run).cap == old(run).cap,
            match a {
                RetryAction::Send(i) => {
                    &&& self.available(i as int, now)
                    &&& final(run).waiting
                    &&& final(run).current == i
                    &&& final(run).sent@ == old(run).sent@.push(i)
                    &&& old(run).attempts_made < old(run).cap
                    &&& old(run).next_offset < final(run).next_offset <= old(run).n
                    &&& i as int == rot(
                        old(run).start as int,
                        final(run).next_offset - 1,
                        old(run).n as int,
                    )
                    &&& forall|o: int|
                        old(run).next_offset <= o < final(run).next_offset - 1 ==> !self.available(
                            #[trigger] rot(old(run).start as int, o, old(run).n as int),
                            now,
                        )
                },
                RetryAction::Fail(e) => {
                    &&& !final(run).waiting
                    &&& final(run).sent@ == old(run).sent@
                    &&& (final(run).attempts_made >= final(run).cap || forall|o: int|
                        old(run).next_offset <= o < old(run).n ==> !self.available(
                            #[trigger] rot(old(run).start as int, o, old(run).n as int),
                            now,
                        ))
                    &&& (old(run).last_error matches Some(le) ==> e == le)
                    &&& (old(run).last_error is None ==> e.is_api_with(
                        all_cooled_message(self.keys().len()),
                    ))
                },
                RetryAction::Done(_) => false,
            },
    {
        let n = run.n;
        while run.next_offset < n && run.attempts_made < run.cap
            invariant
                run.wf(),
                run.fixed is None,
                !run.waiting,
                n == run.n,
                n == self.keys().len(),
                self.wf(),
                run.start == old(run).start,
                run.cap == old(run).cap,
                run.sent@ == old(run).sent@,
                run.attempts_made == old(run).attempts_made,
                run.last_error == old(run).last_error,
                run.n == old(run).n,
                old(run).next_offset <= run.next_offset,
                forall|o: int|
                    old(run).next_offset <= o < run.next_offset ==> !self.available(
                        #[trigger] rot(run.start as int, o, n as int),
                        now,
                    ),
            decreases n - run.next_offset,
        {
            let offset = run.next_offset;
            let start = run.start;
            let idx = if offset < n - start {
                start + offset
            } else {
                offset - (n - start)
            };
            assert(idx == rot(start as int, offset as int, n as int));
            run.next_offset = offset + 1;
            if self.key_available(idx, now) {
                assert(forall|o: int|
                    old(run).next_offset <= o < offset ==> !self.available(
                        #[trigger] rot(old(run).start as int, o, old(run).n as int),
                        now,
                    ));
                run.attempts_made = run.attempts_made + 1;
                run.current = idx;
                run.waiting = true;
                proof {
                    run.sent@ = run.sent@.push(idx);
                    run.offsets@ = run.offsets@.push(offset as int);
                }
                return RetryAction::Send(idx);
            }
        }
        match run.last_error.take() {
            Some(e) => RetryAction::Fail(e),
            None => RetryAction::Fail(self.all_cooled_error()),
        }
    }

    /// Start a request over the key pool at time `now`.
    ///
    /// With `fixed_key_idx = Some(idx)` (affinity, e.g. video task status)
    /// only that key is used, once, even if it is in cooldown. With `None`
    /// the run starts at the next healthy round-robin key; when every key
    /// is in cooldown it fails with an "all keys are in cooldown" error.
    pub fn begin_request(&mut self, fixed_key_idx: Option<usize>, now: u64) -> (res: (
        RetryRun,
        RetryAction,
    ))
        requires
            old(self).wf(),
            fixed_key_idx matches Some(i) ==> i < old(self).keys().len(),
        ensures
            final(self).wf(),
            res.0.wf(),
            res.0.pool_size() == old(self).keys().len(),
            res.0.fixed() == fixed_key_idx,
            final(self).same_setup(&*old(self)),
            final(self).same_cooldowns(&*old(self)),
            final(self).same_tasks(&*old(self)),
            fixed_key_idx matches Some(i) ==> {
                &&& res.1 == RetryAction::Send(i)
                &&& res.0.waiting() && res.0.current() == i
                &&& res.0.sent() == seq![i]
                &&& final(self).cursor() == old(self).cursor()
            },
            fixed_key_idx is None ==> {
                &&& final(self).cursor() == (if old(self).cursor() == usize::MAX {
                    0
                } else {
                    old(self).cursor() + 1
                })
                &&& res.0.cap() == if old(self).keys().len() < AgnesClient::MAX_RETRY_ATTEMPTS {
                    old(self).keys().len()
                } else {
                    AgnesClient::MAX_RETRY_ATTEMPTS as nat
                }
                &&& match res.1 {
                    RetryAction::Send(i) => {
                        &&& old(self).available(i as int, now)
                        &&& res.0.waiting() && res.0.current() == i
                        &&& res.0.sent() == seq![i]
                        &&& res.0.start_key() == i as int
                        &&& res.0.scanned() == 1
                        &&& ({
                            let n = old(self).keys().len() as int;
                            let cs = (old(self).cursor() as int) % n;
                            exists|o: int|
                                0 <= o < n && i as int == rot(cs, o, n) && forall|o2: int|
                                    0 <= o2 < o ==> !old(self).available(
                                        #[trigger] rot(cs, o2, n),
                                        now,
                                    )
                        })
                    },
                    RetryAction::Fail(e) => {
                        &&& !res.0.waiting()
                        &&& e.is_api_with(all_cooled_message(old(self).keys().len()))
                        &&& forall|i: int| 0 <= i < old(self).keys().len() ==> !old(self).available(i, now)
                    },
                    RetryAction::Done(_) => false,
                }
            },
    {
        let n = self.api_keys.len();
        match fixed_key_idx {
            Some(idx) => {
                let sent: Ghost<Seq<usize>> = Ghost(Seq::<usize>::empty().push(idx));
                let offsets: Ghost<Seq<int>> = Ghost(Seq::<int>::empty().push(0int));
                let run = RetryRun {
                    fixed: Some(idx),
                    n,
                    cap: 1,
                    start: idx,
                    next_offset: n,
                    attempts_made: 1,
                    current: idx,
                    waiting: true,
                    last_error: None,
                    sent,
                    offsets,
                };
                (run, RetryAction::Send(idx))
            },
            None => {
                let ghost pre = *self;
                let cap = if n < Self::MAX_RETRY_ATTEMPTS {
                    n
                } else {
                    Self::MAX_RETRY_ATTEMPTS
                };
                let start = self.select_healthy_key_idx(now);
                let sent: Ghost<Seq<usize>> = Ghost(Seq::empty());
                let offsets: Ghost<Seq<int>> = Ghost(Seq::empty());
                let mut run = RetryRun {
                    fixed: None,
                    n,
                    cap,
                    start,
                    next_offset: 0,
                    attempts_made: 0,
                    current: start,
                    waiting: false,
                    last_error: None,
                    sent,
                    offsets,
                };
                assert(self.same_cooldowns(&pre));
                let a = self.scan(&mut run, now);
                proof {
                    if let RetryAction::Send(i) = a {
                        assert(run.sent@ =~= seq![i]);
                        assert(self.cooldown_until(i as int) == pre.cooldown_until(i as int));
                        let nn = n as int;
                        let cs = (pre.cursor() as int) % nn;
                        let oi = if i as int >= cs {
                            i as int - cs
                        } else {
                            i as int + nn - cs
                        };
                        assert(rot(cs, oi, nn) == i as int);
                        assert(pre.available(rot(cs, oi, nn), now));
                        assert(pre.available(start as int, now));
                        assert(self.cooldown_until(start as int) == pre.cooldown_until(
                            start as int,
                        ));
                        assert(self.available(start as int, now));
                        assert(rot(start as int, 0, nn) == start);
                        assert(run.next_offset == 1);
                    }
                    if a is Fail {
                            let nn = n as int;
                            let cs = (pre.cursor() as int) % nn;
                            if exists|i: int| 0 <= i < nn && pre.available(i, now) {
                                let i = choose|i: int| 0 <= i < nn && pre.available(i, now);
                                let o = if i >= cs {
                                    i - cs
                                } else {
                                    i + nn - cs
                                };
                                assert(rot(cs, o, nn) == i);
                                assert(pre.available(start as int, now));
                                assert(self.cooldown_until(start as int) == pre.cooldown_until(
                                    start as int,
                                ));
                                assert(self.available(start as int, now));
                                assert(rot(start as int, 0, nn) == start);
                                assert(false);
                            }
                    }
                }
                (run, a)
            },
        }
    }

    /// Report the outcome of the request in flight and get the next action.
    ///
    /// Success ends the run. An HTTP 429 cools the key down for the
    /// rate-limit cooldown, 401/403 for the authentication cooldown; a
    /// round-robin run then moves on to the next usable key within its
    /// budget, and a fixed-key run fails with the error. Any other error
    /// fails the run at once.
    pub fn after_attempt(
        &mut self,
        run: &mut RetryRun,
        outcome: core::result::Result<(), crate::error::Error>,
        now: u64,
    ) -> (a: RetryAction)
        requires
            old(self).wf(),
            old(run).wf(),
            old(run).waiting(),
            old(run).pool_size() == old(self).keys().len(),
        ensures
            final(self).wf(),
            final(run).wf(),
            final(run).pool_size() == old(run).pool_size(),
            final(run).fixed() == old(run).fixed(),
            final(run).cap() == old(run).cap(),
            final(self).same_setup(&*old(self)),
            final(self).same_tasks(&*old(self)),
            final(self).cursor() == old(self).cursor(),
            outcome is Ok ==> a == RetryAction::Done(old(run).current()) && final(self).same_cooldowns(
                &*old(self),
            ) && !final(run).waiting(),
            outcome matches Err(e) ==> !is_key_error(e) ==> a == RetryAction::Fail(e)
                && final(self).same_cooldowns(&*old(self)) && !final(run).waiting(),
            outcome matches Err(e) ==> is_key_error(e) ==> ({
                let k = old(run).current() as int;
                let status = e->ApiStatus_status;
                &&& final(self).cooldown_until(k) == sat_add(now, cooldown_for(*old(self), status))
                &&& status == 429 ==> final(self).cooldown_until(k) == sat_add(
                    now,
                    old(self).rate_limit_cooldown(),
                )
                &&& (status == 401 || status == 403) ==> final(self).cooldown_until(k) == sat_add(
                    now,
                    old(self).auth_cooldown(),
                )
                &&& forall|i: int|
                    0 <= i < old(self).keys().len() && i != k ==> #[trigger] final(self).cooldown_until(i)
                        == old(self).cooldown_until(i)
            }),
            outcome matches Err(e) ==> is_key_error(e) ==> match a {
                RetryAction::Send(i) => {
                    &&& old(run).fixed() is None
                    &&& final(self).available(i as int, now)
                    &&& final(run).waiting() && final(run).current() == i
                    &&& final(run).sent() == old(run).sent().push(i)
                    &&& old(run).sent().len() < old(run).cap()
                    &&& old(run).scanned() < final(run).scanned() <= old(run).pool_size()
                    &&& i as int == rot(
                        old(run).start_key(),
                        final(run).scanned() - 1,
                        old(run).pool_size() as int,
                    )
                    &&& forall|o: int|
                        old(run).scanned() <= o < final(run).scanned() - 1 ==> !final(self).available(
                            #[trigger] rot(old(run).start_key(), o, old(run).pool_size() as int),
                            now,
                        )
                },
                RetryAction::Fail(f) => {
                    &&& f == e
                    &&& !final(run).waiting()
                    &&& (old(run).fixed() is None ==> (old(run).sent().len() >= old(run).cap()
                        || forall|o: int|
                        old(run).scanned() <= o < old(run).pool_size() ==> !final(self).available(
                            #[trigger] rot(old(run).start_key(), o, old(run).pool_size() as int),
                            now,
                        )))
                },
                RetryAction::Done(_) => false,
            },
            final(run).start_key() == old(run).start_key(),
            old(run).fixed() is Some ==> a !is Send,
    {
        run.waiting = false;
        let key_idx = run.current;
        match outcome {
            Ok(()) => RetryAction::Done(key_idx),
            Err(e) => {
                let status = e.status();
                let is_key = match status {
                    Some(st) => st == 429 || st == 401 || st == 403,
                    None => false,
                };
                if !is_key {
                    return RetryAction::Fail(e);
                }
                let st = status.unwrap();
                let cooldown = if st == 429 {
                    self.rate_limit_cooldown_secs
                } else {
                    self.auth_cooldown_secs
                };
                self.mark_key_cooldown(key_idx, cooldown, now);
                if run.fixed.is_some() {
                    return RetryAction::Fail(e);
                }
                let ghost err = e;
                run.last_error = Some(e);
                let a = self.scan(run, now);
                proof {
                    if a is Fail {
                        assert(a == RetryAction::Fail(err));
                    }
                }
                a
            },
        }
    }
}

// ---------------------------------------------------------------------------
// Response reading and request routes
// ---------------------------------------------------------------------------

/// What [`truncate`] returns: `s` when it has at most `max` characters,
/// else its first `max` characters followed by an ellipsis.
pub open spec fn truncated(s: Seq<char>, max: nat) -> Seq<char> {
    if s.len() <= max {
        s
    } else {
        s.take(max as int) + "…"@
    }
}

/// Truncate a string to `max` characters, appending an ellipsis.
pub fn truncate(s: &str, max: usize) -> (r: String)
    ensures
        r@ == truncated(s@, max as nat),
{
    let cs = crate::text::to_chars(s);
    if cs.len() <= max {
        return owned(s);
    }
    let mut out = crate::text::from_chars(&cs, 0, max);
    crate::text::push_str(&mut out, "…");
    assert(s@.take(max as int) =~= cs@.subrange(0, max as int));
    out
}

/// Whether a byte is left as is by URL encoding: ASCII alphanumerics and
/// `-`, `.`, `_`, `~`.
pub open spec fn unreserved(b: u8) -> bool {
    (48 <= b <= 57) || (65 <= b <= 90) || (97 <= b <= 122) || b == 45 || b == 46 || b == 95
        || b == 126
}

/// Upper-case hexadecimal digit.
pub open spec fn hex_upper(d: nat) -> char {
    if d < 10 {
        ((48 + d) as u32) as char
    } else {
        ((55 + d) as u32) as char
    }
}

/// Percent-encoding of a byte string: unreserved bytes as themselves,
/// every other byte as `%` and two upper-case hexadecimal digits.
pub open spec fn percent_encode(bytes: Seq<u8>) -> Seq<char>
    decreases bytes.len(),
{
    if bytes.len() == 0 {
        Seq::<char>::empty()
    } else {
        let b = bytes.last();
        percent_encode(bytes.drop_last()) + if unreserved(b) {
            seq![(b as u32) as char]
        } else {
            seq!['%', hex_upper((b / 16) as nat), hex_upper((b % 16) as nat)]
        }
    }
}

/// `urlencoding::encode`: percent-encodes every UTF-8 byte of `s` except
/// ASCII alphanumerics and `-`, `.`, `_`, `~`, with upper-case hexadecimal
/// digits.
#[verifier::external_body]
fn url_encode(s: &str) -> (r: String)
    ensures
        r@ == percent_encode(s.spec_bytes()),
{
    urlencoding::encode(s).into_owned()
}

/// Message of the error for a video task this session did not create.
pub open spec fn unknown_task_message(task_id: Seq<char>) -> Seq<char> {
    "video task '"@ + task_id
        + "' was not created by this server session;                  Agnes ties task ownership to the creating API key, so its key cannot be                  determined. Re-create the task via agnes_generate_video, or query it from                  the original session."@
}

/// Build a normalized API error message from a non-2xx response body: the
/// body's error message, else `HTTP {status}: {truncated body}`.
pub open spec fn api_error_message(status: u16, body: &str, parsed: Option<JsonValue>) -> Seq<
    char,
> {
    let v = match parsed {
        Some(v) => v,
        None => JsonValue::Null,
    };
    match error_message_of(v) {
        Some(m) => m,
        None => "HTTP "@ + crate::text::decimal(status as nat) + ": "@ + truncated(body@, 300),
    }
}

/// Build a normalized API error from a non-2xx response body.
///
/// `parsed` is the body read as JSON, or `None` when it is not JSON.
pub fn api_error(status: u16, body: &str, parsed: Option<&JsonValue>) -> (e: crate::error::Error)
    ensures
        e matches crate::error::Error::ApiStatus { status: s, message: m } && s == status && m@
            == api_error_message(
            status,
            body,
            match parsed {
                Some(v) => Some(*v),
                None => None,
            },
        ),
{
    let null = JsonValue::Null;
    let v = match parsed {
        Some(v) => v,
        None => &null,
    };
    let message = match extract_error_message(v) {
        Some(m) => m,
        None => {
            let mut m = owned("HTTP ");
            crate::text::push_decimal(&mut m, status as u64);
            crate::text::push_str(&mut m, ": ");
            let t = truncate(body, 300);
            crate::text::push_str(&mut m, t.as_str());
            m
        },
    };
    crate::error::Error::api_status(status, message)
}

/// Read an API response: a non-2xx status gives an [`api_error`]; a body
/// that is not JSON gives an API error quoting it; a JSON body holding an
/// error object gives an API error with its message; anything else is the
/// response value.
pub fn interpret_response(status: u16, body: &str, parsed: Option<JsonValue>) -> (r:
    crate::error::Result<JsonValue>)
    ensures
        !(200 <= status <= 299) ==> (r matches Err(crate::error::Error::ApiStatus { status: s, message: m })
            && s == status && m@ == api_error_message(status, body, parsed)),
        200 <= status <= 299 && parsed is None ==> (r matches Err(e) && e.is_api_with(
            "expected JSON response, got: "@ + truncated(body@, 300),
        )),
        200 <= status <= 299 ==> (parsed matches Some(v) ==> match error_message_of(v) {
            Some(m) => (r matches Err(e) && e.is_api_with(m)),
            None => r == Ok::<JsonValue, crate::error::Error>(v),
        }),
{
    if !(200 <= status && status <= 299) {
        return Err(api_error(status, body, parsed.as_ref()));
    }
    match parsed {
        None => {
            let t = truncate(body, 300);
            Err(crate::error::Error::api(crate::text::concat("expected JSON response, got: ", t.as_str())))
        },
        Some(v) => match extract_error_message(&v) {
            Some(m) => Err(crate::error::Error::api(m)),
            None => Ok(v),
        },
    }
}

/// Check the URL of a download: it must be http(s).
pub fn check_download_url(url: &str) -> (r: crate::error::Result<()>)
    ensures
        r is Ok <==> is_http_url(url@),
        r matches Err(e) ==> e.is_config_with(
            "download_url requires an http(s) URL, got: "@ + url@,
        ),
{
    if !is_http(url) {
        return Err(crate::error::Error::config(crate::text::concat(
            "download_url requires an http(s) URL, got: ",
            url,
        )));
    }
    Ok(())
}

impl AgnesClient {
    /// The route of a video task status query: the path
    /// `/v1/videos/{url-encoded task id}` and the key that created the task.
    ///
    /// Fails with a configuration error when the task was not created by
    /// this session — Agnes ties task ownership to the creating key, so a
    /// random key is never picked.
    pub fn video_task_route(&self, task_id: &str) -> (r: crate::error::Result<(String, usize)>)
        requires
            self.wf(),
        ensures
            self.task_key(task_id@) is None ==> (r matches Err(e) && e.is_config_with(
                unknown_task_message(task_id@),
            )),
            self.task_key(task_id@) matches Some(i) ==> (r matches Ok((p, k)) && k == i && p@
                == "/v1/videos/"@ + percent_encode(task_id.spec_bytes()) && k
                < self.keys().len()),
    {
        let key_idx = match self.key_index_for_task(task_id) {
            Some(k) => k,
            None => {
                let mut m = owned("video task '");
                crate::text::push_str(&mut m, task_id);
                crate::text::push_str(
                    &mut m,
                    "' was not created by this server session;                  Agnes ties task ownership to the creating API key, so its key cannot be                  determined. Re-create the task via agnes_generate_video, or query it from                  the original session.",
                );
                return Err(crate::error::Error::config(m));
            },
        };
        let encoded = url_encode(task_id);
        let path = crate::text::concat("/v1/videos/", encoded.as_str());
        Ok((path, key_idx))
    }
}

// ---------------------------------------------------------------------------
// Chat completion requests
// ---------------------------------------------------------------------------

/// A single chat message with flexible OpenAI-style content.
#[derive(Debug)]
pub struct ChatMessage {
    pub role: String,
    pub content: JsonValue,
}

/// Chat completions request body (OpenAI-compatible).
///
/// `temperature` and `top_p` hold the text of their JSON number literals.
#[derive(Debug)]
pub struct ChatRequest {
    pub model: String,
    pub messages: Vec<ChatMessage>,
    pub temperature: Option<String>,
    pub top_p: Option<String>,
    pub max_tokens: Option<u64>,
}

/// The JSON of a chat message: `{"role": .., "content": ..}`.
pub open spec fn message_json(m: ChatMessage) -> Json {
    Json::Obj(seq![("role"@, Json::Str(m.role@)), ("content"@, m.content@)])
}

/// The JSON of a list of chat messages.
pub open spec fn messages_json(ms: Seq<ChatMessage>) -> Json {
    Json::Arr(ms.map_values(|m: ChatMessage| message_json(m)))
}

/// The JSON body of a chat request: `model`, `messages`, then `temperature`,
/// `top_p` and `max_tokens` where they are set.
pub open spec fn chat_request_json(r: ChatRequest) -> Json {
    let base = seq![("model"@, Json::Str(r.model@)), ("messages"@, messages_json(r.messages@))];
    let with_t = match r.temperature {
        Some(t) => base.push(("temperature"@, Json::Num(t@))),
        None => base,
    };
    let with_p = match r.top_p {
        Some(p) => with_t.push(("top_p"@, Json::Num(p@))),
        None => with_t,
    };
    let all = match r.max_tokens {
        Some(n) => with_p.push(("max_tokens"@, Json::Num(crate::text::decimal(n as nat)))),
        None => with_p,
    };
    Json::Obj(all)
}

fn copy_json(v: &JsonValue) -> (r: JsonValue)
    ensures
        r@ == v@,
    decreases v,
{
    match v {
        JsonValue::Null => JsonValue::Null,
        JsonValue::Bool(b) => JsonValue::Bool(*b),
        JsonValue::Number(n) => JsonValue::Number(owned(n.as_str())),
        JsonValue::Str(s) => JsonValue::Str(owned(s.as_str())),
        JsonValue::Array(a) => {
            let mut out: Vec<JsonValue> = Vec::new();
            let mut i: usize = 0;
            while i < a.len()
                invariant
                    0 <= i <= a@.len(),
                    *v == JsonValue::Array(*a),
                    crate::json::items_view(out@) == crate::json::items_view(a@.take(i as int)),
                decreases a@.len() - i,
            {
                assert(decreases_to!(*v => (*v)->Array_0));
                assert(decreases_to!(*a => a@));
                assert(decreases_to!(a@ => a@[i as int]));
                let x = copy_json(&a[i]);
                let ghost before = out@;
                out.push(x);
                assert(out@.drop_last() =~= before);
                assert(a@.take(i + 1 as int).drop_last() =~= a@.take(i as int));
                i = i + 1;
            }
            assert(a@.take(a@.len() as int) =~= a@);
            JsonValue::Array(out)
        },
        JsonValue::Object(m) => {
            let mut out: Vec<(String, JsonValue)> = Vec::new();
            let mut i: usize = 0;
            while i < m.len()
                invariant
                    0 <= i <= m@.len(),
                    *v == JsonValue::Object(*m),
                    crate::json::entries_view(out@) == crate::json::entries_view(m@.take(i as int)),
                decreases m@.len() - i,
            {
                assert(decreases_to!(*v => (*v)->Object_0));
                assert(decreases_to!(*m => m@));
                assert(decreases_to!(m@ => m@[i as int]));
                assert(decreases_to!(m@[i as int] => m@[i as int].1));
                let x = copy_json(&m[i].1);
                let ghost before = out@;
                out.push((owned(m[i].0.as_str()), x));
                assert(out@.drop_last() =~= before);
                assert(m@.take(i + 1 as int).drop_last() =~= m@.take(i as int));
                i = i + 1;
            }
            assert(m@.take(m@.len() as int) =~= m@);
            JsonValue::Object(out)
        },
    }
}

impl ChatMessage {
    /// A chat message whose content is plain text.
    pub fn text(role: &str, content: &str) -> (r: ChatMessage)
        ensures
            r.role@ == role@,
            r.content@ == Json::Str(content@),
    {
        ChatMessage { role: owned(role), content: crate::json::string_value(content) }
    }

    /// The JSON of this message.
    pub fn to_json(&self) -> (r: JsonValue)
        ensures
            r@ == message_json(*self),
    {
        let mut es = crate::json::no_entries();
        crate::json::push_entry(&mut es, "role", crate::json::string_value(self.role.as_str()));
        crate::json::push_entry(&mut es, "content", copy_json(&self.content));
        assert(crate::json::entries_view(es@) =~= seq![
            ("role"@, Json::Str(self.role@)),
            ("content"@, self.content@),
        ]);
        JsonValue::Object(es)
    }
}

impl ChatRequest {
    /// The JSON body of this request.
    pub fn to_json(&self) -> (r: JsonValue)
        ensures
            r@ == chat_request_json(*self),
    {
        let mut items: Vec<JsonValue> = Vec::new();
        let mut i: usize = 0;
        while i < self.messages.len()
            invariant
                0 <= i <= self.messages@.len(),
                crate::json::items_view(items@) == self.messages@.take(i as int).map_values(
                    |m: ChatMessage| message_json(m),
                ),
            decreases self.messages@.len() - i,
        {
            let x = self.messages[i].to_json();
            let ghost before = items@;
            items.push(x);
            assert(items@.drop_last() =~= before);
            assert(self.messages@.take(i + 1 as int).map_values(|m: ChatMessage| message_json(m))
                =~= self.messages@.take(i as int).map_values(|m: ChatMessage| message_json(m)).push(
                message_json(self.messages@[i as int]),
            ));
            i = i + 1;
        }
        assert(self.messages@.take(self.messages@.len() as int) =~= self.messages@);
        let mut es = crate::json::no_entries();
        crate::json::push_entry(&mut es, "model", crate::json::string_value(self.model.as_str()));
        crate::json::push_entry(&mut es, "messages", JsonValue::Array(items));
        let ghost base = seq![
            ("model"@, Json::Str(self.model@)),
            ("messages"@, messages_json(self.messages@)),
        ];
        assert(crate::json::entries_view(es@) =~= base);
        match &self.temperature {
            Some(t) => crate::json::push_entry(&mut es, "temperature", JsonValue::Number(owned(t.as_str()))),
            None => {},
        }
        match &self.top_p {
            Some(p) => crate::json::push_entry(&mut es, "top_p", JsonValue::Number(owned(p.as_str()))),
            None => {},
        }
        match self.max_tokens {
            Some(n) => crate::json::push_entry(&mut es, "max_tokens", crate::json::number_u64(n)),
            None => {},
        }
        JsonValue::Object(es)
    }
}

/// `after` is `before` with task `t` recorded as created with key `k`:
/// `t` is bound to `k`, every other task keeps its key, and nothing else
/// changes.
pub open spec fn records(before: AgnesClient, after: AgnesClient, t: Seq<char>, k: usize) -> bool {
    &&& after.wf()
    &&& after.task_key(t) == Some(k)
    &&& forall|u: Seq<char>| u != t ==> #[trigger] after.task_key(u) == before.task_key(u)
    &&& after.same_setup(&before)
    &&& after.same_cooldowns(&before)
    &&& after.cursor() == before.cursor()
}

/// What availability means: a key of the pool is usable at `now` exactly
/// when it was never cooled down (its cooldown time is 0) or its cooldown
/// time has come; the seconds left are 0 then, and the time still to wait
/// otherwise.
pub proof fn law_key_availability(c: AgnesClient, i: int, now: u64)
    requires
        c.wf(),
        0 <= i < c.keys().len(),
    ensures
        c.available(i, now) <==> (c.cooldown_until(i) == 0 || now >= c.cooldown_until(i)),
        c.remaining(i, now) == if c.cooldown_until(i) == 0 || now >= c.cooldown_until(i) {
            0
        } else {
            (c.cooldown_until(i) - now) as nat
        },
{
}

/// A key that was never cooled down is usable at any time; so is every
/// key of a client fresh from `AgnesClient::new`.
pub proof fn law_fresh_key_available(c: AgnesClient, i: int, now: u64)
    requires
        c.wf(),
        0 <= i < c.keys().len(),
        c.cooldown_until(i) == 0,
    ensures
        c.available(i, now),
        c.remaining(i, now) == 0,
{
    law_key_availability(c, i, now);
}

/// A key cooled down at `now` for `secs > 0` seconds is unavailable until
/// `now + secs` (saturating) and available from then on; meanwhile the
/// seconds left count down to that time.
pub proof fn law_cooldown_window(c: AgnesClient, k: int, now: u64, secs: u64, t: u64)
    requires
        c.wf(),
        0 <= k < c.keys().len(),
        secs > 0,
        c.cooldown_until(k) == sat_add(now, secs),
    ensures
        c.available(k, t) <==> t >= sat_add(now, secs),
        c.remaining(k, t) == if t >= sat_add(now, secs) {
            0
        } else {
            (sat_add(now, secs) - t) as nat
        },
{
}

/// Video task affinity: once a task is recorded with the key that created
/// it, looking the task up gives that key, and every other task still
/// gives the key it had.
pub proof fn law_task_affinity(
    before: AgnesClient,
    after: AgnesClient,
    t: Seq<char>,
    k: usize,
    u: Seq<char>,
)
    requires
        records(before, after, t, k),
    ensures
        after.task_key(t) == Some(k),
        u != t ==> after.task_key(u) == before.task_key(u),
{
}

/// Recording a task again rebinds it: the later key wins.
pub proof fn law_rerecord_overwrites(
    c0: AgnesClient,
    c1: AgnesClient,
    c2: AgnesClient,
    t: Seq<char>,
    k1: usize,
    k2: usize,
)
    requires
        records(c0, c1, t, k1),
        records(c1, c2, t, k2),
    ensures
        c2.task_key(t) == Some(k2),
{
}

/// Round robin: over any `n` consecutive cursor positions, the key
/// positions `cursor % n` visit every one of the `n` keys.
pub proof fn law_round_robin_visits_every_key(start: int, n: int, j: int)
    requires
        0 <= start,
        0 < n,
        0 <= j < n,
    ensures
        exists|i: int| 0 <= i < n && #[trigger] ((start + i) % n) == j,
{
    let i = (j - start) % n;
    vstd::arithmetic::div_mod::lemma_mod_bound(j - start, n);
    vstd::arithmetic::div_mod::lemma_add_mod_noop_right(start, j - start, n);
    assert(start + (j - start) == j);
    vstd::arithmetic::div_mod::lemma_small_mod(j as nat, n as nat);
    assert((start + i) % n == j);
}

/// Task statuses are read case-insensitively: a status string and its
/// lower-cased form classify alike.
pub proof fn law_classify_ignores_case(s: Seq<char>)
    ensures
        classify(s) == classify(lower(s)),
{
    crate::text::lemma_lower_idempotent(s);
}


/// How a task status reads, whatever its ASCII case: `queued`,
/// `in_progress`, `processing`, `submitted` and `pending` are running;
/// `completed`, `succeeded` and `success` are done; `failed`, `cancelled`,
/// `canceled` and `error` are failed; any other status is unknown.
pub proof fn law_classify_table(s: Seq<char>)
    ensures
        ({
            let l = lower(s);
            &&& (l == "queued"@ || l == "in_progress"@ || l == "processing"@ || l
                == "submitted"@ || l == "pending"@) ==> classify(s) == TaskStatus::Running
            &&& (l == "completed"@ || l == "succeeded"@ || l == "success"@) ==> classify(s)
                == TaskStatus::Done
            &&& (l == "failed"@ || l == "cancelled"@ || l == "canceled"@ || l == "error"@)
                ==> classify(s) == TaskStatus::Failed
            &&& !(l == "queued"@ || l == "in_progress"@ || l == "processing"@ || l
                == "submitted"@ || l == "pending"@ || l == "completed"@ || l == "succeeded"@
                || l == "success"@ || l == "failed"@ || l == "cancelled"@ || l == "canceled"@
                || l == "error"@) ==> classify(s) == TaskStatus::Unknown
        }),
{
    reveal_strlit("queued");
    reveal_strlit("in_progress");
    reveal_strlit("processing");
    reveal_strlit("submitted");
    reveal_strlit("pending");
    reveal_strlit("completed");
    reveal_strlit("succeeded");
    reveal_strlit("success");
    reveal_strlit("failed");
    reveal_strlit("cancelled");
    reveal_strlit("canceled");
    reveal_strlit("error");
    assert("queued"@[0] != "failed"@[0]);
    assert("pending"@[0] != "success"@[0]);
    assert("submitted"@[0] != "completed"@[0]);
    assert("submitted"@[2] != "succeeded"@[2]);
    assert("submitted"@[0] != "cancelled"@[0]);
    assert("completed"@[0] != "succeeded"@[0]);
    assert("succeeded"@[0] != "cancelled"@[0]);
    assert("completed"@[1] != "cancelled"@[1]);
    assert("queued"@ != "failed"@);
    assert("pending"@ != "success"@);
    assert("submitted"@ != "completed"@);
    assert("submitted"@ != "succeeded"@);
    assert("submitted"@ != "cancelled"@);
    assert("completed"@ != "cancelled"@);
    assert("succeeded"@ != "cancelled"@);
    assert("failed"@ != "queued"@);
    assert("failed"@ != "in_progress"@);
    assert("failed"@ != "processing"@);
    assert("failed"@ != "submitted"@);
    assert("failed"@ != "pending"@);
    assert("failed"@ != "completed"@);
    assert("failed"@ != "succeeded"@);
    assert("failed"@ != "success"@);
    assert("cancelled"@ != "queued"@);
    assert("cancelled"@ != "in_progress"@);
    assert("cancelled"@ != "processing"@);
    assert("cancelled"@ != "submitted"@);
    assert("cancelled"@ != "pending"@);
    assert("cancelled"@ != "completed"@);
    assert("cancelled"@ != "succeeded"@);
    assert("cancelled"@ != "success"@);
    assert("canceled"@ != "queued"@);
    assert("canceled"@.len() == 8 && "in_progress"@.len() == 11);
    assert("canceled"@ != "in_progress"@);
    assert("processing"@.len() == 10);
    assert("canceled"@ != "processing"@);
    assert("canceled"@ != "submitted"@);
    assert("canceled"@ != "pending"@);
    assert("canceled"@ != "completed"@);
    assert("canceled"@ != "succeeded"@);
    assert("canceled"@ != "success"@);
    assert("error"@ != "queued"@);
    assert("error"@ != "in_progress"@);
    assert("error"@ != "processing"@);
    assert("error"@ != "submitted"@);
    assert("error"@ != "pending"@);
    assert("error"@ != "completed"@);
    assert("error"@ != "succeeded"@);
    assert("error"@ != "success"@);
}

/// Where the video URL of a task response is found: a top-level
/// `video_url` holding an http(s) string wins; failing that, a top-level
/// `url`; failing that, `remixed_from_video_id`. Whatever is found is an
/// http(s) URL.
pub proof fn law_video_url_sources(r: JsonValue)
    ensures
        ({
            let v = get_str(r, "video_url"@);
            let u = get_str(r, "url"@);
            let x = get_str(r, "remixed_from_video_id"@);
            let v_ok = v is Some && is_http_url(v->0);
            let u_ok = u is Some && is_http_url(u->0);
            let x_ok = x is Some && is_http_url(x->0);
            &&& v_ok ==> video_url_of(r) == v
            &&& !v_ok && u_ok ==> video_url_of(r) == u
            &&& !v_ok && !u_ok && x_ok ==> video_url_of(r) == x
        }),
        video_url_of(r) matches Some(u) ==> is_http_url(u),
    decreases r,
{
    if let JsonValue::Object(m) = r {
        let p = crate::json::entry_pos(m@, "data"@);
        if 0 <= p < m@.len() {
            assert(decreases_to!(r => r->Object_0));
            assert(decreases_to!(m => m@));
            assert(decreases_to!(m@ => m@[p]));
            assert(decreases_to!(m@[p] => m@[p].1));
            law_video_url_sources(m@[p].1);
        }
    }
}

/// The cooldown a key-caused failure earns: HTTP 429 cools the key for the
/// configured rate-limit cooldown, HTTP 401 and 403 for the configured
/// authentication cooldown (as `after_attempt` applies them from `now`).
pub proof fn law_cooldown_by_status(before: AgnesClient, after: AgnesClient, k: int, status: u16, now: u64)
    requires
        is_key_status(status),
        after.cooldown_until(k) == sat_add(now, cooldown_for(before, status)),
    ensures
        status == 429 ==> after.cooldown_until(k) == sat_add(now, before.rate_limit_cooldown()),
        (status == 401 || status == 403) ==> after.cooldown_until(k) == sat_add(
            now,
            before.auth_cooldown(),
        ),
{
}

} // verus!
