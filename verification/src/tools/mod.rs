//! MCP tool logic for the Agnes AI models.
//!
//! Tools provided:
//! - [`image`] — `agnes_generate_image` (text-to-image & image-to-image)
//! - [`image_recognition`] — `agnes_image_recognition` (vision / image understanding)
//! - [`video`] — `agnes_generate_video` and `agnes_video_status`
//! - [`prompt`] — prompt enhancement used by image and video generation
//! - [`chat`] — chat completions
//! - [`health`] — the health check report of the CLI

pub mod agnes_client;
pub mod chat;
pub mod health;
pub mod image;
pub mod image_recognition;
pub mod prompt;
pub mod video;

use vstd::prelude::*;

use crate::config::{dedup, nonempty_only, trim_each, AgnesConfig};
use crate::text::{contains_string, owned, push_string, str_eq, trim_str};
use agnes_client::AgnesClient;
use crate::error::Error;
use crate::json::JsonValue;
use prompt::{enhanced_prompt, enhanced_prompt_of};

verus! {

/// Tool name: Agnes image recognition (vision).
pub const TOOL_IMAGE_RECOGNITION: &'static str = "agnes_image_recognition";

/// Tool name: Agnes image generation (text-to-image & image-to-image).
pub const TOOL_GENERATE_IMAGE: &'static str = "agnes_generate_image";

/// Tool name: Agnes video generation (text-to-video & image-to-video).
pub const TOOL_GENERATE_VIDEO: &'static str = "agnes_generate_video";

/// Tool name: Agnes video task status polling.
pub const TOOL_VIDEO_STATUS: &'static str = "agnes_video_status";

/// All built-in MCP tool names exposed by this server, in registration order.
pub const AVAILABLE_TOOLS: [&'static str; 4] = [
    TOOL_IMAGE_RECOGNITION,
    TOOL_GENERATE_IMAGE,
    TOOL_GENERATE_VIDEO,
    TOOL_VIDEO_STATUS,
];

/// The built-in tool names, in registration order.
pub open spec fn tool_names() -> Seq<Seq<char>> {
    seq![
        TOOL_IMAGE_RECOGNITION@,
        TOOL_GENERATE_IMAGE@,
        TOOL_GENERATE_VIDEO@,
        TOOL_VIDEO_STATUS@,
    ]
}

/// Returns `true` if `name` matches a built-in tool name.
pub fn is_tool_name(name: &str) -> (r: bool)
    ensures
        r == tool_names().contains(name@),
{
    let r = str_eq(name, TOOL_IMAGE_RECOGNITION) || str_eq(name, TOOL_GENERATE_IMAGE) || str_eq(
        name,
        TOOL_GENERATE_VIDEO,
    ) || str_eq(name, TOOL_VIDEO_STATUS);
    proof {
        if tool_names().contains(name@) {
            let k = choose|k: int| 0 <= k < 4 && tool_names()[k] == name@;
            assert(k == 0 || k == 1 || k == 2 || k == 3);
        }
        if r {
            if name@ == TOOL_IMAGE_RECOGNITION@ {
                assert(tool_names()[0] == name@);
            } else if name@ == TOOL_GENERATE_IMAGE@ {
                assert(tool_names()[1] == name@);
            } else if name@ == TOOL_GENERATE_VIDEO@ {
                assert(tool_names()[2] == name@);
            } else {
                assert(tool_names()[3] == name@);
            }
        }
    }
    r
}

/// The entries of `s` that are built-in tool names, in order.
pub open spec fn known_only(s: Seq<Seq<char>>) -> Seq<Seq<char>>
    decreases s.len(),
{
    if s.len() == 0 {
        s
    } else {
        let rest = known_only(s.drop_last());
        if tool_names().contains(s.last()) {
            rest.push(s.last())
        } else {
            rest
        }
    }
}

/// The disabled list as the registry reads it: trimmed, empties and
/// unknown names dropped, deduplicated keeping the first occurrence.
pub open spec fn disabled_set(raw: Seq<Seq<char>>) -> Seq<Seq<char>> {
    dedup(known_only(nonempty_only(trim_each(raw))))
}

/// The entries of `names` that `disabled` does not hold, in order.
pub open spec fn without(names: Seq<Seq<char>>, disabled: Seq<Seq<char>>) -> Seq<Seq<char>>
    decreases names.len(),
{
    if names.len() == 0 {
        names
    } else {
        let rest = without(names.drop_last(), disabled);
        if disabled.contains(names.last()) {
            rest
        } else {
            rest.push(names.last())
        }
    }
}

/// The tools registered for a disabled list, in registration order.
pub open spec fn enabled_names(raw: Seq<Seq<char>>) -> Seq<Seq<char>> {
    without(tool_names(), disabled_set(raw))
}

/// Normalize a disabled list: trim, drop empties and unknown names, dedupe
/// in order. Matching is case-sensitive.
pub fn normalize_disabled(raw: &Vec<String>) -> (r: Vec<String>)
    ensures
        r.deep_view() == disabled_set(raw.deep_view()),
{
    let mut out: Vec<String> = Vec::new();
    let mut i: usize = 0;
    while i < raw.len()
        invariant
            0 <= i <= raw@.len(),
            out.deep_view() == dedup(
                known_only(nonempty_only(trim_each(raw.deep_view().take(i as int)))),
            ),
        decreases raw@.len() - i,
    {
        let t = trim_str(raw[i].as_str());
        let ghost prev = raw.deep_view().take(i as int);
        let ghost next = raw.deep_view().take(i + 1 as int);
        assert(trim_each(next).drop_last() =~= trim_each(prev));
        assert(trim_each(next).last() == t@);
        let ghost n1 = nonempty_only(trim_each(next));
        if !t.as_str().is_empty() {
            assert(n1 == nonempty_only(trim_each(prev)).push(t@));
            assert(n1.drop_last() =~= nonempty_only(trim_each(prev)));
            if is_tool_name(t.as_str()) {
                let ghost k1 = known_only(n1);
                assert(k1 == known_only(nonempty_only(trim_each(prev))).push(t@));
                assert(k1.drop_last() =~= known_only(nonempty_only(trim_each(prev))));
                if !contains_string(&out, t.as_str()) {
                    push_string(&mut out, t);
                }
            }
        }
        i = i + 1;
    }
    assert(raw.deep_view().take(raw@.len() as int) =~= raw.deep_view());
    out
}

/// The names of the tools a registry holds.
pub struct ToolRegistry {
    names: Vec<String>,
}

impl ToolRegistry {
    /// The registered tool names, in registration order.
    pub closed spec fn names(&self) -> Seq<Seq<char>> {
        self.names.deep_view()
    }

    /// Create an empty registry.
    pub fn new() -> (r: Self)
        ensures
            r.names() == Seq::<Seq<char>>::empty(),
    {
        ToolRegistry { names: Vec::new() }
    }

    /// Register a tool by name; registering a name twice keeps one entry.
    pub fn register(self, name: &str) -> (r: Self)
        ensures
            r.names() == if self.names().contains(name@) {
                self.names()
            } else {
                self.names().push(name@)
            },
    {
        let mut names = self.names;
        if !contains_string(&names, name) {
            push_string(&mut names, owned(name));
        }
        ToolRegistry { names }
    }

    /// Whether a tool of this name is registered.
    pub fn contains(&self, name: &str) -> (r: bool)
        ensures
            r == self.names().contains(name@),
    {
        contains_string(&self.names, name)
    }

    /// The registered tool names, in registration order.
    pub fn tool_names(&self) -> (r: Vec<String>)
        ensures
            r.deep_view() == self.names(),
    {
        let mut out: Vec<String> = Vec::new();
        let mut i: usize = 0;
        while i < self.names.len()
            invariant
                0 <= i <= self.names@.len(),
                out.deep_view() == self.names.deep_view().take(i as int),
            decreases self.names@.len() - i,
        {
            push_string(&mut out, owned(self.names[i].as_str()));
            assert(self.names.deep_view().take(i + 1 as int) =~= self.names.deep_view().take(
                i as int,
            ).push(self.names.deep_view()[i as int]));
            i = i + 1;
        }
        assert(self.names.deep_view().take(self.names@.len() as int) =~= self.names.deep_view());
        out
    }

    /// Number of registered tools.
    pub fn len(&self) -> (r: usize)
        ensures
            r == self.names().len(),
    {
        self.names.len()
    }

    /// Whether the registry is empty.
    pub fn is_empty(&self) -> (r: bool)
        ensures
            r == (self.names().len() == 0),
    {
        self.names.len() == 0
    }
}

/// Build the default tool registry from the Agnes configuration, with the
/// client the tools share.
///
/// Tools whose names appear in [`AgnesConfig::disabled_tools`] are skipped;
/// unknown names there are ignored. Fails when no API key is configured.
pub fn create_default_registry(config: &AgnesConfig) -> (r: crate::error::Result<
    (AgnesClient, ToolRegistry),
>)
    ensures
        r is Ok <==> config.key_pool().len() > 0,
        r matches Ok((c, reg)) ==> c.wf() && c.keys() == config.key_pool() && reg.names()
            == enabled_names(config.disabled_tools.deep_view()),
        r matches Err(e) ==> e.is_config_with(crate::config::KEY_NOT_SET_MESSAGE@),
{
    let client = match AgnesClient::new(config) {
        Ok(c) => c,
        Err(e) => return Err(e),
    };
    let disabled = normalize_disabled(&config.disabled_tools);
    let ghost d = disabled.deep_view();
    let mut names: Vec<String> = Vec::new();
    let mut i: usize = 0;
    assert(tool_names().take(0) =~= Seq::<Seq<char>>::empty());
    while i < 4
        invariant
            0 <= i <= 4,
            d == disabled.deep_view(),
            names.deep_view() == without(tool_names().take(i as int), d),
        decreases 4 - i,
    {
        let name = if i == 0 {
            TOOL_IMAGE_RECOGNITION
        } else if i == 1 {
            TOOL_GENERATE_IMAGE
        } else if i == 2 {
            TOOL_GENERATE_VIDEO
        } else {
            TOOL_VIDEO_STATUS
        };
        assert(name@ == tool_names()[i as int]);
        let ghost next = tool_names().take(i + 1 as int);
        assert(next.drop_last() =~= tool_names().take(i as int));
        if !contains_string(&disabled, name) {
            push_string(&mut names, owned(name));
        }
        i = i + 1;
    }
    assert(tool_names().take(4) =~= tool_names());
    let registry = ToolRegistry { names };
    Ok((client, registry))
}

/// Why a tool call failed: the arguments were refused, or the tool could
/// not do its work.
#[derive(Debug, Clone)]
pub enum ToolError {
    /// The arguments of `tool` are invalid; `message` says why.
    InvalidArguments { tool: String, message: String },
    /// The tool failed; the message says why.
    Failed(String),
}

impl ToolError {
    /// Whether this refuses the arguments of `tool` with `message`.
    pub open spec fn is_invalid(&self, tool: Seq<char>, message: Seq<char>) -> bool {
        self matches ToolError::InvalidArguments { tool: t, message: m } && t@ == tool && m@
            == message
    }

    /// Whether this is a failure with `message`.
    pub open spec fn is_failed(&self, message: Seq<char>) -> bool {
        self matches ToolError::Failed(m) && m@ == message
    }

    /// Invalid arguments of `tool`.
    pub fn invalid(tool: &str, message: String) -> (r: Self)
        ensures
            r.is_invalid(tool@, message@),
    {
        ToolError::InvalidArguments { tool: owned(tool), message }
    }

    /// A failure of a tool, described as `context` followed by the error.
    pub fn failed(context: &str, e: &crate::error::Error) -> (r: Self)
        ensures
            r.is_failed(context@ + e.text()),
    {
        let m = e.message();
        ToolError::Failed(crate::text::concat(context, m.as_str()))
    }
}

/// How a requested prompt enhancement ended, as the generation tools
/// read it: the enhanced prompt, or the text of the error.
#[derive(Debug, Clone)]
pub struct PromptChoice {
    /// The prompt the generation request carries.
    pub effective: String,
    /// The enhanced prompt, reported back when enhancement succeeded.
    pub enhanced_note: Option<String>,
    /// The warning reported when enhancement failed.
    pub warning: Option<String>,
}

/// The warning when prompt enhancement failed.
pub open spec fn enhance_warning(err: Seq<char>) -> Seq<char> {
    "[prompt enhancement failed: "@ + err + "], using original prompt"@
}

/// The text of an optional enhancement outcome.
pub open spec fn outcome_view(outcome: Option<core::result::Result<String, String>>) -> Option<
    core::result::Result<Seq<char>, Seq<char>>,
> {
    match outcome {
        None => None,
        Some(Ok(e)) => Some(Ok(e@)),
        Some(Err(m)) => Some(Err(m@)),
    }
}

/// Whether `c` is what a generation does with its prompt `original` after
/// the enhancement `outcome` (none when enhancement was not asked for): it
/// carries the enhanced prompt and reports it, or carries the original and
/// warns when enhancement failed.
pub open spec fn is_choice(
    c: PromptChoice,
    original: Seq<char>,
    outcome: Option<core::result::Result<Seq<char>, Seq<char>>>,
) -> bool {
    match outcome {
        None => c.effective@ == original && c.enhanced_note is None && c.warning is None,
        Some(Ok(e)) => {
            &&& c.effective@ == e
            &&& c.enhanced_note matches Some(n) && n@ == e
            &&& c.warning is None
        },
        Some(Err(m)) => {
            &&& c.effective@ == original
            &&& c.enhanced_note is None
            &&& c.warning matches Some(w) && w@ == enhance_warning(m)
        },
    }
}

/// The prompt a generation request carries: the enhanced one when
/// enhancement was asked for and succeeded; otherwise the original, with a
/// warning when enhancement failed.
pub fn choose_prompt(original: &str, outcome: Option<core::result::Result<String, String>>) -> (r:
    PromptChoice)
    ensures
        is_choice(r, original@, outcome_view(outcome)),
{
    match outcome {
        None => PromptChoice { effective: owned(original), enhanced_note: None, warning: None },
        Some(Ok(e)) => {
            let note = owned(e.as_str());
            PromptChoice { effective: e, enhanced_note: Some(note), warning: None }
        },
        Some(Err(m)) => {
            let mut w = owned("[prompt enhancement failed: ");
            crate::text::push_str(&mut w, m.as_str());
            crate::text::push_str(&mut w, "], using original prompt");
            PromptChoice { effective: owned(original), enhanced_note: None, warning: Some(w) }
        },
    }
}

/// How an enhancement reply ends for a generation: the enhanced prompt in
/// the chat reply, or the text of the error.
pub open spec fn enhancement_outcome(reply: core::result::Result<JsonValue, Error>) -> core::result::Result<
    Seq<char>,
    Seq<char>,
> {
    match reply {
        Ok(v) => enhanced_prompt_of(v),
        Err(e) => Err(e.text()),
    }
}

/// The prompt choice of a generation once its enhancement request was
/// answered with `reply`.
pub fn choose_enhanced(original: &str, reply: core::result::Result<JsonValue, Error>) -> (r:
    PromptChoice)
    ensures
        is_choice(r, original@, Some(enhancement_outcome(reply))),
{
    let outcome = match reply {
        Ok(v) => enhanced_prompt(&v),
        Err(e) => Err(e.message()),
    };
    choose_prompt(original, Some(outcome))
}

proof fn lemma_known_only(s: Seq<Seq<char>>)
    ensures
        forall|x: Seq<char>|
            #![trigger known_only(s).contains(x)]
            known_only(s).contains(x) <==> (s.contains(x) && tool_names().contains(x)),
    decreases s.len(),
{
    if s.len() > 0 {
        let p = s.drop_last();
        lemma_known_only(p);
        let r = known_only(p);
        assert forall|x: Seq<char>| #![trigger known_only(s).contains(x)] known_only(s).contains(x) <==> (
        s.contains(x) && tool_names().contains(x)) by {
            if s.contains(x) {
                let k = choose|k: int| 0 <= k < s.len() && s[k] == x;
                if k < s.len() - 1 {
                    assert(p[k] == x);
                }
            }
            if p.contains(x) {
                let k = choose|k: int| 0 <= k < p.len() && p[k] == x;
                assert(s[k] == x);
            }
            if tool_names().contains(s.last()) {
                let e = r.push(s.last());
                if e.contains(x) {
                    let k = choose|k: int| 0 <= k < e.len() && e[k] == x;
                    if k < r.len() {
                        assert(r[k] == x);
                    }
                }
                if r.contains(x) {
                    let k = choose|k: int| 0 <= k < r.len() && r[k] == x;
                    assert(e[k] == x);
                }
                if x == s.last() {
                    assert(e[r.len() as int] == x);
                }
            }
            assert(s.last() == s[s.len() - 1]);
        }
    }
}

proof fn lemma_without(names: Seq<Seq<char>>, d: Seq<Seq<char>>)
    ensures
        forall|x: Seq<char>|
            #![trigger without(names, d).contains(x)]
            without(names, d).contains(x) <==> (names.contains(x) && !d.contains(x)),
    decreases names.len(),
{
    if names.len() > 0 {
        let p = names.drop_last();
        lemma_without(p, d);
        let r = without(p, d);
        assert forall|x: Seq<char>| #![trigger without(names, d).contains(x)] without(
            names,
            d,
        ).contains(x) <==> (names.contains(x) && !d.contains(x)) by {
            if names.contains(x) {
                let k = choose|k: int| 0 <= k < names.len() && names[k] == x;
                if k < names.len() - 1 {
                    assert(p[k] == x);
                }
            }
            if p.contains(x) {
                let k = choose|k: int| 0 <= k < p.len() && p[k] == x;
                assert(names[k] == x);
            }
            if !d.contains(names.last()) {
                let e = r.push(names.last());
                if e.contains(x) {
                    let k = choose|k: int| 0 <= k < e.len() && e[k] == x;
                    if k < r.len() {
                        assert(r[k] == x);
                    }
                }
                if r.contains(x) {
                    let k = choose|k: int| 0 <= k < r.len() && r[k] == x;
                    assert(e[k] == x);
                }
                if x == names.last() {
                    assert(e[r.len() as int] == x);
                }
            }
            assert(names.last() == names[names.len() - 1]);
        }
    }
}

/// The registry holds exactly the built-in tools that the disabled list
/// does not name (after trimming); names in the list that are not tools,
/// or that are empty, disable nothing.
pub proof fn law_registry_skips_disabled(raw: Seq<Seq<char>>, t: Seq<char>)
    ensures
        enabled_names(raw).contains(t) <==> (tool_names().contains(t) && !trim_each(raw).contains(
            t,
        )),
{
    reveal_strlit("agnes_image_recognition");
    reveal_strlit("agnes_generate_image");
    reveal_strlit("agnes_generate_video");
    reveal_strlit("agnes_video_status");
    let d = disabled_set(raw);
    lemma_without(tool_names(), d);
    crate::config::lemma_dedup(known_only(nonempty_only(trim_each(raw))));
    lemma_known_only(nonempty_only(trim_each(raw)));
    crate::config::lemma_nonempty_only(trim_each(raw));
    let n = nonempty_only(trim_each(raw));
    assert(enabled_names(raw).contains(t) <==> (tool_names().contains(t) && !d.contains(t)));
    assert(d.contains(t) <==> known_only(n).contains(t));
    assert(known_only(n).contains(t) <==> (n.contains(t) && tool_names().contains(t)));
    assert(n.contains(t) <==> (trim_each(raw).contains(t) && t.len() > 0));
    if tool_names().contains(t) {
        let k = choose|k: int| 0 <= k < 4 && tool_names()[k] == t;
        assert(t.len() > 0);
    }
}

} // verus!
