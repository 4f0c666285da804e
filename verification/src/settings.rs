//! Rules of the Settings window: how a partial update is checked and merged,
//! and which system permissions the chosen workflow needs.

use crate::automation::{
    trimmed_string, AutomationActionKind, AutomationConfig, AutomationTrigger, FileWriteMode,
    KeywordPosition,
};
use crate::models::{ui_language_of_locale, HotkeyKind, SttEngine, UiLanguage};
use crate::text::{chars_of, push_str, same_text, string_of_range, trim, trimmed};
use crate::tray::has_engine;
use vstd::prelude::*;

verus! {

broadcast use vstd::string::group_string_axioms;

/// The character sequences of a list of strings.
pub open spec fn texts(v: Seq<String>) -> Seq<Seq<char>> {
    v.map_values(|s: String| s@)
}

/// The strings of `v` that are not blank, in order.
pub open spec fn non_blank(v: Seq<Seq<char>>) -> Seq<Seq<char>>
    decreases v.len(),
{
    if v.len() == 0 {
        v
    } else if trim(v.last()).len() > 0 {
        non_blank(v.drop_last()).push(v.last())
    } else {
        non_blank(v.drop_last())
    }
}

/// The strings of `v` that are not blank, in order.
pub fn keep_non_blank(v: &Vec<String>) -> (r: Vec<String>)
    ensures
        texts(r@) == non_blank(texts(v@)),
{
    let mut r: Vec<String> = Vec::new();
    let mut i: usize = 0;
    while i < v.len()
        invariant
            i <= v@.len(),
            texts(r@) == non_blank(texts(v@.take(i as int))),
        decreases v@.len() - i,
    {
        let t = trimmed(v[i].as_str());
        proof {
            assert(texts(v@.take(i + 1)).drop_last() =~= texts(v@.take(i as int)));
            assert(texts(v@.take(i + 1)).last() == v@[i as int]@);
        }
        if !t.as_str().is_empty() {
            let ghost before = r@;
            r.push(v[i].clone());
            assert(texts(r@) =~= texts(before).push(v@[i as int]@));
        }
        i = i + 1;
    }
    assert(v@.take(v@.len() as int) =~= v@);
    r
}

/// A partial update of the automation settings.
#[derive(Debug, Default)]
pub struct AutomationPatch {
    pub enabled: Option<bool>,
    pub trigger: Option<AutomationTrigger>,
    pub keyword: Option<String>,
    pub keyword_position: Option<KeywordPosition>,
    pub action_kind: Option<AutomationActionKind>,
    pub command: Option<String>,
    pub arguments: Option<Vec<String>>,
    pub file_path: Option<String>,
    pub file_mode: Option<FileWriteMode>,
    pub secret: Option<String>,
    pub clear_secret: Option<bool>,
}

/// `new` where the patch sets a value, `old` otherwise.
pub open spec fn patched<T>(p: Option<T>, old: T) -> T {
    match p {
        Some(v) => v,
        None => old,
    }
}

/// A text field after a patch: the trimmed new value, or the old one.
pub open spec fn patched_text(p: Option<String>, old: Seq<char>) -> Seq<char> {
    match p {
        Some(v) => trim(v@),
        None => old,
    }
}

/// The secret after a patch: cleared on request; otherwise replaced by a
/// non-blank new secret (kept as typed); otherwise unchanged.
pub open spec fn patched_secret(p: AutomationPatch, old: Option<Seq<char>>) -> Option<Seq<char>> {
    if patched(p.clear_secret, false) {
        None
    } else {
        match p.secret {
            Some(s) => if trim(s@).len() > 0 {
                Some(s@)
            } else {
                old
            },
            None => old,
        }
    }
}

/// The secret of a configuration, as text.
pub open spec fn secret_text(c: AutomationConfig) -> Option<Seq<char>> {
    match c.secret {
        Some(s) => Some(s@),
        None => None,
    }
}

impl AutomationPatch {
    /// The configuration with every field the patch sets replaced: texts
    /// trimmed, blank arguments dropped, the secret as `patched_secret` says.
    pub fn apply_to(&self, current: &AutomationConfig) -> (r: AutomationConfig)
        ensures
            r.enabled == patched(self.enabled, current.enabled),
            r.trigger == patched(self.trigger, current.trigger),
            r.keyword@ == patched_text(self.keyword, current.keyword@),
            r.keyword_position == patched(self.keyword_position, current.keyword_position),
            r.action_kind == patched(self.action_kind, current.action_kind),
            r.command@ == patched_text(self.command, current.command@),
            texts(r.arguments@) == match self.arguments {
                Some(a) => non_blank(texts(a@)),
                None => texts(current.arguments@),
            },
            r.file_path@ == patched_text(self.file_path, current.file_path@),
            r.file_mode == patched(self.file_mode, current.file_mode),
            secret_text(r) == patched_secret(*self, secret_text(*current)),
    {
        let enabled = match self.enabled {
            Some(v) => v,
            None => current.enabled,
        };
        let trigger = match self.trigger {
            Some(v) => v,
            None => current.trigger,
        };
        let keyword = match &self.keyword {
            Some(v) => trimmed_string(v),
            None => current.keyword.clone(),
        };
        let keyword_position = match self.keyword_position {
            Some(v) => v,
            None => current.keyword_position,
        };
        let action_kind = match self.action_kind {
            Some(v) => v,
            None => current.action_kind,
        };
        let command = match &self.command {
            Some(v) => trimmed_string(v),
            None => current.command.clone(),
        };
        let arguments = match &self.arguments {
            Some(v) => keep_non_blank(v),
            None => {
                let a = crate::automation::clone_strings(&current.arguments);
                assert(texts(a@) =~= texts(current.arguments@));
                a
            },
        };
        let file_path = match &self.file_path {
            Some(v) => trimmed_string(v),
            None => current.file_path.clone(),
        };
        let file_mode = match self.file_mode {
            Some(v) => v,
            None => current.file_mode,
        };
        let clear = match self.clear_secret {
            Some(v) => v,
            None => false,
        };
        let secret: Option<String> = if clear {
            None
        } else {
            let kept: Option<String> = match &current.secret {
                Some(s) => Some(s.clone()),
                None => None,
            };
            match &self.secret {
                Some(s) => {
                    let t = trimmed(s.as_str());
                    if !t.as_str().is_empty() {
                        Some(s.clone())
                    } else {
                        kept
                    }
                },
                None => kept,
            }
        };
        AutomationConfig {
            enabled,
            trigger,
            keyword,
            keyword_position,
            action_kind,
            command,
            arguments,
            file_path,
            file_mode,
            secret,
        }
    }
}

// ---------------------------------------------------------------------------
// Checks before a settings update is saved
// ---------------------------------------------------------------------------

/// Why a new local model cannot be selected, if it cannot: it must be one of
/// the known models, and a model other than the current one must already be
/// downloaded (`ready`).
pub open spec fn local_model_error(model: Seq<char>, current: Seq<char>, ready: bool) -> Option<
    Seq<char>,
> {
    if model != "whisper-base"@ && model != "parakeet-v3"@ {
        Some("Unknown local model: "@ + model)
    } else if model != current && !ready {
        Some(
            "Local model '"@ + model + "' is not downloaded yet. Download it before selecting it."@,
        )
    } else {
        None
    }
}

pub fn check_local_model(model: &str, current: &str, ready: bool) -> (r: Result<(), String>)
    ensures
        match r {
            Ok(()) => local_model_error(model@, current@, ready) is None,
            Err(e) => local_model_error(model@, current@, ready) == Some(e@),
        },
{
    if !same_text(model, "whisper-base") && !same_text(model, "parakeet-v3") {
        let mut m = "Unknown local model: ".to_string();
        push_str(&mut m, model);
        return Err(m);
    }
    if !same_text(model, current) && !ready {
        let mut m = "Local model '".to_string();
        push_str(&mut m, model);
        push_str(&mut m, "' is not downloaded yet. Download it before selecting it.");
        return Err(m);
    }
    Ok(())
}

/// A typed local command: blank means none.
pub fn optional_command(value: &str) -> (r: Option<String>)
    ensures
        match r {
            Some(c) => trim(value@).len() > 0 && c@ == value@,
            None => trim(value@).len() == 0,
        },
{
    let t = trimmed(value);
    if t.as_str().is_empty() {
        None
    } else {
        Some(value.to_string())
    }
}

/// Whether the local engine can run with `model`: the model is downloaded,
/// and Parakeet also needs a non-blank command, configured or else taken
/// from the environment.
pub open spec fn local_runtime_ready(
    model: Seq<char>,
    model_ready: bool,
    local_command: Option<Seq<char>>,
    env_command: Option<Seq<char>>,
) -> bool {
    model_ready && (model != "parakeet-v3"@ || match local_command {
        Some(c) => trim(c).len() > 0,
        None => match env_command {
            Some(c) => trim(c).len() > 0,
            None => false,
        },
    })
}

pub fn local_engine_ready(
    model: &str,
    model_ready: bool,
    local_command: Option<&str>,
    env_command: Option<&str>,
) -> (r: bool)
    ensures
        r == local_runtime_ready(
            model@,
            model_ready,
            match local_command {
                Some(c) => Some(c@),
                None => None,
            },
            match env_command {
                Some(c) => Some(c@),
                None => None,
            },
        ),
{
    model_ready && runtime_configured(model, local_command, env_command)
}

/// A new cascade that holds Local is refused while the local engine cannot
/// run.
pub fn check_engine_order(engine_order: &[SttEngine], local_ready: bool) -> (r: Result<(), String>)
    ensures
        match r {
            Ok(()) => !engine_order@.contains(SttEngine::Local) || local_ready,
            Err(e) => engine_order@.contains(SttEngine::Local) && !local_ready && e@
                == "Local engine is unavailable. Download the selected model and configure its runtime first."@,
        },
{
    if has_engine(engine_order, SttEngine::Local) && !local_ready {
        Err(
            "Local engine is unavailable. Download the selected model and configure its runtime first.".to_string(),
        )
    } else {
        Ok(())
    }
}

/// The API key after an update: `None` leaves it as it is; `Some(None)`
/// removes it (on request, or when the new key is blank).
pub fn api_key_update(clear: Option<bool>, key: Option<String>) -> (r: Option<Option<String>>)
    ensures
        patched(clear, false) ==> r == Some(None::<String>),
        !patched(clear, false) ==> match key {
            None => r is None,
            Some(k) => if trim(k@).len() == 0 {
                r == Some(None::<String>)
            } else {
                r matches Some(Some(v)) && v@ == k@
            },
        },
{
    let c = match clear {
        Some(v) => v,
        None => false,
    };
    if c {
        return Some(None);
    }
    match key {
        None => None,
        Some(k) => {
            let t = trimmed(k.as_str());
            if t.as_str().is_empty() {
                Some(None)
            } else {
                Some(Some(k))
            }
        },
    }
}

/// `s` without any trailing `/`.
pub open spec fn without_trailing_slashes(s: Seq<char>) -> Seq<char>
    decreases s.len(),
{
    if s.len() > 0 && s.last() == '/' {
        without_trailing_slashes(s.drop_last())
    } else {
        s
    }
}

/// A base URL as it is stored: trimmed, with trailing slashes removed.
pub fn normalize_base_url(value: &str) -> (r: String)
    ensures
        r@ == without_trailing_slashes(trim(value@)),
{
    let t = trimmed(value);
    let v = chars_of(t.as_str());
    let mut end: usize = v.len();
    assert(v@.take(end as int) =~= v@);
    while end > 0 && v[end - 1] == '/'
        invariant
            end <= v@.len(),
            without_trailing_slashes(v@.take(end as int)) == without_trailing_slashes(v@),
        decreases end,
    {
        assert(v@.take(end as int).drop_last() =~= v@.take(end - 1));
        end = end - 1;
    }
    let r = string_of_range(&v, 0, end);
    assert(r@ =~= v@.take(end as int));
    r
}

// ---------------------------------------------------------------------------
// Permissions
// ---------------------------------------------------------------------------

/// Which permissions the system reports as granted (`None` where it says
/// nothing).
#[derive(Debug, Clone, Copy)]
pub struct GrantedPermissions {
    pub microphone: Option<bool>,
    pub accessibility: Option<bool>,
    pub input_monitoring: Option<bool>,
    pub speech_recognition: Option<bool>,
}

/// Permissions needed by the selected workflow, and which of them are
/// missing. Microphone and Accessibility are always needed.
#[derive(Debug, Clone, Copy, PartialEq, Eq)]
pub struct PermissionRequirements {
    pub input_monitoring: bool,
    pub speech_recognition: bool,
    pub missing_microphone: bool,
    pub missing_accessibility: bool,
    pub missing_input_monitoring: bool,
    pub missing_speech_recognition: bool,
}

/// Whether a permission is reported as granted.
pub open spec fn granted(p: Option<bool>) -> bool {
    p == Some(true)
}

/// Speech Recognition is needed only when Native is the first engine; Input
/// Monitoring only on macOS, for modifier-only hotkeys or the Fn + Control
/// automation.
pub fn permission_requirements(
    engine_order: &[SttEngine],
    hotkey: HotkeyKind,
    automation: &AutomationConfig,
    on_macos: bool,
    permissions: GrantedPermissions,
) -> (r: PermissionRequirements)
    ensures
        r.speech_recognition == (engine_order@.len() > 0 && engine_order@[0] == SttEngine::Native),
        r.input_monitoring == (on_macos && (crate::models::is_modifier_key(hotkey) || (
        automation.enabled && automation.trigger == AutomationTrigger::FnControl))),
        r.missing_microphone == !granted(permissions.microphone),
        r.missing_accessibility == !granted(permissions.accessibility),
        r.missing_input_monitoring == (r.input_monitoring && !granted(
            permissions.input_monitoring,
        )),
        r.missing_speech_recognition == (r.speech_recognition && !granted(
            permissions.speech_recognition,
        )),
{
    let speech = engine_order.len() > 0 && engine_order[0] == SttEngine::Native;
    let input_monitoring = on_macos && (hotkey.needs_modifier_monitor()
        || automation.requires_fn_control_monitor());
    let is_granted = |p: Option<bool>| -> (g: bool)
        ensures
            g == granted(p),
        {
            match p {
                Some(v) => v,
                None => false,
            }
        };
    PermissionRequirements {
        input_monitoring,
        speech_recognition: speech,
        missing_microphone: !is_granted(permissions.microphone),
        missing_accessibility: !is_granted(permissions.accessibility),
        missing_input_monitoring: input_monitoring && !is_granted(permissions.input_monitoring),
        missing_speech_recognition: speech && !is_granted(permissions.speech_recognition),
    }
}

impl PermissionRequirements {
    /// Whether any needed permission is missing.
    pub fn any_missing(&self) -> (r: bool)
        ensures
            r == (self.missing_microphone || self.missing_accessibility
                || self.missing_input_monitoring || self.missing_speech_recognition),
    {
        self.missing_microphone || self.missing_accessibility || self.missing_input_monitoring
            || self.missing_speech_recognition
    }
}

// ---------------------------------------------------------------------------
// UI language and model status
// ---------------------------------------------------------------------------

/// The UI language at start-up: the saved one, else the web view's locale
/// where it is not empty, else the system's. It is saved when it was not.
pub fn initial_ui_language(current: Option<UiLanguage>, locale: Option<&str>, system: UiLanguage) -> (r:
    (UiLanguage, bool))
    ensures
        r.1 == current is None,
        r.0 == match current {
            Some(l) => l,
            None => match locale {
                Some(s) => if s@.len() > 0 {
                    ui_language_of_locale(s@)
                } else {
                    system
                },
                None => system,
            },
        },
{
    match current {
        Some(l) => (l, false),
        None => {
            let selected = match locale {
                Some(s) => {
                    if !s.is_empty() {
                        UiLanguage::from_locale(s)
                    } else {
                        system
                    }
                },
                None => system,
            };
            (selected, true)
        },
    }
}

/// How the Settings window reports a local model.
#[derive(Debug, Clone, Copy, PartialEq, Eq, Structural)]
pub enum LocalModelState {
    /// The model file is not there.
    Missing,
    /// The model is there and its runtime is configured.
    Ready,
    /// The model is there but its runtime command is not configured.
    RuntimeMissing,
}

/// Whether the runtime of `model` is configured: Parakeet needs a non-blank
/// command, configured or else from the environment; whisper.cpp is built in.
pub fn runtime_configured(model: &str, local_command: Option<&str>, env_command: Option<&str>) -> (r:
    bool)
    ensures
        r == (model@ != "parakeet-v3"@ || match local_command {
            Some(c) => trim(c@).len() > 0,
            None => match env_command {
                Some(c) => trim(c@).len() > 0,
                None => false,
            },
        }),
{
    if !same_text(model, "parakeet-v3") {
        return true;
    }
    let command = match local_command {
        Some(c) => c,
        None => match env_command {
            Some(c) => c,
            None => {
                return false;
            },
        },
    };
    let t = trimmed(command);
    !t.as_str().is_empty()
}

/// The state shown for a local model.
pub fn local_model_state(present: bool, runtime_configured: bool) -> (r: LocalModelState)
    ensures
        r == if !present {
            LocalModelState::Missing
        } else if runtime_configured {
            LocalModelState::Ready
        } else {
            LocalModelState::RuntimeMissing
        },
{
    if !present {
        LocalModelState::Missing
    } else if runtime_configured {
        LocalModelState::Ready
    } else {
        LocalModelState::RuntimeMissing
    }
}

} // verus!
