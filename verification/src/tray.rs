//! What the tray menu shows and what its items mean: item ids, model
//! labels, and the command each menu event stands for.

use crate::config::toggle_engine;
use crate::models::{
    engine_title_for, hotkey_title_for, language_title_for, ui_text, ActivationMode, HotkeyKind,
    Language, SttEngine, UiLanguage, UiText,
};
use crate::number::{parse_usize, parsed_usize};
use crate::text::{push_str, same_text, strip_prefix_str, trim};
use vstd::prelude::*;

verus! {

broadcast use vstd::string::group_string_axioms;

impl Language {
    /// Every speech language, in menu order.
    pub fn all_cases() -> (r: Vec<Language>)
        ensures
            r@ == seq![Language::Ru, Language::En, Language::Zh, Language::Auto],
    {
        vec![Language::Ru, Language::En, Language::Zh, Language::Auto]
    }
}

/// Menu id suffix of each hotkey.
pub open spec fn hotkey_id_spec(kind: HotkeyKind) -> Seq<char> {
    match kind {
        HotkeyKind::Fn => "fn"@,
        HotkeyKind::RightOption => "right_option"@,
        HotkeyKind::RightControl => "right_control"@,
        HotkeyKind::RightCommand => "right_command"@,
        HotkeyKind::RightShift => "right_shift"@,
        HotkeyKind::CapsLock => "caps_lock"@,
        HotkeyKind::F13 => "f13"@,
        HotkeyKind::F14 => "f14"@,
        HotkeyKind::F15 => "f15"@,
    }
}

/// The hotkey a menu id suffix names; unknown suffixes mean Fn.
pub open spec fn hotkey_of_id(id: Seq<char>) -> HotkeyKind {
    if id == "right_option"@ {
        HotkeyKind::RightOption
    } else if id == "right_control"@ {
        HotkeyKind::RightControl
    } else if id == "right_command"@ {
        HotkeyKind::RightCommand
    } else if id == "right_shift"@ {
        HotkeyKind::RightShift
    } else if id == "caps_lock"@ {
        HotkeyKind::CapsLock
    } else if id == "f13"@ {
        HotkeyKind::F13
    } else if id == "f14"@ {
        HotkeyKind::F14
    } else if id == "f15"@ {
        HotkeyKind::F15
    } else {
        HotkeyKind::Fn
    }
}

/// Menu id suffix of a hotkey (`hotkey_<id>`).
pub fn hotkey_id(kind: HotkeyKind) -> (r: &'static str)
    ensures
        r@ == hotkey_id_spec(kind),
{
    match kind {
        HotkeyKind::Fn => "fn",
        HotkeyKind::RightOption => "right_option",
        HotkeyKind::RightControl => "right_control",
        HotkeyKind::RightCommand => "right_command",
        HotkeyKind::RightShift => "right_shift",
        HotkeyKind::CapsLock => "caps_lock",
        HotkeyKind::F13 => "f13",
        HotkeyKind::F14 => "f14",
        HotkeyKind::F15 => "f15",
    }
}

/// The hotkey named by a menu id suffix.
pub fn hotkey_from_id(id: &str) -> (r: HotkeyKind)
    ensures
        r == hotkey_of_id(id@),
{
    if same_text(id, "right_option") {
        HotkeyKind::RightOption
    } else if same_text(id, "right_control") {
        HotkeyKind::RightControl
    } else if same_text(id, "right_command") {
        HotkeyKind::RightCommand
    } else if same_text(id, "right_shift") {
        HotkeyKind::RightShift
    } else if same_text(id, "caps_lock") {
        HotkeyKind::CapsLock
    } else if same_text(id, "f13") {
        HotkeyKind::F13
    } else if same_text(id, "f14") {
        HotkeyKind::F14
    } else if same_text(id, "f15") {
        HotkeyKind::F15
    } else {
        HotkeyKind::Fn
    }
}

/// `e` differs from `lit` at index `k`, so it neither equals `lit` nor
/// starts with it.
proof fn lemma_differs_at(e: Seq<char>, lit: Seq<char>, k: int)
    requires
        0 <= k < lit.len(),
        k < e.len(),
        e[k] != lit[k],
    ensures
        e != lit,
        !lit.is_prefix_of(e),
{
}

/// Every hotkey's id names that hotkey again.
pub proof fn lemma_hotkey_id_round_trip(kind: HotkeyKind)
    ensures
        hotkey_of_id(hotkey_id_spec(kind)) == kind,
{
    reveal_strlit("fn");
    reveal_strlit("right_option");
    reveal_strlit("right_control");
    reveal_strlit("right_command");
    reveal_strlit("right_shift");
    reveal_strlit("caps_lock");
    reveal_strlit("f13");
    reveal_strlit("f14");
    reveal_strlit("f15");
    let id = hotkey_id_spec(kind);
    match kind {
        HotkeyKind::Fn => {
            lemma_differs_at(id, "right_option"@, 0);
            lemma_differs_at(id, "right_control"@, 0);
            lemma_differs_at(id, "right_command"@, 0);
            lemma_differs_at(id, "right_shift"@, 0);
            lemma_differs_at(id, "caps_lock"@, 0);
            lemma_differs_at(id, "f13"@, 1);
            lemma_differs_at(id, "f14"@, 1);
            lemma_differs_at(id, "f15"@, 1);
        },
        HotkeyKind::RightOption => {},
        HotkeyKind::RightControl => {
            lemma_differs_at(id, "right_option"@, 6);
        },
        HotkeyKind::RightCommand => {
            lemma_differs_at(id, "right_option"@, 6);
            lemma_differs_at(id, "right_control"@, 8);
        },
        HotkeyKind::RightShift => {
            lemma_differs_at(id, "right_option"@, 6);
            lemma_differs_at(id, "right_control"@, 6);
            lemma_differs_at(id, "right_command"@, 6);
        },
        HotkeyKind::CapsLock => {
            lemma_differs_at(id, "right_option"@, 0);
            lemma_differs_at(id, "right_control"@, 0);
            lemma_differs_at(id, "right_command"@, 0);
            lemma_differs_at(id, "right_shift"@, 0);
        },
        HotkeyKind::F13 => {
            lemma_differs_at(id, "right_option"@, 0);
            lemma_differs_at(id, "right_control"@, 0);
            lemma_differs_at(id, "right_command"@, 0);
            lemma_differs_at(id, "right_shift"@, 0);
            lemma_differs_at(id, "caps_lock"@, 0);
        },
        HotkeyKind::F14 => {
            lemma_differs_at(id, "right_option"@, 0);
            lemma_differs_at(id, "right_control"@, 0);
            lemma_differs_at(id, "right_command"@, 0);
            lemma_differs_at(id, "right_shift"@, 0);
            lemma_differs_at(id, "caps_lock"@, 0);
            lemma_differs_at(id, "f13"@, 2);
        },
        HotkeyKind::F15 => {
            lemma_differs_at(id, "right_option"@, 0);
            lemma_differs_at(id, "right_control"@, 0);
            lemma_differs_at(id, "right_command"@, 0);
            lemma_differs_at(id, "right_shift"@, 0);
            lemma_differs_at(id, "caps_lock"@, 0);
            lemma_differs_at(id, "f13"@, 2);
            lemma_differs_at(id, "f14"@, 2);
        },
    }
}

/// The speech language a menu code names; unknown codes mean Auto.
pub open spec fn language_of_code(code: Seq<char>) -> Language {
    if code == "ru"@ {
        Language::Ru
    } else if code == "en"@ {
        Language::En
    } else if code == "zh"@ {
        Language::Zh
    } else {
        Language::Auto
    }
}

/// The UI language a menu code names; unknown codes mean English.
pub open spec fn ui_language_of_code(code: Seq<char>) -> UiLanguage {
    if code == "ru"@ {
        UiLanguage::Ru
    } else if code == "zh"@ {
        UiLanguage::Zh
    } else {
        UiLanguage::En
    }
}

pub fn language_from_code(code: &str) -> (r: Language)
    ensures
        r == language_of_code(code@),
{
    if same_text(code, "ru") {
        Language::Ru
    } else if same_text(code, "en") {
        Language::En
    } else if same_text(code, "zh") {
        Language::Zh
    } else {
        Language::Auto
    }
}

pub fn ui_language_from_code(code: &str) -> (r: UiLanguage)
    ensures
        r == ui_language_of_code(code@),
{
    if same_text(code, "ru") {
        UiLanguage::Ru
    } else if same_text(code, "zh") {
        UiLanguage::Zh
    } else {
        UiLanguage::En
    }
}

/// The label of a model id in the tray; unknown ids are shown as they are.
pub open spec fn model_label(ui: UiLanguage, model: Seq<char>) -> Seq<char> {
    if model == "remote_auto"@ {
        match ui {
            UiLanguage::Ru => "Удалённая: Whisper API"@,
            UiLanguage::Zh => "远程：Whisper API"@,
            UiLanguage::En => "Remote: Whisper API"@,
        }
    } else if model == "whisper"@ {
        match ui {
            UiLanguage::Ru => "Локальная: Whisper base"@,
            UiLanguage::Zh => "本地：Whisper base"@,
            UiLanguage::En => "Local: Whisper base"@,
        }
    } else if model == "parakeet"@ {
        match ui {
            UiLanguage::Ru => "Локальная: Parakeet v3"@,
            UiLanguage::Zh => "本地：Parakeet v3"@,
            UiLanguage::En => "Local: Parakeet v3"@,
        }
    } else {
        model
    }
}

pub fn format_model(ui: UiLanguage, model: &str) -> (r: String)
    ensures
        r@ == model_label(ui, model@),
{
    if same_text(model, "remote_auto") {
        match ui {
            UiLanguage::Ru => "Удалённая: Whisper API".to_string(),
            UiLanguage::Zh => "远程：Whisper API".to_string(),
            UiLanguage::En => "Remote: Whisper API".to_string(),
        }
    } else if same_text(model, "whisper") {
        match ui {
            UiLanguage::Ru => "Локальная: Whisper base".to_string(),
            UiLanguage::Zh => "本地：Whisper base".to_string(),
            UiLanguage::En => "Local: Whisper base".to_string(),
        }
    } else if same_text(model, "parakeet") {
        match ui {
            UiLanguage::Ru => "Локальная: Parakeet v3".to_string(),
            UiLanguage::Zh => "本地：Parakeet v3".to_string(),
            UiLanguage::En => "Local: Parakeet v3".to_string(),
        }
    } else {
        model.to_string()
    }
}

/// Whether `order` holds `engine`.
pub fn has_engine(order: &[SttEngine], engine: SttEngine) -> (r: bool)
    ensures
        r == order@.contains(engine),
{
    let mut i: usize = 0;
    while i < order.len()
        invariant
            i <= order@.len(),
            forall|k: int| 0 <= k < i ==> order@[k] != engine,
        decreases order@.len() - i,
    {
        if order[i] == engine {
            assert(order@[i as int] == engine);
            return true;
        }
        i = i + 1;
    }
    false
}

/// The model the tray summarises: the remote model while Remote is in the
/// cascade, the local model otherwise.
pub fn model_summary(engine_order: &[SttEngine], model: &str, local_model: &str) -> (r: String)
    ensures
        r@ == if engine_order@.contains(SttEngine::Remote) {
            model@
        } else {
            local_model@
        },
{
    if has_engine(engine_order, SttEngine::Remote) {
        model.to_string()
    } else {
        local_model.to_string()
    }
}

// ---------------------------------------------------------------------------
// Menu events
// ---------------------------------------------------------------------------

/// Settings the tray flips on and off.
#[derive(Debug, Clone, Copy, PartialEq, Eq, Structural)]
pub enum TraySetting {
    RealtimePreview,
    Autostart,
    OverlayCentered,
    WakeServer,
    LocalFallback,
}

/// Delays the tray sets from a number in the item id.
#[derive(Debug, Clone, Copy, PartialEq, Eq, Structural)]
pub enum TrayDelay {
    Recording,
    PreviewHide,
    RealtimeCadence,
}

/// Local models the tray selects.
#[derive(Debug, Clone, Copy, PartialEq, Eq, Structural)]
pub enum LocalModelChoice {
    Whisper,
    Parakeet,
}

/// What a tray menu event asks for. `S` is the text of a delay value, which
/// the caller reads as a number.
#[derive(Debug, Clone, PartialEq, Eq)]
pub enum TrayCommand<S> {
    EditEndpoint,
    EditApiKey,
    Toggle(TraySetting),
    PermissionsInfo,
    OpenRecordWindow,
    OpenSettings,
    OpenLogs,
    RevealLogs,
    OpenConfig,
    /// Use the default remote model.
    ModelAuto,
    /// Use the remote model at this index of the cached catalog.
    RemoteModel(usize),
    LocalModel(LocalModelChoice),
    ModelRefresh,
    Quit,
    Delay(TrayDelay, S),
    SpeechLanguage(Language),
    AppLanguage(UiLanguage),
    Hotkey(HotkeyKind),
    Activation(ActivationMode),
    Engine(SttEngine),
    DownloadLocalModel,
    OpenModelsFolder,
    /// Unknown events, and malformed ones, do nothing.
    Ignored,
}

impl View for TrayCommand<String> {
    type V = TrayCommand<Seq<char>>;

    open spec fn view(&self) -> TrayCommand<Seq<char>> {
        match self {
            TrayCommand::EditEndpoint => TrayCommand::EditEndpoint,
            TrayCommand::EditApiKey => TrayCommand::EditApiKey,
            TrayCommand::Toggle(s) => TrayCommand::Toggle(*s),
            TrayCommand::PermissionsInfo => TrayCommand::PermissionsInfo,
            TrayCommand::OpenRecordWindow => TrayCommand::OpenRecordWindow,
            TrayCommand::OpenSettings => TrayCommand::OpenSettings,
            TrayCommand::OpenLogs => TrayCommand::OpenLogs,
            TrayCommand::RevealLogs => TrayCommand::RevealLogs,
            TrayCommand::OpenConfig => TrayCommand::OpenConfig,
            TrayCommand::ModelAuto => TrayCommand::ModelAuto,
            TrayCommand::RemoteModel(i) => TrayCommand::RemoteModel(*i),
            TrayCommand::LocalModel(m) => TrayCommand::LocalModel(*m),
            TrayCommand::ModelRefresh => TrayCommand::ModelRefresh,
            TrayCommand::Quit => TrayCommand::Quit,
            TrayCommand::Delay(d, v) => TrayCommand::Delay(*d, v@),
            TrayCommand::SpeechLanguage(l) => TrayCommand::SpeechLanguage(*l),
            TrayCommand::AppLanguage(l) => TrayCommand::AppLanguage(*l),
            TrayCommand::Hotkey(k) => TrayCommand::Hotkey(*k),
            TrayCommand::Activation(a) => TrayCommand::Activation(*a),
            TrayCommand::Engine(e) => TrayCommand::Engine(*e),
            TrayCommand::DownloadLocalModel => TrayCommand::DownloadLocalModel,
            TrayCommand::OpenModelsFolder => TrayCommand::OpenModelsFolder,
            TrayCommand::Ignored => TrayCommand::Ignored,
        }
    }
}

/// The command a tray menu event stands for.
pub open spec fn tray_command(e: Seq<char>) -> TrayCommand<Seq<char>> {
    if e == "edit_endpoint"@ {
        TrayCommand::EditEndpoint
    } else if e == "edit_api_key"@ {
        TrayCommand::EditApiKey
    } else if e == "toggle_realtime"@ {
        TrayCommand::Toggle(TraySetting::RealtimePreview)
    } else if e == "toggle_autostart"@ {
        TrayCommand::Toggle(TraySetting::Autostart)
    } else if e == "toggle_overlay_centered"@ {
        TrayCommand::Toggle(TraySetting::OverlayCentered)
    } else if e == "toggle_wake_server"@ {
        TrayCommand::Toggle(TraySetting::WakeServer)
    } else if e == "toggle_local_fallback"@ {
        TrayCommand::Toggle(TraySetting::LocalFallback)
    } else if e == "permissions_info"@ {
        TrayCommand::PermissionsInfo
    } else if e == "open_record_window"@ {
        TrayCommand::OpenRecordWindow
    } else if e == "open_settings"@ {
        TrayCommand::OpenSettings
    } else if e == "open_logs"@ {
        TrayCommand::OpenLogs
    } else if e == "reveal_logs"@ {
        TrayCommand::RevealLogs
    } else if e == "open_config"@ {
        TrayCommand::OpenConfig
    } else if e == "model_auto"@ {
        TrayCommand::ModelAuto
    } else if "model_remote_"@.is_prefix_of(e) {
        match parsed_usize(e.skip("model_remote_"@.len() as int)) {
            Some(i) => TrayCommand::RemoteModel(i),
            None => TrayCommand::Ignored,
        }
    } else if e == "model_local_whisper"@ {
        TrayCommand::LocalModel(LocalModelChoice::Whisper)
    } else if e == "model_local_parakeet"@ {
        TrayCommand::LocalModel(LocalModelChoice::Parakeet)
    } else if e == "model_refresh"@ {
        TrayCommand::ModelRefresh
    } else if e == "quit"@ {
        TrayCommand::Quit
    } else if "rec_delay_"@.is_prefix_of(e) {
        TrayCommand::Delay(TrayDelay::Recording, e.skip("rec_delay_"@.len() as int))
    } else if "hide_delay_"@.is_prefix_of(e) {
        TrayCommand::Delay(TrayDelay::PreviewHide, e.skip("hide_delay_"@.len() as int))
    } else if "realtime_cadence_"@.is_prefix_of(e) {
        TrayCommand::Delay(TrayDelay::RealtimeCadence, e.skip("realtime_cadence_"@.len() as int))
    } else if "lang_"@.is_prefix_of(e) {
        TrayCommand::SpeechLanguage(language_of_code(e.skip("lang_"@.len() as int)))
    } else if "app_lang_"@.is_prefix_of(e) {
        TrayCommand::AppLanguage(ui_language_of_code(e.skip("app_lang_"@.len() as int)))
    } else if "hotkey_"@.is_prefix_of(e) {
        TrayCommand::Hotkey(hotkey_of_id(e.skip("hotkey_"@.len() as int)))
    } else if "activation_"@.is_prefix_of(e) {
        if e == "activation_hold"@ {
            TrayCommand::Activation(ActivationMode::Hold)
        } else if e == "activation_toggle"@ {
            TrayCommand::Activation(ActivationMode::Toggle)
        } else {
            TrayCommand::Ignored
        }
    } else if e == "engine_remote"@ {
        TrayCommand::Engine(SttEngine::Remote)
    } else if e == "engine_local"@ {
        TrayCommand::Engine(SttEngine::Local)
    } else if e == "engine_native"@ {
        TrayCommand::Engine(SttEngine::Native)
    } else if e == "download_local_model"@ {
        TrayCommand::DownloadLocalModel
    } else if e == "open_models_folder"@ {
        TrayCommand::OpenModelsFolder
    } else {
        TrayCommand::Ignored
    }
}

/// Reads a tray menu event.
#[verifier::rlimit(40)]
pub fn parse_tray_event(event: &str) -> (r: TrayCommand<String>)
    ensures
        r@ == tray_command(event@),
{
    if same_text(event, "edit_endpoint") {
        return TrayCommand::EditEndpoint;
    }
    if same_text(event, "edit_api_key") {
        return TrayCommand::EditApiKey;
    }
    if same_text(event, "toggle_realtime") {
        return TrayCommand::Toggle(TraySetting::RealtimePreview);
    }
    if same_text(event, "toggle_autostart") {
        return TrayCommand::Toggle(TraySetting::Autostart);
    }
    if same_text(event, "toggle_overlay_centered") {
        return TrayCommand::Toggle(TraySetting::OverlayCentered);
    }
    if same_text(event, "toggle_wake_server") {
        return TrayCommand::Toggle(TraySetting::WakeServer);
    }
    if same_text(event, "toggle_local_fallback") {
        return TrayCommand::Toggle(TraySetting::LocalFallback);
    }
    if same_text(event, "permissions_info") {
        return TrayCommand::PermissionsInfo;
    }
    if same_text(event, "open_record_window") {
        return TrayCommand::OpenRecordWindow;
    }
    if same_text(event, "open_settings") {
        return TrayCommand::OpenSettings;
    }
    if same_text(event, "open_logs") {
        return TrayCommand::OpenLogs;
    }
    if same_text(event, "reveal_logs") {
        return TrayCommand::RevealLogs;
    }
    if same_text(event, "open_config") {
        return TrayCommand::OpenConfig;
    }
    if same_text(event, "model_auto") {
        return TrayCommand::ModelAuto;
    }
    if let Some(rest) = strip_prefix_str(event, "model_remote_") {
        return match parse_usize(rest.as_str()) {
            Some(i) => TrayCommand::RemoteModel(i),
            None => TrayCommand::Ignored,
        };
    }
    parse_tray_event_rest(event)
}

/// The events after `model_remote_` in the menu's order.
#[verifier::rlimit(40)]
fn parse_tray_event_rest(event: &str) -> (r: TrayCommand<String>)
    requires
        event@ != "edit_endpoint"@,
        event@ != "edit_api_key"@,
        event@ != "toggle_realtime"@,
        event@ != "toggle_autostart"@,
        event@ != "toggle_overlay_centered"@,
        event@ != "toggle_wake_server"@,
        event@ != "toggle_local_fallback"@,
        event@ != "permissions_info"@,
        event@ != "open_record_window"@,
        event@ != "open_settings"@,
        event@ != "open_logs"@,
        event@ != "reveal_logs"@,
        event@ != "open_config"@,
        event@ != "model_auto"@,
        !"model_remote_"@.is_prefix_of(event@),
    ensures
        r@ == tray_command(event@),
{
    if same_text(event, "model_local_whisper") {
        return TrayCommand::LocalModel(LocalModelChoice::Whisper);
    }
    if same_text(event, "model_local_parakeet") {
        return TrayCommand::LocalModel(LocalModelChoice::Parakeet);
    }
    if same_text(event, "model_refresh") {
        return TrayCommand::ModelRefresh;
    }
    if same_text(event, "quit") {
        return TrayCommand::Quit;
    }
    if let Some(rest) = strip_prefix_str(event, "rec_delay_") {
        return TrayCommand::Delay(TrayDelay::Recording, rest);
    }
    if let Some(rest) = strip_prefix_str(event, "hide_delay_") {
        return TrayCommand::Delay(TrayDelay::PreviewHide, rest);
    }
    if let Some(rest) = strip_prefix_str(event, "realtime_cadence_") {
        return TrayCommand::Delay(TrayDelay::RealtimeCadence, rest);
    }
    if let Some(rest) = strip_prefix_str(event, "lang_") {
        return TrayCommand::SpeechLanguage(language_from_code(rest.as_str()));
    }
    if let Some(rest) = strip_prefix_str(event, "app_lang_") {
        return TrayCommand::AppLanguage(ui_language_from_code(rest.as_str()));
    }
    if let Some(rest) = strip_prefix_str(event, "hotkey_") {
        return TrayCommand::Hotkey(hotkey_from_id(rest.as_str()));
    }
    if let Some(_) = strip_prefix_str(event, "activation_") {
        if same_text(event, "activation_hold") {
            return TrayCommand::Activation(ActivationMode::Hold);
        }
        if same_text(event, "activation_toggle") {
            return TrayCommand::Activation(ActivationMode::Toggle);
        }
        return TrayCommand::Ignored;
    }
    if same_text(event, "engine_remote") {
        return TrayCommand::Engine(SttEngine::Remote);
    }
    if same_text(event, "engine_local") {
        return TrayCommand::Engine(SttEngine::Local);
    }
    if same_text(event, "engine_native") {
        return TrayCommand::Engine(SttEngine::Native);
    }
    if same_text(event, "download_local_model") {
        return TrayCommand::DownloadLocalModel;
    }
    if same_text(event, "open_models_folder") {
        return TrayCommand::OpenModelsFolder;
    }
    TrayCommand::Ignored
}

/// Every hotkey item the tray builds (`hotkey_<id>`) selects that hotkey.
pub proof fn lemma_hotkey_item_selects_its_key(kind: HotkeyKind)
    ensures
        tray_command("hotkey_"@ + hotkey_id_spec(kind)) == TrayCommand::<Seq<char>>::Hotkey(kind),
{
    let id = hotkey_id_spec(kind);
    let e = "hotkey_"@ + id;
    reveal_strlit("hotkey_");
    reveal_strlit("edit_endpoint");
    reveal_strlit("edit_api_key");
    reveal_strlit("toggle_realtime");
    reveal_strlit("toggle_autostart");
    reveal_strlit("toggle_overlay_centered");
    reveal_strlit("toggle_wake_server");
    reveal_strlit("toggle_local_fallback");
    reveal_strlit("permissions_info");
    reveal_strlit("open_record_window");
    reveal_strlit("open_settings");
    reveal_strlit("open_logs");
    reveal_strlit("reveal_logs");
    reveal_strlit("open_config");
    reveal_strlit("model_auto");
    reveal_strlit("model_remote_");
    reveal_strlit("model_local_whisper");
    reveal_strlit("model_local_parakeet");
    reveal_strlit("model_refresh");
    reveal_strlit("quit");
    reveal_strlit("rec_delay_");
    reveal_strlit("hide_delay_");
    reveal_strlit("realtime_cadence_");
    reveal_strlit("lang_");
    reveal_strlit("app_lang_");
    assert(e[0] == 'h');
    assert(e[1] == 'o');
    lemma_differs_at(e, "edit_endpoint"@, 0);
    lemma_differs_at(e, "edit_api_key"@, 0);
    lemma_differs_at(e, "toggle_realtime"@, 0);
    lemma_differs_at(e, "toggle_autostart"@, 0);
    lemma_differs_at(e, "toggle_overlay_centered"@, 0);
    lemma_differs_at(e, "toggle_wake_server"@, 0);
    lemma_differs_at(e, "toggle_local_fallback"@, 0);
    lemma_differs_at(e, "permissions_info"@, 0);
    lemma_differs_at(e, "open_record_window"@, 0);
    lemma_differs_at(e, "open_settings"@, 0);
    lemma_differs_at(e, "open_logs"@, 0);
    lemma_differs_at(e, "reveal_logs"@, 0);
    lemma_differs_at(e, "open_config"@, 0);
    lemma_differs_at(e, "model_auto"@, 0);
    lemma_differs_at(e, "model_remote_"@, 0);
    lemma_differs_at(e, "model_local_whisper"@, 0);
    lemma_differs_at(e, "model_local_parakeet"@, 0);
    lemma_differs_at(e, "model_refresh"@, 0);
    lemma_differs_at(e, "quit"@, 0);
    lemma_differs_at(e, "rec_delay_"@, 0);
    lemma_differs_at(e, "hide_delay_"@, 1);
    lemma_differs_at(e, "realtime_cadence_"@, 0);
    lemma_differs_at(e, "lang_"@, 0);
    lemma_differs_at(e, "app_lang_"@, 0);
    assert(e.take(7) =~= "hotkey_"@);
    assert(e.skip(7) =~= id);
    lemma_hotkey_id_round_trip(kind);
}

/// Every speech-language item the tray builds (`lang_<code>`) selects that
/// language.
pub proof fn lemma_language_item_selects_its_language(l: Language)
    ensures
        tray_command("lang_"@ + crate::models::whisper_lang_spec(l))
            == TrayCommand::<Seq<char>>::SpeechLanguage(l),
{
    let code = crate::models::whisper_lang_spec(l);
    let e = "lang_"@ + code;
    reveal_strlit("edit_endpoint");
    reveal_strlit("edit_api_key");
    reveal_strlit("toggle_realtime");
    reveal_strlit("toggle_autostart");
    reveal_strlit("toggle_overlay_centered");
    reveal_strlit("toggle_wake_server");
    reveal_strlit("toggle_local_fallback");
    reveal_strlit("permissions_info");
    reveal_strlit("open_record_window");
    reveal_strlit("open_settings");
    reveal_strlit("open_logs");
    reveal_strlit("reveal_logs");
    reveal_strlit("open_config");
    reveal_strlit("model_auto");
    reveal_strlit("model_remote_");
    reveal_strlit("model_local_whisper");
    reveal_strlit("model_local_parakeet");
    reveal_strlit("model_refresh");
    reveal_strlit("quit");
    reveal_strlit("rec_delay_");
    reveal_strlit("hide_delay_");
    reveal_strlit("realtime_cadence_");
    reveal_strlit("lang_");
    reveal_strlit("app_lang_");
    reveal_strlit("hotkey_");
    reveal_strlit("activation_");
    reveal_strlit("engine_remote");
    reveal_strlit("engine_local");
    reveal_strlit("engine_native");
    reveal_strlit("ru");
    reveal_strlit("en");
    reveal_strlit("zh");
    reveal_strlit("auto");
    assert(e[0] == 'l');
    lemma_differs_at(e, "edit_endpoint"@, 0);
    lemma_differs_at(e, "edit_api_key"@, 0);
    lemma_differs_at(e, "toggle_realtime"@, 0);
    lemma_differs_at(e, "toggle_autostart"@, 0);
    lemma_differs_at(e, "toggle_overlay_centered"@, 0);
    lemma_differs_at(e, "toggle_wake_server"@, 0);
    lemma_differs_at(e, "toggle_local_fallback"@, 0);
    lemma_differs_at(e, "permissions_info"@, 0);
    lemma_differs_at(e, "open_record_window"@, 0);
    lemma_differs_at(e, "open_settings"@, 0);
    lemma_differs_at(e, "open_logs"@, 0);
    lemma_differs_at(e, "reveal_logs"@, 0);
    lemma_differs_at(e, "open_config"@, 0);
    lemma_differs_at(e, "model_auto"@, 0);
    lemma_differs_at(e, "model_remote_"@, 0);
    lemma_differs_at(e, "model_local_whisper"@, 0);
    lemma_differs_at(e, "model_local_parakeet"@, 0);
    lemma_differs_at(e, "model_refresh"@, 0);
    lemma_differs_at(e, "quit"@, 0);
    lemma_differs_at(e, "rec_delay_"@, 0);
    lemma_differs_at(e, "hide_delay_"@, 0);
    lemma_differs_at(e, "realtime_cadence_"@, 0);
    assert(e.take(5) =~= "lang_"@);
    assert(e.skip(5) =~= code);
    match l {
        Language::Ru => {},
        Language::En => {
            lemma_differs_at(code, "ru"@, 0);
        },
        Language::Zh => {
            lemma_differs_at(code, "ru"@, 0);
            lemma_differs_at(code, "en"@, 0);
        },
        Language::Auto => {
            lemma_differs_at(code, "ru"@, 0);
            lemma_differs_at(code, "en"@, 0);
            lemma_differs_at(code, "zh"@, 0);
        },
    }
}

/// Every engine item the tray builds selects that engine.
pub proof fn lemma_engine_item_selects_its_engine(engine: SttEngine)
    ensures
        tray_command(engine_item_id(engine)) == TrayCommand::<Seq<char>>::Engine(engine),
{
    let e = engine_item_id(engine);
    reveal_strlit("edit_endpoint");
    reveal_strlit("edit_api_key");
    reveal_strlit("toggle_realtime");
    reveal_strlit("toggle_autostart");
    reveal_strlit("toggle_overlay_centered");
    reveal_strlit("toggle_wake_server");
    reveal_strlit("toggle_local_fallback");
    reveal_strlit("permissions_info");
    reveal_strlit("open_record_window");
    reveal_strlit("open_settings");
    reveal_strlit("open_logs");
    reveal_strlit("reveal_logs");
    reveal_strlit("open_config");
    reveal_strlit("model_auto");
    reveal_strlit("model_remote_");
    reveal_strlit("model_local_whisper");
    reveal_strlit("model_local_parakeet");
    reveal_strlit("model_refresh");
    reveal_strlit("quit");
    reveal_strlit("rec_delay_");
    reveal_strlit("hide_delay_");
    reveal_strlit("realtime_cadence_");
    reveal_strlit("lang_");
    reveal_strlit("app_lang_");
    reveal_strlit("hotkey_");
    reveal_strlit("activation_");
    reveal_strlit("engine_remote");
    reveal_strlit("engine_local");
    reveal_strlit("engine_native");
    assert(e[0] == 'e');
    assert(e[1] == 'n');
    lemma_differs_at(e, "edit_endpoint"@, 1);
    lemma_differs_at(e, "edit_api_key"@, 1);
    lemma_differs_at(e, "toggle_realtime"@, 0);
    lemma_differs_at(e, "toggle_autostart"@, 0);
    lemma_differs_at(e, "toggle_overlay_centered"@, 0);
    lemma_differs_at(e, "toggle_wake_server"@, 0);
    lemma_differs_at(e, "toggle_local_fallback"@, 0);
    lemma_differs_at(e, "permissions_info"@, 0);
    lemma_differs_at(e, "open_record_window"@, 0);
    lemma_differs_at(e, "open_settings"@, 0);
    lemma_differs_at(e, "open_logs"@, 0);
    lemma_differs_at(e, "reveal_logs"@, 0);
    lemma_differs_at(e, "open_config"@, 0);
    lemma_differs_at(e, "model_auto"@, 0);
    lemma_differs_at(e, "model_remote_"@, 0);
    lemma_differs_at(e, "model_local_whisper"@, 0);
    lemma_differs_at(e, "model_local_parakeet"@, 0);
    lemma_differs_at(e, "model_refresh"@, 0);
    lemma_differs_at(e, "quit"@, 0);
    lemma_differs_at(e, "rec_delay_"@, 0);
    lemma_differs_at(e, "hide_delay_"@, 0);
    lemma_differs_at(e, "realtime_cadence_"@, 0);
    lemma_differs_at(e, "lang_"@, 0);
    lemma_differs_at(e, "app_lang_"@, 0);
    lemma_differs_at(e, "hotkey_"@, 0);
    lemma_differs_at(e, "activation_"@, 0);
    match engine {
        SttEngine::Remote => {},
        SttEngine::Local => {
            lemma_differs_at(e, "engine_remote"@, 7);
        },
        SttEngine::Native => {
            lemma_differs_at(e, "engine_remote"@, 7);
            lemma_differs_at(e, "engine_local"@, 7);
        },
    }
}

// ---------------------------------------------------------------------------
// Engine toggles
// ---------------------------------------------------------------------------

/// Whether two engine lists are equal.
pub fn same_engines(a: &[SttEngine], b: &[SttEngine]) -> (r: bool)
    ensures
        r == (a@ == b@),
{
    if a.len() != b.len() {
        return false;
    }
    let mut i: usize = 0;
    while i < a.len()
        invariant
            a@.len() == b@.len(),
            i <= a@.len(),
            forall|k: int| 0 <= k < i ==> a@[k] == b@[k],
        decreases a@.len() - i,
    {
        if a[i] != b[i] {
            assert(a@[i as int] != b@[i as int]);
            return false;
        }
        i = i + 1;
    }
    assert(a@ =~= b@);
    true
}

/// The cascade after a tray engine toggle: `None` (nothing changes) when the
/// engine cannot run here or when the toggle is refused because it would
/// remove the last engine.
pub fn next_engine_order(available: bool, current: &[SttEngine], target: SttEngine) -> (r: Option<
    Vec<SttEngine>,
>)
    ensures
        match r {
            Some(next) => available && next@ == crate::config::toggled(current@, target) && next@
                != current@,
            None => !available || crate::config::toggled(current@, target) == current@,
        },
{
    if !available {
        return None;
    }
    let next = toggle_engine(current, target);
    if same_engines(next.as_slice(), current) {
        None
    } else {
        Some(next)
    }
}

/// Whether the tray may enable the local engine: for Parakeet a non-blank
/// configured command (or, with none configured, the environment's command)
/// and its model directory; for Whisper models, the model file.
pub open spec fn local_engine_ready(
    local_model: Seq<char>,
    local_command: Option<Seq<char>>,
    env_command_set: bool,
    parakeet_dir_found: bool,
    model_file_found: bool,
) -> bool {
    if local_model == "parakeet-v3"@ {
        (match local_command {
            Some(c) => trim(c).len() > 0,
            None => env_command_set,
        }) && parakeet_dir_found
    } else {
        model_file_found
    }
}

pub fn local_engine_available(
    local_model: &str,
    local_command: Option<&str>,
    env_command_set: bool,
    parakeet_dir_found: bool,
    model_file_found: bool,
) -> (r: bool)
    ensures
        r == local_engine_ready(
            local_model@,
            match local_command {
                Some(c) => Some(c@),
                None => None,
            },
            env_command_set,
            parakeet_dir_found,
            model_file_found,
        ),
{
    if same_text(local_model, "parakeet-v3") {
        let configured = match local_command {
            Some(c) => {
                let t = crate::text::trimmed(c);
                !t.as_str().is_empty()
            },
            None => env_command_set,
        };
        configured && parakeet_dir_found
    } else {
        model_file_found
    }
}

// ---------------------------------------------------------------------------
// Menu contents
// ---------------------------------------------------------------------------

/// One item of a tray menu.
#[derive(Debug, Clone, PartialEq, Eq)]
pub struct MenuEntry {
    pub id: String,
    pub label: String,
    pub enabled: bool,
}

/// The mark in front of a menu label.
pub open spec fn mark(checked: bool) -> Seq<char> {
    if checked {
        "✓  "@
    } else {
        "    "@
    }
}

/// A label with its check mark.
pub fn checked_label(checked: bool, label: &str) -> (r: String)
    ensures
        r@ == mark(checked) + label@,
{
    let mut r = if checked {
        "✓  ".to_string()
    } else {
        "    ".to_string()
    };
    push_str(&mut r, label);
    r
}

fn entry(id: &str, label: String, enabled: bool) -> (r: MenuEntry)
    ensures
        r.id@ == id@,
        r.label == label,
        r.enabled == enabled,
{
    MenuEntry { id: id.to_string(), label, enabled }
}

/// `title: value`.
pub fn titled(title: &str, value: &str) -> (r: String)
    ensures
        r@ == title@ + ": "@ + value@,
{
    let mut r = title.to_string();
    push_str(&mut r, ": ");
    push_str(&mut r, value);
    r
}

/// The activation submenu: its two items and its title.
pub fn activation_entries(current: ActivationMode, ui: UiLanguage) -> (r: (Vec<MenuEntry>, String))
    ensures
        r.0@.len() == 2,
        r.0@[0].id@ == "activation_hold"@,
        r.0@[0].label@ == mark(current == ActivationMode::Hold) + ui_text(ui, UiText::Hold),
        r.0@[0].enabled,
        r.0@[1].id@ == "activation_toggle"@,
        r.0@[1].label@ == mark(current == ActivationMode::Toggle) + ui_text(ui, UiText::Toggle),
        r.0@[1].enabled,
        r.1@ == ui_text(ui, UiText::Activation) + ": "@ + if current == ActivationMode::Hold {
            ui_text(ui, UiText::Hold)
        } else {
            ui_text(ui, UiText::Toggle)
        },
{
    let hold = entry(
        "activation_hold",
        checked_label(current == ActivationMode::Hold, ui.text(UiText::Hold)),
        true,
    );
    let toggle = entry(
        "activation_toggle",
        checked_label(current == ActivationMode::Toggle, ui.text(UiText::Toggle)),
        true,
    );
    let value = if current == ActivationMode::Hold {
        ui.text(UiText::Hold)
    } else {
        ui.text(UiText::Toggle)
    };
    let title = titled(ui.text(UiText::Activation), value);
    (vec![hold, toggle], title)
}

/// Whether an engine can run, given the local and native availability.
pub open spec fn engine_ready(engine: SttEngine, local_available: bool, native_available: bool) -> bool {
    match engine {
        SttEngine::Remote => true,
        SttEngine::Local => local_available,
        SttEngine::Native => native_available,
    }
}

/// The label of an engine item: checked while in the cascade, with the
/// reason it cannot run where it cannot.
pub open spec fn engine_label(
    engine: SttEngine,
    order: Seq<SttEngine>,
    ui: UiLanguage,
    available: bool,
) -> Seq<char> {
    mark(order.contains(engine)) + engine_title_for(engine, ui) + if available {
        Seq::empty()
    } else if engine == SttEngine::Local {
        " ("@ + ui_text(ui, UiText::NoModel) + ")"@
    } else {
        " ("@ + ui_text(ui, UiText::MacOnly) + ")"@
    }
}

/// The id of an engine item.
pub open spec fn engine_item_id(engine: SttEngine) -> Seq<char> {
    match engine {
        SttEngine::Remote => "engine_remote"@,
        SttEngine::Local => "engine_local"@,
        SttEngine::Native => "engine_native"@,
    }
}

fn engine_entry(
    engine: SttEngine,
    order: &[SttEngine],
    ui: UiLanguage,
    local_available: bool,
    native_available: bool,
) -> (r: MenuEntry)
    ensures
        r.id@ == engine_item_id(engine),
        r.enabled == engine_ready(engine, local_available, native_available),
        r.label@ == engine_label(engine, order@, ui, r.enabled),
{
    let available = match engine {
        SttEngine::Remote => true,
        SttEngine::Local => local_available,
        SttEngine::Native => native_available,
    };
    let mut label = checked_label(has_engine(order, engine), engine.title_for(ui));
    if !available {
        push_str(&mut label, " (");
        if engine == SttEngine::Local {
            push_str(&mut label, ui.text(UiText::NoModel));
        } else {
            push_str(&mut label, ui.text(UiText::MacOnly));
        }
        push_str(&mut label, ")");
    }
    proof {
        assert(label@ =~= engine_label(engine, order@, ui, available));
    }
    entry(engine.id(), label, available)
}

/// The engine submenu's items, Remote, Local and Native in that order.
pub fn engine_entries(
    order: &[SttEngine],
    ui: UiLanguage,
    local_available: bool,
    native_available: bool,
) -> (r: Vec<MenuEntry>)
    ensures
        r@.len() == 3,
        forall|i: int|
            0 <= i < 3 ==> {
                let e = seq![SttEngine::Remote, SttEngine::Local, SttEngine::Native][i];
                &&& (#[trigger] r@[i]).id@ == engine_item_id(e)
                &&& r@[i].enabled == engine_ready(e, local_available, native_available)
                &&& r@[i].label@ == engine_label(e, order@, ui, r@[i].enabled)
                &&& tray_command(r@[i].id@) == TrayCommand::<Seq<char>>::Engine(e)
            },
{
    proof {
        lemma_engine_item_selects_its_engine(SttEngine::Remote);
        lemma_engine_item_selects_its_engine(SttEngine::Local);
        lemma_engine_item_selects_its_engine(SttEngine::Native);
    }
    let remote = engine_entry(SttEngine::Remote, order, ui, local_available, native_available);
    let local = engine_entry(SttEngine::Local, order, ui, local_available, native_available);
    let native = engine_entry(SttEngine::Native, order, ui, local_available, native_available);
    let r = vec![remote, local, native];
    r
}

/// The model submenu: the remote model, the two local models and a link to
/// the settings, with the submenu's title.
pub fn model_entries(
    model: &str,
    local_model: &str,
    engine_order: &[SttEngine],
    ui: UiLanguage,
    whisper_present: bool,
    parakeet_present: bool,
) -> (r: (Vec<MenuEntry>, String))
    ensures
        r.0@.len() == 4,
        r.0@[0].id@ == "model_auto"@,
        r.0@[0].label@ == mark(model@ == "auto"@ || model@ == "whisper-1"@) + model_label(
            ui,
            "remote_auto"@,
        ),
        r.0@[0].enabled,
        r.0@[1].id@ == "model_local_whisper"@,
        r.0@[1].label@ == mark(local_model@ == "whisper-base"@) + model_label(ui, "whisper"@),
        r.0@[1].enabled == whisper_present,
        r.0@[2].id@ == "model_local_parakeet"@,
        r.0@[2].label@ == mark(local_model@ == "parakeet-v3"@) + model_label(ui, "parakeet"@),
        r.0@[2].enabled == parakeet_present,
        r.0@[3].id@ == "open_settings"@,
        r.0@[3].label@ == "⚙  "@ + ui_text(ui, UiText::Settings) + "…"@,
        r.0@[3].enabled,
        r.1@ == ui_text(ui, UiText::Model) + ": "@ + if engine_order@.contains(SttEngine::Remote) {
            model@
        } else {
            local_model@
        },
{
    let auto_checked = same_text(model, "auto") || same_text(model, "whisper-1");
    let remote_label = format_model(ui, "remote_auto");
    let remote = entry("model_auto", checked_label(auto_checked, remote_label.as_str()), true);
    let whisper_label = format_model(ui, "whisper");
    let whisper = entry(
        "model_local_whisper",
        checked_label(same_text(local_model, "whisper-base"), whisper_label.as_str()),
        whisper_present,
    );
    let parakeet_label = format_model(ui, "parakeet");
    let parakeet = entry(
        "model_local_parakeet",
        checked_label(same_text(local_model, "parakeet-v3"), parakeet_label.as_str()),
        parakeet_present,
    );
    let settings = entry("open_settings", settings_label(ui), true);
    let summary = model_summary(engine_order, model, local_model);
    let title = titled(ui.text(UiText::Model), summary.as_str());
    (vec![remote, whisper, parakeet, settings], title)
}

/// The label of the item that opens the settings window.
pub fn settings_label(ui: UiLanguage) -> (r: String)
    ensures
        r@ == "⚙  "@ + ui_text(ui, UiText::Settings) + "…"@,
{
    let mut r = "⚙  ".to_string();
    push_str(&mut r, ui.text(UiText::Settings));
    push_str(&mut r, "…");
    r
}

/// The hotkey submenu's items, one per hotkey in `HotkeyKind::all_cases`
/// order, with the submenu's title. Each item's id selects its hotkey when
/// the tray reads it back.
pub fn hotkey_entries(current: HotkeyKind, ui: UiLanguage) -> (r: (Vec<MenuEntry>, String))
    ensures
        r.0@.len() == 9,
        forall|i: int|
            0 <= i < 9 ==> {
                let k = crate::models::hotkey_order()[i];
                &&& (#[trigger] r.0@[i]).id@ == "hotkey_"@ + hotkey_id_spec(k)
                &&& r.0@[i].label@ == mark(current == k) + hotkey_title_for(k, ui)
                &&& r.0@[i].enabled
                &&& tray_command(r.0@[i].id@) == TrayCommand::<Seq<char>>::Hotkey(k)
            },
        r.1@ == ui_text(ui, UiText::Hotkey) + ": "@ + hotkey_title_for(current, ui),
{
    let kinds = HotkeyKind::all_cases();
    let mut out: Vec<MenuEntry> = Vec::new();
    let mut i: usize = 0;
    while i < kinds.len()
        invariant
            kinds@ == crate::models::hotkey_order(),
            i <= kinds@.len(),
            out@.len() == i,
            forall|j: int|
                0 <= j < i ==> {
                    let k = crate::models::hotkey_order()[j];
                    &&& (#[trigger] out@[j]).id@ == "hotkey_"@ + hotkey_id_spec(k)
                    &&& out@[j].label@ == mark(current == k) + hotkey_title_for(k, ui)
                    &&& out@[j].enabled
                    &&& tray_command(out@[j].id@) == TrayCommand::<Seq<char>>::Hotkey(k)
                },
        decreases kinds@.len() - i,
    {
        let kind = kinds[i];
        let mut id = "hotkey_".to_string();
        push_str(&mut id, hotkey_id(kind));
        proof {
            lemma_hotkey_item_selects_its_key(kind);
        }
        let label = checked_label(current == kind, kind.title_for(ui));
        out.push(MenuEntry { id, label, enabled: true });
        i = i + 1;
    }
    let title = titled(ui.text(UiText::Hotkey), current.title_for(ui));
    (out, title)
}

/// The speech-language submenu's items, in `Language::all_cases` order, with
/// the submenu's title.
pub fn language_entries(current: Language, ui: UiLanguage) -> (r: (Vec<MenuEntry>, String))
    ensures
        r.0@.len() == 4,
        forall|i: int|
            0 <= i < 4 ==> {
                let l = seq![Language::Ru, Language::En, Language::Zh, Language::Auto][i];
                &&& (#[trigger] r.0@[i]).id@ == "lang_"@ + crate::models::whisper_lang_spec(l)
                &&& r.0@[i].label@ == mark(current == l) + language_title_for(l, ui)
                &&& r.0@[i].enabled
                &&& tray_command(r.0@[i].id@) == TrayCommand::<Seq<char>>::SpeechLanguage(l)
            },
        r.1@ == ui_text(ui, UiText::SpeechLanguage) + ": "@ + crate::models::whisper_lang_spec(
            current,
        ),
{
    let langs = Language::all_cases();
    let mut out: Vec<MenuEntry> = Vec::new();
    let mut i: usize = 0;
    while i < langs.len()
        invariant
            langs@ == seq![Language::Ru, Language::En, Language::Zh, Language::Auto],
            i <= langs@.len(),
            out@.len() == i,
            forall|j: int|
                0 <= j < i ==> {
                    let l = seq![Language::Ru, Language::En, Language::Zh, Language::Auto][j];
                    &&& (#[trigger] out@[j]).id@ == "lang_"@ + crate::models::whisper_lang_spec(l)
                    &&& out@[j].label@ == mark(current == l) + language_title_for(l, ui)
                    &&& out@[j].enabled
                    &&& tray_command(out@[j].id@) == TrayCommand::<Seq<char>>::SpeechLanguage(l)
                },
        decreases langs@.len() - i,
    {
        let l = langs[i];
        proof {
            lemma_language_item_selects_its_language(l);
        }
        let mut id = "lang_".to_string();
        push_str(&mut id, l.whisper_lang());
        let label = checked_label(current == l, l.title_for(ui));
        out.push(MenuEntry { id, label, enabled: true });
        i = i + 1;
    }
    let title = titled(ui.text(UiText::SpeechLanguage), current.whisper_lang());
    (out, title)
}

/// One top-level entry of the tray menu.
#[derive(Debug, Clone, Copy, PartialEq, Eq, Structural)]
pub enum TopEntry {
    /// The app's name, disabled.
    Title,
    Separator,
    /// Opens the record window.
    RecordWindow,
    /// The activation-mode submenu.
    Activation,
    /// The engine-cascade submenu.
    Engines,
    /// The model submenu.
    Models,
    /// The live-preview switch.
    RealtimePreview,
    /// The preview hide-delay submenu.
    HideDelay,
    /// The launch-at-login switch.
    Autostart,
    /// The hotkey submenu.
    Hotkey,
    /// The recording-delay submenu.
    RecordingDelay,
    /// The recognition-language submenu.
    Language,
    /// The centred-overlay switch.
    CenterOverlay,
    /// Opens the settings window.
    Settings,
    Quit,
}

/// The tray menu from top to bottom; the model submenu is there only when
/// the cascade has an engine that uses a model (Remote or Local).
pub open spec fn top_layout(with_models: bool) -> Seq<TopEntry> {
    seq![
        TopEntry::Title,
        TopEntry::Separator,
        TopEntry::RecordWindow,
        TopEntry::Activation,
        TopEntry::Engines,
    ] + (if with_models {
        seq![TopEntry::Models]
    } else {
        Seq::<TopEntry>::empty()
    }) + seq![
        TopEntry::RealtimePreview,
        TopEntry::HideDelay,
        TopEntry::Autostart,
        TopEntry::Hotkey,
        TopEntry::RecordingDelay,
        TopEntry::Language,
        TopEntry::CenterOverlay,
        TopEntry::Separator,
        TopEntry::Settings,
        TopEntry::Quit,
    ]
}

/// The top-level entries of the tray menu for a cascade, in order.
pub fn tray_menu_entries(engine_order: &[SttEngine]) -> (r: Vec<TopEntry>)
    ensures
        r@ == top_layout(
            engine_order@.contains(SttEngine::Remote) || engine_order@.contains(SttEngine::Local),
        ),
{
    let with_models = has_engine(engine_order, SttEngine::Remote) || has_engine(
        engine_order,
        SttEngine::Local,
    );
    let mut r: Vec<TopEntry> = Vec::new();
    r.push(TopEntry::Title);
    r.push(TopEntry::Separator);
    r.push(TopEntry::RecordWindow);
    r.push(TopEntry::Activation);
    r.push(TopEntry::Engines);
    if with_models {
        r.push(TopEntry::Models);
    }
    r.push(TopEntry::RealtimePreview);
    r.push(TopEntry::HideDelay);
    r.push(TopEntry::Autostart);
    r.push(TopEntry::Hotkey);
    r.push(TopEntry::RecordingDelay);
    r.push(TopEntry::Language);
    r.push(TopEntry::CenterOverlay);
    r.push(TopEntry::Separator);
    r.push(TopEntry::Settings);
    r.push(TopEntry::Quit);
    assert(r@ =~= top_layout(with_models));
    r
}

// ---------------------------------------------------------------------------
// Applying a command
// ---------------------------------------------------------------------------

/// The settings tray commands change, apart from the delays, which are
/// fractional seconds and stay with the caller.
pub struct TraySettings {
    pub realtime_preview: bool,
    pub autostart: bool,
    pub overlay_centered: bool,
    pub wake_server_on_start: bool,
    pub local_fallback: bool,
    pub model: String,
    pub local_model: String,
    pub language: Language,
    pub ui_language: Option<UiLanguage>,
    pub hotkey: HotkeyKind,
    pub activation_mode: ActivationMode,
    pub engine_order: Vec<SttEngine>,
}

/// `TraySettings` with its text and lists as sequences.
pub struct TraySettingsView {
    pub realtime_preview: bool,
    pub autostart: bool,
    pub overlay_centered: bool,
    pub wake_server_on_start: bool,
    pub local_fallback: bool,
    pub model: Seq<char>,
    pub local_model: Seq<char>,
    pub language: Language,
    pub ui_language: Option<UiLanguage>,
    pub hotkey: HotkeyKind,
    pub activation_mode: ActivationMode,
    pub engine_order: Seq<SttEngine>,
}

impl View for TraySettings {
    type V = TraySettingsView;

    open spec fn view(&self) -> TraySettingsView {
        TraySettingsView {
            realtime_preview: self.realtime_preview,
            autostart: self.autostart,
            overlay_centered: self.overlay_centered,
            wake_server_on_start: self.wake_server_on_start,
            local_fallback: self.local_fallback,
            model: self.model@,
            local_model: self.local_model@,
            language: self.language,
            ui_language: self.ui_language,
            hotkey: self.hotkey,
            activation_mode: self.activation_mode,
            engine_order: self.engine_order@,
        }
    }
}

/// What the caller does after a tray command was applied to the settings.
#[derive(Debug, Clone, Copy, PartialEq, Eq, Structural)]
pub enum TrayOutcome {
    /// Nothing more.
    Nothing,
    /// Rebuild the menu to show the new settings.
    Rebuild,
    /// Turn launch at login on or off as given, then rebuild the menu.
    SetAutostart(bool),
    /// Set this delay from the command's value, then rebuild the menu.
    SetDelay(TrayDelay),
    /// Rebuild the menu and tell the windows the UI language changed.
    LanguageChanged(UiLanguage),
    /// Register this hotkey, then rebuild the menu.
    HotkeyChanged(HotkeyKind),
    EditEndpoint,
    EditApiKey,
    OpenPermissions,
    OpenRecordWindow,
    OpenSettings,
    OpenLogs,
    RevealLogs,
    OpenConfig,
    DownloadLocalModel,
    OpenModelsFolder,
    Quit,
}

/// The id of the local model a tray item selects.
pub open spec fn local_model_id_spec(choice: LocalModelChoice) -> Seq<char> {
    match choice {
        LocalModelChoice::Whisper => "whisper-base"@,
        LocalModelChoice::Parakeet => "parakeet-v3"@,
    }
}

/// The id of the local model a tray item selects.
pub fn local_model_id(choice: LocalModelChoice) -> (r: &'static str)
    ensures
        r@ == local_model_id_spec(choice),
{
    match choice {
        LocalModelChoice::Whisper => crate::local_model::LOCAL_MODEL_WHISPER_BASE,
        LocalModelChoice::Parakeet => crate::local_model::LOCAL_MODEL_PARAKEET_V3,
    }
}

/// The cascade after a tray engine toggle: the toggled order where the
/// engine can run and the toggle is not refused, else the order as it was.
pub open spec fn order_after_toggle(
    order: Seq<SttEngine>,
    target: SttEngine,
    available: bool,
) -> Seq<SttEngine> {
    let next = crate::config::toggled(order, target);
    if available && next != order {
        next
    } else {
        order
    }
}

/// The settings after a tray command and what the caller does next.
/// `remote_models` is the cached remote catalog, `engine_available` whether
/// the engine an engine item names can run here, and `model_present`
/// whether the local model a model item names is downloaded. A remote
/// model index outside the catalog, and a local model that is not
/// downloaded, change nothing; an engine toggle goes through
/// `next_engine_order`.
pub open spec fn tray_applied(
    s: TraySettingsView,
    c: TrayCommand<Seq<char>>,
    remote_models: Seq<Seq<char>>,
    engine_available: bool,
    model_present: bool,
) -> (TraySettingsView, TrayOutcome) {
    match c {
        TrayCommand::EditEndpoint => (s, TrayOutcome::EditEndpoint),
        TrayCommand::EditApiKey => (s, TrayOutcome::EditApiKey),
        TrayCommand::Toggle(setting) => match setting {
            TraySetting::RealtimePreview => (
                TraySettingsView { realtime_preview: !s.realtime_preview, ..s },
                TrayOutcome::Rebuild,
            ),
            TraySetting::Autostart => (
                TraySettingsView { autostart: !s.autostart, ..s },
                TrayOutcome::SetAutostart(!s.autostart),
            ),
            TraySetting::OverlayCentered => (
                TraySettingsView { overlay_centered: !s.overlay_centered, ..s },
                TrayOutcome::Rebuild,
            ),
            TraySetting::WakeServer => (
                TraySettingsView { wake_server_on_start: !s.wake_server_on_start, ..s },
                TrayOutcome::Rebuild,
            ),
            TraySetting::LocalFallback => (
                TraySettingsView { local_fallback: !s.local_fallback, ..s },
                TrayOutcome::Rebuild,
            ),
        },
        TrayCommand::PermissionsInfo => (s, TrayOutcome::OpenPermissions),
        TrayCommand::OpenRecordWindow => (s, TrayOutcome::OpenRecordWindow),
        TrayCommand::OpenSettings => (s, TrayOutcome::OpenSettings),
        TrayCommand::OpenLogs => (s, TrayOutcome::OpenLogs),
        TrayCommand::RevealLogs => (s, TrayOutcome::RevealLogs),
        TrayCommand::OpenConfig => (s, TrayOutcome::OpenConfig),
        TrayCommand::ModelAuto => (TraySettingsView { model: "whisper-1"@, ..s }, TrayOutcome::Rebuild),
        TrayCommand::RemoteModel(i) => if i < remote_models.len() {
            (TraySettingsView { model: remote_models[i as int], ..s }, TrayOutcome::Rebuild)
        } else {
            (s, TrayOutcome::Nothing)
        },
        TrayCommand::LocalModel(choice) => if model_present {
            (
                TraySettingsView { local_model: local_model_id_spec(choice), ..s },
                TrayOutcome::Rebuild,
            )
        } else {
            (s, TrayOutcome::Nothing)
        },
        TrayCommand::ModelRefresh => (s, TrayOutcome::OpenSettings),
        TrayCommand::Quit => (s, TrayOutcome::Quit),
        TrayCommand::Delay(d, _) => (s, TrayOutcome::SetDelay(d)),
        TrayCommand::SpeechLanguage(l) => (TraySettingsView { language: l, ..s }, TrayOutcome::Rebuild),
        TrayCommand::AppLanguage(l) => (
            TraySettingsView { ui_language: Some(l), ..s },
            TrayOutcome::LanguageChanged(l),
        ),
        TrayCommand::Hotkey(k) => (TraySettingsView { hotkey: k, ..s }, TrayOutcome::HotkeyChanged(k)),
        TrayCommand::Activation(m) => (
            TraySettingsView { activation_mode: m, ..s },
            TrayOutcome::Rebuild,
        ),
        TrayCommand::Engine(target) => (
            TraySettingsView {
                engine_order: order_after_toggle(s.engine_order, target, engine_available),
                ..s
            },
            TrayOutcome::Rebuild,
        ),
        TrayCommand::DownloadLocalModel => (s, TrayOutcome::DownloadLocalModel),
        TrayCommand::OpenModelsFolder => (s, TrayOutcome::OpenModelsFolder),
        TrayCommand::Ignored => (s, TrayOutcome::Nothing),
    }
}

/// Applies a tray command to the settings; see `tray_applied`.
pub fn apply_tray_command(
    settings: &mut TraySettings,
    command: &TrayCommand<String>,
    remote_models: &[String],
    engine_available: bool,
    model_present: bool,
) -> (r: TrayOutcome)
    ensures
        (final(settings)@, r) == tray_applied(
            old(settings)@,
            command@,
            crate::settings::texts(remote_models@),
            engine_available,
            model_present,
        ),
{
    match command {
        TrayCommand::EditEndpoint => TrayOutcome::EditEndpoint,
        TrayCommand::EditApiKey => TrayOutcome::EditApiKey,
        TrayCommand::Toggle(setting) => match setting {
            TraySetting::RealtimePreview => {
                settings.realtime_preview = !settings.realtime_preview;
                TrayOutcome::Rebuild
            },
            TraySetting::Autostart => {
                settings.autostart = !settings.autostart;
                TrayOutcome::SetAutostart(settings.autostart)
            },
            TraySetting::OverlayCentered => {
                settings.overlay_centered = !settings.overlay_centered;
                TrayOutcome::Rebuild
            },
            TraySetting::WakeServer => {
                settings.wake_server_on_start = !settings.wake_server_on_start;
                TrayOutcome::Rebuild
            },
            TraySetting::LocalFallback => {
                settings.local_fallback = !settings.local_fallback;
                TrayOutcome::Rebuild
            },
        },
        TrayCommand::PermissionsInfo => TrayOutcome::OpenPermissions,
        TrayCommand::OpenRecordWindow => TrayOutcome::OpenRecordWindow,
        TrayCommand::OpenSettings => TrayOutcome::OpenSettings,
        TrayCommand::OpenLogs => TrayOutcome::OpenLogs,
        TrayCommand::RevealLogs => TrayOutcome::RevealLogs,
        TrayCommand::OpenConfig => TrayOutcome::OpenConfig,
        TrayCommand::ModelAuto => {
            proof {
                reveal_strlit("whisper-1");
            }
            settings.model = crate::config::DEFAULT_MODEL.to_string();
            TrayOutcome::Rebuild
        },
        TrayCommand::RemoteModel(i) => {
            if *i < remote_models.len() {
                settings.model = remote_models[*i].clone();
                TrayOutcome::Rebuild
            } else {
                TrayOutcome::Nothing
            }
        },
        TrayCommand::LocalModel(choice) => {
            if model_present {
                settings.local_model = local_model_id(*choice).to_string();
                TrayOutcome::Rebuild
            } else {
                TrayOutcome::Nothing
            }
        },
        TrayCommand::ModelRefresh => TrayOutcome::OpenSettings,
        TrayCommand::Quit => TrayOutcome::Quit,
        TrayCommand::Delay(d, _) => TrayOutcome::SetDelay(*d),
        TrayCommand::SpeechLanguage(l) => {
            settings.language = *l;
            TrayOutcome::Rebuild
        },
        TrayCommand::AppLanguage(l) => {
            settings.ui_language = Some(*l);
            TrayOutcome::LanguageChanged(*l)
        },
        TrayCommand::Hotkey(k) => {
            settings.hotkey = *k;
            TrayOutcome::HotkeyChanged(*k)
        },
        TrayCommand::Activation(m) => {
            settings.activation_mode = *m;
            TrayOutcome::Rebuild
        },
        TrayCommand::Engine(target) => {
            match next_engine_order(engine_available, settings.engine_order.as_slice(), *target) {
                Some(next) => {
                    settings.engine_order = next;
                },
                None => {},
            }
            TrayOutcome::Rebuild
        },
        TrayCommand::DownloadLocalModel => TrayOutcome::DownloadLocalModel,
        TrayCommand::OpenModelsFolder => TrayOutcome::OpenModelsFolder,
        TrayCommand::Ignored => TrayOutcome::Nothing,
    }
}

/// A tray event applied to the settings: a hotkey item sets that hotkey, a
/// language item that recognition language, and an engine item toggles that
/// engine in the cascade where it can run and the toggle is not refused; in
/// each case no other setting changes.
pub proof fn lemma_tray_event_sets_what_it_names(
    s: TraySettingsView,
    remote_models: Seq<Seq<char>>,
    engine_available: bool,
    model_present: bool,
    kind: HotkeyKind,
    language: Language,
    engine: SttEngine,
)
    ensures
        tray_applied(s, tray_command("hotkey_"@ + hotkey_id_spec(kind)), remote_models, engine_available, model_present).0
            == (TraySettingsView { hotkey: kind, ..s }),
        tray_applied(s, tray_command("lang_"@ + crate::models::whisper_lang_spec(language)), remote_models, engine_available, model_present).0
            == (TraySettingsView { language, ..s }),
        tray_applied(s, tray_command(engine_item_id(engine)), remote_models, engine_available, model_present).0
            == (TraySettingsView { engine_order: order_after_toggle(s.engine_order, engine, engine_available), ..s }),
{
    lemma_hotkey_item_selects_its_key(kind);
    lemma_language_item_selects_its_language(language);
    lemma_engine_item_selects_its_engine(engine);
}

/// `s` with the ASCII capitals `A`-`Z` made small and every other
/// character kept.
pub open spec fn ascii_lowercase(s: Seq<char>) -> Seq<char> {
    s.map_values(|c: char| if 'A' <= c && c <= 'Z' { ((c as int) + 32) as char } else { c })
}

/// An engine's item id (`SttEngine::id`) is `engine_` followed by its short
/// English name in lowercase, and no two engines share an id.
pub proof fn lemma_engine_ids_name_their_engines(a: SttEngine, b: SttEngine)
    ensures
        engine_item_id(a) == "engine_"@ + ascii_lowercase(
            crate::models::engine_short_for(a, UiLanguage::En),
        ),
        a != b ==> engine_item_id(a) != engine_item_id(b),
{
    reveal_strlit("engine_remote");
    reveal_strlit("engine_local");
    reveal_strlit("engine_native");
    reveal_strlit("engine_");
    reveal_strlit("Remote");
    reveal_strlit("Local");
    reveal_strlit("Native");
    let short = crate::models::engine_short_for(a, UiLanguage::En);
    assert(engine_item_id(a) =~= "engine_"@ + ascii_lowercase(short));
    if a != b {
        let x = engine_item_id(a);
        let y = engine_item_id(b);
        assert(x.len() != y.len() || x[7] != y[7]);
    }
}

/// The five switches of the settings, in a fixed order.
pub open spec fn switches(v: TraySettingsView) -> (bool, bool, bool, bool, bool) {
    (v.realtime_preview, v.autostart, v.overlay_centered, v.wake_server_on_start, v.local_fallback)
}

/// Whether `a` and `b` differ at most in their switches.
pub open spec fn same_but_switches(a: TraySettingsView, b: TraySettingsView) -> bool {
    &&& a.model == b.model
    &&& a.local_model == b.local_model
    &&& a.language == b.language
    &&& a.ui_language == b.ui_language
    &&& a.hotkey == b.hotkey
    &&& a.activation_mode == b.activation_mode
    &&& a.engine_order == b.engine_order
}

/// A tray switch item turns its own switch over and touches nothing else:
/// the chosen switch ends up the opposite of what it was, the other
/// switches and every other setting stay, and choosing the item again
/// gives back the settings it started from.
pub proof fn lemma_tray_switch_flips_only_itself(
    s: TraySettingsView,
    setting: TraySetting,
    remote_models: Seq<Seq<char>>,
    engine_available: bool,
    model_present: bool,
)
    ensures
        ({
            let once = tray_applied(s, TrayCommand::Toggle(setting), remote_models, engine_available, model_present).0;
            let (a, b, c, d, e) = switches(s);
            &&& same_but_switches(once, s)
            &&& switches(once) == match setting {
                TraySetting::RealtimePreview => (!a, b, c, d, e),
                TraySetting::Autostart => (a, !b, c, d, e),
                TraySetting::OverlayCentered => (a, b, !c, d, e),
                TraySetting::WakeServer => (a, b, c, !d, e),
                TraySetting::LocalFallback => (a, b, c, d, !e),
            }
            &&& tray_applied(once, TrayCommand::Toggle(setting), remote_models, engine_available, model_present).0 == s
        }),
{
}

} // verus!
