//! Settings enums and their display strings.

use vstd::prelude::*;

verus! {

broadcast use vstd::string::group_string_axioms;

/// Transcription language.
#[derive(Debug, Clone, Copy, PartialEq, Eq, Structural)]
pub enum Language {
    Ru,
    En,
    Zh,
    Auto,
}

/// Language used by the application UI. This is separate from `Language`,
/// which controls the speech-recognition request.
#[derive(Debug, Clone, Copy, PartialEq, Eq, Structural)]
pub enum UiLanguage {
    En,
    Ru,
    Zh,
}

/// Keys of the translated UI strings.
#[derive(Debug, Clone, Copy, PartialEq, Eq, Structural)]
pub enum UiText {
    Settings,
    Endpoint,
    ApiKey,
    ApplicationLanguage,
    RecordingDelay,
    PreviewHideDelay,
    Immediately,
    SpeechLanguage,
    Model,
    Auto,
    RefreshModels,
    RealtimePreview,
    Cadence,
    Hotkey,
    Activation,
    Hold,
    Toggle,
    HoldHint,
    ToggleHint,
    Autostart,
    CenterOverlay,
    WakeServer,
    LocalFallback,
    Permissions,
    Microphone,
    Accessibility,
    RecordWindow,
    Diagnostics,
    OpenLogs,
    RevealLogs,
    EditConfig,
    SttEngine,
    Status,
    DownloadLocalModel,
    RedownloadLocalModel,
    OpenModelsFolder,
    Quit,
    NoModel,
    MacOnly,
}

/// Which physical key triggers dictation.
#[derive(Debug, Clone, Copy, PartialEq, Eq, Structural)]
pub enum HotkeyKind {
    /// Fn / Globe key
    Fn,
    /// Right Option (⌥)
    RightOption,
    /// Right Control (⌃)
    RightControl,
    /// Right Command (⌘)
    RightCommand,
    /// Right Shift (⇧)
    RightShift,
    /// Caps Lock
    CapsLock,
    /// F13 (external keyboards)
    F13,
    /// F14 (external keyboards)
    F14,
    /// F15 (external keyboards)
    F15,
}

/// How the hotkey triggers recording.
#[derive(Debug, Clone, Copy, PartialEq, Eq, Structural)]
pub enum ActivationMode {
    /// Press to start, release to stop.
    Hold,
    /// First press starts, second press stops.
    Toggle,
}

/// Speech-to-text engines; the configured order is the fallback cascade.
#[derive(Debug, Clone, Copy, PartialEq, Eq, Hash, Structural)]
pub enum SttEngine {
    /// Remote Whisper-compatible API.
    Remote,
    /// Local on-device whisper.cpp.
    Local,
    /// Apple built-in Speech framework (macOS only).
    Native,
}

pub open spec fn language_title_for(l: Language, ui: UiLanguage) -> Seq<char> {
    match (l, ui) {
        (Language::Ru, UiLanguage::Ru) => "Русский / ru"@,
        (Language::Ru, UiLanguage::Zh) => "俄语 / ru"@,
        (Language::Ru, _) => "Russian / ru"@,
        (Language::En, UiLanguage::Ru) => "Английский / en"@,
        (Language::En, UiLanguage::Zh) => "英语 / en"@,
        (Language::En, _) => "English / en"@,
        (Language::Zh, UiLanguage::Ru) => "Китайский / zh"@,
        (Language::Zh, UiLanguage::Zh) => "中文 / zh"@,
        (Language::Zh, _) => "Chinese / zh"@,
        (Language::Auto, UiLanguage::Ru) => "Авто"@,
        (Language::Auto, UiLanguage::Zh) => "自动"@,
        (Language::Auto, _) => "Auto"@,
    }
}

impl Language {
    pub fn title(&self) -> (r: &'static str)
        ensures
            r@ == match *self {
                Language::Ru => "Russian / ru"@,
                Language::En => "English / en"@,
                Language::Zh => "Chinese / zh"@,
                Language::Auto => "Auto"@,
            },
    {
        match self {
            Language::Ru => "Russian / ru",
            Language::En => "English / en",
            Language::Zh => "Chinese / zh",
            Language::Auto => "Auto",
        }
    }

    pub fn title_for(&self, ui_language: UiLanguage) -> (r: &'static str)
        ensures
            r@ == language_title_for(*self, ui_language),
    {
        match (self, ui_language) {
            (Language::Ru, UiLanguage::Ru) => "Русский / ru",
            (Language::Ru, UiLanguage::Zh) => "俄语 / ru",
            (Language::Ru, _) => "Russian / ru",
            (Language::En, UiLanguage::Ru) => "Английский / en",
            (Language::En, UiLanguage::Zh) => "英语 / en",
            (Language::En, _) => "English / en",
            (Language::Zh, UiLanguage::Ru) => "Китайский / zh",
            (Language::Zh, UiLanguage::Zh) => "中文 / zh",
            (Language::Zh, _) => "Chinese / zh",
            (Language::Auto, UiLanguage::Ru) => "Авто",
            (Language::Auto, UiLanguage::Zh) => "自动",
            (Language::Auto, _) => "Auto",
        }
    }

    /// BCP-47 code for the Whisper API, or None for auto-detect.
    pub fn api_value(&self) -> (r: Option<&'static str>)
        ensures
            match api_value_spec(*self) {
                Some(v) => r matches Some(s) && s@ == v,
                None => r is None,
            },
    {
        match self {
            Language::Ru => Some("ru"),
            Language::En => Some("en"),
            Language::Zh => Some("zh"),
            Language::Auto => None,
        }
    }

    /// Locale string for the local recognizers.
    pub fn whisper_lang(&self) -> (r: &'static str)
        ensures
            r@ == whisper_lang_spec(*self),
    {
        match self {
            Language::Ru => "ru",
            Language::En => "en",
            Language::Zh => "zh",
            Language::Auto => "auto",
        }
    }
}

impl Default for Language {
    fn default() -> (r: Self)
        ensures
            r == Language::Ru,
    {
        Language::Ru
    }
}

/// BCP-47 code of each language for the Whisper API (none for auto-detect).
pub open spec fn api_value_spec(l: Language) -> Option<Seq<char>> {
    match l {
        Language::Ru => Some("ru"@),
        Language::En => Some("en"@),
        Language::Zh => Some("zh"@),
        Language::Auto => None,
    }
}

/// Locale string of each language for the local recognizers.
pub open spec fn whisper_lang_spec(l: Language) -> Seq<char> {
    match l {
        Language::Ru => "ru"@,
        Language::En => "en"@,
        Language::Zh => "zh"@,
        Language::Auto => "auto"@,
    }
}

/// Every hotkey, in menu order.
pub open spec fn hotkey_order() -> Seq<HotkeyKind> {
    seq![
        HotkeyKind::Fn,
        HotkeyKind::RightOption,
        HotkeyKind::RightControl,
        HotkeyKind::RightCommand,
        HotkeyKind::RightShift,
        HotkeyKind::CapsLock,
        HotkeyKind::F13,
        HotkeyKind::F14,
        HotkeyKind::F15,
    ]
}

/// `c` equals the lowercase ASCII letter `lower` up to ASCII case.
pub open spec fn ascii_ci_eq(c: char, lower: char) -> bool {
    c == lower || (c as int) + 32 == (lower as int)
}

/// Whether `s` starts with the two lowercase ASCII letters `a`, `b`, ignoring ASCII case.
pub open spec fn starts_with_ci(s: Seq<char>, a: char, b: char) -> bool {
    s.len() >= 2 && ascii_ci_eq(s[0], a) && ascii_ci_eq(s[1], b)
}

/// The UI language a locale such as `ru_RU.UTF-8` selects.
pub open spec fn ui_language_of_locale(locale: Seq<char>) -> UiLanguage {
    if starts_with_ci(locale, 'r', 'u') {
        UiLanguage::Ru
    } else if starts_with_ci(locale, 'z', 'h') || starts_with_ci(locale, 'c', 'n') {
        UiLanguage::Zh
    } else {
        UiLanguage::En
    }
}

fn ci_eq(c: char, lower: char) -> (r: bool)
    requires
        'a' <= lower <= 'z',
    ensures
        r == ascii_ci_eq(c, lower),
{
    c == lower || (c as u32) + 32 == (lower as u32)
}

/// The UI string for `key` in `lang`.
pub open spec fn ui_text(lang: UiLanguage, key: UiText) -> Seq<char> {
    match lang {
        UiLanguage::En => match key {
            UiText::Settings => "Settings"@,
            UiText::Endpoint => "Endpoint"@,
            UiText::ApiKey => "API Key"@,
            UiText::ApplicationLanguage => "Application language"@,
            UiText::RecordingDelay => "Recording delay"@,
            UiText::PreviewHideDelay => "Preview hide delay"@,
            UiText::Immediately => "immediately"@,
            UiText::SpeechLanguage => "Speech language"@,
            UiText::Model => "Model"@,
            UiText::Auto => "Auto"@,
            UiText::RefreshModels => "Refresh models"@,
            UiText::RealtimePreview => "Realtime preview"@,
            UiText::Cadence => "Cadence"@,
            UiText::Hotkey => "Hotkey"@,
            UiText::Activation => "Activation"@,
            UiText::Hold => "Hold"@,
            UiText::Toggle => "Toggle"@,
            UiText::HoldHint => "(press to start, release to stop)"@,
            UiText::ToggleHint => "(press to start, press again to stop)"@,
            UiText::Autostart => "Autostart"@,
            UiText::CenterOverlay => "Centre overlay on screen"@,
            UiText::WakeServer => "Wake server on dictation start"@,
            UiText::LocalFallback => "Local fallback on server failure"@,
            UiText::Permissions => "Permissions"@,
            UiText::Microphone => "Mic"@,
            UiText::Accessibility => "Accessibility"@,
            UiText::RecordWindow => "Record window"@,
            UiText::Diagnostics => "Diagnostics"@,
            UiText::OpenLogs => "Open Logs"@,
            UiText::RevealLogs => "Reveal in Finder"@,
            UiText::EditConfig => "Edit Config"@,
            UiText::SttEngine => "STT Engine"@,
            UiText::Status => "Status"@,
            UiText::DownloadLocalModel => "Download local model"@,
            UiText::RedownloadLocalModel => "Re-download local model"@,
            UiText::OpenModelsFolder => "Open Models Folder"@,
            UiText::Quit => "Quit"@,
            UiText::NoModel => "no model"@,
            UiText::MacOnly => "macOS only"@,
        },
        UiLanguage::Ru => match key {
            UiText::Settings => "Настройки"@,
            UiText::Endpoint => "Сервер"@,
            UiText::ApiKey => "API-ключ"@,
            UiText::ApplicationLanguage => "Язык приложения"@,
            UiText::RecordingDelay => "Задержка записи"@,
            UiText::PreviewHideDelay => "Скрывать результат через"@,
            UiText::Immediately => "сразу"@,
            UiText::SpeechLanguage => "Язык распознавания"@,
            UiText::Model => "Модель"@,
            UiText::Auto => "Авто"@,
            UiText::RefreshModels => "Обновить модели"@,
            UiText::RealtimePreview => "Предпросмотр в реальном времени"@,
            UiText::Cadence => "Интервал"@,
            UiText::Hotkey => "Горячая клавиша"@,
            UiText::Activation => "Режим активации"@,
            UiText::Hold => "Удержание"@,
            UiText::Toggle => "Переключатель"@,
            UiText::HoldHint => "(нажать для старта, отпустить для остановки)"@,
            UiText::ToggleHint => "(нажать для старта, нажать ещё раз для остановки)"@,
            UiText::Autostart => "Автозапуск"@,
            UiText::CenterOverlay => "Центрировать индикатор"@,
            UiText::WakeServer => "Прогревать сервер при начале диктовки"@,
            UiText::LocalFallback => "Локальный fallback при ошибке сервера"@,
            UiText::Permissions => "Разрешения"@,
            UiText::Microphone => "Микрофон"@,
            UiText::Accessibility => "Доступность"@,
            UiText::RecordWindow => "Окно записи"@,
            UiText::Diagnostics => "Диагностика"@,
            UiText::OpenLogs => "Открыть логи"@,
            UiText::RevealLogs => "Показать в Finder"@,
            UiText::EditConfig => "Изменить конфигурацию"@,
            UiText::SttEngine => "Движок распознавания"@,
            UiText::Status => "Статус"@,
            UiText::DownloadLocalModel => "Скачать локальную модель"@,
            UiText::RedownloadLocalModel => "Скачать локальную модель заново"@,
            UiText::OpenModelsFolder => "Открыть папку моделей"@,
            UiText::Quit => "Выйти"@,
            UiText::NoModel => "нет модели"@,
            UiText::MacOnly => "только macOS"@,
        },
        UiLanguage::Zh => match key {
            UiText::Settings => "设置"@,
            UiText::Endpoint => "服务器"@,
            UiText::ApiKey => "API 密钥"@,
            UiText::ApplicationLanguage => "应用语言"@,
            UiText::RecordingDelay => "录音延迟"@,
            UiText::PreviewHideDelay => "结果隐藏延迟"@,
            UiText::Immediately => "立即"@,
            UiText::SpeechLanguage => "识别语言"@,
            UiText::Model => "模型"@,
            UiText::Auto => "自动"@,
            UiText::RefreshModels => "刷新模型"@,
            UiText::RealtimePreview => "实时预览"@,
            UiText::Cadence => "间隔"@,
            UiText::Hotkey => "快捷键"@,
            UiText::Activation => "激活模式"@,
            UiText::Hold => "按住"@,
            UiText::Toggle => "切换"@,
            UiText::HoldHint => "（按下开始，松开停止）"@,
            UiText::ToggleHint => "（按下开始，再次按下停止）"@,
            UiText::Autostart => "开机启动"@,
            UiText::CenterOverlay => "将提示框置中"@,
            UiText::WakeServer => "开始听写时预热服务器"@,
            UiText::LocalFallback => "服务器失败时使用本地识别"@,
            UiText::Permissions => "权限"@,
            UiText::Microphone => "麦克风"@,
            UiText::Accessibility => "辅助功能"@,
            UiText::RecordWindow => "录音窗口"@,
            UiText::Diagnostics => "诊断"@,
            UiText::OpenLogs => "打开日志"@,
            UiText::RevealLogs => "在 Finder 中显示"@,
            UiText::EditConfig => "编辑配置"@,
            UiText::SttEngine => "识别引擎"@,
            UiText::Status => "状态"@,
            UiText::DownloadLocalModel => "下载本地模型"@,
            UiText::RedownloadLocalModel => "重新下载本地模型"@,
            UiText::OpenModelsFolder => "打开模型文件夹"@,
            UiText::Quit => "退出"@,
            UiText::NoModel => "没有模型"@,
            UiText::MacOnly => "仅 macOS"@,
        },
    }
}

impl UiLanguage {
    pub fn all_cases() -> (r: Vec<UiLanguage>)
        ensures
            r@ == seq![UiLanguage::En, UiLanguage::Ru, UiLanguage::Zh],
    {
        vec![UiLanguage::En, UiLanguage::Ru, UiLanguage::Zh]
    }

    pub fn code(self) -> (r: &'static str)
        ensures
            r@ == match self {
                UiLanguage::En => "en"@,
                UiLanguage::Ru => "ru"@,
                UiLanguage::Zh => "zh"@,
            },
    {
        match self {
            UiLanguage::En => "en",
            UiLanguage::Ru => "ru",
            UiLanguage::Zh => "zh",
        }
    }

    pub fn title(self) -> (r: &'static str)
        ensures
            r@ == match self {
                UiLanguage::En => "English"@,
                UiLanguage::Ru => "Русский"@,
                UiLanguage::Zh => "中文"@,
            },
    {
        match self {
            UiLanguage::En => "English",
            UiLanguage::Ru => "Русский",
            UiLanguage::Zh => "中文",
        }
    }

    /// Converts a BCP-47/Unix locale (for example `ru_RU.UTF-8`) to a UI
    /// language. English is the fallback for unsupported locales.
    pub fn from_locale(locale: &str) -> (r: UiLanguage)
        ensures
            r == ui_language_of_locale(locale@),
    {
        let n = locale.unicode_len();
        if n < 2 {
            return UiLanguage::En;
        }
        let a = locale.get_char(0);
        let b = locale.get_char(1);
        if ci_eq(a, 'r') && ci_eq(b, 'u') {
            UiLanguage::Ru
        } else if (ci_eq(a, 'z') && ci_eq(b, 'h')) || (ci_eq(a, 'c') && ci_eq(b, 'n')) {
            UiLanguage::Zh
        } else {
            UiLanguage::En
        }
    }

    /// The UI language of the first non-empty locale value, English when
    /// there is none (the values are read from `LC_ALL`, `LANGUAGE`,
    /// `LC_MESSAGES` and `LANG`, in that order).
    pub fn from_locale_values(values: &Vec<Option<String>>) -> (r: UiLanguage)
        ensures
            r == first_locale_language(values@, 0),
    {
        let mut i: usize = 0;
        while i < values.len()
            invariant
                i <= values@.len(),
                first_locale_language(values@, 0) == first_locale_language(values@, i as int),
            decreases values@.len() - i,
        {
            match &values[i] {
                Some(v) => {
                    if v.as_str().unicode_len() > 0 {
                        return UiLanguage::from_locale(v.as_str());
                    }
                },
                None => {},
            }
            i = i + 1;
        }
        UiLanguage::En
    }

    pub fn text(self, key: UiText) -> (r: &'static str)
        ensures
            r@ == ui_text(self, key),
    {
        match self {
            UiLanguage::En => match key {
                UiText::Settings => "Settings",
                UiText::Endpoint => "Endpoint",
                UiText::ApiKey => "API Key",
                UiText::ApplicationLanguage => "Application language",
                UiText::RecordingDelay => "Recording delay",
                UiText::PreviewHideDelay => "Preview hide delay",
                UiText::Immediately => "immediately",
                UiText::SpeechLanguage => "Speech language",
                UiText::Model => "Model",
                UiText::Auto => "Auto",
                UiText::RefreshModels => "Refresh models",
                UiText::RealtimePreview => "Realtime preview",
                UiText::Cadence => "Cadence",
                UiText::Hotkey => "Hotkey",
                UiText::Activation => "Activation",
                UiText::Hold => "Hold",
                UiText::Toggle => "Toggle",
                UiText::HoldHint => "(press to start, release to stop)",
                UiText::ToggleHint => "(press to start, press again to stop)",
                UiText::Autostart => "Autostart",
                UiText::CenterOverlay => "Centre overlay on screen",
                UiText::WakeServer => "Wake server on dictation start",
                UiText::LocalFallback => "Local fallback on server failure",
                UiText::Permissions => "Permissions",
                UiText::Microphone => "Mic",
                UiText::Accessibility => "Accessibility",
                UiText::RecordWindow => "Record window",
                UiText::Diagnostics => "Diagnostics",
                UiText::OpenLogs => "Open Logs",
                UiText::RevealLogs => "Reveal in Finder",
                UiText::EditConfig => "Edit Config",
                UiText::SttEngine => "STT Engine",
                UiText::Status => "Status",
                UiText::DownloadLocalModel => "Download local model",
                UiText::RedownloadLocalModel => "Re-download local model",
                UiText::OpenModelsFolder => "Open Models Folder",
                UiText::Quit => "Quit",
                UiText::NoModel => "no model",
                UiText::MacOnly => "macOS only",
            },
            UiLanguage::Ru => match key {
                UiText::Settings => "Настройки",
                UiText::Endpoint => "Сервер",
                UiText::ApiKey => "API-ключ",
                UiText::ApplicationLanguage => "Язык приложения",
                UiText::RecordingDelay => "Задержка записи",
                UiText::PreviewHideDelay => "Скрывать результат через",
                UiText::Immediately => "сразу",
                UiText::SpeechLanguage => "Язык распознавания",
                UiText::Model => "Модель",
                UiText::Auto => "Авто",
                UiText::RefreshModels => "Обновить модели",
                UiText::RealtimePreview => "Предпросмотр в реальном времени",
                UiText::Cadence => "Интервал",
                UiText::Hotkey => "Горячая клавиша",
                UiText::Activation => "Режим активации",
                UiText::Hold => "Удержание",
                UiText::Toggle => "Переключатель",
                UiText::HoldHint => "(нажать для старта, отпустить для остановки)",
                UiText::ToggleHint => "(нажать для старта, нажать ещё раз для остановки)",
                UiText::Autostart => "Автозапуск",
                UiText::CenterOverlay => "Центрировать индикатор",
                UiText::WakeServer => "Прогревать сервер при начале диктовки",
                UiText::LocalFallback => "Локальный fallback при ошибке сервера",
                UiText::Permissions => "Разрешения",
                UiText::Microphone => "Микрофон",
                UiText::Accessibility => "Доступность",
                UiText::RecordWindow => "Окно записи",
                UiText::Diagnostics => "Диагностика",
                UiText::OpenLogs => "Открыть логи",
                UiText::RevealLogs => "Показать в Finder",
                UiText::EditConfig => "Изменить конфигурацию",
                UiText::SttEngine => "Движок распознавания",
                UiText::Status => "Статус",
                UiText::DownloadLocalModel => "Скачать локальную модель",
                UiText::RedownloadLocalModel => "Скачать локальную модель заново",
                UiText::OpenModelsFolder => "Открыть папку моделей",
                UiText::Quit => "Выйти",
                UiText::NoModel => "нет модели",
                UiText::MacOnly => "только macOS",
            },
            UiLanguage::Zh => match key {
                UiText::Settings => "设置",
                UiText::Endpoint => "服务器",
                UiText::ApiKey => "API 密钥",
                UiText::ApplicationLanguage => "应用语言",
                UiText::RecordingDelay => "录音延迟",
                UiText::PreviewHideDelay => "结果隐藏延迟",
                UiText::Immediately => "立即",
                UiText::SpeechLanguage => "识别语言",
                UiText::Model => "模型",
                UiText::Auto => "自动",
                UiText::RefreshModels => "刷新模型",
                UiText::RealtimePreview => "实时预览",
                UiText::Cadence => "间隔",
                UiText::Hotkey => "快捷键",
                UiText::Activation => "激活模式",
                UiText::Hold => "按住",
                UiText::Toggle => "切换",
                UiText::HoldHint => "（按下开始，松开停止）",
                UiText::ToggleHint => "（按下开始，再次按下停止）",
                UiText::Autostart => "开机启动",
                UiText::CenterOverlay => "将提示框置中",
                UiText::WakeServer => "开始听写时预热服务器",
                UiText::LocalFallback => "服务器失败时使用本地识别",
                UiText::Permissions => "权限",
                UiText::Microphone => "麦克风",
                UiText::Accessibility => "辅助功能",
                UiText::RecordWindow => "录音窗口",
                UiText::Diagnostics => "诊断",
                UiText::OpenLogs => "打开日志",
                UiText::RevealLogs => "在 Finder 中显示",
                UiText::EditConfig => "编辑配置",
                UiText::SttEngine => "识别引擎",
                UiText::Status => "状态",
                UiText::DownloadLocalModel => "下载本地模型",
                UiText::RedownloadLocalModel => "重新下载本地模型",
                UiText::OpenModelsFolder => "打开模型文件夹",
                UiText::Quit => "退出",
                UiText::NoModel => "没有模型",
                UiText::MacOnly => "仅 macOS",
            },
        }
    }
}

/// `UiLanguage::from_locale` of the first present, non-empty value from index `i` on.
pub open spec fn first_locale_language(values: Seq<Option<String>>, i: int) -> UiLanguage
    decreases values.len() - i,
{
    if i < 0 || i >= values.len() {
        UiLanguage::En
    } else {
        match values[i] {
            Some(v) if v@.len() > 0 => ui_language_of_locale(v@),
            _ => first_locale_language(values, i + 1),
        }
    }
}

pub open spec fn hotkey_title(k: HotkeyKind) -> Seq<char> {
    match k {
        HotkeyKind::Fn => "Fn (Globe 🌐)"@,
        HotkeyKind::RightOption => "Right ⌥ Option"@,
        HotkeyKind::RightControl => "Right ⌃ Control"@,
        HotkeyKind::RightCommand => "Right ⌘ Command"@,
        HotkeyKind::RightShift => "Right ⇧ Shift"@,
        HotkeyKind::CapsLock => "Caps Lock"@,
        HotkeyKind::F13 => "F13"@,
        HotkeyKind::F14 => "F14"@,
        HotkeyKind::F15 => "F15"@,
    }
}

pub open spec fn hotkey_title_for(k: HotkeyKind, ui: UiLanguage) -> Seq<char> {
    match (k, ui) {
        (HotkeyKind::Fn, UiLanguage::Ru) => "Fn (Globe 🌐)"@,
        (HotkeyKind::Fn, UiLanguage::Zh) => "Fn（地球 🌐）"@,
        (HotkeyKind::Fn, _) => "Fn (Globe 🌐)"@,
        (HotkeyKind::RightOption, UiLanguage::Ru) => "Правая ⌥ Option"@,
        (HotkeyKind::RightOption, UiLanguage::Zh) => "右侧 ⌥ Option"@,
        (HotkeyKind::RightOption, _) => "Right ⌥ Option"@,
        (HotkeyKind::RightControl, UiLanguage::Ru) => "Правая ⌃ Control"@,
        (HotkeyKind::RightControl, UiLanguage::Zh) => "右侧 ⌃ Control"@,
        (HotkeyKind::RightControl, _) => "Right ⌃ Control"@,
        (HotkeyKind::RightCommand, UiLanguage::Ru) => "Правая ⌘ Command"@,
        (HotkeyKind::RightCommand, UiLanguage::Zh) => "右侧 ⌘ Command"@,
        (HotkeyKind::RightCommand, _) => "Right ⌘ Command"@,
        (HotkeyKind::RightShift, UiLanguage::Ru) => "Правая ⇧ Shift"@,
        (HotkeyKind::RightShift, UiLanguage::Zh) => "右侧 ⇧ Shift"@,
        (HotkeyKind::RightShift, _) => "Right ⇧ Shift"@,
        (HotkeyKind::CapsLock, _) => "Caps Lock"@,
        (HotkeyKind::F13, _) => "F13"@,
        (HotkeyKind::F14, _) => "F14"@,
        (HotkeyKind::F15, _) => "F15"@,
    }
}

/// Whether the key is a modifier-only key (watched by the modifier monitor
/// helper rather than registered as a global shortcut).
pub open spec fn is_modifier_key(k: HotkeyKind) -> bool {
    match k {
        HotkeyKind::F13 | HotkeyKind::F14 | HotkeyKind::F15 => false,
        _ => true,
    }
}

impl HotkeyKind {
    pub fn title(&self) -> (r: &'static str)
        ensures
            r@ == hotkey_title(*self),
    {
        match self {
            HotkeyKind::Fn => "Fn (Globe 🌐)",
            HotkeyKind::RightOption => "Right ⌥ Option",
            HotkeyKind::RightControl => "Right ⌃ Control",
            HotkeyKind::RightCommand => "Right ⌘ Command",
            HotkeyKind::RightShift => "Right ⇧ Shift",
            HotkeyKind::CapsLock => "Caps Lock",
            HotkeyKind::F13 => "F13",
            HotkeyKind::F14 => "F14",
            HotkeyKind::F15 => "F15",
        }
    }

    pub fn title_for(&self, ui_language: UiLanguage) -> (r: &'static str)
        ensures
            r@ == hotkey_title_for(*self, ui_language),
    {
        match (self, ui_language) {
            (HotkeyKind::Fn, UiLanguage::Ru) => "Fn (Globe 🌐)",
            (HotkeyKind::Fn, UiLanguage::Zh) => "Fn（地球 🌐）",
            (HotkeyKind::Fn, _) => "Fn (Globe 🌐)",
            (HotkeyKind::RightOption, UiLanguage::Ru) => "Правая ⌥ Option",
            (HotkeyKind::RightOption, UiLanguage::Zh) => "右侧 ⌥ Option",
            (HotkeyKind::RightOption, _) => "Right ⌥ Option",
            (HotkeyKind::RightControl, UiLanguage::Ru) => "Правая ⌃ Control",
            (HotkeyKind::RightControl, UiLanguage::Zh) => "右侧 ⌃ Control",
            (HotkeyKind::RightControl, _) => "Right ⌃ Control",
            (HotkeyKind::RightCommand, UiLanguage::Ru) => "Правая ⌘ Command",
            (HotkeyKind::RightCommand, UiLanguage::Zh) => "右侧 ⌘ Command",
            (HotkeyKind::RightCommand, _) => "Right ⌘ Command",
            (HotkeyKind::RightShift, UiLanguage::Ru) => "Правая ⇧ Shift",
            (HotkeyKind::RightShift, UiLanguage::Zh) => "右侧 ⇧ Shift",
            (HotkeyKind::RightShift, _) => "Right ⇧ Shift",
            (HotkeyKind::CapsLock, UiLanguage::Ru) => "Caps Lock",
            (HotkeyKind::CapsLock, UiLanguage::Zh) => "Caps Lock",
            (HotkeyKind::CapsLock, _) => "Caps Lock",
            (HotkeyKind::F13, _) => "F13",
            (HotkeyKind::F14, _) => "F14",
            (HotkeyKind::F15, _) => "F15",
        }
    }

    /// The global-shortcut string: empty for modifier-only keys, which the
    /// modifier monitor handles, and the key name for F13-F15.
    pub fn shortcut_str(&self) -> (r: &'static str)
        ensures
            is_modifier_key(*self) ==> r@ == ""@,
            !is_modifier_key(*self) ==> r@ == hotkey_title(*self),
    {
        match self {
            HotkeyKind::Fn => "",
            HotkeyKind::RightOption => "",
            HotkeyKind::RightControl => "",
            HotkeyKind::RightCommand => "",
            HotkeyKind::RightShift => "",
            HotkeyKind::CapsLock => "",
            HotkeyKind::F13 => "F13",
            HotkeyKind::F14 => "F14",
            HotkeyKind::F15 => "F15",
        }
    }

    /// All cases, in menu order.
    pub fn all_cases() -> (r: Vec<HotkeyKind>)
        ensures
            r@ == hotkey_order(),
    {
        vec![
            HotkeyKind::Fn,
            HotkeyKind::RightOption,
            HotkeyKind::RightControl,
            HotkeyKind::RightCommand,
            HotkeyKind::RightShift,
            HotkeyKind::CapsLock,
            HotkeyKind::F13,
            HotkeyKind::F14,
            HotkeyKind::F15,
        ]
    }

    /// Whether this hotkey needs the modifier monitor on macOS.
    pub fn needs_modifier_monitor(&self) -> (r: bool)
        ensures
            r == is_modifier_key(*self),
    {
        match self {
            HotkeyKind::Fn | HotkeyKind::RightOption | HotkeyKind::RightControl
            | HotkeyKind::RightCommand | HotkeyKind::RightShift | HotkeyKind::CapsLock => true,
            _ => false,
        }
    }

    /// The key name the modifier monitor helper expects (empty for F13-F15).
    pub fn to_modifier_string(&self) -> (r: String)
        ensures
            r@ == match *self {
                HotkeyKind::Fn => "fn"@,
                HotkeyKind::RightOption => "right_option"@,
                HotkeyKind::RightControl => "right_control"@,
                HotkeyKind::RightCommand => "right_command"@,
                HotkeyKind::RightShift => "right_shift"@,
                HotkeyKind::CapsLock => "caps_lock"@,
                _ => ""@,
            },
    {
        let s: &str = match self {
            HotkeyKind::Fn => "fn",
            HotkeyKind::RightOption => "right_option",
            HotkeyKind::RightControl => "right_control",
            HotkeyKind::RightCommand => "right_command",
            HotkeyKind::RightShift => "right_shift",
            HotkeyKind::CapsLock => "caps_lock",
            _ => "",
        };
        s.to_owned()
    }
}

impl Default for HotkeyKind {
    fn default() -> (r: Self)
        ensures
            r == HotkeyKind::Fn,
    {
        HotkeyKind::Fn
    }
}

impl ActivationMode {
    pub fn title(&self) -> (r: &'static str)
        ensures
            r@ == match *self {
                ActivationMode::Hold => "Hold (press to start, release to stop)"@,
                ActivationMode::Toggle => "Toggle (press to start, press again to stop)"@,
            },
    {
        match self {
            ActivationMode::Hold => "Hold (press to start, release to stop)",
            ActivationMode::Toggle => "Toggle (press to start, press again to stop)",
        }
    }
}

impl Default for ActivationMode {
    fn default() -> (r: Self)
        ensures
            r == ActivationMode::Hold,
    {
        ActivationMode::Hold
    }
}

pub open spec fn engine_title_for(e: SttEngine, ui: UiLanguage) -> Seq<char> {
    match (e, ui) {
        (SttEngine::Remote, UiLanguage::Ru) => "🌐 Удалённый (Whisper API)"@,
        (SttEngine::Remote, UiLanguage::Zh) => "🌐 远程（Whisper API）"@,
        (SttEngine::Remote, _) => "🌐 Remote (Whisper API)"@,
        (SttEngine::Local, UiLanguage::Ru) => "💾 Локальный (whisper.cpp)"@,
        (SttEngine::Local, UiLanguage::Zh) => "💾 本地（whisper.cpp）"@,
        (SttEngine::Local, _) => "💾 Local (whisper.cpp)"@,
        (SttEngine::Native, UiLanguage::Ru) => "🍎 Системный (Apple Speech)"@,
        (SttEngine::Native, UiLanguage::Zh) => "🍎 原生（Apple Speech）"@,
        (SttEngine::Native, _) => "🍎 Native (Apple Speech)"@,
    }
}

pub open spec fn engine_short_for(e: SttEngine, ui: UiLanguage) -> Seq<char> {
    match (e, ui) {
        (SttEngine::Remote, UiLanguage::Ru) => "Удалённый"@,
        (SttEngine::Remote, UiLanguage::Zh) => "远程"@,
        (SttEngine::Remote, _) => "Remote"@,
        (SttEngine::Local, UiLanguage::Ru) => "Локальный"@,
        (SttEngine::Local, UiLanguage::Zh) => "本地"@,
        (SttEngine::Local, _) => "Local"@,
        (SttEngine::Native, UiLanguage::Ru) => "Системный"@,
        (SttEngine::Native, UiLanguage::Zh) => "原生"@,
        (SttEngine::Native, _) => "Native"@,
    }
}

impl SttEngine {
    /// Id used in tray menu event ids (e.g. "engine_remote").
    pub fn id(self) -> (r: &'static str)
        ensures
            r@ == match self {
                SttEngine::Remote => "engine_remote"@,
                SttEngine::Local => "engine_local"@,
                SttEngine::Native => "engine_native"@,
            },
    {
        match self {
            SttEngine::Remote => "engine_remote",
            SttEngine::Local => "engine_local",
            SttEngine::Native => "engine_native",
        }
    }

    /// Label with an emoji bullet, used in the engine submenu.
    pub fn title(self) -> (r: &'static str)
        ensures
            r@ == engine_title_for(self, UiLanguage::En),
    {
        match self {
            SttEngine::Remote => "🌐 Remote (Whisper API)",
            SttEngine::Local => "💾 Local (whisper.cpp)",
            SttEngine::Native => "🍎 Native (Apple Speech)",
        }
    }

    pub fn title_for(self, ui_language: UiLanguage) -> (r: &'static str)
        ensures
            r@ == engine_title_for(self, ui_language),
    {
        match (self, ui_language) {
            (SttEngine::Remote, UiLanguage::Ru) => "🌐 Удалённый (Whisper API)",
            (SttEngine::Remote, UiLanguage::Zh) => "🌐 远程（Whisper API）",
            (SttEngine::Remote, _) => "🌐 Remote (Whisper API)",
            (SttEngine::Local, UiLanguage::Ru) => "💾 Локальный (whisper.cpp)",
            (SttEngine::Local, UiLanguage::Zh) => "💾 本地（whisper.cpp）",
            (SttEngine::Local, _) => "💾 Local (whisper.cpp)",
            (SttEngine::Native, UiLanguage::Ru) => "🍎 Системный (Apple Speech)",
            (SttEngine::Native, UiLanguage::Zh) => "🍎 原生（Apple Speech）",
            (SttEngine::Native, _) => "🍎 Native (Apple Speech)",
        }
    }

    /// One-word label, used in the status line.
    pub fn short(self) -> (r: &'static str)
        ensures
            r@ == engine_short_for(self, UiLanguage::En),
    {
        match self {
            SttEngine::Remote => "Remote",
            SttEngine::Local => "Local",
            SttEngine::Native => "Native",
        }
    }

    pub fn short_for(self, ui_language: UiLanguage) -> (r: &'static str)
        ensures
            r@ == engine_short_for(self, ui_language),
    {
        match (self, ui_language) {
            (SttEngine::Remote, UiLanguage::Ru) => "Удалённый",
            (SttEngine::Remote, UiLanguage::Zh) => "远程",
            (SttEngine::Remote, _) => "Remote",
            (SttEngine::Local, UiLanguage::Ru) => "Локальный",
            (SttEngine::Local, UiLanguage::Zh) => "本地",
            (SttEngine::Local, _) => "Local",
            (SttEngine::Native, UiLanguage::Ru) => "Системный",
            (SttEngine::Native, UiLanguage::Zh) => "原生",
            (SttEngine::Native, _) => "Native",
        }
    }

    /// All engines, in the canonical UI order (Remote, Local, Native).
    pub fn all_cases() -> (r: Vec<SttEngine>)
        ensures
            r@ == seq![SttEngine::Remote, SttEngine::Local, SttEngine::Native],
    {
        vec![SttEngine::Remote, SttEngine::Local, SttEngine::Native]
    }
}

} // verus!
