//! Small desktop integrations whose effects are the caller's part: the
//! warm-up silence file, the clipboard paste, and starting at login. What is
//! decided or written here is which text is pasted and what the login
//! entries contain.

use crate::text::{push_str, replace_all, replace_str, trim, trimmed};
use vstd::prelude::*;

verus! {

broadcast use vstd::string::group_string_axioms;

/// Sample rate of the warm-up silence file.
pub const WAKE_SAMPLE_RATE: u32 = 16000;

/// Number of samples in the warm-up silence file (one second).
pub const WAKE_SAMPLES: u32 = 16000;

/// Folder (under the temporary folder) of the warm-up silence file.
pub const WAKE_DIR_NAME: &'static str = "voicepaste-wake";

/// File name of the warm-up silence file.
pub const WAKE_FILE_NAME: &'static str = "silence-1s.wav";

/// Remembers the path of the one-second silence file sent to wake the
/// server before a recording.
pub struct WakeWav {
    cached: Option<String>,
}

impl WakeWav {
    /// The remembered path, if any.
    pub closed spec fn cached(&self) -> Option<Seq<char>> {
        match self.cached {
            Some(p) => Some(p@),
            None => None,
        }
    }

    pub fn new() -> (r: Self)
        ensures
            r.cached() is None,
    {
        WakeWav { cached: None }
    }

    /// The remembered path, where it was remembered and the file still
    /// exists.
    pub fn reusable(&self, cached_file_exists: bool) -> (r: Option<String>)
        ensures
            match r {
                Some(p) => cached_file_exists && self.cached() == Some(p@),
                None => !cached_file_exists || self.cached() is None,
            },
    {
        match &self.cached {
            Some(p) => {
                if cached_file_exists {
                    Some(p.clone())
                } else {
                    None
                }
            },
            None => None,
        }
    }

    /// Remembers the silence file's path.
    pub fn remember(&mut self, path: &str)
        ensures
            final(self).cached() == Some(path@),
    {
        self.cached = Some(path.to_string());
    }
}

/// Copies text to the clipboard and simulates the paste keystroke; the
/// keystroke itself is sent by the application.
pub struct PasteboardTyper;

impl PasteboardTyper {
    pub fn new() -> (r: Self) {
        PasteboardTyper
    }

    /// The text a paste puts on the clipboard: the transcript trimmed, and
    /// nothing at all for a blank one.
    pub fn paste_text(&self, text: &str) -> (r: Option<String>)
        ensures
            match r {
                Some(t) => t@ == trim(text@) && t@.len() > 0,
                None => trim(text@).len() == 0,
            },
    {
        let t = trimmed(text);
        if t.as_str().is_empty() {
            None
        } else {
            Some(t)
        }
    }

    /// The PowerShell command that puts `text` on the Windows clipboard, with
    /// `'` doubled inside the single-quoted literal.
    pub fn windows_clipboard_command(text: &str) -> (r: String)
        ensures
            r@ == "Set-Clipboard -Value '"@ + replace_all(text@, "'"@, "''"@) + "'"@,
    {
        proof {
            reveal_strlit("'");
        }
        let mut r = "Set-Clipboard -Value '".to_string();
        let quoted = replace_str(text, "'", "''");
        push_str(&mut r, quoted.as_str());
        push_str(&mut r, "'");
        r
    }
}

/// Label of the login item.
pub const LAUNCH_AGENT_LABEL: &'static str = "com.bezrabotnyi.voicepaste";

/// Starts the application at login; the files and registry entries are
/// written by the application.
pub struct AutostartManager;

/// The LaunchAgent property list that starts `exe` at login on macOS.
pub open spec fn launch_agent_plist_text(exe: Seq<char>) -> Seq<char> {
    "<?xml version=\"1.0\" encoding=\"UTF-8\"?>\n<!DOCTYPE plist PUBLIC \"-//Apple//DTD PLIST 1.0//EN\" \"http://www.apple.com/DTDs/PropertyList-1.0.dtd\">\n<plist version=\"1.0\">\n<dict>\n    <key>Label</key>\n    <string>com.bezrabotnyi.voicepaste</string>\n    <key>ProgramArguments</key>\n    <array>\n        <string>"@
        + exe
        + "</string>\n    </array>\n    <key>RunAtLoad</key>\n    <true/>\n</dict>\n</plist>"@
}

/// The XDG autostart entry that starts `exe` at login on Linux.
pub open spec fn desktop_entry_text(exe: Seq<char>) -> Seq<char> {
    "[Desktop Entry]\nType=Application\nName=VoicePaste\nExec="@ + exe
        + "\nX-GNOME-Autostart-enabled=true\n"@
}

impl AutostartManager {
    /// The LaunchAgent property list for `exe`.
    pub fn launch_agent_plist(exe: &str) -> (r: String)
        ensures
            r@ == launch_agent_plist_text(exe@),
    {
        let mut r = "<?xml version=\"1.0\" encoding=\"UTF-8\"?>\n<!DOCTYPE plist PUBLIC \"-//Apple//DTD PLIST 1.0//EN\" \"http://www.apple.com/DTDs/PropertyList-1.0.dtd\">\n<plist version=\"1.0\">\n<dict>\n    <key>Label</key>\n    <string>com.bezrabotnyi.voicepaste</string>\n    <key>ProgramArguments</key>\n    <array>\n        <string>".to_string();
        push_str(&mut r, exe);
        push_str(
            &mut r,
            "</string>\n    </array>\n    <key>RunAtLoad</key>\n    <true/>\n</dict>\n</plist>",
        );
        r
    }

    /// The autostart desktop entry for `exe`.
    pub fn desktop_entry(exe: &str) -> (r: String)
        ensures
            r@ == desktop_entry_text(exe@),
    {
        let mut r = "[Desktop Entry]\nType=Application\nName=VoicePaste\nExec=".to_string();
        push_str(&mut r, exe);
        push_str(&mut r, "\nX-GNOME-Autostart-enabled=true\n");
        r
    }
}

} // verus!
