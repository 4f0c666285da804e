use voicepaste::desktop::{AutostartManager, PasteboardTyper, WakeWav};

#[test]
fn paste_uses_the_trimmed_text() {
    let typer = PasteboardTyper::new();
    assert_eq!(typer.paste_text("  hi  "), Some("hi".to_string()));
    assert_eq!(typer.paste_text(" \n "), None);
    assert_eq!(
        PasteboardTyper::windows_clipboard_command("it's"),
        "Set-Clipboard -Value 'it''s'"
    );
}

#[test]
fn wake_file_is_reused_while_it_exists() {
    let mut wake = WakeWav::new();
    assert_eq!(wake.reusable(true), None);
    wake.remember("/tmp/voicepaste-wake/silence-1s.wav");
    assert_eq!(wake.reusable(true), Some("/tmp/voicepaste-wake/silence-1s.wav".to_string()));
    assert_eq!(wake.reusable(false), None);
}

#[test]
fn login_entries_name_the_executable() {
    let plist = AutostartManager::launch_agent_plist("/Applications/VoicePaste.app/Contents/MacOS/voicepaste");
    assert!(plist.contains("<string>/Applications/VoicePaste.app/Contents/MacOS/voicepaste</string>"));
    assert!(plist.starts_with("<?xml version=\"1.0\" encoding=\"UTF-8\"?>\n"));
    assert!(plist.ends_with("</plist>"));
    assert_eq!(
        AutostartManager::desktop_entry("/usr/bin/voicepaste"),
        "[Desktop Entry]\nType=Application\nName=VoicePaste\nExec=/usr/bin/voicepaste\nX-GNOME-Autostart-enabled=true\n"
    );
}
