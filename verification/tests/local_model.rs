use voicepaste::local_model::{
    first_bin_entry, has_bin_extension, LocalTranscriber, ModelSearch, ModelStatus,
    DEFAULT_MODEL_FILENAME, LOCAL_MODEL_PARAKEET_V3, LOCAL_MODEL_WHISPER_BASE,
};

fn nothing_on_disk() -> ModelSearch {
    ModelSearch {
        env_path: None,
        canonical: None,
        models_dir_entries: Vec::new(),
        in_current_dir: false,
    }
}

#[test]
fn model_status_default_is_not_present_on_clean_machine() {
    let found = LocalTranscriber::find_model_for(LOCAL_MODEL_WHISPER_BASE, &nothing_on_disk());
    assert_eq!(found, None);
    assert_eq!(LocalTranscriber::model_status(found, 0), ModelStatus::NotPresent);
}

#[test]
fn parakeet_provider_is_not_treated_as_a_whisper_file() {
    let search = ModelSearch {
        env_path: Some("/models/ggml-base.bin".to_string()),
        canonical: Some("/data/ggml-base.bin".to_string()),
        models_dir_entries: vec!["custom.bin".to_string()],
        in_current_dir: true,
    };
    assert!(LocalTranscriber::find_model_for(LOCAL_MODEL_PARAKEET_V3, &search).is_none());
    assert_eq!(
        LocalTranscriber::model_status(
            LocalTranscriber::find_model_for(LOCAL_MODEL_PARAKEET_V3, &search),
            0
        ),
        ModelStatus::NotPresent
    );
}

#[test]
fn model_search_follows_its_order() {
    let mut search = nothing_on_disk();
    search.in_current_dir = true;
    assert_eq!(
        LocalTranscriber::find_model_for(LOCAL_MODEL_WHISPER_BASE, &search),
        Some(DEFAULT_MODEL_FILENAME.to_string())
    );
    search.models_dir_entries = vec!["notes.txt".to_string(), ".bin".to_string(), "large.bin".to_string()];
    assert_eq!(
        LocalTranscriber::find_model_for(LOCAL_MODEL_WHISPER_BASE, &search),
        Some("large.bin".to_string())
    );
    search.canonical = Some("/data/ggml-base.bin".to_string());
    assert_eq!(
        LocalTranscriber::find_model_for(LOCAL_MODEL_WHISPER_BASE, &search),
        Some("/data/ggml-base.bin".to_string())
    );
    search.env_path = Some("/env/model.bin".to_string());
    assert_eq!(
        LocalTranscriber::find_model_for(LOCAL_MODEL_WHISPER_BASE, &search),
        Some("/env/model.bin".to_string())
    );
    match LocalTranscriber::model_status(Some("/env/model.bin".to_string()), 42) {
        ModelStatus::Present { path, bytes } => {
            assert_eq!(path, "/env/model.bin");
            assert_eq!(bytes, 42);
        }
        ModelStatus::NotPresent => panic!("expected a present model"),
    }
}

#[test]
fn bin_extension_follows_path_rules() {
    assert!(has_bin_extension("ggml-base.bin"));
    assert!(has_bin_extension("a.b.bin"));
    assert!(!has_bin_extension(".bin"));
    assert!(!has_bin_extension("model.bin.partial"));
    assert!(!has_bin_extension("bin"));
    assert!(!has_bin_extension("model.BIN"));
    assert_eq!(first_bin_entry(&vec!["x".to_string(), "y.bin".to_string()]), Some(1));
    assert_eq!(first_bin_entry(&vec![]), None);
}

#[test]
fn local_transcriber_keeps_its_model_path() {
    let _t = LocalTranscriber::new("/models/ggml-base.bin");
}

#[test]
fn default_model_path_lives_in_models_dir() {
    assert_eq!(
        voicepaste::local_model::default_model_path("/data/voicepaste"),
        "/data/voicepaste/ggml-base.bin"
    );
    assert_eq!(voicepaste::local_model::default_model_path("/data/"), "/data/ggml-base.bin");
    assert_eq!(
        LocalTranscriber::find_model(&nothing_on_disk()),
        None
    );
}
