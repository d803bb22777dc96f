use transcriber::model::{
    check_download_status, minimum_model_size, model_file_acceptable, models, ModelManager,
};
use transcriber::error::AppError;

#[test]
fn model_paths() {
    let m = ModelManager::new("/cache".to_string());
    assert_eq!(m.cache_dir(), "/cache");
    assert_eq!(m.model_path("base"), "/cache/ggml-base.bin");
    assert_eq!(m.quantized_model_path("base", "q5_k"), "/cache/ggml-base-q5_k.bin");
    assert_eq!(m.model_file_path("tiny", None), "/cache/ggml-tiny.bin");
    assert_eq!(m.model_file_path("tiny", Some("q8_0")), "/cache/ggml-tiny-q8_0.bin");
}

#[test]
fn download_urls_match_cache_names() {
    assert_eq!(
        ModelManager::download_url("base", None),
        "https://huggingface.co/ggerganov/whisper.cpp/resolve/main/ggml-base.bin"
    );
    assert_eq!(
        ModelManager::download_url("medium", Some("q5_k")),
        "https://huggingface.co/ggerganov/whisper.cpp/resolve/main/ggml-medium-q5_k.bin"
    );
    let m = ModelManager::new("/c".to_string());
    let url = ModelManager::download_url("small", Some("q4_k"));
    let path = m.model_file_path("small", Some("q4_k"));
    assert_eq!(url.rsplit('/').next(), path.rsplit('/').next());
}

#[test]
fn download_status() {
    assert!(check_download_status("base", "u", 200).is_ok());
    assert!(check_download_status("base", "u", 299).is_ok());
    match check_download_status("base", "u", 404) {
        Err(AppError::ModelDownload { model, url, status }) => {
            assert_eq!(model, "base");
            assert_eq!(url, "u");
            assert_eq!(status, Some(404));
        }
        _ => panic!("expected a download error"),
    }
    assert!(check_download_status("base", "u", 301).is_err());
    assert!(check_download_status("base", "u", 199).is_err());
}

#[test]
fn model_sizes() {
    assert_eq!(minimum_model_size("tiny"), 50 * 1024 * 1024);
    assert_eq!(minimum_model_size("medium"), 1000 * 1024 * 1024);
    assert_eq!(minimum_model_size("other"), 10 * 1024 * 1024);
    assert!(!model_file_acceptable("base", None));
    assert!(!model_file_acceptable("base", Some(100 * 1024 * 1024 - 1)));
    assert!(model_file_acceptable("base", Some(100 * 1024 * 1024)));
}

#[test]
fn model_catalogue() {
    let all = models();
    let names: Vec<&str> = all.iter().map(|m| m.name).collect();
    assert_eq!(names, vec!["tiny", "base", "small", "medium", "large-v3-turbo"]);
    assert_eq!(all[3].f16_size_mb, 1500);
    assert_eq!(all[4].ggml_filename, "ggml-large-v3-turbo.bin");
    let descriptions: Vec<&str> = all.iter().map(|m| m.description).collect();
    assert_eq!(
        descriptions,
        vec!["Fastest, lowest quality", "Default, balanced", "Better quality", "High quality", "Best quality/speed ratio"]
    );
}
