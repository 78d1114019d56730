use open_llm_server::auth::check_api_key;
use open_llm_server::config::{
    choose_model_path, find_local_model, is_model_extension, u16_or_default, usize_or_default,
    RunSettings,
};
use open_llm_server::error::LLMError;

#[test]
fn defaults_apply_without_arguments() {
    let s = RunSettings::from_args(None, None, None);
    assert_eq!(s, RunSettings { port: 8080, num_threads: 8, output_tokens: 2048 });
}

#[test]
fn valid_arguments_are_used() {
    let s = RunSettings::from_args(Some("3000"), Some("+4"), Some("512"));
    assert_eq!(s, RunSettings { port: 3000, num_threads: 4, output_tokens: 512 });
}

#[test]
fn invalid_arguments_fall_back() {
    assert_eq!(u16_or_default(Some("70000"), 8080), 8080);
    assert_eq!(u16_or_default(Some("65535"), 8080), 65535);
    assert_eq!(u16_or_default(Some(" 80"), 8080), 8080);
    assert_eq!(u16_or_default(Some("-1"), 8), 8);
    assert_eq!(u16_or_default(Some(""), 8), 8);
    assert_eq!(u16_or_default(Some("+"), 8), 8);
    assert_eq!(usize_or_default(Some("12ab"), 2048), 2048);
    assert_eq!(usize_or_default(Some("0"), 2048), 0);
}

#[test]
fn first_bin_file_is_found() {
    let paths = vec![
        "./README.md".to_string(),
        "./.bin".to_string(),
        "./notes.bin.txt".to_string(),
        "./llama.bin".to_string(),
        "./other.bin".to_string(),
    ];
    assert_eq!(find_local_model(&paths), Some("./llama.bin".to_string()));
}

#[test]
fn no_bin_file_is_none() {
    let paths = vec!["./a.txt".to_string(), "./binary".to_string(), "./x.BIN".to_string()];
    assert_eq!(find_local_model(&paths), None);
    assert_eq!(find_local_model(&Vec::new()), None);
}

#[test]
fn model_extension_check() {
    assert!(is_model_extension(Some("bin")));
    assert!(!is_model_extension(Some("bins")));
    assert!(!is_model_extension(None));
}

#[test]
fn model_path_choice() {
    assert_eq!(choose_model_path(Some("a.bin".to_string()), Some("b.bin".to_string())), "a.bin");
    assert_eq!(choose_model_path(None, Some("b.bin".to_string())), "b.bin");
    assert_eq!(choose_model_path(None, None), "model.bin");
}

#[test]
fn api_key_check() {
    let k = Some("abc".to_string());
    assert_eq!(check_api_key(&None, None), Ok(()));
    assert_eq!(check_api_key(&None, Some(b"zzz".as_slice())), Ok(()));
    assert_eq!(check_api_key(&k, Some(b"abc".as_slice())), Ok(()));
    assert_eq!(check_api_key(&k, None), Err(LLMError::Custom("No API key provided".to_string())));
    assert_eq!(check_api_key(&k, Some(b"abd".as_slice())), Err(LLMError::Custom("Invalid API key".to_string())));
    assert_eq!(check_api_key(&k, Some(b"abc ".as_slice())), Err(LLMError::Custom("Invalid API key".to_string())));
}
