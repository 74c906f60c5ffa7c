use doffy_uploader::cli::{exit_status, Cli, ConfigError, ExecutionPolicy, KindOfUpload};
use std::str::FromStr;

fn cli(host: &str, paths: &[&str]) -> Cli {
    Cli::from_args(
        host.to_string(),
        KindOfUpload::Multipart,
        "secret".to_string(),
        paths.iter().map(|p| p.to_string()).collect(),
        false,
        None,
    )
}

#[test]
fn kind_of_upload_reads_its_two_words() {
    assert_eq!(KindOfUpload::from_str("multipart"), Ok(KindOfUpload::Multipart));
    assert_eq!(KindOfUpload::from_str("binary"), Ok(KindOfUpload::Binary));
    assert_eq!("binary".parse::<KindOfUpload>(), Ok(KindOfUpload::Binary));
}

#[test]
fn kind_of_upload_refuses_other_words() {
    for word in ["", "Binary", "MULTIPART", "multipart ", "chunked", "binar", "binaryy"] {
        assert_eq!(
            KindOfUpload::from_str(word),
            Err("Invalid kind of upload".to_string())
        );
    }
}

#[test]
fn kind_of_upload_defaults_to_multipart() {
    assert_eq!(KindOfUpload::default(), KindOfUpload::Multipart);
}

#[test]
fn kind_of_upload_clones_to_itself() {
    assert_eq!(KindOfUpload::Multipart.clone(), KindOfUpload::Multipart);
    assert_eq!(KindOfUpload::Binary.clone(), KindOfUpload::Binary);
}

#[test]
fn default_options_are_empty() {
    let cli = Cli::default();
    assert_eq!(cli.host, "");
    assert_eq!(cli.category, KindOfUpload::Multipart);
    assert_eq!(cli.token, "");
    assert!(cli.paths.is_empty());
    assert!(!cli.progress);
    assert_eq!(cli.chunk_size, None);
}

#[test]
fn from_args_keeps_every_option() {
    let cli = Cli::from_args(
        "http://host/upload".to_string(),
        KindOfUpload::Binary,
        "tok".to_string(),
        vec!["a".to_string(), "b".to_string()],
        true,
        Some(4096),
    );
    assert_eq!(cli.host, "http://host/upload");
    assert_eq!(cli.category, KindOfUpload::Binary);
    assert_eq!(cli.token, "tok");
    assert_eq!(cli.paths, vec!["a".to_string(), "b".to_string()]);
    assert!(cli.progress);
    assert_eq!(cli.chunk_size, Some(4096));
}

#[test]
fn validate_passes_options_with_host_and_paths() {
    let mut options = cli("http://h", &["a.txt"]);
    assert_eq!(options.validate(None, None), Ok(()));
    assert_eq!(options.host, "http://h");
    assert_eq!(options.paths, vec!["a.txt".to_string()]);
    assert_eq!(options.token, "secret");
}

#[test]
fn validate_keeps_the_given_host_over_the_environment() {
    let mut options = cli("http://given", &["a.txt"]);
    assert_eq!(options.validate(Some("http://env".to_string()), None), Ok(()));
    assert_eq!(options.host, "http://given");
}

#[test]
fn validate_takes_the_host_from_the_environment() {
    let mut options = cli("", &["a.txt"]);
    assert_eq!(options.validate(Some("http://env".to_string()), None), Ok(()));
    assert_eq!(options.host, "http://env");
}

#[test]
fn validate_reports_a_missing_host() {
    let mut options = cli("", &["a.txt"]);
    assert_eq!(options.validate(None, None), Err(ConfigError::MissingHost));
    assert_eq!(options.host, "");
    assert_eq!(options.paths, vec!["a.txt".to_string()]);
}

#[test]
fn validate_reports_the_host_before_the_paths() {
    let mut options = cli("", &[]);
    assert_eq!(
        options.validate(None, Some(vec!["piped".to_string()])),
        Err(ConfigError::MissingHost)
    );
    assert!(options.paths.is_empty());
}

#[test]
fn validate_reports_missing_paths_on_a_terminal() {
    let mut options = cli("", &[]);
    assert_eq!(
        options.validate(Some("http://env".to_string()), None),
        Err(ConfigError::NoPaths)
    );
    // The host was settled before the paths failed.
    assert_eq!(options.host, "http://env");
    assert!(options.paths.is_empty());
}

#[test]
fn validate_takes_piped_lines_as_paths() {
    let mut options = cli("http://h", &[]);
    let lines = vec!["one.txt".to_string(), "dir/two.bin".to_string()];
    assert_eq!(options.validate(None, Some(lines.clone())), Ok(()));
    assert_eq!(options.paths, lines);
}

#[test]
fn validate_keeps_given_paths_over_piped_lines() {
    let mut options = cli("http://h", &["given"]);
    assert_eq!(options.validate(None, Some(vec!["piped".to_string()])), Ok(()));
    assert_eq!(options.paths, vec!["given".to_string()]);
}

#[test]
fn validate_accepts_an_empty_pipe() {
    let mut options = cli("http://h", &[]);
    assert_eq!(options.validate(None, Some(Vec::new())), Ok(()));
    assert!(options.paths.is_empty());
}

#[test]
fn resolve_steps_ask_only_for_what_is_missing() {
    let mut options = cli("", &[]);
    assert!(options.needs_host());
    assert!(options.needs_paths());
    assert_eq!(options.resolve_host(Some("http://env".to_string())), Ok(()));
    assert!(!options.needs_host());
    assert_eq!(options.resolve_paths(Some(vec!["p".to_string()])), Ok(()));
    assert!(!options.needs_paths());
    assert_eq!(options.resolve_host(None), Ok(()));
    assert_eq!(options.resolve_paths(None), Ok(()));
    assert_eq!(options.host, "http://env");
    assert_eq!(options.paths, vec!["p".to_string()]);
}

#[test]
fn config_errors_have_their_sentences() {
    assert_eq!(
        ConfigError::MissingHost.message(),
        "No host provided. Please provide a host using the --host flag or UPLOAD_URL environment variable"
    );
    assert_eq!(ConfigError::NoPaths.message(), "No files or directories provided");
}

#[test]
fn policy_follows_the_two_switches() {
    let mut options = cli("http://h", &["a"]);
    assert_eq!(options.policy(), ExecutionPolicy::WholeFile);
    options.chunk_size = Some(1024);
    assert_eq!(options.policy(), ExecutionPolicy::Chunked(1024));
    options.progress = true;
    assert_eq!(options.policy(), ExecutionPolicy::Progress);
    options.chunk_size = None;
    assert_eq!(options.policy(), ExecutionPolicy::Progress);
}

#[test]
fn only_refused_options_end_the_process_with_an_error() {
    assert_eq!(exit_status(&Ok(())), 0);
    assert_eq!(exit_status(&Err(ConfigError::MissingHost)), 1);
    assert_eq!(exit_status(&Err(ConfigError::NoPaths)), 1);
}
