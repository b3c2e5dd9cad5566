use downloader::command::{build_args, build_invocation, engine_arg};
use downloader::event::ProcessEvent;
use downloader::failure::{InvocationError, SpawnError};
use downloader::outcome::{conclude, into_text};
use downloader::resolver::{
    beside_executable, override_wins, prefer_override, resolve_auxiliary_path,
    resolve_helper_path, AUXILIARY_RUNTIME, OVERRIDE_KEY,
};

#[test]
fn override_is_taken_as_it_is() {
    let path =
        resolve_auxiliary_path(Some("/opt/rt".to_string()), Some("/usr/local/bin/app".to_string()));
    assert_eq!(path, "/opt/rt");
    assert_eq!(resolve_auxiliary_path(Some("/opt/rt".to_string()), None), "/opt/rt");
    assert_eq!(resolve_auxiliary_path(Some("/opt/rt".to_string()), Some("/".to_string())), "/opt/rt");
}

#[test]
fn fallback_is_beside_the_executable() {
    let path = resolve_auxiliary_path(None, Some("/usr/local/bin/app".to_string()));
    assert_eq!(path, "/usr/local/bin/aux-runtime");
    let path = resolve_helper_path(None, Some("/usr/local/bin/app".to_string()), "helper");
    assert_eq!(path, "/usr/local/bin/helper");
}

#[test]
fn empty_override_counts_as_none() {
    let path =
        resolve_auxiliary_path(Some(String::new()), Some("/usr/local/bin/app".to_string()));
    assert_eq!(path, "/usr/local/bin/aux-runtime");
    assert_eq!(resolve_auxiliary_path(Some(String::new()), None), "aux-runtime");
    assert!(!override_wins(&Some(String::new())));
    assert!(!override_wins(&None));
    assert!(override_wins(&Some("/opt/rt".to_string())));
    assert!(override_wins(&Some(" ".to_string())));
}

#[test]
fn prefer_override_takes_the_fallback_for_none_and_empty() {
    assert_eq!(prefer_override(Some("/opt/rt".to_string()), "/x/aux-runtime".to_string()), "/opt/rt");
    assert_eq!(prefer_override(Some(String::new()), "/x/aux-runtime".to_string()), "/x/aux-runtime");
    assert_eq!(prefer_override(None, "/x/aux-runtime".to_string()), "/x/aux-runtime");
}

#[test]
fn resolution_never_fails() {
    assert_eq!(resolve_auxiliary_path(None, None), "aux-runtime");
    assert_eq!(resolve_auxiliary_path(None, Some("/".to_string())), "aux-runtime");
    assert_eq!(resolve_auxiliary_path(None, Some(String::new())), "aux-runtime");
    assert_eq!(resolve_auxiliary_path(None, Some("/app".to_string())), "/aux-runtime");
    assert_eq!(resolve_auxiliary_path(None, Some("app".to_string())), "aux-runtime");
    assert_eq!(resolve_auxiliary_path(Some(String::new()), Some("/".to_string())), "aux-runtime");
}

#[test]
fn beside_executable_joins_directory_and_name() {
    assert_eq!(beside_executable(Some("/opt/tool/bin/run".to_string()), "helper"), "/opt/tool/bin/helper");
    assert_eq!(beside_executable(Some("dir/run".to_string()), "helper"), "dir/helper");
    assert_eq!(beside_executable(None, "helper"), "helper");
}

#[test]
fn fixed_names() {
    assert_eq!(OVERRIDE_KEY, "BUN_PATH");
    assert_eq!(AUXILIARY_RUNTIME, "aux-runtime");
}

#[test]
fn arguments_come_in_a_fixed_order() {
    let args = build_args("https://example.com/watch?v=abc", "/opt/rt");
    assert_eq!(
        args,
        vec![
            "-J",
            "https://example.com/watch?v=abc",
            "--js-runtimes",
            "bun:/opt/rt",
            "--cookies-from-browser",
            "chrome",
        ]
    );
}

#[test]
fn target_is_one_opaque_argument() {
    let target = "--exec rm -rf / --js-runtimes node";
    let args = build_args(target, "/usr/local/bin/aux-runtime");
    assert_eq!(args.len(), 6);
    assert_eq!(args[1], target);
    let plain = build_args("x", "/usr/local/bin/aux-runtime");
    assert_eq!(plain.len(), 6);
    for place in [0, 2, 3, 4, 5] {
        assert_eq!(args[place], plain[place]);
    }
    let empty = build_args("", "");
    assert_eq!(empty, vec!["-J", "", "--js-runtimes", "bun:", "--cookies-from-browser", "chrome"]);
}

#[test]
fn engine_argument_names_the_path() {
    assert_eq!(engine_arg("/opt/rt"), "bun:/opt/rt");
    assert_eq!(engine_arg("aux-runtime"), "bun:aux-runtime");
    assert_eq!(engine_arg(""), "bun:");
}

#[test]
fn invocation_names_the_extractor() {
    let built = build_invocation(Ok(()), "https://example.com/v", "/opt/rt").unwrap();
    assert_eq!(built.program, "yt-dlp");
    assert_eq!(built.args, build_args("https://example.com/v", "/opt/rt"));
}

#[test]
fn registration_failure_carries_the_cause() {
    let built = build_invocation(Err("sidecar not configured".to_string()), "t", "/opt/rt");
    let error = built.unwrap_err();
    assert_eq!(error, SpawnError::RegistrationFailure("sidecar not configured".to_string()));
    assert_eq!(error.message(), "sidecar not configured");
    assert_eq!(
        InvocationError::Spawn(error).message(),
        "sidecar not configured"
    );
}

#[test]
fn spawn_failure_consumes_no_events() {
    let outcome = conclude(Err(SpawnError::LaunchFailure("no such file".to_string())));
    assert_eq!(
        outcome,
        Err(InvocationError::Spawn(SpawnError::LaunchFailure("no such file".to_string())))
    );
    let message = into_text(outcome).unwrap_err();
    assert!(message.contains("no such file"));
    assert_eq!(message, "Failed to spawn yt-dlp sidecar: no such file");
}

#[test]
fn every_failure_has_its_message() {
    assert_eq!(SpawnError::RegistrationFailure("r".to_string()).message(), "r");
    assert_eq!(
        SpawnError::LaunchFailure("l".to_string()).message(),
        "Failed to spawn yt-dlp sidecar: l"
    );
    assert_eq!(
        InvocationError::RuntimeExecutionError("e".to_string()).message(),
        "Command execution error: e"
    );
    assert_eq!(
        InvocationError::NonZeroExit { code: Some(2), stderr: "s".to_string() }.message(),
        "yt-dlp exited with error: s"
    );
}

#[test]
fn whole_invocation_on_collected_events() {
    let path = resolve_auxiliary_path(None, Some("/usr/local/bin/app".to_string()));
    let built = build_invocation(Ok(()), "https://example.com/v", &path).unwrap();
    assert_eq!(built.args[3], "bun:/usr/local/bin/aux-runtime");
    let events = vec![
        ProcessEvent::StdoutChunk(b"{}".to_vec()),
        ProcessEvent::Terminated(Some(0)),
    ];
    assert_eq!(into_text(conclude(Ok(events))), Ok("{}".to_string()));
}
