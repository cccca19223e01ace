use rice_cli::answers::{SetupAnswers, StateParams, StorageParams};
use rice_cli::envfile::{env_file_name, merge_env, render_env_block, EnvValues};
use rice_cli::health::{
    check_url, classify_health, health_url, host_part, render_check_outcome, render_setup_outcome,
    HealthCheckResult,
};
use rice_cli::report::{
    contains_token_marker, env_keys, render_presence_line, render_report_line,
};
use rice_cli::session::{plan_setup, run_setup_files, FsState};
use rice_cli::settings::{render_settings, settings_file_name, settings_written};
use rice_cli::text::{or_default, u16_decimal};

fn storage_answers(url: &str, user: &str, token: &str, http_port: &str) -> StorageParams {
    StorageParams::from_answers(
        String::from(url),
        String::from(user),
        String::from(token),
        String::from(http_port),
    )
}

#[test]
fn or_default_empty_input_takes_fallback() {
    assert_eq!(or_default(String::new(), "localhost:50051"), "localhost:50051");
    assert_eq!(or_default(String::from("other:1"), "localhost:50051"), "other:1");
}

#[test]
fn storage_params_defaults_match_prompts() {
    let p = StorageParams::defaults();
    assert_eq!(p.url, "localhost:50051");
    assert_eq!(p.user, "admin");
    assert_eq!(p.token, "");
    assert_eq!(p.http_port, "3000");
    let q = storage_answers("", "", "", "");
    assert_eq!(q.url, "localhost:50051");
    assert_eq!(q.user, "admin");
    assert_eq!(q.token, "");
    assert_eq!(q.http_port, "3000");
}

#[test]
fn state_params_defaults_match_prompts() {
    let p = StateParams::defaults();
    assert_eq!(p.url, "localhost:50051");
    assert_eq!(p.token, "");
    assert_eq!(p.run_id, "default");
    let q = StateParams::from_answers(String::new(), String::from("tok"), String::new());
    assert_eq!(q.url, "localhost:50051");
    assert_eq!(q.token, "tok");
    assert_eq!(q.run_id, "default");
}

#[test]
fn health_url_splits_host_at_first_colon() {
    assert_eq!(health_url("localhost:50051", "3000"), "http://localhost:3000/health");
    assert_eq!(
        health_url("storage.example.com", "8080"),
        "http://storage.example.com:8080/health"
    );
    assert_eq!(health_url("a:b:c", "1"), "http://a:1/health");
    assert_eq!(host_part(":starts-with-colon"), "");
    assert_eq!(host_part(""), "");
}

#[test]
fn check_url_falls_back_to_setup_defaults() {
    assert_eq!(check_url(None, None), "http://localhost:3000/health");
    let url = String::from("db.internal:9");
    let port = String::from("8080");
    assert_eq!(check_url(Some(&url), Some(&port)), "http://db.internal:8080/health");
}

#[test]
fn classify_health_by_status_family() {
    assert_eq!(classify_health(Ok(200)), HealthCheckResult::Healthy(200));
    assert_eq!(classify_health(Ok(204)), HealthCheckResult::Healthy(204));
    assert_eq!(classify_health(Ok(299)), HealthCheckResult::Healthy(299));
    assert_eq!(classify_health(Ok(199)), HealthCheckResult::Unhealthy(199));
    assert_eq!(classify_health(Ok(300)), HealthCheckResult::Unhealthy(300));
    assert_eq!(classify_health(Ok(404)), HealthCheckResult::Unhealthy(404));
    assert_eq!(
        classify_health(Err(String::from("connection refused"))),
        HealthCheckResult::Unreachable(String::from("connection refused"))
    );
}

#[test]
fn decimal_rendering_is_exact() {
    assert_eq!(u16_decimal(0), "0");
    assert_eq!(u16_decimal(7), "7");
    assert_eq!(u16_decimal(404), "404");
    assert_eq!(u16_decimal(65535), "65535");
}

#[test]
fn settings_document_has_fixed_shape() {
    let expected = "/** @type {import('rice-node-sdk').RiceConfig} */\nmodule.exports = {\n  storage: {\n    enabled: true,\n  },\n  state: {\n    enabled: false,\n  },\n};";
    assert_eq!(render_settings(true, false), expected);
    assert!(render_settings(false, true).contains("enabled: false"));
    assert!(render_settings(true, true).contains("storage: {\n    enabled: true"));
}

#[test]
fn settings_write_policy() {
    assert!(settings_written(false, false));
    assert!(settings_written(false, true));
    assert!(!settings_written(true, false));
    assert!(settings_written(true, true));
    assert_eq!(settings_file_name(), "rice.config.js");
    assert_eq!(env_file_name(), ".env");
}

#[test]
fn env_block_lists_all_seven_keys_in_order() {
    let v = EnvValues {
        storage_url: String::from("localhost:50051"),
        storage_user: String::from("admin"),
        storage_token: String::from("s3cr3t"),
        storage_http_port: String::from("3000"),
        state_url: String::from("localhost:50051"),
        state_token: String::from(""),
        state_run_id: String::from("default"),
    };
    let expected = "\n# Rice Configuration\nSTORAGE_INSTANCE_URL=localhost:50051\nSTORAGE_USER=admin\nSTORAGE_AUTH_TOKEN=s3cr3t\nSTORAGE_HTTP_PORT=3000\nSTATE_INSTANCE_URL=localhost:50051\nSTATE_AUTH_TOKEN=\nSTATE_RUN_ID=default\n";
    assert_eq!(render_env_block(&v), expected);
    assert_eq!(merge_env(None, &v), expected);
    let prior = String::from("UNRELATED=1\n");
    let merged = merge_env(Some(&prior), &v);
    assert_eq!(merged, format!("UNRELATED=1\n{}", expected));
}

#[test]
fn token_marker_detection_over_the_seven_keys() {
    let secret: Vec<&str> = env_keys()
        .into_iter()
        .filter(|k| contains_token_marker(k))
        .collect();
    assert_eq!(secret, vec!["STORAGE_AUTH_TOKEN", "STATE_AUTH_TOKEN"]);
    assert!(contains_token_marker("TOKEN"));
    assert!(!contains_token_marker("TOKE"));
    assert!(!contains_token_marker("token"));
}

#[test]
fn report_masks_secret_values() {
    let value = String::from("super-secret");
    let line = render_report_line("STORAGE_AUTH_TOKEN", Some(&value));
    assert_eq!(line, "STORAGE_AUTH_TOKEN: ********");
    assert!(!line.contains("super-secret"));
    let empty = String::new();
    assert_eq!(render_report_line("STATE_AUTH_TOKEN", Some(&empty)), "STATE_AUTH_TOKEN: ********");
    assert_eq!(
        render_report_line("STORAGE_USER", Some(&String::from("admin"))),
        "STORAGE_USER: admin"
    );
    assert_eq!(render_report_line("STORAGE_USER", None), "STORAGE_USER: Not set");
    assert_eq!(render_presence_line(true), "rice.config.js found.");
    assert_eq!(render_presence_line(false), "rice.config.js not found.");
}

#[test]
fn declined_session_plans_no_write_and_no_probe() {
    let answers = SetupAnswers {
        storage_enabled: false,
        state_enabled: false,
        storage: StorageParams::defaults(),
        state: StateParams::defaults(),
    };
    let plan = plan_setup(&answers, true, true);
    assert!(!plan.proceed);
    assert!(plan.settings_write.is_none());
    assert!(plan.env_append.is_none());
    assert!(plan.probe_url.is_none());
    let fs = FsState {
        settings: Some(String::from("old settings")),
        env: Some(String::from("old env")),
    };
    let after = run_setup_files(&fs, &answers, true);
    assert_eq!(after.settings.as_deref(), Some("old settings"));
    assert_eq!(after.env.as_deref(), Some("old env"));
}

#[test]
fn refused_overwrite_keeps_settings_bytes() {
    let answers = SetupAnswers {
        storage_enabled: true,
        state_enabled: true,
        storage: StorageParams::defaults(),
        state: StateParams::defaults(),
    };
    let prior = String::from("// hand-edited settings");
    let fs = FsState { settings: Some(prior.clone()), env: None };
    let after = run_setup_files(&fs, &answers, false);
    assert_eq!(after.settings.as_deref(), Some(prior.as_str()));
    assert!(after.env.is_some());
    let plan = plan_setup(&answers, true, false);
    assert!(plan.settings_write.is_none());
    let plan_confirmed = plan_setup(&answers, true, true);
    assert!(plan_confirmed.settings_write.is_some());
}

#[test]
fn repeated_setup_accumulates_env_blocks() {
    let answers = SetupAnswers {
        storage_enabled: true,
        state_enabled: false,
        storage: storage_answers("localhost:50051", "admin", "", "3000"),
        state: StateParams::defaults(),
    };
    let fresh = FsState { settings: None, env: None };
    let once = run_setup_files(&fresh, &answers, false);
    let twice = run_setup_files(&once, &answers, false);
    let block = render_env_block(&answers.to_env_values());
    let first = once.env.clone().unwrap();
    let second = twice.env.clone().unwrap();
    assert_eq!(first, block);
    assert_eq!(second, format!("{}{}", block, block));
    assert!(second.starts_with(&first));
    assert_eq!(second.matches("STORAGE_INSTANCE_URL=").count(), 2);
    assert_eq!(second.matches("STATE_RUN_ID=").count(), 2);
}

#[test]
fn fresh_setup_with_healthy_probe() {
    let answers = SetupAnswers {
        storage_enabled: true,
        state_enabled: false,
        storage: storage_answers("localhost:50051", "admin", "", "3000"),
        state: StateParams::defaults(),
    };
    let fresh = FsState { settings: None, env: None };
    let after = run_setup_files(&fresh, &answers, false);
    let settings = after.settings.unwrap();
    assert!(settings.contains("storage: {\n    enabled: true"));
    assert!(settings.contains("state: {\n    enabled: false"));
    let env = after.env.unwrap();
    assert!(env.contains("STORAGE_INSTANCE_URL=localhost:50051\n"));
    assert!(env.contains("STORAGE_USER=admin\n"));
    assert!(env.contains("STORAGE_AUTH_TOKEN=\n"));
    assert!(env.contains("STORAGE_HTTP_PORT=3000\n"));
    assert!(env.contains("STATE_INSTANCE_URL=localhost:50051\n"));
    assert!(env.contains("STATE_AUTH_TOKEN=\n"));
    assert!(env.contains("STATE_RUN_ID=default\n"));
    let plan = plan_setup(&answers, false, false);
    let url = plan.probe_url.unwrap();
    assert_eq!(url, "http://localhost:3000/health");
    let outcome = classify_health(Ok(200));
    assert_eq!(outcome, HealthCheckResult::Healthy(200));
    assert_eq!(
        render_setup_outcome(&outcome, &url),
        "Successfully connected to Rice Storage at http://localhost:3000/health"
    );
}

#[test]
fn unreachable_probe_still_persists_both_files() {
    let answers = SetupAnswers {
        storage_enabled: true,
        state_enabled: true,
        storage: storage_answers("", "", "tok", ""),
        state: StateParams::from_answers(String::new(), String::new(), String::new()),
    };
    let fresh = FsState { settings: None, env: None };
    let after = run_setup_files(&fresh, &answers, false);
    assert!(after.settings.is_some());
    assert!(after.env.is_some());
    let outcome = classify_health(Err(String::from("connection refused")));
    assert_eq!(outcome, HealthCheckResult::Unreachable(String::from("connection refused")));
    assert_eq!(
        render_setup_outcome(&outcome, "http://localhost:3000/health"),
        "Connection failed: connection refused"
    );
}

#[test]
fn setup_outcome_line_reports_status_code() {
    assert_eq!(
        render_setup_outcome(&HealthCheckResult::Unhealthy(503), "http://h:1/health"),
        "Connection failed: Status 503"
    );
}

#[test]
fn check_outcome_lines() {
    assert_eq!(
        render_check_outcome(&HealthCheckResult::Healthy(200)),
        "Storage is healthy (Status: 200)"
    );
    assert_eq!(
        render_check_outcome(&HealthCheckResult::Unhealthy(404)),
        "Storage is unhealthy (Status: 404)"
    );
    assert_eq!(
        render_check_outcome(&HealthCheckResult::Unreachable(String::from("dns error"))),
        "Failed to connect to Storage: dns error"
    );
}
