use toru_plugin_host::api::{
    action_failed, bundle_content_type, bundle_path, disable_plugin, enable_plugin, get_plugin, get_plugin_bundle,
    get_plugin_logs, list_plugins, list_scripts, logs_response, mutation_status, plan_log_read,
    query_filter, ApiError, BundleFile, LogQuery,
};
use toru_plugin_host::config::SupervisorConfig;
use toru_plugin_host::lifecycle::{Action, LifecycleEvent, PluginState};
use toru_plugin_host::logs::{LogEntry, LogLevel};
use toru_plugin_host::settings::PluginsConfig;
use toru_plugin_host::discovery::{Candidate, Handshake};
use toru_plugin_host::supervisor::Supervisor;
use toru_plugin_host::types::PluginMetadata;

fn candidate(id: &str) -> Candidate {
    Candidate {
        id: id.to_string(),
        handshake: Handshake::Declared(PluginMetadata {
            id: id.to_string(),
            name: id.to_uppercase(),
            version: "1.0.0".to_string(),
            author: None,
            icon: String::new(),
            route: format!("/{}", id),
        }),
    }
}

/// A host with `alpha` running and `beta` disabled.
fn host() -> Option<Supervisor> {
    let mut flags = PluginsConfig::new();
    flags.set_enabled("alpha", true);
    let mut supervisor = Supervisor::new("/srv/plugins".to_string(), SupervisorConfig::default());
    supervisor.discover(vec![candidate("alpha"), candidate("beta")], &flags);
    supervisor.apply(
        "alpha",
        LifecycleEvent::Ready { run: 1, pid: 11, socket_path: "/tmp/alpha.sock".to_string() },
    );
    Some(supervisor)
}

fn entry(n: usize, level: LogLevel) -> LogEntry {
    LogEntry {
        timestamp: "2024-01-01T00:00:00+00:00".to_string(),
        level,
        message: format!("line {}", n),
        plugin: None,
        error: None,
    }
}

#[test]
fn errors_map_to_status_codes() {
    assert_eq!(ApiError::NotImplemented.status(), 501);
    assert_eq!(ApiError::NotFound.status(), 404);
    assert_eq!(ApiError::Internal("x".to_string()).status(), 500);
    assert_eq!(ApiError::NotImplemented.message(), "Plugin supervisor not initialized");
    assert_eq!(ApiError::NotFound.message(), "Plugin not found");
    assert_eq!(ApiError::Internal("x".to_string()).message(), "x");
}

#[test]
fn mutation_answers_204_or_the_status_of_its_error() {
    assert_eq!(mutation_status(&Ok(())), 204);
    assert_eq!(mutation_status(&Err(ApiError::NotFound)), 404);
    assert_eq!(mutation_status(&Err(ApiError::NotImplemented)), 501);
    assert_eq!(mutation_status(&Err(action_failed("enable", "spawn refused"))), 500);
    assert_eq!(
        action_failed("enable", "spawn refused"),
        ApiError::Internal("Failed to enable plugin: spawn refused".to_string())
    );
    assert_eq!(
        action_failed("disable", "kill failed").message(),
        "Failed to disable plugin: kill failed"
    );
}

#[test]
fn everything_is_501_without_a_supervisor() {
    let mut none: Option<Supervisor> = None;
    let live = vec![];
    assert_eq!(list_plugins(&none, &live), Err(ApiError::NotImplemented));
    assert_eq!(get_plugin(&none, "alpha", &live), Err(ApiError::NotImplemented));
    assert_eq!(enable_plugin(&mut none, "alpha"), Err(ApiError::NotImplemented));
    assert_eq!(disable_plugin(&mut none, "alpha"), Err(ApiError::NotImplemented));
    assert_eq!(bundle_path(&none, "alpha"), Err(ApiError::NotImplemented));
    assert_eq!(
        get_plugin_bundle(&none, "alpha", BundleFile::Content("x".to_string())),
        Err(ApiError::NotImplemented)
    );
    let query = LogQuery::from_params(None, None, None);
    assert_eq!(
        get_plugin_logs(&none, "alpha", &query, Some(&vec![])),
        Err(ApiError::NotImplemented)
    );
    assert!(none.is_none());
}

#[test]
fn unknown_plugin_is_404() {
    let mut host = host();
    let live = vec![];
    assert_eq!(get_plugin(&host, "gamma", &live), Err(ApiError::NotFound));
    assert_eq!(enable_plugin(&mut host, "gamma"), Err(ApiError::NotFound));
    assert_eq!(disable_plugin(&mut host, "gamma"), Err(ApiError::NotFound));
    assert_eq!(bundle_path(&host, "gamma"), Err(ApiError::NotFound));
    let query = LogQuery::from_params(None, None, None);
    assert_eq!(get_plugin_logs(&host, "gamma", &query, Some(&vec![])), Err(ApiError::NotFound));
}

#[test]
fn list_reports_every_plugin_in_discovery_order() {
    let host = host();
    let live = vec!["/tmp/alpha.sock".to_string()];
    let statuses = list_plugins(&host, &live).unwrap();
    assert_eq!(statuses.len(), 2);
    assert_eq!(statuses[0].id, "alpha");
    assert_eq!(statuses[0].name, "ALPHA");
    assert_eq!(statuses[0].health, "healthy");
    assert_eq!(statuses[0].pid, Some(11));
    assert_eq!(statuses[1].id, "beta");
    assert_eq!(statuses[1].health, "disabled");
    assert!(!statuses[1].enabled);
}

#[test]
fn health_follows_the_socket_file() {
    let host = host();
    let gone: Vec<String> = vec!["/tmp/other.sock".to_string()];
    assert_eq!(get_plugin(&host, "alpha", &gone).unwrap().health, "unhealthy");
    let there = vec!["/tmp/other.sock".to_string(), "/tmp/alpha.sock".to_string()];
    assert_eq!(get_plugin(&host, "alpha", &there).unwrap().health, "healthy");
    assert_eq!(get_plugin(&host, "beta", &there).unwrap().health, "disabled");
}

#[test]
fn enable_and_disable_return_the_actions_to_carry_out() {
    let mut host = host();
    assert_eq!(
        enable_plugin(&mut host, "beta"),
        Ok(vec![Action::PersistEnabled { enabled: true }, Action::Spawn { run: 1 }])
    );
    assert_eq!(
        host.as_ref().unwrap().get_plugin_status("beta").unwrap().state,
        PluginState::Starting
    );
    assert_eq!(disable_plugin(&mut host, "alpha"), Ok(vec![Action::Stop { grace_ms: 3_000 }]));
    assert_eq!(
        host.as_ref().unwrap().get_plugin_status("alpha").unwrap().state,
        PluginState::Stopping
    );
    assert_eq!(enable_plugin(&mut host, "beta"), Ok(vec![]));
}

#[test]
fn bundle_of_an_enabled_plugin() {
    let host = host();
    assert_eq!(bundle_path(&host, "alpha"), Ok("/srv/plugins/alpha/bundle.js".to_string()));
    assert_eq!(
        get_plugin_bundle(&host, "alpha", BundleFile::Content("export {}".to_string())),
        Ok("export {}".to_string())
    );
    assert_eq!(get_plugin_bundle(&host, "alpha", BundleFile::Missing), Err(ApiError::NotFound));
    let unreadable = get_plugin_bundle(&host, "alpha", BundleFile::Unreadable);
    assert_eq!(unreadable.unwrap_err().status(), 500);
}

#[test]
fn bundle_is_served_as_javascript() {
    assert_eq!(bundle_content_type(), "application/javascript");
}

#[test]
fn bundle_of_a_disabled_plugin_is_404() {
    let host = host();
    assert_eq!(bundle_path(&host, "beta"), Err(ApiError::NotFound));
    assert_eq!(
        get_plugin_bundle(&host, "beta", BundleFile::Content("export {}".to_string())),
        Err(ApiError::NotFound)
    );
}

#[test]
fn log_query_defaults() {
    let query = LogQuery::from_params(None, None, None);
    assert_eq!(query, LogQuery { page: 0, page_size: 100, level: None });
    let query = LogQuery::from_params(Some(3), Some(25), Some("warn".to_string()));
    assert_eq!(query, LogQuery { page: 3, page_size: 25, level: Some("warn".to_string()) });
    assert_eq!(query_filter(&query), Some(LogLevel::Warn));
    let odd = LogQuery::from_params(None, None, Some("loud".to_string()));
    assert_eq!(query_filter(&odd), None);
}

#[test]
fn logs_are_paged_and_filtered() {
    let host = host();
    let lines = vec![
        Some(entry(0, LogLevel::Info)),
        None,
        Some(entry(2, LogLevel::Error)),
        Some(entry(3, LogLevel::Info)),
        Some(entry(4, LogLevel::Error)),
    ];
    let all = LogQuery::from_params(Some(1), Some(2), None);
    let answer = get_plugin_logs(&host, "alpha", &all, Some(&lines)).unwrap();
    assert_eq!(answer.page, 1);
    assert_eq!(answer.page_size, 2);
    assert_eq!(answer.logs, vec![entry(3, LogLevel::Info), entry(4, LogLevel::Error)]);

    let errors = LogQuery::from_params(None, None, Some("ERROR".to_string()));
    let answer = get_plugin_logs(&host, "beta", &errors, Some(&lines)).unwrap();
    assert_eq!(answer.page, 0);
    assert_eq!(answer.page_size, 100);
    assert_eq!(answer.logs, vec![entry(2, LogLevel::Error), entry(4, LogLevel::Error)]);

    let unknown_level = LogQuery::from_params(None, None, Some("loud".to_string()));
    let answer = get_plugin_logs(&host, "alpha", &unknown_level, Some(&lines)).unwrap();
    assert_eq!(answer.logs.len(), 4);
}

#[test]
fn log_request_is_opened_and_closed_around_the_reading() {
    let host = host();
    let query = LogQuery::from_params(Some(0), Some(2), Some("info".to_string()));
    let mut reader = plan_log_read(&host, "alpha", &query).unwrap();
    for n in 0..5 {
        reader.offer(Some(entry(n, if n % 2 == 0 { LogLevel::Info } else { LogLevel::Debug })));
    }
    let answer = logs_response(&query, Some(reader)).unwrap();
    assert_eq!(answer.logs, vec![entry(0, LogLevel::Info), entry(2, LogLevel::Info)]);
    assert_eq!(answer.page, 0);
    assert_eq!(answer.page_size, 2);
    assert_eq!(logs_response(&query, None).unwrap_err().status(), 500);
    assert!(matches!(plan_log_read(&host, "gamma", &query), Err(ApiError::NotFound)));
    assert!(matches!(plan_log_read(&None, "alpha", &query), Err(ApiError::NotImplemented)));
}

#[test]
fn unreadable_log_is_500() {
    let host = host();
    let query = LogQuery::from_params(None, None, None);
    let answer = get_plugin_logs(&host, "alpha", &query, None);
    assert_eq!(answer.unwrap_err().status(), 500);
}

#[test]
fn scripts_are_the_entries_that_end_in_sh_or_bash() {
    let entries: Vec<String> = vec![
        "deploy.sh", "notes.txt", "build.bash", ".sh", "sh", "a.sh.bak", "x.SH", "run.bash", "",
        "bash", ".bash",
    ]
    .into_iter()
    .map(|s| s.to_string())
    .collect();
    assert_eq!(list_scripts(&entries), vec!["deploy.sh", "build.bash", ".sh", "run.bash", ".bash"]);
    assert!(list_scripts(&vec![]).is_empty());
}
