use clarigggz::kernel::{KernelManager, LogEntry, SharedKernel, MAX_LOG_ENTRIES};

fn triple(entry: &LogEntry) -> (&str, &str, &str) {
    (entry.timestamp.as_str(), entry.level.as_str(), entry.message.as_str())
}

#[test]
fn log_capacity_is_one_hundred() {
    assert_eq!(MAX_LOG_ENTRIES, 100);
}

#[test]
fn new_kernel_is_stopped_with_nothing_logged() {
    let state = KernelManager::new().get_state();
    assert!(!state.is_running);
    assert_eq!(state.uptime, 0);
    assert!(state.processes.is_empty());
    assert!(state.logs.is_empty());
}

#[test]
fn start_at_runs_and_logs_info() {
    let mut kernel = KernelManager::new();
    kernel.start_at("2024-01-01T00:00:00+00:00".to_string());
    let state = kernel.get_state();
    assert!(state.is_running);
    assert_eq!(state.logs.len(), 1);
    assert_eq!(
        triple(&state.logs[0]),
        ("2024-01-01T00:00:00+00:00", "INFO", "kernel initialized")
    );
    assert_eq!(state.uptime, 0);
    assert!(state.processes.is_empty());
}

#[test]
fn stop_at_halts_and_logs_warn() {
    let mut kernel = KernelManager::new();
    kernel.start_at("t0".to_string());
    kernel.stop_at("t1".to_string());
    let state = kernel.get_state();
    assert!(!state.is_running);
    assert_eq!(state.logs.len(), 2);
    assert_eq!(triple(&state.logs[1]), ("t1", "WARN", "kernel halted"));
}

#[test]
fn start_then_state_is_running_from_any_state() {
    let mut kernel = KernelManager::new();
    kernel.start();
    assert!(kernel.get_state().is_running);
    kernel.start();
    assert!(kernel.get_state().is_running);
    kernel.stop();
    kernel.start();
    assert!(kernel.get_state().is_running);
}

#[test]
fn stop_then_state_is_stopped_from_any_state() {
    let mut kernel = KernelManager::new();
    kernel.stop();
    assert!(!kernel.get_state().is_running);
    kernel.start();
    kernel.stop();
    assert!(!kernel.get_state().is_running);
    kernel.stop();
    assert!(!kernel.get_state().is_running);
}

#[test]
fn repeated_start_and_stop_log_every_call() {
    let mut kernel = KernelManager::new();
    kernel.start();
    kernel.start();
    kernel.stop();
    kernel.stop();
    let state = kernel.get_state();
    let levels: Vec<&str> = state.logs.iter().map(|entry| entry.level.as_str()).collect();
    assert_eq!(levels, vec!["INFO", "INFO", "WARN", "WARN"]);
    assert_eq!(state.logs[1].message, "kernel initialized");
    assert_eq!(state.logs[3].message, "kernel halted");
}

#[test]
fn log_at_appends_the_given_line() {
    let mut kernel = KernelManager::new();
    kernel.log_at("t0".to_string(), "DEBUG", "first");
    kernel.log_at("t1".to_string(), "", "");
    let state = kernel.get_state();
    assert!(!state.is_running);
    assert_eq!(state.logs.len(), 2);
    assert_eq!(triple(&state.logs[0]), ("t0", "DEBUG", "first"));
    assert_eq!(triple(&state.logs[1]), ("t1", "", ""));
}

#[test]
fn log_stamps_with_an_rfc_3339_instant() {
    let before = chrono::Utc::now();
    let mut kernel = KernelManager::new();
    kernel.log("INFO", "stamped");
    let after = chrono::Utc::now();
    let state = kernel.get_state();
    assert_eq!(state.logs.len(), 1);
    assert_eq!(state.logs[0].level, "INFO");
    assert_eq!(state.logs[0].message, "stamped");
    let stamp = chrono::DateTime::parse_from_rfc3339(&state.logs[0].timestamp)
        .expect("timestamp is RFC 3339");
    assert_eq!(stamp.offset().local_minus_utc(), 0);
    assert!(before <= stamp && stamp <= after);
}

#[test]
fn log_holds_one_hundred_entries_without_eviction() {
    let mut kernel = KernelManager::new();
    for n in 0..100 {
        kernel.log_at(format!("t{n}"), "INFO", &format!("m{n}"));
        assert_eq!(kernel.get_state().logs.len(), n + 1);
    }
    let state = kernel.get_state();
    assert_eq!(state.logs[0].message, "m0");
    assert_eq!(state.logs[99].message, "m99");
}

#[test]
fn full_log_evicts_the_oldest_entry_first() {
    let mut kernel = KernelManager::new();
    for n in 0..100 {
        kernel.log_at(format!("t{n}"), "INFO", &format!("m{n}"));
    }
    kernel.log_at("t100".to_string(), "INFO", "m100");
    let state = kernel.get_state();
    assert_eq!(state.logs.len(), 100);
    for (i, entry) in state.logs.iter().enumerate() {
        assert_eq!(entry.message, format!("m{}", i + 1));
        assert_eq!(entry.timestamp, format!("t{}", i + 1));
    }
}

#[test]
fn log_never_exceeds_its_bound() {
    let mut kernel = KernelManager::new();
    for n in 0..350 {
        kernel.log_at(String::new(), "INFO", &format!("m{n}"));
        let state = kernel.get_state();
        assert!(state.logs.len() <= MAX_LOG_ENTRIES);
        assert_eq!(state.logs.len(), (n + 1).min(100));
        assert_eq!(state.logs.last().unwrap().message, format!("m{n}"));
        let oldest = if n < 100 { 0 } else { n - 99 };
        assert_eq!(state.logs[0].message, format!("m{oldest}"));
    }
}

#[test]
fn start_and_stop_obey_the_bound_too() {
    let mut kernel = KernelManager::new();
    for n in 0..100 {
        kernel.log_at(String::new(), "INFO", &format!("m{n}"));
    }
    kernel.start();
    kernel.stop();
    let state = kernel.get_state();
    assert_eq!(state.logs.len(), 100);
    assert_eq!(state.logs[0].message, "m2");
    assert_eq!(state.logs[98].level, "INFO");
    assert_eq!(state.logs[99].level, "WARN");
}

#[test]
fn toggle_at_flips_and_reports_the_new_flag() {
    let mut kernel = KernelManager::new();
    assert!(kernel.toggle_at("t0".to_string()));
    assert!(kernel.get_state().is_running);
    assert!(!kernel.toggle_at("t1".to_string()));
    let state = kernel.get_state();
    assert!(!state.is_running);
    assert_eq!(triple(&state.logs[0]), ("t0", "INFO", "kernel initialized"));
    assert_eq!(triple(&state.logs[1]), ("t1", "WARN", "kernel halted"));
}

#[test]
fn toggle_flips_and_reports_the_new_flag() {
    let mut kernel = KernelManager::new();
    assert!(kernel.toggle());
    assert!(kernel.get_state().is_running);
    assert!(!kernel.toggle());
    assert!(!kernel.get_state().is_running);
    assert_eq!(kernel.get_state().logs.len(), 2);
}

#[test]
fn get_state_is_a_copy() {
    let mut kernel = KernelManager::new();
    kernel.start_at("t0".to_string());
    let mut copy = kernel.get_state();
    copy.is_running = false;
    copy.logs.clear();
    copy.processes.push("ghost".to_string());
    let state = kernel.get_state();
    assert!(state.is_running);
    assert_eq!(state.logs.len(), 1);
    assert!(state.processes.is_empty());
}

#[test]
fn log_entry_clone_keeps_every_text() {
    let entry = LogEntry {
        timestamp: "t".to_string(),
        level: "INFO".to_string(),
        message: "m".to_string(),
    };
    let copy = entry.clone();
    assert_eq!(triple(&copy), triple(&entry));
}

#[test]
fn shared_kernel_behaves_like_its_manager() {
    let kernel = SharedKernel::new();
    assert!(!kernel.get_state().is_running);
    kernel.start();
    assert!(kernel.get_state().is_running);
    kernel.log("AUDIT", "checked");
    kernel.stop();
    let state = kernel.get_state();
    assert!(!state.is_running);
    let lines: Vec<(&str, &str)> =
        state.logs.iter().map(|e| (e.level.as_str(), e.message.as_str())).collect();
    assert_eq!(
        lines,
        vec![
            ("INFO", "kernel initialized"),
            ("AUDIT", "checked"),
            ("WARN", "kernel halted"),
        ]
    );
}

#[test]
fn shared_kernel_toggle_reports_the_new_flag() {
    let kernel = SharedKernel::new();
    assert!(kernel.toggle());
    assert!(kernel.get_state().is_running);
    assert!(!kernel.toggle());
    assert!(!kernel.get_state().is_running);
    assert_eq!(kernel.get_state().logs.len(), 2);
}

#[test]
fn shared_kernel_keeps_the_bound() {
    let kernel = SharedKernel::new();
    for n in 0..130 {
        kernel.log("INFO", &format!("m{n}"));
    }
    let state = kernel.get_state();
    assert_eq!(state.logs.len(), 100);
    assert_eq!(state.logs[0].message, "m30");
    assert_eq!(state.logs[99].message, "m129");
}

fn act(kernel: &SharedKernel, read: bool) {
    if read {
        kernel.stop();
    } else {
        kernel.start();
    }
}

fn levels(kernel: &SharedKernel) -> Vec<String> {
    kernel.get_state().logs.iter().map(|entry| entry.level.clone()).collect()
}

#[test]
fn interleaved_toggles_that_both_read_first_start_twice() {
    let kernel = SharedKernel::new();
    let first = kernel.get_state().is_running;
    let second = kernel.get_state().is_running;
    act(&kernel, first);
    act(&kernel, second);
    assert!(kernel.get_state().is_running);
    assert_eq!(levels(&kernel), vec!["INFO", "INFO"]);
}

#[test]
fn interleaved_toggles_that_read_after_the_other_acted_stop() {
    let kernel = SharedKernel::new();
    let first = kernel.get_state().is_running;
    act(&kernel, first);
    let second = kernel.get_state().is_running;
    act(&kernel, second);
    assert!(!kernel.get_state().is_running);
    assert_eq!(levels(&kernel), vec!["INFO", "WARN"]);
}

#[test]
fn interleaved_toggles_with_one_read_before_and_one_act_after() {
    let kernel = SharedKernel::new();
    let first = kernel.get_state().is_running;
    let second = kernel.get_state().is_running;
    act(&kernel, second);
    assert!(kernel.get_state().is_running);
    act(&kernel, first);
    assert!(kernel.get_state().is_running);
    assert_eq!(levels(&kernel), vec!["INFO", "INFO"]);
}

#[test]
fn shared_kernel_never_touches_run_time_or_processes() {
    let kernel = SharedKernel::new();
    kernel.start();
    kernel.log("AUDIT", "checked");
    kernel.toggle();
    kernel.stop();
    let state = kernel.get_state();
    assert_eq!(state.uptime, 0);
    assert!(state.processes.is_empty());
    assert!(state.logs.len() <= MAX_LOG_ENTRIES);
}
