use surface_dtx::adapter::Adapter;
use surface_dtx::config::{
    delay_attach, source, task_timeout, user_config_path, AttachHandler, Config,
    DetachAbortHandler, DetachHandler, Diagnostics, Handler, Log, LogLevel, Record, Source,
    DAEMON_CONFIG_PATH, USERD_CONFIG_PATH,
};
use surface_dtx::engine::Call;
use surface_dtx::event::Event;
use surface_dtx::process::{
    output_level, ExitStatus, Finish, Phase, ProcessAdapter, Task, ENV_ABORT, ENV_COMMENCE,
    HEARTBEAT_PERIOD_MS,
};
use surface_dtx::shutdown::{exit_code, Signal, Stage, Step};
use surface_dtx::taskq::{new, with_capacity, TaskQueue, DEFAULT_CAPACITY};
use surface_dtx::types::CancelReason;

fn config() -> Config {
    Config {
        dir: "/etc/surface-dtx".to_string(),
        log: Log { level: LogLevel::Debug },
        handler: Handler {
            detach: DetachHandler { executable: Some("./detach.sh".to_string()), timeout: 1500 },
            detach_abort: DetachAbortHandler { executable: None, timeout: 2500 },
            attach: AttachHandler {
                executable: Some("./attach.sh".to_string()),
                timeout: 3500,
                delay: 250,
            },
        },
    }
}

#[test]
fn exit_status_of_the_detach_handler() {
    assert_eq!(ExitStatus::from(Some(0)), ExitStatus::Commence);
    assert_eq!(ExitStatus::from(Some(1)), ExitStatus::Abort);
    assert_eq!(ExitStatus::from(Some(-1)), ExitStatus::Abort);
    assert_eq!(ExitStatus::from(Some(255)), ExitStatus::Abort);
    assert_eq!(ExitStatus::from(None), ExitStatus::Abort);
    assert_eq!(ExitStatus::Commence.as_str(), "0");
    assert_eq!(ExitStatus::Abort.as_str(), "1");
}

#[test]
fn handler_environment() {
    assert_eq!(
        Phase::Detach.environment(),
        vec![("EXIT_DETACH_COMMENCE", "0"), ("EXIT_DETACH_ABORT", "1")]
    );
    assert_eq!(Phase::DetachAbort.environment(), vec![]);
    assert_eq!(Phase::Attach.environment(), vec![]);
    assert_eq!(ENV_COMMENCE, "EXIT_DETACH_COMMENCE");
    assert_eq!(ENV_ABORT, "EXIT_DETACH_ABORT");
}

#[test]
fn what_a_finished_task_reports() {
    assert_eq!(Phase::Detach.finished(Finish::Exited { code: Some(0) }), Event::DetachConfirm);
    assert_eq!(Phase::Detach.finished(Finish::Exited { code: Some(1) }), Event::DetachCancel);
    assert_eq!(Phase::Detach.finished(Finish::Exited { code: Some(2) }), Event::DetachCancel);
    assert_eq!(Phase::Detach.finished(Finish::Exited { code: None }), Event::DetachCancel);
    assert_eq!(Phase::Detach.finished(Finish::Skipped), Event::DetachConfirm);
    assert_eq!(Phase::Detach.finished(Finish::TimedOut), Event::DetachTimeout);
    assert_eq!(Phase::DetachAbort.finished(Finish::Exited { code: Some(1) }), Event::CancelComplete);
    assert_eq!(Phase::DetachAbort.finished(Finish::Skipped), Event::CancelComplete);
    assert_eq!(Phase::DetachAbort.finished(Finish::TimedOut), Event::CancelTimeout);
    assert_eq!(Phase::Attach.finished(Finish::Exited { code: Some(3) }), Event::AttachComplete);
    assert_eq!(Phase::Attach.finished(Finish::Skipped), Event::AttachComplete);
    assert_eq!(Phase::Attach.finished(Finish::TimedOut), Event::AttachTimeout);
}

#[test]
fn level_of_handler_output() {
    assert_eq!(output_level(b"", b""), LogLevel::Debug);
    assert_eq!(output_level(b"out", b""), LogLevel::Info);
    assert_eq!(output_level(b"", b"err"), LogLevel::Warn);
    assert_eq!(output_level(b"out", b"err"), LogLevel::Warn);
}

#[test]
fn tasks_follow_the_configuration() {
    let config = config();
    assert_eq!(HEARTBEAT_PERIOD_MS, 2500);
    assert_eq!(
        config.plan(Phase::Detach),
        Task { phase: Phase::Detach, delay: 0, timeout: 1500, heartbeat: Some(2500) }
    );
    assert_eq!(
        config.plan(Phase::DetachAbort),
        Task { phase: Phase::DetachAbort, delay: 0, timeout: 2500, heartbeat: None }
    );
    assert_eq!(
        config.plan(Phase::Attach),
        Task { phase: Phase::Attach, delay: 250, timeout: 3500, heartbeat: None }
    );
    assert_eq!(config.executable(Phase::Detach), Some("./detach.sh"));
    assert_eq!(config.executable(Phase::DetachAbort), None);
    assert_eq!(config.executable(Phase::Attach), Some("./attach.sh"));
}

#[test]
fn configuration_defaults() {
    assert_eq!(task_timeout(), 60_000);
    assert_eq!(delay_attach(), 5_000);
    let config = Config::default();
    assert_eq!(config.dir, "");
    assert_eq!(config.log.level, LogLevel::Info);
    assert_eq!(LogLevel::default(), LogLevel::Info);
    assert_eq!(config.handler.detach, DetachHandler { executable: None, timeout: 60_000 });
    assert_eq!(
        config.handler.detach_abort,
        DetachAbortHandler { executable: None, timeout: 60_000 }
    );
    assert_eq!(
        config.handler.attach,
        AttachHandler { executable: None, timeout: 60_000, delay: 5_000 }
    );
}

#[test]
fn log_levels_have_lower_case_names() {
    let levels = [
        (LogLevel::Error, "error"),
        (LogLevel::Warn, "warn"),
        (LogLevel::Info, "info"),
        (LogLevel::Debug, "debug"),
        (LogLevel::Trace, "trace"),
    ];
    for (level, name) in levels {
        assert_eq!(level.as_str(), name);
        assert_eq!(LogLevel::from_name(name), Some(level));
    }
    assert_eq!(LogLevel::from_name("Info"), None);
    assert_eq!(LogLevel::from_name(""), None);
    assert_eq!(LogLevel::from_name("warning"), None);
}

#[test]
fn diagnostics_keep_each_key_once_and_in_order() {
    let mut diag = Diagnostics::new("/etc/surface-dtx/surface-dtx-daemon.conf".to_string());
    assert_eq!(diag.file(), "/etc/surface-dtx/surface-dtx-daemon.conf");
    assert_eq!(diag.len(), 0);
    assert!(diag.insert("log.colour".to_string()));
    assert!(diag.insert("handler.detach.user".to_string()));
    assert!(diag.insert("zone".to_string()));
    assert!(!diag.insert("log.colour".to_string()));
    assert!(diag.insert("log".to_string()));
    assert!(diag.insert("Log".to_string()));
    assert_eq!(diag.len(), 5);
    let items: Vec<&str> = (0..diag.len()).map(|i| diag.get(i).unwrap()).collect();
    assert_eq!(items, vec!["Log", "handler.detach.user", "log", "log.colour", "zone"]);
    assert_eq!(diag.get(5), None);
}

#[test]
fn diagnostics_log_a_warning_for_each_unknown_key() {
    let mut diag = Diagnostics::empty();
    assert_eq!(diag.file(), "");
    assert_eq!(
        diag.log(),
        vec![Record { level: LogLevel::Debug, message: "configuration loaded".to_string() }]
    );
    diag.insert("b".to_string());
    diag.insert("a".to_string());
    assert_eq!(
        diag.log(),
        vec![
            Record { level: LogLevel::Debug, message: "configuration loaded".to_string() },
            Record { level: LogLevel::Warn, message: "unknown config item: a".to_string() },
            Record { level: LogLevel::Warn, message: "unknown config item: b".to_string() },
        ]
    );
}

#[test]
fn queue_hands_out_tasks_in_order_and_one_at_a_time() {
    let mut queue: TaskQueue<u32> = new();
    assert!(queue.is_idle());
    assert_eq!(queue.next(), None);
    assert_eq!(queue.submit(1), Ok(()));
    assert_eq!(queue.submit(2), Ok(()));
    assert_eq!(queue.submit(3), Ok(()));
    assert_eq!(queue.len(), 3);
    assert!(!queue.is_idle());
    assert_eq!(queue.next(), Some(1));
    assert!(queue.is_active());
    // nothing more while the first runs
    assert_eq!(queue.next(), None);
    assert_eq!(queue.len(), 2);
    queue.complete();
    assert!(!queue.is_active());
    assert_eq!(queue.next(), Some(2));
    queue.complete();
    assert_eq!(queue.next(), Some(3));
    assert!(!queue.is_idle());
    queue.complete();
    assert!(queue.is_idle());
    assert_eq!(queue.next(), None);
}

#[test]
fn full_queue_gives_the_task_back() {
    let mut queue: TaskQueue<u32> = with_capacity(2);
    assert_eq!(queue.submit(1), Ok(()));
    assert_eq!(queue.submit(2), Ok(()));
    assert_eq!(queue.submit(3), Err(3));
    assert_eq!(queue.len(), 2);
    assert_eq!(queue.next(), Some(1));
    // the running task takes no room in the queue
    assert_eq!(queue.submit(4), Ok(()));
    assert_eq!(queue.submit(5), Err(5));
    let mut none: TaskQueue<u32> = with_capacity(0);
    assert_eq!(none.submit(1), Err(1));
}

#[test]
fn default_queue_takes_thirty_two_tasks() {
    assert_eq!(DEFAULT_CAPACITY, 32);
    let mut queue: TaskQueue<usize> = new();
    for i in 0..32 {
        assert_eq!(queue.submit(i), Ok(()));
    }
    assert_eq!(queue.submit(32), Err(32));
    assert_eq!(queue.len(), 32);
}

#[test]
fn process_adapter_schedules_a_task_for_each_handler_phase() {
    let mut adapter = ProcessAdapter::new(config(), new());
    assert!(adapter.is_idle());
    assert!(adapter.take(Call::DetachmentStart).is_ok());
    let cancel = Call::DetachmentCancelStart { reason: CancelReason::UserRequest };
    assert!(adapter.take(cancel).is_ok());
    assert!(adapter.take(Call::AttachmentStart).is_ok());
    assert!(!adapter.is_idle());
    assert_eq!(adapter.next_task(), Some(config().plan(Phase::Detach)));
    assert_eq!(adapter.next_task(), None);
    adapter.task_done();
    assert_eq!(adapter.next_task(), Some(config().plan(Phase::DetachAbort)));
    adapter.task_done();
    assert_eq!(adapter.next_task(), Some(config().plan(Phase::Attach)));
    adapter.task_done();
    assert!(adapter.is_idle());
    assert_eq!(adapter.dropped(), 0);
    assert_eq!(adapter.config().dir, "/etc/surface-dtx");
}

#[test]
fn process_adapter_takes_up_no_other_call() {
    let mut adapter = ProcessAdapter::new(config(), new());
    for call in [
        Call::RequestCanceled { reason: CancelReason::UserRequest },
        Call::DetachmentComplete,
        Call::DetachmentTimeout,
        Call::DetachmentCancelComplete,
        Call::DetachmentCancelTimeout,
        Call::DetachmentUnexpected,
        Call::AttachmentComplete,
        Call::AttachmentTimeout,
    ] {
        assert!(call.deliver(&mut adapter).is_ok());
    }
    assert!(adapter.is_idle());
}

#[test]
fn process_adapter_drops_tasks_when_the_queue_is_full() {
    let mut adapter = ProcessAdapter::new(config(), with_capacity(1));
    assert!(Call::DetachmentStart.deliver(&mut adapter).is_ok());
    assert!(Call::AttachmentStart.deliver(&mut adapter).is_ok());
    assert!(Call::AttachmentStart.deliver(&mut adapter).is_ok());
    assert_eq!(adapter.dropped(), 2);
    assert_eq!(adapter.next_task(), Some(config().plan(Phase::Detach)));
    adapter.task_done();
    assert_eq!(adapter.next_task(), None);
}

#[test]
fn first_signal_drains_and_second_exits() {
    assert_eq!(Stage::Running.on_signal(Signal::Interrupt), (Stage::Draining, Step::Drain));
    assert_eq!(Stage::Running.on_signal(Signal::Terminate), (Stage::Draining, Step::Drain));
    assert_eq!(
        Stage::Draining.on_signal(Signal::Interrupt),
        (Stage::Draining, Step::Exit { code: 130 })
    );
    assert_eq!(
        Stage::Draining.on_signal(Signal::Terminate),
        (Stage::Draining, Step::Exit { code: 143 })
    );
    assert_eq!(Signal::Interrupt.number(), 2);
    assert_eq!(Signal::Terminate.number(), 15);
    assert_eq!(Signal::Interrupt.as_str(), "SIGINT");
    assert_eq!(Signal::Terminate.as_str(), "SIGTERM");
}

#[test]
fn exit_codes_of_a_daemon_that_ran_to_its_end() {
    assert_eq!(exit_code(false), 0);
    assert_eq!(exit_code(true), 1);
}

#[test]
fn scope_guard_runs_its_callback_once() {
    let count = std::cell::Cell::new(0);
    let mut held = surface_dtx::utils::guard(|| count.set(count.get() + 1));
    assert!(held.is_armed());
    assert_eq!(count.get(), 0);
    held.release();
    assert!(!held.is_armed());
    assert_eq!(count.get(), 1);
    held.release();
    assert_eq!(count.get(), 1);
}

#[test]
fn configuration_paths() {
    assert_eq!(DAEMON_CONFIG_PATH, "/etc/surface-dtx/surface-dtx-daemon.conf");
    assert_eq!(USERD_CONFIG_PATH, "/etc/surface-dtx/surface-dtx-userd.conf");
    assert_eq!(
        user_config_path(Some("/home/u/.config")),
        "/home/u/.config/surface-dtx/surface-dtx-userd.conf"
    );
    assert_eq!(
        user_config_path(Some("/home/u/.config/")),
        "/home/u/.config/surface-dtx/surface-dtx-userd.conf"
    );
    assert_eq!(user_config_path(Some("")), "~/.config/surface-dtx/surface-dtx-userd.conf");
    assert_eq!(user_config_path(None), "~/.config/surface-dtx/surface-dtx-userd.conf");
    assert_eq!(
        std::path::PathBuf::from(user_config_path(Some("/x/"))),
        std::path::Path::new("/x/").join("surface-dtx/surface-dtx-userd.conf")
    );
}

#[test]
fn configuration_of_the_user_goes_first() {
    assert_eq!(source(true, true), Source::User);
    assert_eq!(source(true, false), Source::User);
    assert_eq!(source(false, true), Source::System);
    assert_eq!(source(false, false), Source::Defaults);
}
