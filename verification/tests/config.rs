use isolate_sandbox::config::{setting_or, Config, SandboxConfig, SandboxSettings, Settings};
use isolate_sandbox::process::{FileSystem, ProcessExecutor};

fn no_limits() -> SandboxSettings {
    SandboxSettings {
        cg_mem: None,
        mem: None,
        time: None,
        wall_time: None,
        extra_time: None,
        stack: None,
        fsize: None,
        open_files: None,
        processes: None,
    }
}

fn text(s: &str) -> Option<String> {
    Some(s.to_string())
}

#[test]
fn defaults_apply_when_nothing_is_set() {
    let settings =
        Settings { port: None, config_dir: None, box_pool_size: None, api_key: None, sandbox: no_limits() };
    let c = Config::from_env(settings);
    assert_eq!(c.port, 3000);
    assert_eq!(c.config_dir, "./config");
    assert_eq!(c.box_pool_size, 10);
    assert_eq!(c.api_key, None);
    assert_eq!(c.sandbox, SandboxConfig::default());
}

#[test]
fn default_limits() {
    let d = SandboxConfig::default();
    assert_eq!(d.default_cg_mem, 524288);
    assert_eq!(d.default_mem, 512000);
    assert_eq!(d.default_time, 30);
    assert_eq!(d.default_wall_time, 60);
    assert_eq!(d.default_extra_time, 10);
    assert_eq!(d.default_stack, 128000);
    assert_eq!(d.default_fsize, 102400);
    assert_eq!(d.default_open_files, 64);
    assert_eq!(d.default_processes, 0);
}

#[test]
fn settings_override_the_defaults() {
    let mut sandbox = no_limits();
    sandbox.time = text("5");
    sandbox.open_files = text("0");
    let settings = Settings {
        port: text("8080"),
        config_dir: text("/etc/langs"),
        box_pool_size: text("1"),
        api_key: text("secret"),
        sandbox,
    };
    let c = Config::from_env(settings);
    assert_eq!(c.port, 8080);
    assert_eq!(c.config_dir, "/etc/langs");
    assert_eq!(c.box_pool_size, 1);
    assert_eq!(c.api_key, text("secret"));
    assert_eq!(c.sandbox.default_time, 5);
    assert_eq!(c.sandbox.default_open_files, 0);
    assert_eq!(c.sandbox.default_wall_time, 60);
}

#[test]
fn unreadable_numbers_fall_back_to_the_default() {
    let settings = Settings {
        port: text("65536"),
        config_dir: None,
        box_pool_size: text("ten"),
        api_key: None,
        sandbox: no_limits(),
    };
    let c = Config::from_env(settings);
    assert_eq!(c.port, 3000);
    assert_eq!(c.box_pool_size, 10);
}

#[test]
fn setting_or_agrees_with_std_parsing() {
    for s in ["0", "+7", "007", "4294967295", "4294967296", "", "+", "-1", " 1", "1 ", "1.0", "++1", "٣"] {
        let expected = s.parse::<u32>().unwrap_or(42);
        assert_eq!(setting_or(&text(s), u32::MAX as u64, 42), expected as u64);
    }
    for s in ["65535", "65536", "+65535", "0"] {
        let expected = s.parse::<u16>().unwrap_or(3000);
        assert_eq!(setting_or(&text(s), u16::MAX as u64, 3000), expected as u64);
    }
    assert_eq!(setting_or(&None, 10, 3), 3);
}

#[test]
fn executor_reports_exit_codes() {
    let p = ProcessExecutor::new();
    assert_eq!(p.exit_code(Some(3)), 3);
    assert_eq!(p.exit_code(None), -1);
    let out = p.command_output("o".to_string(), "e".to_string(), None);
    assert_eq!(out.stdout, "o");
    assert_eq!(out.stderr, "e");
    assert_eq!(out.exit_code, -1);
    assert_eq!(p.spawn_failure("x").message(), "Internal error: Failed to execute command: x");
}

#[test]
fn executor_judges_scripts() {
    let p = ProcessExecutor::new();
    let c = p.script_command("/cfg/python/setup.sh");
    assert_eq!(c.program, "bash");
    assert_eq!(c.args, vec!["/cfg/python/setup.sh"]);
    assert!(p.script_result(true, "ignored").is_ok());
    let err = p.script_result(false, "boom").unwrap_err();
    assert_eq!(err.message(), "Internal error: Script execution failed: boom");
    assert_eq!(p.script_spawn_failure("y").message(), "Internal error: Failed to execute script: y");
}

#[test]
fn file_system_errors_are_io_errors() {
    let f = FileSystem::new();
    assert_eq!(f.copy_failure("a").message(), "IO error: Failed to copy file: a");
    assert_eq!(f.read_failure("b").message(), "IO error: Failed to read file: b");
    assert_eq!(f.create_directory_failure("c").message(), "IO error: Failed to create directory: c");
}
