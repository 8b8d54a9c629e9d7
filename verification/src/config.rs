//! The configuration of the service, from the texts of its environment
//! variables.

use crate::text::{chars_of, decimal_number, parse_decimal};
use vstd::prelude::*;
use vstd::string::StringExecFns;

verus! {

/// The limits handed to the sandbox by default. Zero stands for no limit.
#[derive(Clone, Copy, Debug, PartialEq, Eq, Structural)]
pub struct SandboxConfig {
    /// Control-group memory limit in kilobytes.
    pub default_cg_mem: u32,
    /// Memory limit in kilobytes.
    pub default_mem: u32,
    /// Time limit in seconds.
    pub default_time: u32,
    /// Wall-clock time limit in seconds.
    pub default_wall_time: u32,
    /// Extra time in seconds.
    pub default_extra_time: u32,
    /// Stack limit in kilobytes.
    pub default_stack: u32,
    /// File size limit in kilobytes.
    pub default_fsize: u32,
    /// Limit on open files.
    pub default_open_files: u32,
    /// Limit on processes.
    pub default_processes: u32,
}

/// The texts of the nine variables that set the sandbox limits, each
/// absent or present.
pub struct SandboxSettings {
    pub cg_mem: Option<String>,
    pub mem: Option<String>,
    pub time: Option<String>,
    pub wall_time: Option<String>,
    pub extra_time: Option<String>,
    pub stack: Option<String>,
    pub fsize: Option<String>,
    pub open_files: Option<String>,
    pub processes: Option<String>,
}

/// The texts of the variables that configure the service.
pub struct Settings {
    pub port: Option<String>,
    pub config_dir: Option<String>,
    pub box_pool_size: Option<String>,
    pub api_key: Option<String>,
    pub sandbox: SandboxSettings,
}

/// The configuration of the service.
pub struct Config {
    pub port: u16,
    pub config_dir: String,
    pub box_pool_size: u32,
    pub api_key: Option<String>,
    pub sandbox: SandboxConfig,
}

/// The digits of a number text: the text without one leading plus sign.
pub open spec fn unsigned_digits(text: Seq<char>) -> Seq<char> {
    if text.len() > 0 && text[0] == '+' {
        text.drop_first()
    } else {
        text
    }
}

/// The number that a variable sets: the value of its text if that is a
/// decimal number, with or without a leading plus sign, of at most
/// `limit`; the default if the variable is absent or its text is anything
/// else.
pub open spec fn setting_value(text: Option<String>, limit: u64, default: u64) -> u64 {
    match text {
        Some(t) => match decimal_number(unsigned_digits(t@)) {
            Some(v) => if v <= limit {
                v
            } else {
                default
            },
            None => default,
        },
        None => default,
    }
}

/// The number that a variable sets, or the default.
pub fn setting_or(text: &Option<String>, limit: u64, default: u64) -> (v: u64)
    ensures
        v == setting_value(*text, limit, default),
{
    match text {
        Some(t) => {
            let chars = chars_of(t.as_str());
            let from: usize = if chars.len() > 0 && chars[0] == '+' {
                1
            } else {
                0
            };
            proof {
                assert(chars@.subrange(from as int, chars@.len() as int) =~= unsigned_digits(t@));
            }
            match parse_decimal(&chars, from, chars.len()) {
                Some(v) => if v <= limit {
                    v
                } else {
                    default
                },
                None => default,
            }
        },
        None => default,
    }
}

/// The default limits.
pub open spec fn default_limits() -> SandboxConfig {
    SandboxConfig {
        default_cg_mem: 524288,
        default_mem: 512000,
        default_time: 30,
        default_wall_time: 60,
        default_extra_time: 10,
        default_stack: 128000,
        default_fsize: 102400,
        default_open_files: 64,
        default_processes: 0,
    }
}

impl Default for SandboxConfig {
    fn default() -> (c: Self)
        ensures
            c == default_limits(),
    {
        SandboxConfig {
            default_cg_mem: 524288,
            default_mem: 512000,
            default_time: 30,
            default_wall_time: 60,
            default_extra_time: 10,
            default_stack: 128000,
            default_fsize: 102400,
            default_open_files: 64,
            default_processes: 0,
        }
    }
}

/// The limit that a variable sets, as a 32-bit number.
pub open spec fn limit_value(text: Option<String>, default: u32) -> u32 {
    setting_value(text, 0xffff_ffff, default as u64) as u32
}

fn limit_or(text: &Option<String>, default: u32) -> (v: u32)
    ensures
        v == limit_value(*text, default),
{
    setting_or(text, 0xffff_ffff, default as u64) as u32
}

impl SandboxConfig {
    /// The limits that the settings give: each variable that holds a
    /// number sets its limit, every other limit keeps its default.
    pub fn from_env(settings: &SandboxSettings) -> (c: Self)
        ensures
            c == (SandboxConfig {
                default_cg_mem: limit_value(settings.cg_mem, 524288),
                default_mem: limit_value(settings.mem, 512000),
                default_time: limit_value(settings.time, 30),
                default_wall_time: limit_value(settings.wall_time, 60),
                default_extra_time: limit_value(settings.extra_time, 10),
                default_stack: limit_value(settings.stack, 128000),
                default_fsize: limit_value(settings.fsize, 102400),
                default_open_files: limit_value(settings.open_files, 64),
                default_processes: limit_value(settings.processes, 0),
            }),
    {
        let d = SandboxConfig::default();
        SandboxConfig {
            default_cg_mem: limit_or(&settings.cg_mem, d.default_cg_mem),
            default_mem: limit_or(&settings.mem, d.default_mem),
            default_time: limit_or(&settings.time, d.default_time),
            default_wall_time: limit_or(&settings.wall_time, d.default_wall_time),
            default_extra_time: limit_or(&settings.extra_time, d.default_extra_time),
            default_stack: limit_or(&settings.stack, d.default_stack),
            default_fsize: limit_or(&settings.fsize, d.default_fsize),
            default_open_files: limit_or(&settings.open_files, d.default_open_files),
            default_processes: limit_or(&settings.processes, d.default_processes),
        }
    }
}

impl Config {
    /// The configuration that the settings give: port 3000, directory
    /// `./config` and a pool of 10 slots unless set otherwise; no API key
    /// unless one is set.
    pub fn from_env(settings: Settings) -> (c: Self)
        ensures
            c.port == setting_value(settings.port, 0xffff, 3000) as u16,
            c.config_dir@ == match settings.config_dir {
                Some(d) => d@,
                None => "./config"@,
            },
            c.box_pool_size == limit_value(settings.box_pool_size, 10),
            c.api_key == settings.api_key,
            c.sandbox == (SandboxConfig {
                default_cg_mem: limit_value(settings.sandbox.cg_mem, 524288),
                default_mem: limit_value(settings.sandbox.mem, 512000),
                default_time: limit_value(settings.sandbox.time, 30),
                default_wall_time: limit_value(settings.sandbox.wall_time, 60),
                default_extra_time: limit_value(settings.sandbox.extra_time, 10),
                default_stack: limit_value(settings.sandbox.stack, 128000),
                default_fsize: limit_value(settings.sandbox.fsize, 102400),
                default_open_files: limit_value(settings.sandbox.open_files, 64),
                default_processes: limit_value(settings.sandbox.processes, 0),
            }),
    {
        let port = setting_or(&settings.port, 0xffff, 3000) as u16;
        let box_pool_size = limit_or(&settings.box_pool_size, 10);
        let sandbox = SandboxConfig::from_env(&settings.sandbox);
        let config_dir = match settings.config_dir {
            Some(d) => d,
            None => String::from_str("./config"),
        };
        Config { port, config_dir, box_pool_size, api_key: settings.api_key, sandbox }
    }
}

} // verus!
