//! The configuration of the filter.
//!
//! A configuration is made once, at startup, from the configuration file and
//! the command line, and never changed after that. A setting that the file
//! leaves out has a default; a setting given on the command line replaces
//! that of the file.

use crate::error::{Error, Kind};
use crate::ini_file::{
    general_section, general_value, load_from_str, parse_error_text, parsed_general_section,
};
use crate::milter::Status;
use crate::text::{
    chars_of, decimal_u64, field_end, find_char, parse_u64, str_eq, string_from_chars,
};
use vstd::prelude::*;
use vstd::slice::slice_subrange;
use vstd::string::StringExecFns;

verus! {

/// How much is logged: each level includes those before it.
#[derive(Clone, Copy, Debug, PartialEq, Eq, Structural)]
pub enum LogLevel {
    Error,
    Warn,
    Info,
    Debug,
    Trace,
}

/// The text of an optional string.
pub open spec fn opt_text(value: Option<String>) -> Option<Seq<char>> {
    match value {
        Some(s) => Some(s@),
        None => None,
    }
}

/// `value`, or `fallback` where there is none.
pub open spec fn text_or(value: Option<Seq<char>>, fallback: Seq<char>) -> Seq<char> {
    match value {
        Some(s) => s,
        None => fallback,
    }
}

/// The log level that a configuration file names: `warn`, `info`, `debug`
/// or `trace`; any other name stands for `Error`.
pub open spec fn log_level_named(name: Seq<char>) -> LogLevel {
    if name == "warn"@ {
        LogLevel::Warn
    } else if name == "info"@ {
        LogLevel::Info
    } else if name == "debug"@ {
        LogLevel::Debug
    } else if name == "trace"@ {
        LogLevel::Trace
    } else {
        LogLevel::Error
    }
}

/// The log level for a number of `verbose` flags: each flag adds a level,
/// up to `Trace`.
pub open spec fn log_level_of_verbosity(count: u64) -> LogLevel {
    if count == 0 {
        LogLevel::Error
    } else if count == 1 {
        LogLevel::Warn
    } else if count == 2 {
        LogLevel::Info
    } else if count == 3 {
        LogLevel::Debug
    } else {
        LogLevel::Trace
    }
}

/// The action on a blocked message that a name stands for: `discard` or
/// `continue`; any other name stands for `Reject`.
pub open spec fn action_named(name: Seq<char>) -> Status {
    if name == "discard"@ {
        Status::Discard
    } else if name == "continue"@ {
        Status::Continue
    } else {
        Status::Reject
    }
}

/// The address to listen on that a socket setting describes, or `None`
/// where the setting has not the form `inet:<port>@<host>`.
///
/// The setting is cut at its colons: the first part has to be `inet`, and a
/// second part has to be there. The second part is cut at its `@` signs:
/// what stands before the first is the port, what stands between the first
/// and the second is the host. The address is the host, a colon and the
/// port.
pub open spec fn socket_address_spec(socket: Seq<char>) -> Option<Seq<char>> {
    let colon = field_end(socket, ':', 0);
    if colon >= socket.len() || socket.subrange(0, colon) != "inet"@ {
        None
    } else {
        let addr = socket.subrange(colon + 1, field_end(socket, ':', colon + 1));
        let at = field_end(addr, '@', 0);
        let port = addr.subrange(0, at);
        let host = if at >= addr.len() {
            Seq::<char>::empty()
        } else {
            addr.subrange(at + 1, field_end(addr, '@', at + 1))
        };
        Some(host.push(':') + port)
    }
}

/// The settings of the general section of a configuration file, each as it
/// is written there, or `None` where the file leaves it out.
#[derive(Debug)]
pub struct Settings {
    pub allow_map: Option<String>,
    pub block_map: Option<String>,
    pub pid_file: Option<String>,
    pub log_file: Option<String>,
    pub socket: Option<String>,
    pub user: Option<String>,
    pub group: Option<String>,
    pub log_level: Option<String>,
    pub on_block_action: Option<String>,
    pub reload_interval: Option<String>,
}

/// The texts of the settings of a configuration file.
pub struct SettingsView {
    pub allow_map: Option<Seq<char>>,
    pub block_map: Option<Seq<char>>,
    pub pid_file: Option<Seq<char>>,
    pub log_file: Option<Seq<char>>,
    pub socket: Option<Seq<char>>,
    pub user: Option<Seq<char>>,
    pub group: Option<Seq<char>>,
    pub log_level: Option<Seq<char>>,
    pub on_block_action: Option<Seq<char>>,
    pub reload_interval: Option<Seq<char>>,
}

impl View for Settings {
    type V = SettingsView;

    open spec fn view(&self) -> SettingsView {
        SettingsView {
            allow_map: opt_text(self.allow_map),
            block_map: opt_text(self.block_map),
            pid_file: opt_text(self.pid_file),
            log_file: opt_text(self.log_file),
            socket: opt_text(self.socket),
            user: opt_text(self.user),
            group: opt_text(self.group),
            log_level: opt_text(self.log_level),
            on_block_action: opt_text(self.on_block_action),
            reload_interval: opt_text(self.reload_interval),
        }
    }
}

/// What was given on the command line: each option with its value, or
/// `None` where it was not given. `verbose` is the number of `verbose`
/// flags, or `None` where there was none.
#[derive(Debug)]
pub struct Args {
    pub conf: Option<String>,
    pub allow_map: Option<String>,
    pub block_map: Option<String>,
    pub pidfile: Option<String>,
    pub logfile: Option<String>,
    pub socket: Option<String>,
    pub user: Option<String>,
    pub group: Option<String>,
    pub on_block_action: Option<String>,
    pub verbose: Option<u64>,
}

/// The texts of what was given on the command line.
pub struct ArgsView {
    pub conf: Option<Seq<char>>,
    pub allow_map: Option<Seq<char>>,
    pub block_map: Option<Seq<char>>,
    pub pidfile: Option<Seq<char>>,
    pub logfile: Option<Seq<char>>,
    pub socket: Option<Seq<char>>,
    pub user: Option<Seq<char>>,
    pub group: Option<Seq<char>>,
    pub on_block_action: Option<Seq<char>>,
    pub verbose: Option<u64>,
}

impl View for Args {
    type V = ArgsView;

    open spec fn view(&self) -> ArgsView {
        ArgsView {
            conf: opt_text(self.conf),
            allow_map: opt_text(self.allow_map),
            block_map: opt_text(self.block_map),
            pidfile: opt_text(self.pidfile),
            logfile: opt_text(self.logfile),
            socket: opt_text(self.socket),
            user: opt_text(self.user),
            group: opt_text(self.group),
            on_block_action: opt_text(self.on_block_action),
            verbose: self.verbose,
        }
    }
}

/// What a configuration holds.
pub struct ConfigView {
    pub pid_file: Seq<char>,
    pub log_file: Seq<char>,
    pub log_level: LogLevel,
    pub on_block_action: Status,
    /// In seconds.
    pub reload_interval: u64,
    pub allow_map: Seq<char>,
    pub block_map: Seq<char>,
    pub socket: Seq<char>,
    pub user: Option<Seq<char>>,
    pub group: Option<Seq<char>>,
}

/// The settings that the general section of a configuration file holds.
pub open spec fn settings_of(section: Map<Seq<char>, Seq<char>>) -> SettingsView {
    SettingsView {
        allow_map: setting(section, "allow_map"@),
        block_map: setting(section, "block_map"@),
        pid_file: setting(section, "pid_file"@),
        log_file: setting(section, "log_file"@),
        socket: setting(section, "socket"@),
        user: setting(section, "user"@),
        group: setting(section, "group"@),
        log_level: setting(section, "log_level"@),
        on_block_action: setting(section, "on_block_action"@),
        reload_interval: setting(section, "reload_interval"@),
    }
}

/// The value of one setting of a section.
pub open spec fn setting(section: Map<Seq<char>, Seq<char>>, key: Seq<char>) -> Option<Seq<char>> {
    if section.contains_key(key) {
        Some(section[key])
    } else {
        None
    }
}

/// The configuration that settings describe, with the default for each
/// setting that is left out; `None` where the reload interval is no number.
pub open spec fn config_of(settings: SettingsView) -> Option<ConfigView> {
    match decimal_u64(text_or(settings.reload_interval, crate::consts::default::RELOAD_INTERVAL@)) {
        Some(reload_interval) => Some(
            ConfigView {
                pid_file: text_or(settings.pid_file, crate::consts::default::PIDFILE@),
                log_file: text_or(settings.log_file, crate::consts::default::LOGFILE@),
                log_level: match settings.log_level {
                    Some(name) => log_level_named(name),
                    None => LogLevel::Error,
                },
                on_block_action: match settings.on_block_action {
                    Some(name) => action_named(name),
                    None => crate::consts::default::MILTER_STATUS,
                },
                reload_interval,
                allow_map: text_or(settings.allow_map, crate::consts::default::ALLOW_MAP@),
                block_map: text_or(settings.block_map, crate::consts::default::BLOCK_MAP@),
                socket: text_or(settings.socket, crate::consts::default::SOCKET@),
                user: settings.user,
                group: settings.group,
            },
        ),
        None => None,
    }
}

/// A configuration with what the command line gives in place of what it
/// held.
pub open spec fn overridden(config: ConfigView, args: ArgsView) -> ConfigView {
    ConfigView {
        pid_file: text_or(args.pidfile, config.pid_file),
        log_file: text_or(args.logfile, config.log_file),
        log_level: match args.verbose {
            Some(count) => log_level_of_verbosity(count),
            None => config.log_level,
        },
        on_block_action: match args.on_block_action {
            Some(name) => action_named(name),
            None => config.on_block_action,
        },
        reload_interval: config.reload_interval,
        allow_map: text_or(args.allow_map, config.allow_map),
        block_map: text_or(args.block_map, config.block_map),
        socket: text_or(args.socket, config.socket),
        user: match args.user {
            Some(user) => Some(user),
            None => config.user,
        },
        group: match args.group {
            Some(group) => Some(group),
            None => config.group,
        },
    }
}

/// The message of the error that an invalid configuration gives.
pub const INVALID_CONFIGURATION: &'static str = "Invalid Configuration!";

/// The start of the message of the error that a reload interval gives that
/// is no number.
pub const BAD_RELOAD_INTERVAL: &'static str = "Error parsing reload_interval ";

/// The error for a reload interval that is no number: a configuration error
/// whose message starts with [`BAD_RELOAD_INTERVAL`].
pub open spec fn is_bad_interval_error(e: Error) -> bool {
    &&& e.kind() == Kind::ConfigError
    &&& e.spec_msg() matches Some(msg)
    &&& msg.len() >= BAD_RELOAD_INTERVAL@.len()
    &&& msg.subrange(0, BAD_RELOAD_INTERVAL@.len() as int) == BAD_RELOAD_INTERVAL@
}

/// The error for a text that is no INI document: a configuration error with
/// a message.
pub open spec fn is_bad_document_error(e: Error) -> bool {
    e.kind() == Kind::ConfigError && e.spec_msg().is_some()
}

impl LogLevel {
    /// The log level that a configuration file names.
    pub fn from_name(name: &str) -> (level: LogLevel)
        ensures
            level == log_level_named(name@),
    {
        if str_eq(name, "warn") {
            LogLevel::Warn
        } else if str_eq(name, "info") {
            LogLevel::Info
        } else if str_eq(name, "debug") {
            LogLevel::Debug
        } else if str_eq(name, "trace") {
            LogLevel::Trace
        } else {
            LogLevel::Error
        }
    }

    /// The log level for a number of `verbose` flags.
    pub fn from_verbosity(count: u64) -> (level: LogLevel)
        ensures
            level == log_level_of_verbosity(count),
    {
        if count == 0 {
            LogLevel::Error
        } else if count == 1 {
            LogLevel::Warn
        } else if count == 2 {
            LogLevel::Info
        } else if count == 3 {
            LogLevel::Debug
        } else {
            LogLevel::Trace
        }
    }
}

impl Status {
    /// The action on a blocked message that a name stands for.
    pub fn from_action_name(name: &str) -> (action: Status)
        ensures
            action == action_named(name@),
    {
        if str_eq(name, "discard") {
            Status::Discard
        } else if str_eq(name, "continue") {
            Status::Continue
        } else {
            Status::Reject
        }
    }
}

impl Args {
    /// The path of the configuration file to read: the one given on the
    /// command line, or the default.
    pub fn conf_path(&self) -> (path: &str)
        ensures
            path@ == text_or(self@.conf, crate::consts::default::CONFIG_PATH@),
    {
        match &self.conf {
            Some(path) => path.as_str(),
            None => crate::consts::default::CONFIG_PATH,
        }
    }
}

/// The configuration of the filter and of the daemon.
#[derive(Debug)]
pub struct Config {
    pid_file: String,
    log_file: String,
    log_level: LogLevel,
    on_block_action: Status,
    reload_interval: u64,
    allow_map: String,
    block_map: String,
    socket: String,
    user: Option<String>,
    group: Option<String>,
}

impl View for Config {
    type V = ConfigView;

    closed spec fn view(&self) -> ConfigView {
        ConfigView {
            pid_file: self.pid_file@,
            log_file: self.log_file@,
            log_level: self.log_level,
            on_block_action: self.on_block_action,
            reload_interval: self.reload_interval,
            allow_map: self.allow_map@,
            block_map: self.block_map@,
            socket: self.socket@,
            user: opt_text(self.user),
            group: opt_text(self.group),
        }
    }
}

impl Config {
    /// The configuration that the text of a configuration file and the
    /// command line describe: the settings of the file, each replaced by
    /// what the command line gives for it. Fails where the file does.
    pub fn from_args(text: &str, args: Args) -> (r: Result<Config, Error>)
        ensures
            match parsed_general_section(text@) {
                Some(section) => match config_of(settings_of(section)) {
                    Some(config) => r.is_ok() && r.unwrap()@ == overridden(config, args@),
                    None => r.is_err() && is_bad_interval_error(r.unwrap_err()),
                },
                None => r.is_err() && is_bad_document_error(r.unwrap_err()),
            },
    {
        match Config::from_conf_file(text) {
            Ok(conf) => Ok(conf.override_with(args)),
            Err(e) => Err(e),
        }
    }

    /// This configuration with what the command line gives in place of
    /// what it held.
    pub fn override_with(self, args: Args) -> (conf: Config)
        ensures
            conf@ == overridden(self@, args@),
    {
        let mut conf = self;
        if let Some(allow_map) = args.allow_map {
            conf.allow_map = allow_map;
        }
        if let Some(block_map) = args.block_map {
            conf.block_map = block_map;
        }
        if let Some(pid_file) = args.pidfile {
            conf.pid_file = pid_file;
        }
        if let Some(log_file) = args.logfile {
            conf.log_file = log_file;
        }
        if let Some(socket) = args.socket {
            conf.socket = socket;
        }
        if let Some(user) = args.user {
            conf.user = Some(user);
        }
        if let Some(group) = args.group {
            conf.group = Some(group);
        }
        if let Some(on_block_action) = args.on_block_action {
            conf.on_block_action = Status::from_action_name(on_block_action.as_str());
        }
        if let Some(count) = args.verbose {
            conf.log_level = LogLevel::from_verbosity(count);
        }
        conf
    }

    /// Whether the filter can run with this configuration. `socket_bound`
    /// says whether the address of the socket setting could be bound;
    /// `allow_map_found` and `block_map_found` say whether the metadata of
    /// the two map files could be read.
    pub fn validate(&self, socket_bound: bool, allow_map_found: bool, block_map_found: bool) -> (r:
        Result<(), Error>)
        ensures
            r.is_ok() == (is_socket_valid_spec(self@.socket, socket_bound) && allow_map_found
                && block_map_found),
            r matches Err(e) ==> e.kind() == Kind::ConfigError && e.spec_msg() == Some(
                INVALID_CONFIGURATION@,
            ),
    {
        let mut valid = true;
        if !is_socket_valid(self.socket(), socket_bound) {
            valid = false;
        }
        if !allow_map_found {
            valid = false;
        }
        if !block_map_found {
            valid = false;
        }
        if valid {
            Ok(())
        } else {
            Err(Error::config_err(INVALID_CONFIGURATION))
        }
    }

    pub fn allow_map_path(&self) -> (path: &str)
        ensures
            path@ == self@.allow_map,
    {
        self.allow_map.as_str()
    }

    pub fn block_map_path(&self) -> (path: &str)
        ensures
            path@ == self@.block_map,
    {
        self.block_map.as_str()
    }

    pub fn pid_file_path(&self) -> (path: &str)
        ensures
            path@ == self@.pid_file,
    {
        self.pid_file.as_str()
    }

    pub fn log_file_path(&self) -> (path: &str)
        ensures
            path@ == self@.log_file,
    {
        self.log_file.as_str()
    }

    pub fn socket(&self) -> (socket: &str)
        ensures
            socket@ == self@.socket,
    {
        self.socket.as_str()
    }

    pub fn user(&self) -> (user: Option<&str>)
        ensures
            user.is_some() == self@.user.is_some(),
            user matches Some(name) ==> self@.user == Some(name@),
    {
        match &self.user {
            Some(user) => Some(user.as_str()),
            None => None,
        }
    }

    pub fn group(&self) -> (group: Option<&str>)
        ensures
            group.is_some() == self@.group.is_some(),
            group matches Some(name) ==> self@.group == Some(name@),
    {
        match &self.group {
            Some(group) => Some(group.as_str()),
            None => None,
        }
    }

    pub fn log_level(&self) -> (level: LogLevel)
        ensures
            level == self@.log_level,
    {
        self.log_level
    }

    pub fn on_block_action(&self) -> (action: Status)
        ensures
            action == self@.on_block_action,
    {
        self.on_block_action
    }

    /// The reload interval, in seconds.
    pub fn reload_interval(&self) -> (secs: u64)
        ensures
            secs == self@.reload_interval,
    {
        self.reload_interval
    }

    /// The configuration that the text of a configuration file describes.
    /// Fails with a configuration error where the text is no INI document
    /// or its reload interval is no number.
    pub fn from_conf_file(text: &str) -> (r: Result<Config, Error>)
        ensures
            match parsed_general_section(text@) {
                Some(section) => match config_of(settings_of(section)) {
                    Some(config) => r.is_ok() && r.unwrap()@ == config,
                    None => r.is_err() && is_bad_interval_error(r.unwrap_err()),
                },
                None => r.is_err() && is_bad_document_error(r.unwrap_err()),
            },
    {
        let doc = match load_from_str(text) {
            Ok(doc) => doc,
            Err(e) => {
                return Err(Error::config_err(parse_error_text(&e).as_str()));
            },
        };
        let settings = Settings {
            allow_map: general_value(&doc, "allow_map"),
            block_map: general_value(&doc, "block_map"),
            pid_file: general_value(&doc, "pid_file"),
            log_file: general_value(&doc, "log_file"),
            socket: general_value(&doc, "socket"),
            user: general_value(&doc, "user"),
            group: general_value(&doc, "group"),
            log_level: general_value(&doc, "log_level"),
            on_block_action: general_value(&doc, "on_block_action"),
            reload_interval: general_value(&doc, "reload_interval"),
        };
        assert(settings@ == settings_of(general_section(doc)));
        Config::from_settings(settings)
    }

    /// The configuration that settings describe, with the default for each
    /// setting that is left out. Fails with a configuration error where the
    /// reload interval is no number.
    pub fn from_settings(settings: Settings) -> (r: Result<Config, Error>)
        ensures
            match config_of(settings@) {
                Some(config) => r.is_ok() && r.unwrap()@ == config,
                None => r.is_err() && is_bad_interval_error(r.unwrap_err()),
            },
    {
        let interval_text = or_default(
            settings.reload_interval,
            crate::consts::default::RELOAD_INTERVAL,
        );
        let reload_interval = match parse_u64(interval_text.as_str()) {
            Ok(secs) => secs,
            Err(why) => {
                let msg = String::from_str(BAD_RELOAD_INTERVAL).concat(why.as_str());
                assert(msg@.subrange(0, BAD_RELOAD_INTERVAL@.len() as int)
                    =~= BAD_RELOAD_INTERVAL@);
                return Err(Error::config_err(msg.as_str()));
            },
        };
        let log_level = match settings.log_level {
            Some(name) => LogLevel::from_name(name.as_str()),
            None => LogLevel::Error,
        };
        let on_block_action = match settings.on_block_action {
            Some(name) => Status::from_action_name(name.as_str()),
            None => crate::consts::default::MILTER_STATUS,
        };
        Ok(
            Config {
                allow_map: or_default(settings.allow_map, crate::consts::default::ALLOW_MAP),
                block_map: or_default(settings.block_map, crate::consts::default::BLOCK_MAP),
                pid_file: or_default(settings.pid_file, crate::consts::default::PIDFILE),
                log_file: or_default(settings.log_file, crate::consts::default::LOGFILE),
                socket: or_default(settings.socket, crate::consts::default::SOCKET),
                user: settings.user,
                group: settings.group,
                log_level,
                on_block_action,
                reload_interval,
            },
        )
    }
}

/// `value`, or `fallback` where there is none.
fn or_default(value: Option<String>, fallback: &str) -> (r: String)
    ensures
        r@ == text_or(opt_text(value), fallback@),
{
    match value {
        Some(v) => v,
        None => fallback.to_owned(),
    }
}

/// Whether a socket setting can be used: it describes an address, and that
/// address could be bound.
pub open spec fn is_socket_valid_spec(socket: Seq<char>, bound: bool) -> bool {
    socket_address_spec(socket).is_some() && bound
}

/// Whether a socket setting can be used. `bound` says whether the address
/// that the setting describes could be bound; it is of no interest where
/// the setting describes none.
pub fn is_socket_valid(socket: &str, bound: bool) -> (valid: bool)
    ensures
        valid == is_socket_valid_spec(socket@, bound),
{
    match socket_address(socket) {
        Some(_) => bound,
        None => false,
    }
}

/// The address to listen on that a socket setting describes, as `host:port`.
pub fn socket_address(socket: &str) -> (address: Option<String>)
    ensures
        address.is_some() == socket_address_spec(socket@).is_some(),
        address matches Some(a) ==> socket_address_spec(socket@) == Some(a@),
{
    let chars = chars_of(socket);
    let all = chars.as_slice();
    let colon = find_char(all, ':', 0);
    if colon >= all.len() {
        return None;
    }
    let is_inet = colon == 4 && all[0] == 'i' && all[1] == 'n' && all[2] == 'e' && all[3] == 't';
    proof {
        reveal_strlit("inet");
        let prefix = all@.subrange(0, colon as int);
        let inet = "inet"@;
        assert(inet.len() == 4 && inet[0] == 'i' && inet[1] == 'n' && inet[2] == 'e' && inet[3]
            == 't');
        if is_inet {
            assert(prefix =~= inet);
        } else if colon == 4 {
            assert(prefix[0] == all@[0] && prefix[1] == all@[1] && prefix[2] == all@[2]
                && prefix[3] == all@[3]);
        }
    }
    if !is_inet {
        return None;
    }
    let addr = slice_subrange(all, colon + 1, find_char(all, ':', colon + 1));
    let at = find_char(addr, '@', 0);
    let mut address: Vec<char> = Vec::new();
    if at < addr.len() {
        let host = slice_subrange(addr, at + 1, find_char(addr, '@', at + 1));
        address.extend_from_slice(host);
        assert(address@ =~= host@);
    }
    address.push(':');
    let ghost host_colon = address@;
    let port = slice_subrange(addr, 0, at);
    address.extend_from_slice(port);
    assert(address@ =~= host_colon + port@);
    Some(string_from_chars(address.as_slice()))
}

} // verus!
