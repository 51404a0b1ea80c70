//! Configuration of the daemons, and what is to be said about a
//! configuration file once it is read.

use vstd::prelude::*;
use vstd::string::{StrSliceExecFns, StringExecFns};
use crate::text::{
    compare, lemma_precedes_total, lemma_precedes_transitive, lemma_prefix_differs, precedes,
    same_text, Order,
};

verus! {

/// How much is logged.
#[derive(Debug, Clone, Copy, PartialEq, Eq, Structural)]
pub enum LogLevel {
    Error,
    Warn,
    Info,
    Debug,
    Trace,
}

impl Default for LogLevel {
    fn default() -> (level: LogLevel)
        ensures
            level == LogLevel::Info,
    {
        LogLevel::Info
    }
}

impl LogLevel {
    /// The word for the level in a configuration file.
    pub open spec fn name(self) -> Seq<char> {
        match self {
            LogLevel::Error => "error"@,
            LogLevel::Warn => "warn"@,
            LogLevel::Info => "info"@,
            LogLevel::Debug => "debug"@,
            LogLevel::Trace => "trace"@,
        }
    }

    /// The level that a word stands for.
    pub open spec fn named(word: Seq<char>) -> Option<LogLevel> {
        if word == "error"@ {
            Some(LogLevel::Error)
        } else if word == "warn"@ {
            Some(LogLevel::Warn)
        } else if word == "info"@ {
            Some(LogLevel::Info)
        } else if word == "debug"@ {
            Some(LogLevel::Debug)
        } else if word == "trace"@ {
            Some(LogLevel::Trace)
        } else {
            None
        }
    }

    pub fn as_str(self) -> (word: &'static str)
        ensures
            word@ == self.name(),
    {
        match self {
            LogLevel::Error => "error",
            LogLevel::Warn => "warn",
            LogLevel::Info => "info",
            LogLevel::Debug => "debug",
            LogLevel::Trace => "trace",
        }
    }

    /// Reads a level from its word; there is none for any other word.
    pub fn from_name(word: &str) -> (level: Option<LogLevel>)
        ensures
            level == LogLevel::named(word@),
    {
        if same_text(word, "error") {
            Some(LogLevel::Error)
        } else if same_text(word, "warn") {
            Some(LogLevel::Warn)
        } else if same_text(word, "info") {
            Some(LogLevel::Info)
        } else if same_text(word, "debug") {
            Some(LogLevel::Debug)
        } else if same_text(word, "trace") {
            Some(LogLevel::Trace)
        } else {
            None
        }
    }
}

/// A level read from its own word is the same level.
pub proof fn lemma_log_level_round_trip(level: LogLevel)
    ensures
        LogLevel::named(level.name()) == Some(level),
{
    reveal_strlit("error");
    reveal_strlit("warn");
    reveal_strlit("info");
    reveal_strlit("debug");
    reveal_strlit("trace");
    match level {
        LogLevel::Info => {
            lemma_prefix_differs("info"@, "warn"@, 0);
        },
        LogLevel::Debug => {
            lemma_prefix_differs("debug"@, "error"@, 0);
        },
        LogLevel::Trace => {
            lemma_prefix_differs("trace"@, "error"@, 0);
            lemma_prefix_differs("trace"@, "debug"@, 0);
        },
        _ => {},
    }
}

/// Where the configuration of the system daemon is looked for.
pub const DAEMON_CONFIG_PATH: &'static str = "/etc/surface-dtx/surface-dtx-daemon.conf";

/// Where the configuration of the user daemon is looked for after the user's
/// own.
pub const USERD_CONFIG_PATH: &'static str = "/etc/surface-dtx/surface-dtx-userd.conf";

/// Where the user's own configuration of the user daemon lies, below the
/// directory of the user's configurations.
pub const USERD_LOCAL_CONFIG_PATH: &'static str = "surface-dtx/surface-dtx-userd.conf";

/// The directory of the user's configurations where the environment names
/// none.
pub const USER_CONFIG_HOME: &'static str = "~/.config";

/// The path of the user's own configuration of the user daemon, given what
/// the environment names as the directory of the user's configurations: the
/// place below that directory, or below `~/.config` where none is named or
/// the name is empty.
pub open spec fn user_config(home: Option<Seq<char>>) -> Seq<char> {
    let dir = match home {
        Some(dir) => if dir.len() > 0 {
            dir
        } else {
            USER_CONFIG_HOME@
        },
        None => USER_CONFIG_HOME@,
    };
    if dir.len() > 0 && dir.last() == '/' {
        dir + USERD_LOCAL_CONFIG_PATH@
    } else {
        dir + "/"@ + USERD_LOCAL_CONFIG_PATH@
    }
}

/// See [`user_config`].
pub fn user_config_path(home: Option<&str>) -> (path: String)
    ensures
        path@ == user_config(
            match home {
                Some(dir) => Some(dir@),
                None => None,
            },
        ),
{
    let dir = match home {
        Some(dir) => if dir.unicode_len() > 0 {
            dir
        } else {
            USER_CONFIG_HOME
        },
        None => USER_CONFIG_HOME,
    };
    let len = dir.unicode_len();
    let mut path = String::from_str(dir);
    if !(len > 0 && dir.get_char(len - 1) == '/') {
        path.append("/");
    }
    path.append(USERD_LOCAL_CONFIG_PATH);
    path
}

/// Which configuration a daemon takes.
#[derive(Debug, Clone, Copy, PartialEq, Eq, Structural)]
pub enum Source {
    /// The user's own file.
    User,
    /// The file of the system.
    System,
    /// No file: every setting has its default.
    Defaults,
}

/// The configuration that is taken, given which files are there: the user's
/// own before that of the system, and the defaults where there is neither.
pub fn source(user: bool, system: bool) -> (source: Source)
    ensures
        source == if user {
            Source::User
        } else if system {
            Source::System
        } else {
            Source::Defaults
        },
{
    if user {
        Source::User
    } else if system {
        Source::System
    } else {
        Source::Defaults
    }
}

/// Time that a handler gets where the configuration says nothing, in
/// milliseconds.
pub fn task_timeout() -> (millis: u64)
    ensures
        millis == 60_000,
{
    60_000
}

/// Time that passes before the attachment handler starts where the
/// configuration says nothing, in milliseconds.
pub fn delay_attach() -> (millis: u64)
    ensures
        millis == 5_000,
{
    5_000
}

#[derive(Debug, Clone, Copy, PartialEq, Eq, Structural)]
pub struct Log {
    pub level: LogLevel,
}

impl Default for Log {
    fn default() -> (log: Log)
        ensures
            log.level == LogLevel::Info,
    {
        Log { level: LogLevel::Info }
    }
}

/// The handler that runs before the latch opens.
#[derive(Debug, Clone, PartialEq, Eq)]
pub struct DetachHandler {
    /// The executable, if there is one.
    pub executable: Option<String>,
    /// Time that it gets, in milliseconds.
    pub timeout: u64,
}

/// The handler that runs when a detachment is called off.
#[derive(Debug, Clone, PartialEq, Eq)]
pub struct DetachAbortHandler {
    pub executable: Option<String>,
    pub timeout: u64,
}

/// The handler that runs once a base has been put on.
#[derive(Debug, Clone, PartialEq, Eq)]
pub struct AttachHandler {
    pub executable: Option<String>,
    pub timeout: u64,
    /// Time that passes before it starts, in milliseconds.
    pub delay: u64,
}

#[derive(Debug, Clone, PartialEq, Eq)]
pub struct Handler {
    pub detach: DetachHandler,
    pub detach_abort: DetachAbortHandler,
    pub attach: AttachHandler,
}

/// Configuration of the system daemon.
#[derive(Debug, Clone, PartialEq, Eq)]
pub struct Config {
    /// Directory of the configuration file: handlers run there.
    pub dir: String,
    pub log: Log,
    pub handler: Handler,
}

impl Default for DetachHandler {
    fn default() -> (handler: DetachHandler)
        ensures
            handler.executable is None,
            handler.timeout == 60_000,
    {
        DetachHandler { executable: None, timeout: task_timeout() }
    }
}

impl Default for DetachAbortHandler {
    fn default() -> (handler: DetachAbortHandler)
        ensures
            handler.executable is None,
            handler.timeout == 60_000,
    {
        DetachAbortHandler { executable: None, timeout: task_timeout() }
    }
}

impl Default for AttachHandler {
    fn default() -> (handler: AttachHandler)
        ensures
            handler.executable is None,
            handler.timeout == 60_000,
            handler.delay == 5_000,
    {
        AttachHandler { executable: None, timeout: task_timeout(), delay: delay_attach() }
    }
}

impl Handler {
    /// No handler has an executable, and all times are the default ones.
    pub open spec fn is_default(self) -> bool {
        &&& self.detach.executable is None
        &&& self.detach.timeout == 60_000
        &&& self.detach_abort.executable is None
        &&& self.detach_abort.timeout == 60_000
        &&& self.attach.executable is None
        &&& self.attach.timeout == 60_000
        &&& self.attach.delay == 5_000
    }
}

impl Default for Handler {
    fn default() -> (handler: Handler)
        ensures
            handler.is_default(),
    {
        Handler {
            detach: DetachHandler::default(),
            detach_abort: DetachAbortHandler::default(),
            attach: AttachHandler::default(),
        }
    }
}

impl Default for Config {
    fn default() -> (config: Config)
        ensures
            config.dir@.len() == 0,
            config.log.level == LogLevel::Info,
            config.handler.is_default(),
    {
        Config { dir: String::new(), log: Log::default(), handler: Handler::default() }
    }
}

/// One line for the log.
#[derive(Debug, Clone, PartialEq, Eq)]
pub struct Record {
    pub level: LogLevel,
    pub message: String,
}

/// What was found in a configuration file that the daemon does not know:
/// the keys, each once, in the order of strings.
#[derive(Debug)]
pub struct Diagnostics {
    path: String,
    unknowns: Vec<String>,
}

/// Whether the texts stand in the order of strings, each before the next.
pub open spec fn ascending(items: Seq<Seq<char>>) -> bool {
    forall|i: int, j: int| 0 <= i < j < items.len() ==> precedes(#[trigger] items[i], #[trigger] items[j])
}

impl Diagnostics {
    /// Path of the file.
    pub closed spec fn path(&self) -> Seq<char> {
        self.path@
    }

    /// The unknown keys.
    pub closed spec fn items(&self) -> Seq<Seq<char>> {
        Seq::new(self.unknowns@.len(), |i: int| self.unknowns@[i]@)
    }

    #[verifier::type_invariant]
    spec fn sorted(&self) -> bool {
        ascending(self.items())
    }

    /// Nothing to say, about no file.
    pub fn empty() -> (diag: Diagnostics)
        ensures
            diag.path().len() == 0,
            diag.items().len() == 0,
    {
        Diagnostics { path: String::new(), unknowns: Vec::new() }
    }

    /// Nothing to say yet about the file at `path`.
    pub fn new(path: String) -> (diag: Diagnostics)
        ensures
            diag.path() == path@,
            diag.items().len() == 0,
    {
        Diagnostics { path, unknowns: Vec::new() }
    }

    /// Notes an unknown key, and tells whether it is new.
    pub fn insert(&mut self, item: String) -> (added: bool)
        ensures
            final(self).path() == old(self).path(),
            ascending(final(self).items()),
            added == !old(self).items().contains(item@),
            forall|text: Seq<char>|
                final(self).items().contains(text) <==> (old(self).items().contains(text) || text
                    == item@),
            final(self).items().len() == old(self).items().len() + if added {
                1int
            } else {
                0int
            },
    {
        proof {
            use_type_invariant(&*self);
        }
        let ghost before = self.items();
        let n = self.unknowns.len();
        let mut at: usize = 0;
        let mut found = false;
        while at < n
            invariant_except_break
                !found,
            invariant
                at <= n,
                n == self.unknowns@.len(),
                before == self.items(),
                self.path() == old(self).path(),
                ascending(before),
                forall|i: int| 0 <= i < at ==> precedes(#[trigger] before[i], item@),
            ensures
                at <= n,
                found ==> at < n && before[at as int] == item@,
                !found && at < n ==> precedes(item@, before[at as int]),
                forall|i: int| 0 <= i < at ==> precedes(#[trigger] before[i], item@),
            decreases n - at,
        {
            match compare(self.unknowns[at].as_str(), item.as_str()) {
                Order::Before => {
                },
                Order::Same => {
                    found = true;
                    break ;
                },
                Order::After => {
                    break ;
                },
            }
            at += 1;
        }
        proof {
            assert forall|i: int| 0 <= i < at implies before[i] != item@ by {
                lemma_precedes_total(before[i], item@, 0);
            }
            if at < n {
                assert forall|j: int| at <= j < n implies (if found && j == at {
                    before[j] == item@
                } else {
                    precedes(item@, #[trigger] before[j])
                }) by {
                    if j > at && !found {
                        lemma_precedes_transitive(item@, before[at as int], before[j], 0);
                    }
                }
                assert forall|j: int| at <= j < n && !(found && j == at) implies before[j]
                    != item@ by {
                    lemma_precedes_total(item@, before[j], 0);
                }
            }
        }
        if found {
            return false;
        }
        let mut unknowns = Vec::new();
        std::mem::swap(&mut self.unknowns, &mut unknowns);
        unknowns.insert(at, item);
        let ghost after = Seq::new(unknowns@.len(), |i: int| unknowns@[i]@);
        proof {
            assert forall|i: int| 0 <= i < at implies #[trigger] after[i] == before[i] by {}
            assert forall|i: int| at < i <= n implies #[trigger] after[i] == before[i - 1] by {}
            assert forall|text: Seq<char>| after.contains(text) <==> (before.contains(text) || text
                == item@) by {
                if before.contains(text) {
                    let i = choose|i: int| 0 <= i < before.len() && before[i] == text;
                    if i < at {
                        assert(after[i] == text);
                    } else {
                        assert(after[i + 1] == text);
                    }
                }
                if text == item@ {
                    assert(after[at as int] == text);
                }
            }
        }
        self.unknowns = unknowns;
        true
    }

    /// Number of unknown keys. They stand in the order of strings.
    pub fn len(&self) -> (n: usize)
        ensures
            n == self.items().len(),
            ascending(self.items()),
    {
        proof {
            use_type_invariant(self);
        }
        self.unknowns.len()
    }

    /// The unknown key at a place, in the order of strings.
    pub fn get(&self, at: usize) -> (item: Option<&str>)
        ensures
            match item {
                Some(text) => at < self.items().len() && text@ == self.items()[at as int],
                None => at >= self.items().len(),
            },
    {
        if at < self.unknowns.len() {
            Some(self.unknowns[at].as_str())
        } else {
            None
        }
    }

    /// Path of the file that this is about.
    pub fn file(&self) -> (path: &str)
        ensures
            path@ == self.path(),
    {
        self.path.as_str()
    }

    /// What is to be logged: that the configuration was loaded, and a
    /// warning for each unknown key, in order.
    pub fn log(&self) -> (records: Vec<Record>)
        ensures
            records@.len() == self.items().len() + 1,
            records@[0].level == LogLevel::Debug,
            records@[0].message@ == "configuration loaded"@,
            forall|i: int|
                0 <= i < self.items().len() ==> {
                    &&& (#[trigger] records@[i + 1]).level == LogLevel::Warn
                    &&& records@[i + 1].message@ == "unknown config item: "@ + self.items()[i]
                },
    {
        let mut records = Vec::new();
        records.push(
            Record { level: LogLevel::Debug, message: String::from_str("configuration loaded") },
        );
        let n = self.unknowns.len();
        let mut i: usize = 0;
        while i < n
            invariant
                i <= n,
                n == self.unknowns@.len(),
                records@.len() == i + 1,
                records@[0].level == LogLevel::Debug,
                records@[0].message@ == "configuration loaded"@,
                forall|k: int|
                    0 <= k < i ==> {
                        &&& (#[trigger] records@[k + 1]).level == LogLevel::Warn
                        &&& records@[k + 1].message@ == "unknown config item: "@ + self.items()[k]
                    },
            decreases n - i,
        {
            let mut message = String::from_str("unknown config item: ");
            message.append(self.unknowns[i].as_str());
            records.push(Record { level: LogLevel::Warn, message });
            i += 1;
        }
        records
    }
}

} // verus!
