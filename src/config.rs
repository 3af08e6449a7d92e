//! The build configuration: validation of the document's fields and the
//! constants, linker script and rebuild trigger that a build takes from it.

use vstd::prelude::*;
use vstd::string::StrSliceExecFns;

verus! {

/// Threshold of the kernel's log, from the most to the least severe.
#[derive(Clone, Copy, Debug, PartialEq, Eq, Structural)]
pub enum LogLevel {
    Error,
    Warn,
    Info,
    Debug,
    Trace,
}

/// The address-translation scheme the kernel runs under.
#[derive(Clone, Copy, Debug, PartialEq, Eq, Structural)]
pub enum MemoryMode {
    Riscv64Sv39,
    Riscv64Sv48,
    Riscv64Sv57,
}

/// The page size shared by every supported translation scheme.
pub const PAGE_SIZE: usize = 4096;

/// The page size of a translation scheme: only the depth of the address
/// space differs between them, not the granularity of a page.
pub open spec fn page_size_spec(mode: MemoryMode) -> nat {
    match mode {
        MemoryMode::Riscv64Sv39 => 4096,
        MemoryMode::Riscv64Sv48 => 4096,
        MemoryMode::Riscv64Sv57 => 4096,
    }
}

/// The page size of a translation scheme.
pub fn page_size_of(mode: MemoryMode) -> (r: usize)
    ensures
        r == page_size_spec(mode),
{
    match mode {
        MemoryMode::Riscv64Sv39 => PAGE_SIZE,
        MemoryMode::Riscv64Sv48 => PAGE_SIZE,
        MemoryMode::Riscv64Sv57 => PAGE_SIZE,
    }
}

/// Every translation scheme has the same page size, 4096 bytes.
pub proof fn lemma_page_size_uniform(a: MemoryMode, b: MemoryMode)
    ensures
        page_size_spec(a) == page_size_spec(b),
        page_size_spec(a) == PAGE_SIZE,
{
}

/// Whether two strings hold the same characters.
fn same_text(a: &str, b: &str) -> (r: bool)
    ensures
        r == (a@ == b@),
{
    let n = a.unicode_len();
    if n != b.unicode_len() {
        return false;
    }
    let mut i: usize = 0;
    while i < n
        invariant
            n == a@.len(),
            n == b@.len(),
            i <= n,
            a@.subrange(0, i as int) == b@.subrange(0, i as int),
        decreases n - i,
    {
        if a.get_char(i) != b.get_char(i) {
            return false;
        }
        assert(a@.subrange(0, i + 1) == a@.subrange(0, i as int).push(a@[i as int]));
        assert(b@.subrange(0, i + 1) == b@.subrange(0, i as int).push(b@[i as int]));
        i = i + 1;
    }
    assert(a@ == a@.subrange(0, n as int));
    assert(b@ == b@.subrange(0, n as int));
    true
}

/// The log level that the document writes as `name`.
pub open spec fn level_named(name: Seq<char>) -> Option<LogLevel> {
    if name == "Error"@ {
        Some(LogLevel::Error)
    } else if name == "Warn"@ {
        Some(LogLevel::Warn)
    } else if name == "Info"@ {
        Some(LogLevel::Info)
    } else if name == "Debug"@ {
        Some(LogLevel::Debug)
    } else if name == "Trace"@ {
        Some(LogLevel::Trace)
    } else {
        None
    }
}

/// The translation scheme that the document writes as `name`.
pub open spec fn mode_named(name: Seq<char>) -> Option<MemoryMode> {
    if name == "Riscv64Sv39"@ {
        Some(MemoryMode::Riscv64Sv39)
    } else if name == "Riscv64Sv48"@ {
        Some(MemoryMode::Riscv64Sv48)
    } else if name == "Riscv64Sv57"@ {
        Some(MemoryMode::Riscv64Sv57)
    } else {
        None
    }
}

impl LogLevel {
    /// The level written as `name` in a document, if it is one.
    pub fn from_name(name: &str) -> (r: Option<LogLevel>)
        ensures
            r == level_named(name@),
    {
        if same_text(name, "Error") {
            Some(LogLevel::Error)
        } else if same_text(name, "Warn") {
            Some(LogLevel::Warn)
        } else if same_text(name, "Info") {
            Some(LogLevel::Info)
        } else if same_text(name, "Debug") {
            Some(LogLevel::Debug)
        } else if same_text(name, "Trace") {
            Some(LogLevel::Trace)
        } else {
            None
        }
    }
}

impl MemoryMode {
    /// The translation scheme written as `name` in a document, if it is one.
    pub fn from_name(name: &str) -> (r: Option<MemoryMode>)
        ensures
            r == mode_named(name@),
    {
        if same_text(name, "Riscv64Sv39") {
            Some(MemoryMode::Riscv64Sv39)
        } else if same_text(name, "Riscv64Sv48") {
            Some(MemoryMode::Riscv64Sv48)
        } else if same_text(name, "Riscv64Sv57") {
            Some(MemoryMode::Riscv64Sv57)
        } else {
            None
        }
    }
}

/// A field of the configuration document.
#[derive(Clone, Copy, Debug, PartialEq, Eq, Structural)]
pub enum ConfigField {
    StackSizePages,
    TrapStackSizePages,
    UartBaudRate,
    LogLevel,
    MemoryMode,
    LinkerScript,
}

/// Why a configuration document was refused.
#[derive(Clone, Copy, Debug, PartialEq, Eq, Structural)]
pub enum ConfigError {
    /// The field is absent.
    Missing(ConfigField),
    /// The field is present but its value is out of range.
    Invalid(ConfigField),
}

/// The fields of a configuration document as they were read, each of them
/// possibly absent.
#[derive(Clone, Debug)]
pub struct RawConfig {
    pub stack_size_pages: Option<usize>,
    pub trap_stack_size_pages: Option<usize>,
    pub uart_baud_rate: Option<u32>,
    pub log_level: Option<LogLevel>,
    pub memory_mode: Option<MemoryMode>,
    pub linker_script: Option<String>,
}

/// A validated configuration: every field present, counts and rate positive,
/// the linker script named.
#[derive(Clone, Debug)]
pub struct BuildConfiguration {
    pub stack_size_pages: usize,
    pub trap_stack_size_pages: usize,
    pub uart_baud_rate: u32,
    pub log_level: LogLevel,
    pub memory_mode: MemoryMode,
    pub linker_script: String,
}

impl BuildConfiguration {
    pub open spec fn wf(&self) -> bool {
        &&& self.stack_size_pages > 0
        &&& self.trap_stack_size_pages > 0
        &&& self.uart_baud_rate > 0
        &&& self.linker_script@.len() > 0
    }
}

/// What is wrong with field `f` of `raw`, if anything.
pub open spec fn field_problem(raw: RawConfig, f: ConfigField) -> Option<ConfigError> {
    match f {
        ConfigField::StackSizePages => match raw.stack_size_pages {
            None => Some(ConfigError::Missing(f)),
            Some(v) => if v == 0 { Some(ConfigError::Invalid(f)) } else { None },
        },
        ConfigField::TrapStackSizePages => match raw.trap_stack_size_pages {
            None => Some(ConfigError::Missing(f)),
            Some(v) => if v == 0 { Some(ConfigError::Invalid(f)) } else { None },
        },
        ConfigField::UartBaudRate => match raw.uart_baud_rate {
            None => Some(ConfigError::Missing(f)),
            Some(v) => if v == 0 { Some(ConfigError::Invalid(f)) } else { None },
        },
        ConfigField::LogLevel => match raw.log_level {
            None => Some(ConfigError::Missing(f)),
            Some(_) => None,
        },
        ConfigField::MemoryMode => match raw.memory_mode {
            None => Some(ConfigError::Missing(f)),
            Some(_) => None,
        },
        ConfigField::LinkerScript => match raw.linker_script {
            None => Some(ConfigError::Missing(f)),
            Some(s) => if s@.len() == 0 { Some(ConfigError::Invalid(f)) } else { None },
        },
    }
}

/// The first problem of `raw`, taking the fields in the order of the document.
pub open spec fn first_problem(raw: RawConfig) -> Option<ConfigError> {
    if field_problem(raw, ConfigField::StackSizePages) is Some {
        field_problem(raw, ConfigField::StackSizePages)
    } else if field_problem(raw, ConfigField::TrapStackSizePages) is Some {
        field_problem(raw, ConfigField::TrapStackSizePages)
    } else if field_problem(raw, ConfigField::UartBaudRate) is Some {
        field_problem(raw, ConfigField::UartBaudRate)
    } else if field_problem(raw, ConfigField::LogLevel) is Some {
        field_problem(raw, ConfigField::LogLevel)
    } else if field_problem(raw, ConfigField::MemoryMode) is Some {
        field_problem(raw, ConfigField::MemoryMode)
    } else {
        field_problem(raw, ConfigField::LinkerScript)
    }
}

impl RawConfig {
    /// Validates the document: it is accepted exactly when no field has a
    /// problem, and then every value is carried over unchanged; otherwise
    /// the first problem is reported and nothing else is produced.
    pub fn validate(&self) -> (r: Result<BuildConfiguration, ConfigError>)
        ensures
            r is Ok <==> first_problem(*self) is None,
            r is Ok <==> forall|f: ConfigField| field_problem(*self, f) is None,
            r matches Err(e) ==> first_problem(*self) == Some(e),
            r matches Ok(c) ==> {
                &&& c.wf()
                &&& self.stack_size_pages == Some(c.stack_size_pages)
                &&& self.trap_stack_size_pages == Some(c.trap_stack_size_pages)
                &&& self.uart_baud_rate == Some(c.uart_baud_rate)
                &&& self.log_level == Some(c.log_level)
                &&& self.memory_mode == Some(c.memory_mode)
                &&& self.linker_script matches Some(s) && s@ == c.linker_script@
            },
    {
        let stack_size_pages = match self.stack_size_pages {
            None => { return Err(ConfigError::Missing(ConfigField::StackSizePages)); },
            Some(v) => v,
        };
        if stack_size_pages == 0 {
            return Err(ConfigError::Invalid(ConfigField::StackSizePages));
        }
        let trap_stack_size_pages = match self.trap_stack_size_pages {
            None => { return Err(ConfigError::Missing(ConfigField::TrapStackSizePages)); },
            Some(v) => v,
        };
        if trap_stack_size_pages == 0 {
            return Err(ConfigError::Invalid(ConfigField::TrapStackSizePages));
        }
        let uart_baud_rate = match self.uart_baud_rate {
            None => { return Err(ConfigError::Missing(ConfigField::UartBaudRate)); },
            Some(v) => v,
        };
        if uart_baud_rate == 0 {
            return Err(ConfigError::Invalid(ConfigField::UartBaudRate));
        }
        let log_level = match self.log_level {
            None => { return Err(ConfigError::Missing(ConfigField::LogLevel)); },
            Some(v) => v,
        };
        let memory_mode = match self.memory_mode {
            None => { return Err(ConfigError::Missing(ConfigField::MemoryMode)); },
            Some(v) => v,
        };
        let linker_script = match &self.linker_script {
            None => { return Err(ConfigError::Missing(ConfigField::LinkerScript)); },
            Some(s) => s,
        };
        if linker_script.as_str().is_empty() {
            return Err(ConfigError::Invalid(ConfigField::LinkerScript));
        }
        let r = BuildConfiguration {
            stack_size_pages,
            trap_stack_size_pages,
            uart_baud_rate,
            log_level,
            memory_mode,
            linker_script: linker_script.clone(),
        };
        assert forall|f: ConfigField| field_problem(*self, f) is None by {
            match f {
                _ => {},
            }
        }
        Ok(r)
    }
}

/// The constants compiled into the kernel. The page size is no field: it
/// is derived from the translation scheme, so the two cannot disagree.
#[derive(Clone, Copy, Debug, PartialEq, Eq, Structural)]
pub struct GeneratedConstants {
    pub stack_size_pages: usize,
    pub trap_stack_size_pages: usize,
    pub uart_baud_rate: u32,
    pub log_level: LogLevel,
    pub memory_mode: MemoryMode,
}

impl GeneratedConstants {
    /// The page size of the configured translation scheme.
    pub fn page_size(&self) -> (r: usize)
        ensures
            r == page_size_spec(self.memory_mode),
    {
        page_size_of(self.memory_mode)
    }
}

/// The constants that a validated configuration compiles to.
pub open spec fn constants_of(c: BuildConfiguration) -> GeneratedConstants {
    GeneratedConstants {
        stack_size_pages: c.stack_size_pages,
        trap_stack_size_pages: c.trap_stack_size_pages,
        uart_baud_rate: c.uart_baud_rate,
        log_level: c.log_level,
        memory_mode: c.memory_mode,
    }
}

/// Everything a build takes from the configuration: the constants, the
/// linker script for the link step, and the file whose changes call for a
/// new build.
#[derive(Clone, Debug)]
pub struct BuildOutput {
    pub constants: GeneratedConstants,
    pub linker_script: String,
    pub rerun_if_changed: String,
}

impl BuildConfiguration {
    /// The constants this configuration compiles to.
    pub fn constants(&self) -> (r: GeneratedConstants)
        ensures
            r == constants_of(*self),
    {
        GeneratedConstants {
            stack_size_pages: self.stack_size_pages,
            trap_stack_size_pages: self.trap_stack_size_pages,
            uart_baud_rate: self.uart_baud_rate,
            log_level: self.log_level,
            memory_mode: self.memory_mode,
        }
    }
}

/// Compiles the document read from `config_path`: it fails, with the first
/// problem and no output at all, exactly when a field is missing or
/// invalid; otherwise it yields the document's values as constants, its
/// linker script, and `config_path` as the file to watch.
pub fn compile(raw: &RawConfig, config_path: &str) -> (r: Result<BuildOutput, ConfigError>)
    ensures
        r is Ok <==> first_problem(*raw) is None,
        r matches Err(e) ==> first_problem(*raw) == Some(e),
        r matches Ok(o) ==> {
            &&& raw.stack_size_pages == Some(o.constants.stack_size_pages)
            &&& raw.trap_stack_size_pages == Some(o.constants.trap_stack_size_pages)
            &&& raw.uart_baud_rate == Some(o.constants.uart_baud_rate)
            &&& raw.log_level == Some(o.constants.log_level)
            &&& raw.memory_mode == Some(o.constants.memory_mode)
            &&& raw.linker_script matches Some(s) && s@ == o.linker_script@
            &&& o.rerun_if_changed@ == config_path@
        },
{
    match raw.validate() {
        Err(e) => Err(e),
        Ok(cfg) => {
            let constants = cfg.constants();
            Ok(BuildOutput {
                constants,
                linker_script: cfg.linker_script,
                rerun_if_changed: config_path.to_owned(),
            })
        },
    }
}

/// Compiling is a function of the configuration: two configurations with
/// the same values give the same constants, so an unchanged configuration
/// compiles to identical constants every time.
pub proof fn lemma_compile_idempotent(a: BuildConfiguration, b: BuildConfiguration)
    requires
        a.stack_size_pages == b.stack_size_pages,
        a.trap_stack_size_pages == b.trap_stack_size_pages,
        a.uart_baud_rate == b.uart_baud_rate,
        a.log_level == b.log_level,
        a.memory_mode == b.memory_mode,
    ensures
        constants_of(a) == constants_of(b),
{
}

/// The log level passes through unchanged: the constant equals the
/// configured level and no other, and the name `Debug` in a document is
/// read as the level `Debug`.
pub proof fn lemma_log_level_round_trip(c: BuildConfiguration, level: LogLevel)
    ensures
        constants_of(c).log_level == level <==> c.log_level == level,
        level_named("Debug"@) == Some(LogLevel::Debug),
{
    reveal_strlit("Error");
    reveal_strlit("Warn");
    reveal_strlit("Info");
    reveal_strlit("Debug");
    assert("Debug"@ != "Error"@) by {
        assert("Debug"@[0] != "Error"@[0]);
    }
    assert("Debug"@ != "Warn"@) by {
        assert("Debug"@.len() != "Warn"@.len());
    }
    assert("Debug"@ != "Info"@) by {
        assert("Debug"@.len() != "Info"@.len());
    }
}

/// Path of the log crate's level that the generated constant names.
pub fn log_level_path(level: LogLevel) -> (r: &'static str)
    ensures
        r@ == log_level_path_spec(level),
{
    match level {
        LogLevel::Error => "::log::Level::Error",
        LogLevel::Warn => "::log::Level::Warn",
        LogLevel::Info => "::log::Level::Info",
        LogLevel::Debug => "::log::Level::Debug",
        LogLevel::Trace => "::log::Level::Trace",
    }
}

pub open spec fn log_level_path_spec(level: LogLevel) -> Seq<char> {
    match level {
        LogLevel::Error => "::log::Level::Error"@,
        LogLevel::Warn => "::log::Level::Warn"@,
        LogLevel::Info => "::log::Level::Info"@,
        LogLevel::Debug => "::log::Level::Debug"@,
        LogLevel::Trace => "::log::Level::Trace"@,
    }
}

/// Path of the translation-scheme type that the generated constants select.
pub fn memory_mode_path(mode: MemoryMode) -> (r: &'static str)
    ensures
        r@ == memory_mode_path_spec(mode),
{
    match mode {
        MemoryMode::Riscv64Sv39 => "::vmm::Riscv64Sv39",
        MemoryMode::Riscv64Sv48 => "::vmm::Riscv64Sv48",
        MemoryMode::Riscv64Sv57 => "::vmm::Riscv64Sv57",
    }
}

pub open spec fn memory_mode_path_spec(mode: MemoryMode) -> Seq<char> {
    match mode {
        MemoryMode::Riscv64Sv39 => "::vmm::Riscv64Sv39"@,
        MemoryMode::Riscv64Sv48 => "::vmm::Riscv64Sv48"@,
        MemoryMode::Riscv64Sv57 => "::vmm::Riscv64Sv57"@,
    }
}

} // verus!
