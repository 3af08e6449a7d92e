use riscv::config::{
    compile, log_level_path, memory_mode_path, page_size_of, ConfigError, ConfigField, LogLevel,
    MemoryMode, RawConfig, PAGE_SIZE,
};

fn scenario_document() -> RawConfig {
    RawConfig {
        stack_size_pages: Some(16),
        trap_stack_size_pages: Some(4),
        uart_baud_rate: Some(115200),
        log_level: Some(LogLevel::Info),
        memory_mode: Some(MemoryMode::Riscv64Sv39),
        linker_script: Some("link.ld".to_string()),
    }
}

#[test]
fn page_size_is_the_same_in_every_mode() {
    assert_eq!(page_size_of(MemoryMode::Riscv64Sv39), 4096);
    assert_eq!(page_size_of(MemoryMode::Riscv64Sv48), 4096);
    assert_eq!(page_size_of(MemoryMode::Riscv64Sv57), 4096);
    assert_eq!(PAGE_SIZE, 4096);
}

#[test]
fn compiles_scenario_configuration() {
    let out = compile(&scenario_document(), "kernel.toml").unwrap();
    assert_eq!(out.constants.stack_size_pages, 16);
    assert_eq!(out.constants.trap_stack_size_pages, 4);
    assert_eq!(out.constants.uart_baud_rate, 115200);
    assert_eq!(out.constants.log_level, LogLevel::Info);
    assert_eq!(out.constants.memory_mode, MemoryMode::Riscv64Sv39);
    assert_eq!(out.constants.page_size(), 4096);
    assert_eq!(out.linker_script, "link.ld");
    assert_eq!(out.rerun_if_changed, "kernel.toml");
}

#[test]
fn compiling_twice_gives_the_same_constants() {
    let a = compile(&scenario_document(), "kernel.toml").unwrap();
    let b = compile(&scenario_document(), "kernel.toml").unwrap();
    assert_eq!(a.constants, b.constants);
    assert_eq!(a.linker_script, b.linker_script);
}

#[test]
fn debug_level_round_trips() {
    let mut doc = scenario_document();
    doc.log_level = Some(LogLevel::Debug);
    let out = compile(&doc, "kernel.toml").unwrap();
    assert_eq!(out.constants.log_level, LogLevel::Debug);
    for other in [LogLevel::Error, LogLevel::Warn, LogLevel::Info, LogLevel::Trace] {
        assert_ne!(out.constants.log_level, other);
    }
    assert_eq!(log_level_path(out.constants.log_level), "::log::Level::Debug");
}

#[test]
fn missing_baud_rate_fails_the_build() {
    let mut doc = scenario_document();
    doc.uart_baud_rate = None;
    assert_eq!(
        compile(&doc, "kernel.toml").unwrap_err(),
        ConfigError::Missing(ConfigField::UartBaudRate)
    );
}

#[test]
fn zero_values_are_invalid() {
    let mut doc = scenario_document();
    doc.stack_size_pages = Some(0);
    assert_eq!(
        compile(&doc, "k").unwrap_err(),
        ConfigError::Invalid(ConfigField::StackSizePages)
    );
    let mut doc = scenario_document();
    doc.trap_stack_size_pages = Some(0);
    assert_eq!(
        compile(&doc, "k").unwrap_err(),
        ConfigError::Invalid(ConfigField::TrapStackSizePages)
    );
    let mut doc = scenario_document();
    doc.uart_baud_rate = Some(0);
    assert_eq!(
        compile(&doc, "k").unwrap_err(),
        ConfigError::Invalid(ConfigField::UartBaudRate)
    );
    let mut doc = scenario_document();
    doc.linker_script = Some(String::new());
    assert_eq!(
        compile(&doc, "k").unwrap_err(),
        ConfigError::Invalid(ConfigField::LinkerScript)
    );
}

#[test]
fn each_missing_field_is_reported() {
    let mut doc = scenario_document();
    doc.stack_size_pages = None;
    assert_eq!(compile(&doc, "k").unwrap_err(), ConfigError::Missing(ConfigField::StackSizePages));
    let mut doc = scenario_document();
    doc.trap_stack_size_pages = None;
    assert_eq!(
        compile(&doc, "k").unwrap_err(),
        ConfigError::Missing(ConfigField::TrapStackSizePages)
    );
    let mut doc = scenario_document();
    doc.log_level = None;
    assert_eq!(compile(&doc, "k").unwrap_err(), ConfigError::Missing(ConfigField::LogLevel));
    let mut doc = scenario_document();
    doc.memory_mode = None;
    assert_eq!(compile(&doc, "k").unwrap_err(), ConfigError::Missing(ConfigField::MemoryMode));
    let mut doc = scenario_document();
    doc.linker_script = None;
    assert_eq!(compile(&doc, "k").unwrap_err(), ConfigError::Missing(ConfigField::LinkerScript));
}

#[test]
fn first_problem_in_field_order_is_reported() {
    let mut doc = scenario_document();
    doc.uart_baud_rate = None;
    doc.stack_size_pages = Some(0);
    assert_eq!(compile(&doc, "k").unwrap_err(), ConfigError::Invalid(ConfigField::StackSizePages));
}

#[test]
fn memory_mode_paths() {
    assert_eq!(memory_mode_path(MemoryMode::Riscv64Sv39), "::vmm::Riscv64Sv39");
    assert_eq!(memory_mode_path(MemoryMode::Riscv64Sv48), "::vmm::Riscv64Sv48");
    assert_eq!(memory_mode_path(MemoryMode::Riscv64Sv57), "::vmm::Riscv64Sv57");
}

#[test]
fn level_names() {
    assert_eq!(LogLevel::from_name("Error"), Some(LogLevel::Error));
    assert_eq!(LogLevel::from_name("Warn"), Some(LogLevel::Warn));
    assert_eq!(LogLevel::from_name("Info"), Some(LogLevel::Info));
    assert_eq!(LogLevel::from_name("Debug"), Some(LogLevel::Debug));
    assert_eq!(LogLevel::from_name("Trace"), Some(LogLevel::Trace));
    assert_eq!(LogLevel::from_name("debug"), None);
    assert_eq!(LogLevel::from_name("Debugs"), None);
    assert_eq!(LogLevel::from_name(""), None);
}

#[test]
fn memory_mode_names() {
    assert_eq!(MemoryMode::from_name("Riscv64Sv39"), Some(MemoryMode::Riscv64Sv39));
    assert_eq!(MemoryMode::from_name("Riscv64Sv48"), Some(MemoryMode::Riscv64Sv48));
    assert_eq!(MemoryMode::from_name("Riscv64Sv57"), Some(MemoryMode::Riscv64Sv57));
    assert_eq!(MemoryMode::from_name("Sv39"), None);
}

#[test]
fn declared_debug_name_compiles_to_debug() {
    let mut doc = scenario_document();
    doc.log_level = LogLevel::from_name("Debug");
    let out = compile(&doc, "kernel.toml").unwrap();
    assert_eq!(out.constants.log_level, LogLevel::Debug);
}
