use core_host::error::HostError;
use core_host::logging::{
    log_file_name, logger_injection, plan_injection, LogConfig, Severity,
};
use core_host::paths::{choose_module_path, find_anchor};
use core_host::symbols::{Core, ExportReport, Operation};

fn full_report() -> ExportReport {
    ExportReport {
        create: true,
        update: true,
        destroy: true,
        setup_logger: true,
        show_args: true,
        load_url: true,
    }
}

#[test]
fn anchor_three_levels_up() {
    assert_eq!(find_anchor(&vec![false, false, false, true]), Ok(3));
}

#[test]
fn anchor_missing_everywhere() {
    assert_eq!(
        find_anchor(&vec![false, false, false, false]),
        Err(HostError::PathResolution)
    );
}

#[test]
fn anchor_without_ancestors() {
    assert_eq!(find_anchor(&Vec::new()), Err(HostError::PathResolution));
}

#[test]
fn anchor_is_the_nearest_one() {
    assert_eq!(find_anchor(&vec![true]), Ok(0));
    assert_eq!(find_anchor(&vec![false, true, false, true]), Ok(1));
    assert_eq!(find_anchor(&vec![false, false, true, true, true]), Ok(2));
}

#[test]
fn exported_names() {
    assert_eq!(Operation::Create.exported_name(), "core_create");
    assert_eq!(Operation::Update.exported_name(), "core_update");
    assert_eq!(Operation::Destroy.exported_name(), "core_destroy");
    assert_eq!(Operation::SetupLogger.exported_name(), "core_setup_logger");
    assert_eq!(Operation::ShowArgs.exported_name(), "core_show_args");
    assert_eq!(Operation::LoadUrl.exported_name(), "core_load_url");
}

#[test]
fn required_and_optional_operations() {
    assert!(Operation::Create.is_required());
    assert!(Operation::Update.is_required());
    assert!(Operation::Destroy.is_required());
    assert!(!Operation::SetupLogger.is_required());
    assert!(!Operation::ShowArgs.is_required());
    assert!(!Operation::LoadUrl.is_required());
}

#[test]
fn report_lookup() {
    let mut report = full_report();
    report.load_url = false;
    assert!(report.found(Operation::Create));
    assert!(report.found(Operation::ShowArgs));
    assert!(!report.found(Operation::LoadUrl));
}

#[test]
fn full_module_binds_everything() {
    let core = Core::new(&full_report()).unwrap();
    assert!(core.can_setup_logger && core.can_show_args && core.can_load_url);
    assert!(core.can(Operation::Create));
    assert!(core.can(Operation::Update));
    assert!(core.can(Operation::Destroy));
    assert!(core.can(Operation::LoadUrl));
}

#[test]
fn missing_create_is_named() {
    let mut report = full_report();
    report.create = false;
    assert_eq!(
        Core::new(&report),
        Err(HostError::MissingRequiredSymbol { name: Operation::Create })
    );
}

#[test]
fn missing_update_is_named() {
    let mut report = full_report();
    report.update = false;
    assert_eq!(
        Core::new(&report),
        Err(HostError::MissingRequiredSymbol { name: Operation::Update })
    );
}

#[test]
fn missing_destroy_is_named() {
    let mut report = full_report();
    report.destroy = false;
    assert_eq!(
        Core::new(&report),
        Err(HostError::MissingRequiredSymbol { name: Operation::Destroy })
    );
}

#[test]
fn several_missing_names_the_first_in_binding_order() {
    let mut report = full_report();
    report.update = false;
    report.destroy = false;
    assert_eq!(
        Core::new(&report),
        Err(HostError::MissingRequiredSymbol { name: Operation::Destroy })
    );
    report.create = false;
    assert_eq!(
        Core::new(&report),
        Err(HostError::MissingRequiredSymbol { name: Operation::Create })
    );
}

#[test]
fn missing_optional_exports_clear_their_flags() {
    let report = ExportReport {
        create: true,
        update: true,
        destroy: true,
        setup_logger: false,
        show_args: false,
        load_url: false,
    };
    let core = Core::new(&report).unwrap();
    assert_eq!(
        core,
        Core { can_setup_logger: false, can_show_args: false, can_load_url: false }
    );
    assert!(!core.can(Operation::SetupLogger));
    assert!(!core.can(Operation::ShowArgs));
    assert!(!core.can(Operation::LoadUrl));
    assert!(core.can(Operation::Update));
}

#[test]
fn module_without_logger_entry_point() {
    let mut report = full_report();
    report.setup_logger = false;
    let core = Core::new(&report).unwrap();
    assert!(!core.can_setup_logger);
    assert_eq!(logger_injection(&core), None);
    assert_eq!(plan_injection(&core, Severity::Trace), None);
}

#[test]
fn named_module_file_is_taken() {
    let name = Some(String::from("./libcore.so"));
    assert_eq!(Core::load_core(&name), "./libcore.so");
    assert_eq!(choose_module_path(&name, "libother.so"), "./libcore.so");
}

#[test]
fn default_module_file_follows_the_platform() {
    let path = Core::load_core(&None);
    let file = libloading::library_filename("rv_core");
    let expected = format!("../retrovert-core/target/debug/{}", file.to_str().unwrap());
    assert_eq!(path, expected);
    assert_ne!(path, "../retrovert-core/target/debug/rv_core");
    assert_ne!(path, "rv_core");
    assert!(path.contains("rv_core"));
}

#[test]
fn default_module_file_from_a_given_name() {
    assert_eq!(
        choose_module_path(&None, "librv_core.dylib"),
        "../retrovert-core/target/debug/librv_core.dylib"
    );
    assert_eq!(
        choose_module_path(&None, "librv_core.so"),
        "../retrovert-core/target/debug/librv_core.so"
    );
}

#[test]
fn standard_log_configuration() {
    let config = Core::init_logging();
    assert_eq!(config, LogConfig { console: Severity::Info, file: Severity::Trace });
    assert!(config.is_well_formed());
    assert_eq!(config.active_threshold(), Severity::Trace);
    assert_eq!(log_file_name(), "retrovert.log");
}

#[test]
fn severity_levels() {
    assert_eq!(Severity::Off.level(), 0);
    assert_eq!(Severity::Error.level(), 1);
    assert_eq!(Severity::Warn.level(), 2);
    assert_eq!(Severity::Info.level(), 3);
    assert_eq!(Severity::Debug.level(), 4);
    assert_eq!(Severity::Trace.level(), 5);
}

#[test]
fn thresholds_admit_what_is_at_least_as_severe() {
    assert!(Severity::Info.records(Severity::Error));
    assert!(Severity::Info.records(Severity::Info));
    assert!(!Severity::Info.records(Severity::Debug));
    assert!(!Severity::Off.records(Severity::Error));
    assert!(!Severity::Trace.records(Severity::Off));
    assert!(Severity::Trace.records(Severity::Trace));
}

#[test]
fn active_threshold_is_the_more_verbose_output() {
    let odd = LogConfig { console: Severity::Debug, file: Severity::Warn };
    assert!(!odd.is_well_formed());
    assert_eq!(odd.active_threshold(), Severity::Debug);
    let even = LogConfig { console: Severity::Warn, file: Severity::Warn };
    assert!(even.is_well_formed());
    assert_eq!(even.active_threshold(), Severity::Warn);
}

#[test]
fn injection_hands_over_the_given_threshold() {
    let core = Core::new(&full_report()).unwrap();
    assert_eq!(plan_injection(&core, Severity::Info), Some(Severity::Info));
    assert_eq!(plan_injection(&core, Severity::Off), Some(Severity::Off));
}

#[test]
fn injection_reads_the_active_threshold() {
    let core = Core::new(&full_report()).unwrap();
    log::set_max_level(log::LevelFilter::Debug);
    assert_eq!(logger_injection(&core), Some(Severity::Debug));
    log::set_max_level(log::LevelFilter::Warn);
    assert_eq!(logger_injection(&core), Some(Severity::Warn));
    log::set_max_level(log::LevelFilter::Trace);
    assert_eq!(logger_injection(&core), Some(Severity::Trace));
}

#[test]
fn error_messages() {
    assert_eq!(
        HostError::MissingRequiredSymbol { name: Operation::Create }.message(),
        "Unable to find \"core_create\" function"
    );
    assert_eq!(
        HostError::MissingRequiredSymbol { name: Operation::Destroy }.message(),
        "Unable to find \"core_destroy\" function"
    );
    assert_eq!(
        HostError::MissingRequiredSymbol { name: Operation::Update }.message(),
        "Unable to find \"core_update\" function"
    );
    assert_eq!(HostError::ModuleLoad.message(), "Unable to load the core module");
    assert_eq!(HostError::LoggingInit.message(), "Unable to set up the log output");
    assert_eq!(HostError::CoreCreateFailed.message(), "The core module returned no state");
    assert_eq!(
        HostError::PathResolution.message(),
        "Unable to find the data directory above the executable"
    );
}
