use plugin_host::HostError;
use plugin_host::MemModule;
use plugin_host::MemSpec;
use plugin_host::ParsedArgs;
use plugin_host::Plugin;
use plugin_host::Schema;
use plugin_host::load_plugins;

fn strings(items: &[&str]) -> Vec<String> {
    items.iter().map(|s| s.to_string()).collect()
}

fn specs(devices: &[(&str, usize)]) -> Vec<MemSpec> {
    devices
        .iter()
        .map(|(device, workload)| MemSpec { device: device.to_string(), workload: *workload })
        .collect()
}

fn module(
    plugin_name: &str,
    option_name: &str,
    devices: &[(&str, usize)],
    options: &[&str],
) -> MemModule {
    MemModule::new(
        plugin_name.to_string(),
        option_name.to_string(),
        specs(devices),
        strings(options),
        true,
        true,
    )
}

#[test]
fn build_returns_exactly_the_last_plugins_specs() {
    // Narrow by design: after loading [A, B] the manager exposes B's specs,
    // never A's and never a union.
    let first = module("alpha", "alpha-opt", &[("dev-a", 10)], &["alpha-opt"]);
    let second = module(
        "beta",
        "beta-opt",
        &[("dev-b1", 4), ("dev-b2", 8)],
        &["beta-opt"],
    );
    let (_schema, manager) = load_plugins(Schema::new(), vec![first, second]).ok().unwrap();
    let built = manager.build().unwrap();
    assert_eq!(built.len(), 2);
    assert_eq!(built[0].device, "dev-b1");
    assert_eq!(built[0].workload, 4);
    assert_eq!(built[1].device, "dev-b2");
    assert_eq!(built[1].workload, 8);
}

#[test]
fn missing_entry_point_fails_without_mutating_schema() {
    let good = module("alpha", "alpha-opt", &[("dev-a", 2)], &["alpha-opt"]);
    let broken = MemModule::new(
        "beta".to_string(),
        "beta-opt".to_string(),
        specs(&[("dev-b", 2)]),
        strings(&["beta-opt", "gamma"]),
        true,
        false,
    );
    let later = module("delta", "delta-opt", &[("dev-d", 2)], &["delta-opt"]);

    let failure = load_plugins(Schema::new(), vec![good, broken, later]).err().unwrap();
    assert_eq!(failure.error, HostError::MissingEntryPoint);
    // The schema is exactly as it stood before the failed load: the broken
    // module's options never went in, and the later module never loaded.
    assert_eq!(*failure.schema.names(), strings(&["alpha-opt"]));
    // Fail-fast with no rollback: the module loaded before the failure
    // stays loaded in the returned manager.
    assert_eq!(failure.manager.plugin_count(), 1);
    assert_eq!(failure.manager.plugins()[0].name(), "alpha");
}

#[test]
fn unopenable_module_aborts_the_sequence() {
    let unopenable = MemModule::new(
        "alpha".to_string(),
        "alpha-opt".to_string(),
        specs(&[("dev-a", 2)]),
        strings(&["alpha-opt"]),
        false,
        true,
    );
    let failure = load_plugins(Schema::new(), vec![unopenable]).err().unwrap();
    assert_eq!(failure.error, HostError::CannotOpenModule);
    assert_eq!(failure.manager.plugin_count(), 0);
    assert_eq!(failure.schema.len(), 0);
}

#[test]
fn loading_accumulates_schema_in_order() {
    let first = module("alpha", "alpha-opt", &[("dev-a", 1)], &["alpha-opt", "shared"]);
    let second = module("beta", "beta-opt", &[("dev-b", 1)], &["beta-opt", "shared"]);
    let (schema, manager) = load_plugins(Schema::new(), vec![first, second]).ok().unwrap();
    assert_eq!(*schema.names(), strings(&["alpha-opt", "shared", "beta-opt"]));
    assert_eq!(manager.plugin_count(), 2);
    assert_eq!(manager.plugins()[0].name(), "alpha");
    assert_eq!(manager.plugins()[1].name(), "beta");
}

#[test]
fn dispatch_failure_is_fatal_and_names_the_plugin() {
    // Plugin 2 of 3 rejects: plugin 1's options are applied, plugin 3's are
    // not, and the single fatal error names plugin 2.
    let first = module("first", "first-opt", &[("dev-1", 1)], &["first-opt"]);
    let second = module("second", "second-opt", &[("dev-2", 1)], &["second-opt"]);
    let third = module("third", "third-opt", &[("dev-3", 1)], &["third-opt"]);
    let (_schema, mut manager) =
        load_plugins(Schema::new(), vec![first, second, third]).ok().unwrap();

    let mut args = ParsedArgs::new();
    args.push("first-opt".to_string(), "1".to_string());
    args.push("third-opt".to_string(), "3".to_string());

    let err = manager.process_options(&args).err().unwrap();
    assert_eq!(err, HostError::OptionProcessingFailed("second".to_string()));
    assert!(manager.plugins()[0].is_applied());
    assert!(!manager.plugins()[1].is_applied());
    assert!(!manager.plugins()[2].is_applied());
}

#[test]
fn dispatch_applies_every_plugin_in_order() {
    let first = module("first", "first-opt", &[("dev-1", 1)], &["first-opt"]);
    let second = module("second", "second-opt", &[("dev-2", 1)], &["second-opt"]);
    let (_schema, mut manager) = load_plugins(Schema::new(), vec![first, second]).ok().unwrap();

    let mut args = ParsedArgs::new();
    args.push("first-opt".to_string(), "one".to_string());
    args.push("second-opt".to_string(), "two".to_string());

    assert!(manager.process_options(&args).is_ok());
    assert!(manager.plugins()[0].is_applied());
    assert!(manager.plugins()[1].is_applied());
    assert_eq!(manager.plugins()[0].value().clone(), Some("one".to_string()));
    assert_eq!(manager.plugins()[1].value().clone(), Some("two".to_string()));
}

#[test]
fn empty_load_list_yields_empty_manager() {
    let (schema, manager) = load_plugins(Schema::new(), Vec::<MemModule>::new()).ok().unwrap();
    assert_eq!(schema.len(), 0);
    assert_eq!(manager.plugin_count(), 0);
}
