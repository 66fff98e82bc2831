use plugin_host::MemPlugin;
use plugin_host::MemSpec;
use plugin_host::ParsedArgs;
use plugin_host::Plugin;
use plugin_host::Schema;
use plugin_host::register_plugin;

#[test]
fn get_returns_the_first_match() {
    let mut args = ParsedArgs::new();
    args.push("key".to_string(), "one".to_string());
    args.push("key".to_string(), "two".to_string());
    args.push("other".to_string(), "three".to_string());
    assert_eq!(args.len(), 3);
    assert_eq!(args.get(&"key".to_string()), Some("one".to_string()));
    assert_eq!(args.get(&"other".to_string()), Some("three".to_string()));
    assert_eq!(args.get(&"missing".to_string()), None);
}

#[test]
fn empty_args_have_no_values() {
    let args = ParsedArgs::new();
    assert_eq!(args.len(), 0);
    assert_eq!(args.get(&"anything".to_string()), None);
}

#[test]
fn register_plugin_extends_the_schema_and_returns_the_plugin() {
    // The module-side helper: augments the incoming schema with the
    // module's options and hands back the schema together with the plugin.
    let mut schema = Schema::new();
    schema.augment(&vec!["existing".to_string()]);
    let plugin = MemPlugin::new(
        "alpha".to_string(),
        "alpha-opt".to_string(),
        vec![MemSpec { device: "dev-a".to_string(), workload: 2 }],
    );
    let options = vec!["alpha-opt".to_string(), "existing".to_string()];
    let (extended, plugin) = register_plugin(plugin, &options, schema);
    assert_eq!(
        *extended.names(),
        vec!["existing".to_string(), "alpha-opt".to_string()]
    );
    assert_eq!(plugin.name(), "alpha");
    let specs = plugin.get_worker_specs();
    assert_eq!(specs.len(), 1);
    assert_eq!(specs[0].device, "dev-a");
    assert_eq!(specs[0].workload, 2);
}

#[test]
fn plugin_rejects_args_without_its_option() {
    let mut plugin = MemPlugin::new(
        "alpha".to_string(),
        "alpha-opt".to_string(),
        Vec::new(),
    );
    let mut args = ParsedArgs::new();
    args.push("unrelated".to_string(), "x".to_string());
    assert!(plugin.process_option(&args).is_err());
    assert!(!plugin.is_applied());
    assert_eq!(plugin.value().clone(), None);

    let mut args = ParsedArgs::new();
    args.push("alpha-opt".to_string(), "42".to_string());
    assert!(plugin.process_option(&args).is_ok());
    assert!(plugin.is_applied());
    assert_eq!(plugin.value().clone(), Some("42".to_string()));
}
