use plugin_host::Schema;

fn strings(items: &[&str]) -> Vec<String> {
    items.iter().map(|s| s.to_string()).collect()
}

#[test]
fn schema_starts_empty() {
    let schema = Schema::new();
    assert_eq!(schema.len(), 0);
    assert!(schema.names().is_empty());
}

#[test]
fn first_registered_option_name_wins() {
    let mut schema = Schema::new();
    let rejected = schema.augment(&strings(&["workload", "device"]));
    assert!(rejected.is_empty());
    let rejected = schema.augment(&strings(&["device", "threads"]));
    assert_eq!(rejected, strings(&["device"]));
    assert_eq!(*schema.names(), strings(&["workload", "device", "threads"]));
    assert!(schema.contains_name(&"device".to_string()));
    assert!(!schema.contains_name(&"missing".to_string()));
}

#[test]
fn duplicate_within_one_module_is_surfaced() {
    let mut schema = Schema::new();
    let rejected = schema.augment(&strings(&["alpha", "alpha"]));
    assert_eq!(rejected, strings(&["alpha"]));
    assert_eq!(*schema.names(), strings(&["alpha"]));
}

#[test]
fn merge_order_changes_only_tie_breaks() {
    // The same two option lists, registered in either order, must produce
    // schemas over exactly the same names: nothing non-conflicting is
    // dropped, only the position of the shared name differs.
    let first = strings(&["alpha", "shared"]);
    let second = strings(&["beta", "shared"]);

    let mut one = Schema::new();
    one.augment(&first);
    one.augment(&second);

    let mut two = Schema::new();
    two.augment(&second);
    two.augment(&first);

    assert_eq!(*one.names(), strings(&["alpha", "shared", "beta"]));
    assert_eq!(*two.names(), strings(&["beta", "shared", "alpha"]));

    let mut names_one = one.names().clone();
    let mut names_two = two.names().clone();
    names_one.sort();
    names_two.sort();
    assert_eq!(names_one, names_two);
}
