use host_boundary::registry::{
    register_exported_functions, OperationDecl, Registry, Subsystem,
};

fn decl(name: &str, handler: u64) -> OperationDecl {
    OperationDecl {
        name: name.to_string(),
        handler,
    }
}

#[test]
fn registers_all_in_fixed_order() {
    let mut registry = Registry::new();
    let r = register_exported_functions(
        &mut registry,
        vec![decl("infer", 1)],
        vec![decl("enqueue", 2), decl("poll", 3)],
        vec![decl("get_doc", 4)],
        vec![decl("cache_get", 5)],
    );
    assert!(r.is_ok());
    let names: Vec<&str> = registry.ops.iter().map(|o| o.name.as_str()).collect();
    assert_eq!(names, vec!["infer", "enqueue", "poll", "get_doc", "cache_get"]);
    assert_eq!(registry.ops[0].subsystem, Subsystem::Ai);
    assert_eq!(registry.ops[1].subsystem, Subsystem::Worker);
    assert_eq!(registry.ops[2].subsystem, Subsystem::Worker);
    assert_eq!(registry.ops[3].subsystem, Subsystem::Store);
    assert_eq!(registry.ops[4].subsystem, Subsystem::Kv);
    assert_eq!(registry.ops[1].handler, 2);
}

#[test]
fn duplicate_name_across_subsystems_is_fatal() {
    let mut registry = Registry::new();
    let r = register_exported_functions(
        &mut registry,
        vec![decl("run", 1)],
        vec![decl("run", 2)],
        vec![decl("get_doc", 3)],
        vec![decl("cache_get", 4)],
    );
    let e = r.unwrap_err();
    assert_eq!(e.name, "run");
    assert_eq!(e.subsystem, Subsystem::Worker);
    // The first registrant keeps the name; nothing after the failure was
    // installed, nothing before it was rolled back.
    assert_eq!(registry.ops.len(), 1);
    assert_eq!(registry.ops[0].name, "run");
    assert_eq!(registry.ops[0].subsystem, Subsystem::Ai);
    assert_eq!(registry.ops[0].handler, 1);
}

#[test]
fn duplicate_name_within_one_subsystem_is_fatal() {
    let mut registry = Registry::new();
    let r = register_exported_functions(
        &mut registry,
        vec![],
        vec![decl("run", 1), decl("run", 2)],
        vec![],
        vec![],
    );
    let e = r.unwrap_err();
    assert_eq!(e.name, "run");
    assert_eq!(e.subsystem, Subsystem::Worker);
    assert_eq!(registry.ops.len(), 1);
    assert_eq!(registry.ops[0].handler, 1);
}

#[test]
fn collision_keeps_first_registrant() {
    let mut registry = Registry::new();
    registry
        .register(Subsystem::Store, decl("lookup", 7))
        .unwrap();
    let e = registry
        .register(Subsystem::Kv, decl("lookup", 8))
        .unwrap_err();
    assert_eq!(e.name, "lookup");
    assert_eq!(e.subsystem, Subsystem::Kv);
    assert_eq!(registry.ops.len(), 1);
    assert_eq!(registry.ops[0].subsystem, Subsystem::Store);
    assert_eq!(registry.ops[0].handler, 7);
}

#[test]
fn registration_error_message() {
    let mut registry = Registry::new();
    registry.register(Subsystem::Ai, decl("run", 1)).unwrap();
    let e = registry.register(Subsystem::Worker, decl("run", 2)).unwrap_err();
    assert_eq!(e.message(), "duplicate operation name: run".to_string());
}

#[test]
fn empty_declarations_register_nothing() {
    let mut registry = Registry::new();
    let r = register_exported_functions(&mut registry, vec![], vec![], vec![], vec![]);
    assert!(r.is_ok());
    assert!(registry.ops.is_empty());
}

#[test]
fn contains_name_reflects_contents() {
    let mut registry = Registry::new();
    registry.register(Subsystem::Ai, decl("infer", 1)).unwrap();
    assert!(registry.contains_name(&"infer".to_string()));
    assert!(!registry.contains_name(&"poll".to_string()));
}
