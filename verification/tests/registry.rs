use bees::resources::dyn_resource::DynResource;
use bees::resources::resource::Resource;
use bees::resources::resource::ResourceOutput;
use bees::resources::resource_handler::ResourceManager;

#[test]
fn duplicate_ident_keeps_first_entry() {
    let mut rm = ResourceManager::new();
    let first = rm.add_dyn_resource(DynResource {
        ident: "dup".to_string(),
        value: "first".to_string(),
    });
    let second = rm.add_dyn_resource(DynResource {
        ident: "dup".to_string(),
        value: "second".to_string(),
    });
    assert!(first);
    assert!(!second);
    assert_eq!(rm.len(), 1);
    let got = rm.get("dup").unwrap();
    assert_eq!(got.value, "first");
}

#[test]
fn distinct_idents_all_visible() {
    let mut rm = ResourceManager::new();
    let names = ["a", "b", "c", "d", "e"];
    for (i, name) in names.iter().enumerate() {
        let fresh = rm.add_dyn_resource(DynResource {
            ident: name.to_string(),
            value: format!("v{}", i),
        });
        assert!(fresh);
    }
    assert_eq!(rm.len(), names.len());
    for (i, name) in names.iter().enumerate() {
        let got = rm.get(name).unwrap();
        assert_eq!(got.ident, *name);
        assert_eq!(got.value, format!("v{}", i));
    }
    assert!(rm.get("f").is_none());
    assert!(rm.contains("a"));
    assert!(!rm.contains("f"));
}

struct Fixed;

impl Resource for Fixed {
    fn ident(&self) -> &str {
        "fixed"
    }

    fn data(&self) -> ResourceOutput {
        ResourceOutput::new("99".to_string())
    }
}

#[test]
fn add_resource_erases_through_the_trait() {
    let mut rm = ResourceManager::new();
    assert!(rm.add_resource(Fixed));
    let got = rm.get("fixed").unwrap();
    assert_eq!(got.value, "99");
}

#[test]
fn dyn_resource_equality_is_by_ident_only() {
    let a = DynResource { ident: "same".to_string(), value: "1".to_string() };
    let b = DynResource { ident: "same".to_string(), value: "2".to_string() };
    let c = DynResource { ident: "other".to_string(), value: "1".to_string() };
    assert!(a == b);
    assert!(a != c);
}

#[test]
fn from_res_carries_ident_and_value() {
    let d = DynResource::from_res(Fixed);
    assert_eq!(d.ident, "fixed");
    assert_eq!(d.value, "99");
}
