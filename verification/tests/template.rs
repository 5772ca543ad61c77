use bees::resources::dyn_resource::DynResource;
use bees::resources::resource_handler::ResourceManager;
use bees::utils::error::Error;
use bees::utils::error::FormatStringError;
use bees::utils::format_string::FormatString;
use bees::utils::format_string::FormattableStringPart;

fn empty_registry() -> ResourceManager {
    ResourceManager::new()
}

#[test]
fn literal_round_trip() {
    let rm = empty_registry();
    let f = FormatString::new("hello world").unwrap();
    assert_eq!(f.to_formatted_now(&rm).unwrap(), "hello world");
}

#[test]
fn literal_round_trip_empty() {
    let rm = empty_registry();
    let f = FormatString::new("").unwrap();
    assert_eq!(f.to_formatted_now(&rm).unwrap(), "");
}

#[test]
fn escaping_resolves_without_placeholders() {
    let rm = empty_registry();
    let f = FormatString::new("a<<b>>c").unwrap();
    // Resolving against an empty registry succeeds, so no placeholder was
    // parsed; the escapes collapse to single characters.
    assert_eq!(f.to_formatted_now(&rm).unwrap(), "a<b>c");
}

#[test]
fn placeholder_substitution() {
    let mut rm = ResourceManager::new();
    rm.add_dyn_resource(DynResource { ident: "x".to_string(), value: "42".to_string() });
    let f = FormatString::new("v=<x>").unwrap();
    assert_eq!(f.to_formatted_now(&rm).unwrap(), "v=42");
}

#[test]
fn missing_resource_names_the_missing_name() {
    let rm = empty_registry();
    let f = FormatString::new("v=<missing>").unwrap();
    match f.to_formatted_now(&rm) {
        Err(Error::NoResFound(name)) => assert_eq!(name, "missing"),
        other => panic!("expected NoResFound, got {:?}", other.is_ok()),
    }
}

#[test]
fn escapes_inside_placeholder_names() {
    let mut rm = ResourceManager::new();
    rm.add_dyn_resource(DynResource { ident: "a>b".to_string(), value: "ok".to_string() });
    let f = FormatString::new("<a>>b>").unwrap();
    assert_eq!(f.to_formatted_now(&rm).unwrap(), "ok");
}

#[test]
fn open_escape_inside_placeholder_names() {
    let mut rm = ResourceManager::new();
    rm.add_dyn_resource(DynResource { ident: "a<b".to_string(), value: "ok".to_string() });
    let f = FormatString::new("x<a<<b>y").unwrap();
    assert_eq!(f.to_formatted_now(&rm).unwrap(), "xoky");
}

#[test]
fn unpaired_close_is_a_parse_error() {
    assert_eq!(FormatString::new("a>b").unwrap_err(), FormatStringError::UnpairedClose);
}

#[test]
fn lone_open_inside_placeholder_is_a_parse_error() {
    assert_eq!(
        FormatString::new("<a<b>").unwrap_err(),
        FormatStringError::LoneOpenInPlaceholder
    );
}

#[test]
fn unterminated_placeholder_is_a_parse_error() {
    assert_eq!(
        FormatString::new("<abc").unwrap_err(),
        FormatStringError::UnterminatedPlaceholder
    );
}

#[test]
fn multiple_placeholders_resolve_in_order() {
    let mut rm = ResourceManager::new();
    rm.add_dyn_resource(DynResource { ident: "a".to_string(), value: "1".to_string() });
    rm.add_dyn_resource(DynResource { ident: "b".to_string(), value: "2".to_string() });
    let f = FormatString::new("<a>+<b>=3").unwrap();
    assert_eq!(f.to_formatted_now(&rm).unwrap(), "1+2=3");
}

#[test]
fn first_missing_name_wins() {
    let mut rm = ResourceManager::new();
    rm.add_dyn_resource(DynResource { ident: "b".to_string(), value: "2".to_string() });
    let f = FormatString::new("<a><b>").unwrap();
    match f.to_formatted_now(&rm) {
        Err(Error::NoResFound(name)) => assert_eq!(name, "a"),
        _ => panic!("expected NoResFound"),
    }
}

#[test]
fn escaped_input_has_zero_placeholders() {
    let f = FormatString::new("a<<b>>c").unwrap();
    assert_eq!(f.placeholder_names().len(), 0);
}

#[test]
fn placeholder_names_in_order() {
    let f = FormatString::new("<a>mid<b><c>").unwrap();
    assert_eq!(f.placeholder_names(), vec!["a", "b", "c"]);
}

#[test]
fn fresh_values_per_call_via_reregistration() {
    let f = FormatString::new("t=<now>").unwrap();
    let mut rm = ResourceManager::new();
    for tick in 0..3 {
        let mut fresh = ResourceManager::new();
        for name in f.placeholder_names() {
            assert_eq!(name, "now");
            fresh.add_dyn_resource(DynResource { ident: name, value: format!("{tick}") });
        }
        rm = fresh;
        assert_eq!(f.to_formatted_now(&rm).unwrap(), format!("t={tick}"));
    }
}

#[test]
fn from_parts_resolves_like_parsed() {
    let mut rm = ResourceManager::new();
    rm.add_dyn_resource(DynResource { ident: "x".to_string(), value: "7".to_string() });
    let parts = vec![
        FormattableStringPart::Raw("n=".to_string()),
        FormattableStringPart::ResourceReplace("x".to_string()),
    ];
    let f = FormatString::from_parts(parts);
    assert_eq!(f.to_formatted_now(&rm).unwrap(), "n=7");
}
