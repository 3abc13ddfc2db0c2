use model_inference::util::{
    attr_with_name, clone_strings, list_value_of_attr_with_name, str_value_of_attr_with_name,
    struct_ty,
};
use model_inference::{Attribute, Generics, MetaItemKind};

fn texts(values: &[&str]) -> Vec<String> {
    values.iter().map(|text| text.to_string()).collect()
}

fn named(name: &str, value: MetaItemKind) -> Attribute {
    Attribute { name: name.to_string(), value }
}

#[test]
fn attr_with_name_finds_the_first() {
    let attrs = vec![
        named("a", MetaItemKind::Word),
        named("b", MetaItemKind::NameValue("1".to_string())),
        named("b", MetaItemKind::NameValue("2".to_string())),
    ];
    assert_eq!(Some(&attrs[1]), attr_with_name(&attrs, "b"));
    assert_eq!(Some(&attrs[0]), attr_with_name(&attrs, "a"));
    assert_eq!(None, attr_with_name(&attrs, "c"));
    assert_eq!(None, attr_with_name(&Vec::new(), "a"));
}

#[test]
fn str_value_is_read_from_a_string() {
    let attrs = vec![
        named("other", MetaItemKind::NameValue("x".to_string())),
        named("table_name", MetaItemKind::NameValue("users".to_string())),
    ];
    assert_eq!(Some("users".to_string()), str_value_of_attr_with_name(&attrs, "table_name"));
    assert_eq!(Some("x".to_string()), str_value_of_attr_with_name(&attrs, "other"));
    assert_eq!(None, str_value_of_attr_with_name(&attrs, "primary_key"));
}

#[test]
fn str_value_is_absent_for_another_shape() {
    let attrs = vec![
        named("a", MetaItemKind::Word),
        named("b", MetaItemKind::List(texts(&["x"]))),
        named("c", MetaItemKind::Other),
    ];
    assert_eq!(None, str_value_of_attr_with_name(&attrs, "a"));
    assert_eq!(None, str_value_of_attr_with_name(&attrs, "b"));
    assert_eq!(None, str_value_of_attr_with_name(&attrs, "c"));
}

#[test]
fn list_value_is_read_from_a_list() {
    let attrs = vec![named("primary_key", MetaItemKind::List(texts(&["b", "a"])))];
    assert_eq!(Some(texts(&["b", "a"])), list_value_of_attr_with_name(&attrs, "primary_key"));
    assert_eq!(None, list_value_of_attr_with_name(&attrs, "table_name"));
}

#[test]
fn list_value_is_absent_for_another_shape() {
    let attrs = vec![
        named("a", MetaItemKind::Word),
        named("b", MetaItemKind::NameValue("x".to_string())),
        named("c", MetaItemKind::Other),
    ];
    assert_eq!(None, list_value_of_attr_with_name(&attrs, "a"));
    assert_eq!(None, list_value_of_attr_with_name(&attrs, "b"));
    assert_eq!(None, list_value_of_attr_with_name(&attrs, "c"));
}

#[test]
fn struct_ty_takes_the_parameters_as_arguments() {
    let generics = Generics { lifetimes: texts(&["'a", "'b"]), ty_params: texts(&["T"]) };
    let ty = struct_ty("Foo", &generics);
    assert_eq!("Foo", ty.name);
    assert_eq!(texts(&["'a", "'b"]), ty.lifetimes);
    assert_eq!(texts(&["T"]), ty.ty_params);
}

#[test]
fn clones_hold_the_same_values() {
    assert_eq!(texts(&["a", "b"]), clone_strings(&texts(&["a", "b"])));
    let generics = Generics { lifetimes: texts(&["'a"]), ty_params: texts(&["T"]) };
    assert_eq!(generics, generics.clone());
}
