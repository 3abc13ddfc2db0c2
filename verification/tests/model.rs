use model_inference::{
    Annotatable, Attr, Attribute, Generics, Item, ItemKind, MetaItemKind, Model, Ty,
};

fn strings(texts: &[&str]) -> Vec<String> {
    texts.iter().map(|text| text.to_string()).collect()
}

fn no_generics() -> Generics {
    Generics { lifetimes: Vec::new(), ty_params: Vec::new() }
}

fn attr(column_name: &str, tokens: &[&str]) -> Attr {
    Attr { column_name: column_name.to_string(), stable_macro_tokens: strings(tokens) }
}

fn annotation(name: &str, value: MetaItemKind) -> Attribute {
    Attribute { name: name.to_string(), value }
}

fn struct_item(ident: &str, attrs: Vec<Attribute>, fields: Vec<Attr>) -> Annotatable {
    Annotatable::Item(Item {
        ident: ident.to_string(),
        attrs,
        node: ItemKind::Struct(no_generics(), fields),
    })
}

fn model(ident: &str, attrs: Vec<Attribute>, fields: Vec<Attr>) -> Model {
    match Model::from_annotable(&struct_item(ident, attrs, fields)) {
        Some(model) => model,
        None => panic!("a struct has a model"),
    }
}

#[test]
fn struct_without_annotations_has_inferred_names() {
    let model = model("Foo", Vec::new(), Vec::new());
    assert_eq!("foos", model.table_name());
    assert_eq!(strings(&["id"]), model.primary_key_names());
    assert_eq!("Foo", model.name());
}

#[test]
fn table_name_annotation_overrides_inference() {
    let attrs = vec![annotation(
        "table_name",
        MetaItemKind::NameValue("custom_widgets".to_string()),
    )];
    let model = model("Widget", attrs, Vec::new());
    assert_eq!("custom_widgets", model.table_name());
    assert_eq!(strings(&["id"]), model.primary_key_names());
}

#[test]
fn table_name_annotation_is_taken_as_it_is() {
    let attrs = vec![annotation("table_name", MetaItemKind::NameValue("Odd Name".to_string()))];
    let model = model("Widget", attrs, Vec::new());
    assert_eq!("Odd Name", model.table_name());
}

#[test]
fn table_name_is_inferred_on_every_call() {
    let model = model("FooBar", Vec::new(), Vec::new());
    assert_eq!("foo_bars", model.table_name());
    assert_eq!("foo_bars", model.table_name());
}

#[test]
fn primary_key_annotation_is_kept_in_order() {
    let attrs = vec![annotation("primary_key", MetaItemKind::List(strings(&["uuid", "tenant_id"])))];
    let model = model("Widget", attrs, Vec::new());
    assert_eq!(strings(&["uuid", "tenant_id"]), model.primary_key_names());
    assert_eq!("widgets", model.table_name());
}

#[test]
fn primary_key_annotation_is_not_deduplicated() {
    let attrs = vec![annotation("primary_key", MetaItemKind::List(strings(&["a", "b", "a"])))];
    let model = model("Widget", attrs, Vec::new());
    assert_eq!(strings(&["a", "b", "a"]), model.primary_key_names());
}

#[test]
fn both_annotations_are_read() {
    let attrs = vec![
        annotation("derive", MetaItemKind::List(strings(&["Debug"]))),
        annotation("primary_key", MetaItemKind::List(strings(&["code"]))),
        annotation("table_name", MetaItemKind::NameValue("things".to_string())),
    ];
    let model = model("Widget", attrs, Vec::new());
    assert_eq!("things", model.table_name());
    assert_eq!(strings(&["code"]), model.primary_key_names());
}

#[test]
fn other_annotations_are_passed_over() {
    let attrs = vec![
        annotation("derive", MetaItemKind::List(strings(&["Clone"]))),
        annotation("changeset_for", MetaItemKind::NameValue("users".to_string())),
        annotation("doc", MetaItemKind::Word),
    ];
    let model = model("Foo", attrs, Vec::new());
    assert_eq!("foos", model.table_name());
    assert_eq!(strings(&["id"]), model.primary_key_names());
}

#[test]
fn annotation_of_another_shape_counts_as_absent() {
    let attrs = vec![
        annotation("table_name", MetaItemKind::List(strings(&["users"]))),
        annotation("primary_key", MetaItemKind::NameValue("code".to_string())),
    ];
    let model = model("Foo", attrs, Vec::new());
    assert_eq!("foos", model.table_name());
    assert_eq!(strings(&["id"]), model.primary_key_names());

    let attrs = vec![
        annotation("table_name", MetaItemKind::Word),
        annotation("primary_key", MetaItemKind::Other),
    ];
    let model = self::model("Foo", attrs, Vec::new());
    assert_eq!("foos", model.table_name());
    assert_eq!(strings(&["id"]), model.primary_key_names());
}

#[test]
fn first_annotation_of_a_name_counts() {
    let attrs = vec![
        annotation("table_name", MetaItemKind::NameValue("first".to_string())),
        annotation("table_name", MetaItemKind::NameValue("second".to_string())),
        annotation("primary_key", MetaItemKind::Other),
        annotation("primary_key", MetaItemKind::List(strings(&["code"]))),
    ];
    let model = model("Foo", attrs, Vec::new());
    assert_eq!("first", model.table_name());
    assert_eq!(strings(&["id"]), model.primary_key_names());
}

#[test]
fn function_has_no_model() {
    let function = Annotatable::Item(Item {
        ident: "do_work".to_string(),
        attrs: Vec::new(),
        node: ItemKind::Other,
    });
    assert!(Model::from_annotable(&function).is_none());
}

#[test]
fn annotated_function_has_no_model() {
    let function = Annotatable::Item(Item {
        ident: "do_work".to_string(),
        attrs: vec![annotation("table_name", MetaItemKind::NameValue("works".to_string()))],
        node: ItemKind::Other,
    });
    assert!(Model::from_annotable(&function).is_none());
}

#[test]
fn trait_and_impl_items_have_no_model() {
    assert!(Model::from_annotable(&Annotatable::TraitItem).is_none());
    assert!(Model::from_annotable(&Annotatable::ImplItem).is_none());
}

#[test]
fn model_keeps_fields_in_declaration_order() {
    let fields = vec![attr("id", &["id"]), attr("name", &["name"]), attr("email", &["email"])];
    let model = model("User", Vec::new(), fields);
    let names: Vec<&str> = model.attrs().iter().map(|a| a.column_name.as_str()).collect();
    assert_eq!(vec!["id", "name", "email"], names);
}

#[test]
fn model_keeps_generics_and_names_its_type() {
    let generics = Generics { lifetimes: strings(&["'a"]), ty_params: strings(&["T", "U"]) };
    let item = Annotatable::Item(Item {
        ident: "Pair".to_string(),
        attrs: Vec::new(),
        node: ItemKind::Struct(
            Generics { lifetimes: strings(&["'a"]), ty_params: strings(&["T", "U"]) },
            Vec::new(),
        ),
    });
    let model = Model::from_annotable(&item).unwrap();
    assert_eq!(&generics, model.generics());
    let ty = Ty {
        name: "Pair".to_string(),
        lifetimes: strings(&["'a"]),
        ty_params: strings(&["T", "U"]),
    };
    assert_eq!(&ty, model.ty());
    assert_eq!("Pair", model.name());
    assert_eq!("pairs", model.table_name());
}

#[test]
fn attr_named_finds_a_field() {
    let fields = vec![attr("id", &["a"]), attr("name", &["b"])];
    let model = model("User", Vec::new(), fields);
    assert_eq!(Some(&attr("name", &["b"])), model.attr_named("name"));
    assert_eq!(Some(&attr("id", &["a"])), model.attr_named("id"));
}

#[test]
fn attr_named_is_absent_for_an_unknown_name() {
    let fields = vec![attr("id", &["a"]), attr("name", &["b"])];
    let model = model("User", Vec::new(), fields);
    assert_eq!(None, model.attr_named("email"));
    assert_eq!(None, model.attr_named("Name"));
    assert_eq!(None, model.attr_named("nam"));
    assert_eq!(None, model.attr_named(""));
}

#[test]
fn attr_named_is_absent_without_fields() {
    let model = model("Unit", Vec::new(), Vec::new());
    assert_eq!(None, model.attr_named("id"));
}

#[test]
fn attr_named_takes_the_first_of_two() {
    let fields = vec![attr("id", &["a"]), attr("name", &["first"]), attr("name", &["second"])];
    let model = model("User", Vec::new(), fields);
    assert_eq!(Some(&attr("name", &["first"])), model.attr_named("name"));
}

#[test]
fn field_tokens_come_one_group_per_field() {
    let fields = vec![
        attr("id", &["id", ":", "i32"]),
        attr("name", &[]),
        attr("email", &["email", ":", "String"]),
    ];
    let model = model("User", Vec::new(), fields);
    let expected =
        vec![strings(&["id", ":", "i32"]), Vec::new(), strings(&["email", ":", "String"])];
    assert_eq!(expected, model.field_tokens_for_stable_macro());
}

#[test]
fn field_tokens_are_empty_without_fields() {
    let model = model("Unit", Vec::new(), Vec::new());
    assert!(model.field_tokens_for_stable_macro().is_empty());
}

#[test]
fn to_stable_macro_tokens_gives_the_tokens() {
    let field = attr("id", &["id", ":", "i32"]);
    assert_eq!(strings(&["id", ":", "i32"]), field.to_stable_macro_tokens());
}

#[test]
fn empty_primary_key_list_is_kept() {
    let attrs = vec![annotation("primary_key", MetaItemKind::List(Vec::new()))];
    let model = model("Widget", attrs, Vec::new());
    assert!(model.primary_key_names().is_empty());
}

#[test]
fn model_does_not_depend_on_the_declaration_afterwards() {
    let mut item = Item {
        ident: "Foo".to_string(),
        attrs: Vec::new(),
        node: ItemKind::Struct(no_generics(), vec![attr("id", &["x"])]),
    };
    let model = Model::from_annotable(&Annotatable::Item(Item {
        ident: item.ident.clone(),
        attrs: Vec::new(),
        node: ItemKind::Struct(no_generics(), vec![attr("id", &["x"])]),
    }))
    .unwrap();
    item.ident.push_str("Bar");
    assert_eq!("Foo", model.name());
    assert_eq!("foos", model.table_name());
}

#[test]
fn table_name_from_annotation_is_there_only_where_one_was_given() {
    let attrs = vec![annotation("table_name", MetaItemKind::NameValue("things".to_string()))];
    assert_eq!(Some("things"), model("Widget", attrs, Vec::new()).table_name_from_annotation());
    assert_eq!(None, model("Widget", Vec::new(), Vec::new()).table_name_from_annotation());
}
