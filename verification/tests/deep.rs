use rustval::resolve_ref::{
    resolve_schema_fully, resolve_schema_list, resolve_schema_within, Components, Document,
    PropertyMap, ReferenceOr, Schema, MAX_NESTING_DEPTH,
};

fn to(name: &str) -> ReferenceOr<Schema> {
    ReferenceOr::Reference {
        reference: format!("#/components/schemas/{}", name),
    }
}

fn object(properties: Vec<(&str, ReferenceOr<Schema>)>) -> Schema {
    let mut map = PropertyMap::new();
    for (name, site) in properties {
        map.insert(name.to_string(), site);
    }
    Schema::Object { properties: map }
}

fn array_of(site: ReferenceOr<Schema>) -> Schema {
    Schema::Array {
        items: Some(Box::new(site)),
    }
}

fn schemas(entries: Vec<(&str, ReferenceOr<Schema>)>) -> Document {
    let mut components = Components::default();
    for (name, entry) in entries {
        components.schemas.insert(name.to_string(), entry);
    }
    Document {
        components: Some(components),
    }
}

fn property_names(schema: &Schema) -> Vec<String> {
    match schema {
        Schema::Object { properties } => (0..properties.len())
            .map(|i| properties.get_index(i).unwrap().0.clone())
            .collect(),
        _ => panic!("not an object"),
    }
}

#[test]
fn object_property_reference_is_expanded() {
    let document = schemas(vec![(
        "Pet",
        ReferenceOr::Item(object(vec![("name", ReferenceOr::Item(Schema::String))])),
    )]);
    let input = ReferenceOr::Item(object(vec![("pet", to("Pet"))]));
    let resolved = resolve_schema_fully(&input, &document).unwrap();
    let expected = object(vec![(
        "pet",
        ReferenceOr::Item(object(vec![("name", ReferenceOr::Item(Schema::String))])),
    )]);
    assert_eq!(resolved, expected);
    match &resolved {
        Schema::Object { properties } => match properties.get("pet") {
            Some(ReferenceOr::Item(Schema::Object { properties: inner })) => {
                assert_eq!(inner.get("name"), Some(&ReferenceOr::Item(Schema::String)));
                assert_eq!(inner.len(), 1);
            }
            other => panic!("pet is {:?}", other),
        },
        other => panic!("result is {:?}", other),
    }
}

#[test]
fn array_items_reference_is_expanded() {
    let document = schemas(vec![("Count", ReferenceOr::Item(Schema::Integer))]);
    let input = ReferenceOr::Item(array_of(to("Count")));
    assert_eq!(
        resolve_schema_fully(&input, &document),
        Some(array_of(ReferenceOr::Item(Schema::Integer)))
    );
}

#[test]
fn array_without_items_is_unchanged() {
    let document = schemas(vec![]);
    let input = ReferenceOr::Item(Schema::Array { items: None });
    assert_eq!(
        resolve_schema_fully(&input, &document),
        Some(Schema::Array { items: None })
    );
}

#[test]
fn one_of_references_are_expanded_in_order() {
    let document = schemas(vec![
        ("Cat", ReferenceOr::Item(Schema::String)),
        ("Dog", ReferenceOr::Item(Schema::Integer)),
    ]);
    let input = ReferenceOr::Item(Schema::OneOf {
        one_of: vec![to("Cat"), to("Dog")],
    });
    assert_eq!(
        resolve_schema_fully(&input, &document),
        Some(Schema::OneOf {
            one_of: vec![
                ReferenceOr::Item(Schema::String),
                ReferenceOr::Item(Schema::Integer)
            ],
        })
    );
    let reversed = ReferenceOr::Item(Schema::OneOf {
        one_of: vec![to("Dog"), to("Cat")],
    });
    assert_eq!(
        resolve_schema_fully(&reversed, &document),
        Some(Schema::OneOf {
            one_of: vec![
                ReferenceOr::Item(Schema::Integer),
                ReferenceOr::Item(Schema::String)
            ],
        })
    );
}

#[test]
fn all_of_and_any_of_members_are_expanded() {
    let document = schemas(vec![
        ("Base", ReferenceOr::Item(object(vec![("id", to("Id"))]))),
        ("Id", ReferenceOr::Item(Schema::Integer)),
    ]);
    let expanded_base = object(vec![("id", ReferenceOr::Item(Schema::Integer))]);
    let all = ReferenceOr::Item(Schema::AllOf {
        all_of: vec![to("Base"), ReferenceOr::Item(Schema::Boolean), to("Gone")],
    });
    assert_eq!(
        resolve_schema_fully(&all, &document),
        Some(Schema::AllOf {
            all_of: vec![
                ReferenceOr::Item(expanded_base.clone()),
                ReferenceOr::Item(Schema::Boolean),
                to("Gone")
            ],
        })
    );
    let any = ReferenceOr::Item(Schema::AnyOf {
        any_of: vec![to("Id"), to("Base")],
    });
    assert_eq!(
        resolve_schema_fully(&any, &document),
        Some(Schema::AnyOf {
            any_of: vec![
                ReferenceOr::Item(Schema::Integer),
                ReferenceOr::Item(expanded_base)
            ],
        })
    );
}

#[test]
fn unresolved_property_is_left_and_siblings_resolve() {
    let document = schemas(vec![("Name", ReferenceOr::Item(Schema::String))]);
    let input = ReferenceOr::Item(object(vec![
        ("first", to("Name")),
        ("ghost", to("Nobody")),
        ("last", to("Name")),
    ]));
    let resolved = resolve_schema_fully(&input, &document).unwrap();
    assert_eq!(property_names(&resolved), vec!["first", "ghost", "last"]);
    match &resolved {
        Schema::Object { properties } => {
            assert_eq!(properties.get("first"), Some(&ReferenceOr::Item(Schema::String)));
            assert_eq!(properties.get("ghost"), Some(&to("Nobody")));
            assert_eq!(properties.get("last"), Some(&ReferenceOr::Item(Schema::String)));
        }
        other => panic!("result is {:?}", other),
    }
}

#[test]
fn reference_to_reference_to_object_resolves_fully() {
    let document = schemas(vec![
        ("User", to("Person")),
        (
            "Person",
            ReferenceOr::Item(object(vec![("name", ReferenceOr::Item(Schema::String))])),
        ),
    ]);
    assert_eq!(
        resolve_schema_fully(&to("User"), &document),
        Some(object(vec![("name", ReferenceOr::Item(Schema::String))]))
    );
}

#[test]
fn top_level_failure_gives_nothing() {
    let document = schemas(vec![("A", to("B"))]);
    assert_eq!(resolve_schema_fully(&to("Nobody"), &document), None);
    assert_eq!(resolve_schema_fully(&to("A"), &document), None);
    assert_eq!(
        resolve_schema_fully(
            &ReferenceOr::Reference {
                reference: "#/components/responses/A".to_string()
            },
            &document
        ),
        None
    );
    assert_eq!(
        resolve_schema_fully(&to("A"), &Document { components: None }),
        None
    );
}

#[test]
fn inline_schema_resolves_without_a_component_table() {
    let document = Document { components: None };
    let input = ReferenceOr::Item(object(vec![
        ("kept", to("Anything")),
        ("flag", ReferenceOr::Item(Schema::Boolean)),
    ]));
    assert_eq!(
        resolve_schema_fully(&input, &document),
        Some(object(vec![
            ("kept", to("Anything")),
            ("flag", ReferenceOr::Item(Schema::Boolean)),
        ]))
    );
}

#[test]
fn leaves_are_returned_unchanged() {
    let document = schemas(vec![]);
    for leaf in [
        Schema::String,
        Schema::Number,
        Schema::Integer,
        Schema::Boolean,
        Schema::Any,
    ] {
        assert_eq!(
            resolve_schema_fully(&ReferenceOr::Item(leaf.clone()), &document),
            Some(leaf)
        );
    }
}

#[test]
fn not_is_not_expanded() {
    let document = schemas(vec![("Cat", ReferenceOr::Item(Schema::String))]);
    let input = ReferenceOr::Item(Schema::Not {
        not: Box::new(to("Cat")),
    });
    assert_eq!(
        resolve_schema_fully(&input, &document),
        Some(Schema::Not {
            not: Box::new(to("Cat")),
        })
    );
}

#[test]
fn references_inside_referenced_schemas_are_expanded() {
    let document = schemas(vec![
        ("Pet", ReferenceOr::Item(object(vec![("owner", to("Person"))]))),
        (
            "Person",
            ReferenceOr::Item(object(vec![("tags", ReferenceOr::Item(array_of(to("Tag"))))])),
        ),
        ("Tag", to("Label")),
        ("Label", ReferenceOr::Item(Schema::String)),
    ]);
    let input = ReferenceOr::Item(object(vec![("pet", to("Pet"))]));
    let expected = object(vec![(
        "pet",
        ReferenceOr::Item(object(vec![(
            "owner",
            ReferenceOr::Item(object(vec![(
                "tags",
                ReferenceOr::Item(array_of(ReferenceOr::Item(Schema::String))),
            )])),
        )])),
    )]);
    assert_eq!(resolve_schema_fully(&input, &document), Some(expected));
}

#[test]
fn property_order_is_preserved() {
    let document = schemas(vec![("T", ReferenceOr::Item(Schema::String))]);
    let input = ReferenceOr::Item(object(vec![
        ("zeta", to("T")),
        ("alpha", ReferenceOr::Item(Schema::Integer)),
        ("mid", to("Gone")),
        ("beta", to("T")),
    ]));
    let resolved = resolve_schema_fully(&input, &document).unwrap();
    assert_eq!(property_names(&resolved), vec!["zeta", "alpha", "mid", "beta"]);
}

#[test]
fn depth_bounds_the_expansion_of_a_self_reference() {
    let document = schemas(vec![("Node", ReferenceOr::Item(object(vec![("next", to("Node"))])))]);
    assert_eq!(resolve_schema_within(&to("Node"), &document, 0), None);
    assert_eq!(
        resolve_schema_within(&to("Node"), &document, 1),
        Some(object(vec![("next", to("Node"))]))
    );
    assert_eq!(
        resolve_schema_within(&to("Node"), &document, 3),
        Some(object(vec![(
            "next",
            ReferenceOr::Item(object(vec![(
                "next",
                ReferenceOr::Item(object(vec![("next", to("Node"))])),
            )])),
        )]))
    );
}

#[test]
fn full_resolution_of_a_self_reference_ends() {
    assert_eq!(MAX_NESTING_DEPTH, 64);
    let document = schemas(vec![("Node", ReferenceOr::Item(object(vec![("next", to("Node"))])))]);
    let mut current = resolve_schema_fully(&to("Node"), &document).unwrap();
    let mut levels = 0;
    loop {
        let next = match &current {
            Schema::Object { properties } => properties.get("next").unwrap().clone(),
            other => panic!("level is {:?}", other),
        };
        levels += 1;
        match next {
            ReferenceOr::Item(schema) => current = schema,
            ReferenceOr::Reference { reference } => {
                assert_eq!(reference, "#/components/schemas/Node");
                break;
            }
        }
    }
    assert_eq!(levels, 64);
}

#[test]
fn depth_also_bounds_inline_nesting() {
    let document = schemas(vec![("Leaf", ReferenceOr::Item(Schema::Integer))]);
    let input = ReferenceOr::Item(array_of(ReferenceOr::Item(array_of(to("Leaf")))));
    assert_eq!(
        resolve_schema_within(&input, &document, 3),
        Some(array_of(ReferenceOr::Item(array_of(ReferenceOr::Item(
            Schema::Integer
        )))))
    );
    assert_eq!(
        resolve_schema_within(&input, &document, 2),
        Some(array_of(ReferenceOr::Item(array_of(to("Leaf")))))
    );
}

#[test]
fn list_is_resolved_in_place() {
    let document = schemas(vec![
        ("Cat", ReferenceOr::Item(Schema::String)),
        ("Pets", ReferenceOr::Item(array_of(to("Cat")))),
    ]);
    let mut list = vec![
        to("Cat"),
        to("Nobody"),
        ReferenceOr::Item(Schema::Boolean),
        to("Pets"),
    ];
    resolve_schema_list(&mut list, &document);
    assert_eq!(
        list,
        vec![
            ReferenceOr::Item(Schema::String),
            to("Nobody"),
            ReferenceOr::Item(Schema::Boolean),
            ReferenceOr::Item(array_of(ReferenceOr::Item(Schema::String))),
        ]
    );
    let mut empty: Vec<ReferenceOr<Schema>> = Vec::new();
    resolve_schema_list(&mut empty, &document);
    assert!(empty.is_empty());
}

#[test]
fn deep_result_is_independent_of_the_document() {
    let document = schemas(vec![(
        "Pet",
        ReferenceOr::Item(object(vec![("name", ReferenceOr::Item(Schema::String))])),
    )]);
    let input = ReferenceOr::Item(object(vec![("pet", to("Pet"))]));
    let mut resolved = resolve_schema_fully(&input, &document).unwrap();
    if let Schema::Object { properties } = &mut resolved {
        properties.insert("pet".to_string(), ReferenceOr::Item(Schema::Any));
    }
    assert_eq!(input, ReferenceOr::Item(object(vec![("pet", to("Pet"))])));
    assert_eq!(
        document,
        schemas(vec![(
            "Pet",
            ReferenceOr::Item(object(vec![("name", ReferenceOr::Item(Schema::String))])),
        )])
    );
}
