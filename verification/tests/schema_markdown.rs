use gumwood::schema::{Enum, Field, Input, Schema, Type, TypeRef};
use gumwood::schema_markdown::{
    schema_type_to_markdown, to_safe_string, type_to_markdown, types_to_markdown, Markdown,
    TableItem,
};

fn empty_type() -> Type {
    Type {
        name: None,
        kind: None,
        description: None,
        fields: None,
        inputs: None,
        interfaces: None,
        enums: None,
        possible_types: None,
    }
}

#[test]
fn markdown_new_should_return_ok() {
    assert!(Markdown::new(false).is_ok());
}

#[test]
fn generate_from_schema_should_return_empty_when_empty_schema() {
    let markdown = Markdown::new(false).unwrap();
    let schema = &Schema {
        query_type: None,
        mutation_type: None,
        subscription_type: None,
        types: None,
        directives: None,
    };
    let map = markdown.generate_from_schema(schema);
    assert_eq!(9, map.len());
    assert_eq!("".to_string(), map["queries"]);
    assert_eq!("".to_string(), map["mutations"]);
    assert_eq!("".to_string(), map["subscriptions"]);
    assert_eq!("".to_string(), map["inputs"]);
    assert_eq!("".to_string(), map["objects"]);
    assert_eq!("".to_string(), map["enums"]);
    assert_eq!("".to_string(), map["interfaces"]);
    assert_eq!("".to_string(), map["unions"]);
    assert_eq!("".to_string(), map["scalars"]);
}

#[test]
fn schema_type_to_markdown_for_query_should_return_empty_when_none() {
    let schema = &Schema {
        query_type: None,
        mutation_type: None,
        subscription_type: None,
        types: None,
        directives: None,
    };
    assert_eq!("".to_string(), schema_type_to_markdown(schema, schema.get_query_name()));
}

#[test]
fn schema_type_to_markdown_for_query_should_return_empty_when_some_and_no_members() {
    let schema = &Schema {
        query_type: Some(empty_type()),
        mutation_type: None,
        subscription_type: None,
        types: None,
        directives: None,
    };
    assert_eq!("".to_string(), schema_type_to_markdown(schema, schema.get_query_name()));
}

#[test]
fn schema_type_to_markdown_for_query_should_return_markdown_when_some() {
    let schema = &Schema {
        query_type: Some(Type { name: Some("Query".to_string()), ..empty_type() }),
        mutation_type: None,
        subscription_type: None,
        types: Some(vec![Type {
            name: Some("Query".to_string()),
            description: Some("The root query".to_string()),
            fields: Some(vec![Field {
                name: Some("players".to_string()),
                description: Some("get the players".to_string()),
                args: None,
                field_type: None,
                is_deprecated: None,
                deprecation_reason: None,
            }]),
            ..empty_type()
        }]),
        directives: None,
    };
    assert_eq!(
        r#"# Query

> The root query

## players

> get the players

"#
        .to_string(),
        schema_type_to_markdown(schema, schema.get_query_name())
    );
}

#[test]
fn schema_type_to_markdown_for_mutation_should_return_empty_when_none() {
    let schema = &Schema {
        query_type: None,
        mutation_type: None,
        subscription_type: None,
        types: None,
        directives: None,
    };
    assert_eq!("".to_string(), schema_type_to_markdown(schema, schema.get_mutation_name()));
}

#[test]
fn schema_type_to_markdown_for_mutation_should_return_empty_when_some_and_no_members() {
    let schema = &Schema {
        query_type: None,
        mutation_type: Some(empty_type()),
        subscription_type: None,
        types: None,
        directives: None,
    };
    assert_eq!("".to_string(), schema_type_to_markdown(schema, schema.get_mutation_name()));
}

#[test]
fn schema_type_to_markdown_for_mutation_should_return_markdown_when_some() {
    let schema = &Schema {
        query_type: None,
        mutation_type: Some(Type { name: Some("Mutation".to_string()), ..empty_type() }),
        subscription_type: None,
        types: Some(vec![Type {
            name: Some("Mutation".to_string()),
            description: Some("The root mutation".to_string()),
            fields: Some(vec![Field {
                name: Some("addPlayer".to_string()),
                description: Some("add a player".to_string()),
                args: None,
                field_type: None,
                is_deprecated: None,
                deprecation_reason: None,
            }]),
            ..empty_type()
        }]),
        directives: None,
    };
    assert_eq!(
        r#"# Mutation

> The root mutation

## addPlayer

> add a player

"#
        .to_string(),
        schema_type_to_markdown(schema, schema.get_mutation_name())
    );
}

#[test]
fn schema_type_to_markdown_for_subscription_should_return_empty_when_none() {
    let schema = &Schema {
        query_type: None,
        mutation_type: None,
        subscription_type: None,
        types: None,
        directives: None,
    };
    assert_eq!("".to_string(), schema_type_to_markdown(schema, schema.get_subscription_name()));
}

#[test]
fn schema_type_to_markdown_for_subscription_should_return_empty_when_some_and_no_members() {
    let schema = &Schema {
        query_type: None,
        mutation_type: None,
        subscription_type: Some(empty_type()),
        types: None,
        directives: None,
    };
    assert_eq!("".to_string(), schema_type_to_markdown(schema, schema.get_subscription_name()));
}

#[test]
fn schema_type_to_markdown_for_subscription_should_return_markdown_when_some() {
    let schema = &Schema {
        query_type: None,
        mutation_type: None,
        subscription_type: Some(Type { name: Some("Subscription".to_string()), ..empty_type() }),
        types: Some(vec![Type {
            name: Some("Subscription".to_string()),
            description: Some("The root subscription".to_string()),
            fields: Some(vec![Field {
                name: Some("subscribePlayers".to_string()),
                description: Some("subscribe to players".to_string()),
                args: None,
                field_type: None,
                is_deprecated: None,
                deprecation_reason: None,
            }]),
            ..empty_type()
        }]),
        directives: None,
    };
    assert_eq!(
        r#"# Subscription

> The root subscription

## subscribePlayers

> subscribe to players

"#
        .to_string(),
        schema_type_to_markdown(schema, schema.get_subscription_name())
    );
}

#[test]
fn types_to_markdown_should_return_markdown() {
    let schema = &Schema {
        query_type: None,
        mutation_type: None,
        subscription_type: None,
        types: Some(vec![Type {
            name: Some("Player".to_string()),
            kind: Some("OBJECT".to_string()),
            description: Some("A player".to_string()),
            fields: Some(vec![
                Field {
                    name: Some("firstName".to_string()),
                    description: Some("The player's first name".to_string()),
                    args: None,
                    field_type: None,
                    is_deprecated: None,
                    deprecation_reason: None,
                },
                Field {
                    name: Some("lastName".to_string()),
                    description: Some("The player's last name".to_string()),
                    args: None,
                    field_type: None,
                    is_deprecated: None,
                    deprecation_reason: None,
                },
            ]),
            ..empty_type()
        }]),
        directives: None,
    };
    assert_eq!(
        r#"# Objects

## <a name="player"></a>Player

> A player

### Fields

| Name | Type | Description |
| --- | --- | --- |
| `firstName` |  | The player's first name |
| `lastName` |  | The player's last name |

"#
        .to_string(),
        types_to_markdown(schema, "Objects", "OBJECT")
    );
}

#[test]
fn type_to_markdown_should_return_markdown() {
    let typ = &Type {
        name: Some("Player".to_string()),
        description: Some("This is a player".to_string()),
        fields: Some(vec![Field {
            name: Some("id".to_string()),
            description: Some("The ID".to_string()),
            args: None,
            field_type: None,
            is_deprecated: None,
            deprecation_reason: None,
        }]),
        ..empty_type()
    };
    assert_eq!(
        r#"## <a name="player"></a>Player

> This is a player

### Fields

| Name | Type | Description |
| --- | --- | --- |
| `id` |  | The ID |

"#
        .to_string(),
        type_to_markdown(typ)
    );
}

#[test]
fn to_safe_string_should_return_string_when_some() {
    assert_eq!("hello".to_string(), to_safe_string(&Some("hello".to_string())));
}

#[test]
fn to_safe_string_should_return_empty_string_when_none() {
    assert_eq!("".to_string(), to_safe_string(&None));
}

#[test]
fn to_safe_string_should_trim_and_remove_newlines() {
    assert_eq!(
        "one line cell".to_string(),
        to_safe_string(&Some("  one line\n cell \n".to_string()))
    );
}

#[test]
fn field_description_with_newlines_should_render_as_one_table_cell() {
    let field = Field {
        name: Some("bio".to_string()),
        description: Some("  line one\nline two  ".to_string()),
        args: None,
        field_type: None,
        is_deprecated: None,
        deprecation_reason: None,
    };
    let cells = field.table_fields();
    assert_eq!(3, cells.len());
    assert_eq!("line oneline two", cells[2]);
    assert!(!cells[2].contains('\n'));
}

#[test]
fn input_table_fields_should_return_table_fields_when_some() {
    let input = Input {
        name: Some("name".to_string()),
        description: Some("description".to_string()),
        input_type: Some(TypeRef {
            name: None,
            kind: Some("NON_NULL".to_string()),
            of_type: Some(Box::new(TypeRef {
                name: Some("ID".to_string()),
                kind: Some("SCALAR".to_string()),
                of_type: None,
            })),
        }),
        default_value: Some("default".to_string()),
    };
    let fields = input.table_fields();
    assert_eq!(4, fields.len());
    assert_eq!("`name`".to_string(), fields[0]);
    assert_eq!("[`ID!`](scalars.md#id)".to_string(), fields[1]);
    assert_eq!("description".to_string(), fields[2]);
    assert_eq!("`default`".to_string(), fields[3]);
}

#[test]
fn input_table_fields_should_return_table_fields_when_none() {
    let input = Input { name: None, description: None, input_type: None, default_value: None };
    let fields = input.table_fields();
    assert_eq!(4, fields.len());
    assert_eq!("".to_string(), fields[0]);
    assert_eq!("".to_string(), fields[1]);
    assert_eq!("".to_string(), fields[2]);
    assert_eq!("".to_string(), fields[3]);
}

#[test]
fn enum_table_fields_should_return_table_fields_when_some() {
    let enm = Enum {
        name: Some("name".to_string()),
        description: Some("description".to_string()),
        is_deprecated: Some(true),
        deprecation_reason: Some("meh".to_string()),
    };
    let fields = enm.table_fields();
    assert_eq!(3, fields.len());
    assert_eq!("`name`".to_string(), fields[0]);
    assert_eq!("description".to_string(), fields[1]);
    assert_eq!("meh".to_string(), fields[2]);
}

#[test]
fn enum_table_fields_should_return_table_fields_when_some_and_is_deprecated_is_false() {
    let enm = Enum {
        name: Some("name".to_string()),
        description: Some("description".to_string()),
        is_deprecated: Some(false),
        deprecation_reason: Some("meh".to_string()),
    };
    let fields = enm.table_fields();
    assert_eq!(3, fields.len());
    assert_eq!("`name`".to_string(), fields[0]);
    assert_eq!("description".to_string(), fields[1]);
    assert_eq!("no".to_string(), fields[2]);
}

#[test]
fn enum_table_fields_should_return_table_fields_when_none() {
    let enm = Enum {
        name: None,
        description: None,
        is_deprecated: None,
        deprecation_reason: None,
    };
    let fields = enm.table_fields();
    assert_eq!(3, fields.len());
    assert_eq!("".to_string(), fields[0]);
    assert_eq!("".to_string(), fields[1]);
    assert_eq!("no".to_string(), fields[2]);
}

#[test]
fn generate_from_schema_should_render_queries_document() {
    let markdown = Markdown::new(false).unwrap();
    let schema = &Schema {
        query_type: Some(Type { name: Some("Query".to_string()), ..empty_type() }),
        mutation_type: None,
        subscription_type: None,
        types: Some(vec![Type {
            name: Some("Query".to_string()),
            description: Some("The root query".to_string()),
            fields: Some(vec![Field {
                name: Some("players".to_string()),
                description: Some("get the players".to_string()),
                args: None,
                field_type: None,
                is_deprecated: None,
                deprecation_reason: None,
            }]),
            ..empty_type()
        }]),
        directives: None,
    };
    let map = markdown.generate_from_schema(schema);
    assert_eq!(
        "# Query\n\n> The root query\n\n## players\n\n> get the players\n\n",
        map["queries"]
    );
}

#[test]
fn type_to_markdown_should_sort_possible_types() {
    let typ = &Type {
        name: Some("Shape".to_string()),
        kind: Some("UNION".to_string()),
        possible_types: Some(vec![
            TypeRef { name: Some("Square".to_string()), kind: None, of_type: None },
            TypeRef { name: Some("Circle".to_string()), kind: None, of_type: None },
        ]),
        ..empty_type()
    };
    assert_eq!(
        "## <a name=\"shape\"></a>Shape\n\n### Implemented by\n\n* `Circle`\n* `Square`\n\n",
        type_to_markdown(typ)
    );
}

#[test]
fn type_to_markdown_should_render_enum_values_sorted() {
    let typ = &Type {
        name: Some("Suit".to_string()),
        kind: Some("ENUM".to_string()),
        enums: Some(vec![
            Enum {
                name: Some("SPADES".to_string()),
                description: Some("spades".to_string()),
                is_deprecated: Some(true),
                deprecation_reason: Some("old".to_string()),
            },
            Enum {
                name: Some("HEARTS".to_string()),
                description: Some("hearts".to_string()),
                is_deprecated: None,
                deprecation_reason: None,
            },
        ]),
        ..empty_type()
    };
    assert_eq!(
        "## <a name=\"suit\"></a>Suit\n\n### Values\n\n| Name | Description | Deprecated |\n| --- | --- | --- |\n| `HEARTS` | hearts | no |\n| `SPADES` | spades | old |\n\n",
        type_to_markdown(typ)
    );
}

#[test]
fn schema_type_to_markdown_should_render_sorted_arguments_table() {
    let schema = &Schema {
        query_type: Some(Type { name: Some("Q".to_string()), ..empty_type() }),
        mutation_type: None,
        subscription_type: None,
        types: Some(vec![Type {
            name: Some("Q".to_string()),
            fields: Some(vec![Field {
                name: Some("greet".to_string()),
                description: None,
                args: Some(vec![
                    Input {
                        name: Some("b".to_string()),
                        description: Some("second".to_string()),
                        input_type: None,
                        default_value: None,
                    },
                    Input {
                        name: Some("a".to_string()),
                        description: Some("first".to_string()),
                        input_type: Some(TypeRef {
                            name: None,
                            kind: Some("NON_NULL".to_string()),
                            of_type: Some(Box::new(TypeRef {
                                name: Some("ID".to_string()),
                                kind: Some("SCALAR".to_string()),
                                of_type: None,
                            })),
                        }),
                        default_value: Some("1".to_string()),
                    },
                ]),
                field_type: Some(TypeRef {
                    name: Some("String".to_string()),
                    kind: Some("SCALAR".to_string()),
                    of_type: None,
                }),
                is_deprecated: Some(true),
                deprecation_reason: Some("old".to_string()),
            }]),
            ..empty_type()
        }]),
        directives: None,
    };
    let expected = "# Q\n\n## greet\n\n_Deprecated_\n**Type:** [`String`](scalars.md#string)\n\n### Arguments\n\n| Name | Type | Description | Default Value |\n| --- | --- | --- | --- |\n| `a` | [`ID!`](scalars.md#id) | first | `1` |\n| `b` |  | second |  |\n\n";
    assert_eq!(expected, schema_type_to_markdown(schema, schema.get_query_name()));
}

#[test]
fn field_with_unknown_kind_should_link_to_empty_document() {
    let field = Field {
        name: Some("thing".to_string()),
        description: None,
        args: None,
        field_type: Some(TypeRef {
            name: Some("Mystery".to_string()),
            kind: Some("WEIRD".to_string()),
            of_type: None,
        }),
        is_deprecated: None,
        deprecation_reason: None,
    };
    let cells = field.table_fields();
    assert_eq!("[`Mystery`](.md#mystery)", cells[1]);
}
