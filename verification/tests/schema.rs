use gumwood::schema::{Schema, TypeRef};

#[test]
fn from_str_should_pass_when_empty_schema() {
    let response = r#"{
        "data": {
            "__schema": {
            }
        }
    }"#;
    match Schema::from_str(&response) {
        Err(_) => assert!(false, "schema should parse"),
        Ok(_) => assert!(true),
    }
}

#[test]
fn from_str_should_leave_every_field_none_when_schema_empty() {
    let response = r#"{
        "data": {
            "__schema": {
            }
        }
    }"#;
    let schema = Schema::from_str(&response).unwrap();
    assert!(schema.query_type.is_none());
    assert!(schema.mutation_type.is_none());
    assert!(schema.subscription_type.is_none());
    assert!(schema.types.is_none());
    assert!(schema.directives.is_none());
}

#[test]
fn from_str_should_fail_when_not_json() {
    let response = "test";
    match Schema::from_str(response) {
        Ok(_) => assert!(false, "plain text should fail"),
        Err(err) => assert_eq!("expected ident at line 1 column 2", err.message()),
    }
}

#[test]
fn from_str_should_fail_when_no_data() {
    let response = r#"{
    }"#;
    match Schema::from_str(&response) {
        Ok(_) => assert!(false, "schema should have data"),
        Err(err) => assert_eq!("data not in response", err.message()),
    }
}

#[test]
fn from_str_should_fail_when_no_schema() {
    let response = r#"{
        "data": {
        }
    }"#;
    match Schema::from_str(&response) {
        Ok(_) => assert!(false, "schema should have __schema"),
        Err(err) => assert_eq!("schema not in response", err.message()),
    }
}

#[test]
fn from_str_should_fail_when_not_an_object() {
    let response = r#"[1, 2, 3]"#;
    match Schema::from_str(&response) {
        Ok(_) => assert!(false, "an array should fail"),
        Err(err) => assert_eq!("response format not an object", err.message()),
    }
}

#[test]
fn from_str_should_fail_when_types_not_an_array() {
    let response = r#"{
        "data": {
            "__schema": {
                "types": 123
            }
        }
    }"#;
    match Schema::from_str(&response) {
        Ok(_) => assert!(false, "a non-array type list should fail"),
        Err(err) => assert_eq!("invalid schema structure", err.message()),
    }
}

#[test]
fn from_str_should_have_no_query_type_when_none() {
    let response = r#"{
        "data": {
            "__schema": {
            }
        }
    }"#;
    let schema = Schema::from_str(&response).unwrap();
    assert!(schema.query_type.is_none());
}

#[test]
fn from_str_should_have_query_type_when_some() {
    let response = r#"{
        "data": {
            "__schema": {
                "queryType": {
                }
            }
        }
    }"#;
    let schema = Schema::from_str(&response).unwrap();
    assert!(schema.query_type.is_some());
}

#[test]
fn from_str_should_have_query_type_name_when_present() {
    let response = r#"{
        "data": {
            "__schema": {
                "queryType": {
                    "name": "Query"
                }
            }
        }
    }"#;
    let schema = Schema::from_str(&response).unwrap();
    assert_eq!("Query", schema.query_type.unwrap().name.unwrap());
}

#[test]
fn from_str_should_return_some_query_name_when_present() {
    let response = r#"{
        "data": {
            "__schema": {
                "queryType": {
                    "name": "Query"
                }
            }
        }
    }"#;
    let schema = Schema::from_str(&response).unwrap();
    assert!(schema.get_query_name().is_some());
    assert_eq!("Query", schema.get_query_name().unwrap());
}

#[test]
fn from_str_should_return_none_query_name_when_absent() {
    let response = r#"{
        "data": {
            "__schema": {
            }
        }
    }"#;
    let schema = Schema::from_str(&response).unwrap();
    assert!(schema.get_query_name().is_none());
}

#[test]
fn from_str_should_return_none_query_name_when_name_absent() {
    let response = r#"{
        "data": {
            "__schema": {
                "queryType": {
                }
            }
        }
    }"#;
    let schema = Schema::from_str(&response).unwrap();
    assert!(schema.get_query_name().is_none());
}

#[test]
fn from_str_should_have_no_mutation_type_when_none() {
    let response = r#"{
        "data": {
            "__schema": {
            }
        }
    }"#;
    let schema = Schema::from_str(&response).unwrap();
    assert!(schema.mutation_type.is_none());
}

#[test]
fn from_str_should_have_mutation_type_when_some() {
    let response = r#"{
        "data": {
            "__schema": {
                "mutationType": {
                }
            }
        }
    }"#;
    let schema = Schema::from_str(&response).unwrap();
    assert!(schema.mutation_type.is_some());
}

#[test]
fn from_str_should_have_mutation_type_name_when_present() {
    let response = r#"{
        "data": {
            "__schema": {
                "mutationType": {
                    "name": "mutation"
                }
            }
        }
    }"#;
    let schema = Schema::from_str(&response).unwrap();
    assert_eq!("mutation", schema.mutation_type.unwrap().name.unwrap());
}

#[test]
fn from_str_should_return_some_mutation_name_when_present() {
    let response = r#"{
        "data": {
            "__schema": {
                "mutationType": {
                    "name": "mutation"
                }
            }
        }
    }"#;
    let schema = Schema::from_str(&response).unwrap();
    assert!(schema.get_mutation_name().is_some());
    assert_eq!("mutation", schema.get_mutation_name().unwrap());
}

#[test]
fn from_str_should_return_none_mutation_name_when_absent() {
    let response = r#"{
        "data": {
            "__schema": {
            }
        }
    }"#;
    let schema = Schema::from_str(&response).unwrap();
    assert!(schema.get_mutation_name().is_none());
}

#[test]
fn from_str_should_return_none_mutation_name_when_name_absent() {
    let response = r#"{
        "data": {
            "__schema": {
                "mutationType": {
                }
            }
        }
    }"#;
    let schema = Schema::from_str(&response).unwrap();
    assert!(schema.get_mutation_name().is_none());
}

#[test]
fn from_str_should_have_no_subscription_type_when_none() {
    let response = r#"{
        "data": {
            "__schema": {
            }
        }
    }"#;
    let schema = Schema::from_str(&response).unwrap();
    assert!(schema.subscription_type.is_none());
}

#[test]
fn from_str_should_have_subscription_type_when_some() {
    let response = r#"{
        "data": {
            "__schema": {
                "subscriptionType": {
                }
            }
        }
    }"#;
    let schema = Schema::from_str(&response).unwrap();
    assert!(schema.subscription_type.is_some());
}

#[test]
fn from_str_should_have_subscription_type_name_when_present() {
    let response = r#"{
        "data": {
            "__schema": {
                "subscriptionType": {
                    "name": "subscription"
                }
            }
        }
    }"#;
    let schema = Schema::from_str(&response).unwrap();
    assert_eq!("subscription", schema.subscription_type.unwrap().name.unwrap());
}

#[test]
fn from_str_should_return_some_subscription_name_when_present() {
    let response = r#"{
        "data": {
            "__schema": {
                "subscriptionType": {
                    "name": "subscription"
                }
            }
        }
    }"#;
    let schema = Schema::from_str(&response).unwrap();
    assert!(schema.get_subscription_name().is_some());
    assert_eq!("subscription", schema.get_subscription_name().unwrap());
}

#[test]
fn from_str_should_return_none_subscription_name_when_absent() {
    let response = r#"{
        "data": {
            "__schema": {
            }
        }
    }"#;
    let schema = Schema::from_str(&response).unwrap();
    assert!(schema.get_subscription_name().is_none());
}

#[test]
fn from_str_should_return_none_subscription_name_when_name_absent() {
    let response = r#"{
        "data": {
            "__schema": {
                "subscriptionType": {
                }
            }
        }
    }"#;
    let schema = Schema::from_str(&response).unwrap();
    assert!(schema.get_subscription_name().is_none());
}

#[test]
fn from_str_should_return_none_when_no_types() {
    let response = r#"{
    "data": {
        "__schema": {
        }
    }
}"#;
    let schema = Schema::from_str(&response).unwrap();
    assert!(schema.get_type("hello").is_none());
}

#[test]
fn from_str_should_return_none_when_type_has_no_name() {
    let response = r#"{
    "data": {
        "__schema": {
            "types": [
                {
                    "kind": "SCALAR"
                }
            ]
        }
    }
}"#;
    let schema = Schema::from_str(&response).unwrap();
    assert!(schema.get_type("hello").is_none());
}

#[test]
fn from_str_should_return_none_when_no_type_of_name() {
    let response = r#"{
    "data": {
        "__schema": {
            "types": [
                {
                    "name": "you're not my"
                }
            ]
        }
    }
}"#;
    let schema = Schema::from_str(&response).unwrap();
    assert!(schema.get_type("hello").is_none());
}

#[test]
fn from_str_should_return_some_when_type_of_name() {
    let response = r#"{
    "data": {
        "__schema": {
            "types": [
                {
                    "name": "you're not my"
                }
            ]
        }
    }
}"#;
    let schema = Schema::from_str(&response).unwrap();
    assert!(schema.get_type("you're not my").is_some());
}

#[test]
fn get_type_should_return_first_match_when_names_repeat() {
    let response = r#"{
    "data": {
        "__schema": {
            "types": [
                {
                    "name": "Twin",
                    "description": "the first"
                },
                {
                    "name": "Twin",
                    "description": "the second"
                }
            ]
        }
    }
}"#;
    let schema = Schema::from_str(&response).unwrap();
    let first = schema.get_type("Twin").unwrap();
    assert_eq!("the first", first.description.as_ref().unwrap());
    let again = schema.get_type("Twin").unwrap();
    assert_eq!("the first", again.description.as_ref().unwrap());
}

#[test]
fn from_schema_should_report_not_yet_implemented() {
    match Schema::from_schema("schema.graphql") {
        Ok(_) => assert!(false, "native SDL input is not implemented"),
        Err(err) => assert_eq!("not yet implemented", err.message()),
    }
}

#[test]
fn get_types_of_kind_should_return_only_types_of_kind() {
    let response = r#"{
    "data": {
        "__schema": {
            "types": [
                {
                    "kind": "FOO"
                },
                {
                    "kind": "BAR"
                },
                {
                    "kind": "FOO"
                },
                {
                    "name": "FOO"
                }
            ]
        }
    }
}"#;
    let schema = Schema::from_str(&response).unwrap();
    assert_eq!(2, schema.get_types_of_kind("FOO").len());
}

#[test]
fn get_types_of_kind_should_return_empty_when_types_are_none() {
    let response = r#"{
        "data": {
            "__schema": {
            }
        }
    }"#;
    let schema = Schema::from_str(&response).unwrap();
    assert_eq!(0, schema.get_types_of_kind("FOO").len());
}

#[test]
fn get_types_of_kind_should_return_empty_when_no_types_match() {
    let response = r#"{
    "data": {
        "__schema": {
            "types": [
                {
                    "kind": "FOO"
                },
                {
                    "kind": "FOO"
                },
                {
                    "name": "FOO"
                }
            ]
        }
    }
}"#;
    let schema = Schema::from_str(&response).unwrap();
    assert_eq!(0, schema.get_types_of_kind("BAR").len());
}

#[test]
fn typeref_is_required_should_return_false_when_kind_is_none() {
    let tr = TypeRef { name: None, kind: None, of_type: None };
    assert!(!tr.is_required());
}

#[test]
fn typeref_is_required_should_return_false_when_kind_is_not_non_null() {
    let tr = TypeRef { name: None, kind: Some("foo".to_string()), of_type: None };
    assert!(!tr.is_required());
}

#[test]
fn typeref_is_required_should_return_true_when_kind_is_non_null() {
    let tr = TypeRef { name: None, kind: Some("NON_NULL".to_string()), of_type: None };
    assert!(tr.is_required());
}

#[test]
fn typeref_is_list_should_return_false_when_kind_is_none() {
    let tr = TypeRef { name: None, kind: None, of_type: None };
    assert!(!tr.is_list());
}

#[test]
fn typeref_is_list_should_return_false_when_kind_is_not_non_null() {
    let tr = TypeRef { name: None, kind: Some("foo".to_string()), of_type: None };
    assert!(!tr.is_list());
}

#[test]
fn typeref_is_list_should_return_true_when_kind_is_non_null() {
    let tr = TypeRef { name: None, kind: Some("LIST".to_string()), of_type: None };
    assert!(tr.is_list());
}

#[test]
fn typeref_decorated_name_should_return_empty_when_none() {
    let tr = TypeRef { name: None, kind: None, of_type: None };
    assert_eq!("", tr.get_decorated_name());
}

#[test]
fn typeref_decorated_name_should_return_name_when_not_required() {
    let tr = TypeRef { name: Some("myName".to_string()), kind: None, of_type: None };
    assert_eq!("myName", tr.get_decorated_name());
}

#[test]
fn typeref_decorated_name_should_return_name_with_exclamation_when_required() {
    let tr = TypeRef {
        name: Some("myName".to_string()),
        kind: Some("NON_NULL".to_string()),
        of_type: None,
    };
    assert_eq!("myName!", tr.get_decorated_name());
}

#[test]
fn typeref_decorated_name_should_return_name_with_brackets_when_list() {
    let tr = TypeRef {
        name: Some("myName".to_string()),
        kind: Some("LIST".to_string()),
        of_type: None,
    };
    assert_eq!("[myName]", tr.get_decorated_name());
}

#[test]
fn typeref_decorated_name_should_return_name_with_brackets_and_exclamation_when_list_and_required()
{
    let tr = TypeRef {
        name: None,
        kind: Some("LIST".to_string()),
        of_type: Some(Box::new(TypeRef {
            kind: Some("NON_NULL".to_string()),
            name: Some("myName".to_string()),
            of_type: None,
        })),
    };
    assert_eq!("[myName!]", tr.get_decorated_name());
}

#[test]
fn typeref_decorated_name_should_return_name_with_brackets_and_exclamation_outside_when_list_and_required(
) {
    let tr = TypeRef {
        name: None,
        kind: Some("NON_NULL".to_string()),
        of_type: Some(Box::new(TypeRef {
            kind: Some("LIST".to_string()),
            name: Some("myName".to_string()),
            of_type: None,
        })),
    };
    assert_eq!("[myName]!", tr.get_decorated_name());
}

#[test]
fn typeref_decorated_name_should_return_name_with_brackets_and_two_exclamation_when_list_and_required(
) {
    let tr = TypeRef {
        name: None,
        kind: Some("NON_NULL".to_string()),
        of_type: Some(Box::new(TypeRef {
            kind: Some("LIST".to_string()),
            name: None,
            of_type: Some(Box::new(TypeRef {
                kind: Some("NON_NULL".to_string()),
                name: Some("myName".to_string()),
                of_type: None,
            })),
        })),
    };
    assert_eq!("[myName!]!", tr.get_decorated_name());
}

#[test]
fn typeref_decorated_name_should_return_name_with_brackets_when_not_scalar() {
    let tr = TypeRef {
        name: None,
        kind: Some("LIST".to_string()),
        of_type: Some(Box::new(TypeRef {
            kind: Some("INPUT_OBJECT".to_string()),
            name: Some("MyInputObject".to_string()),
            of_type: None,
        })),
    };
    assert_eq!("[MyInputObject]", tr.get_decorated_name());
}

fn deep_unnamed_chain(levels: usize) -> TypeRef {
    let mut tr = TypeRef { name: None, kind: None, of_type: None };
    for _ in 0..levels {
        tr = TypeRef { name: None, kind: None, of_type: Some(Box::new(tr)) };
    }
    tr
}

#[test]
fn typeref_decorated_name_should_short_circuit_when_nested_too_deep() {
    let tr = deep_unnamed_chain(8);
    assert_eq!("", tr.get_decorated_name());
}

#[test]
fn typeref_actual_name_should_short_circuit_when_nested_too_deep() {
    let tr = deep_unnamed_chain(8);
    assert_eq!("", tr.get_actual_name());
}

#[test]
fn typeref_decorated_name_should_round_trip_wrapper_syntax() {
    let non_null_id = TypeRef {
        name: None,
        kind: Some("NON_NULL".to_string()),
        of_type: Some(Box::new(TypeRef {
            name: Some("ID".to_string()),
            kind: Some("SCALAR".to_string()),
            of_type: None,
        })),
    };
    assert_eq!("ID!", non_null_id.get_decorated_name());
    let list_non_null_id = TypeRef {
        name: None,
        kind: Some("LIST".to_string()),
        of_type: Some(Box::new(non_null_id)),
    };
    assert_eq!("[ID!]", list_non_null_id.get_decorated_name());
    let full = TypeRef {
        name: None,
        kind: Some("NON_NULL".to_string()),
        of_type: Some(Box::new(list_non_null_id)),
    };
    assert_eq!("[ID!]!", full.get_decorated_name());
}

#[test]
fn typeref_actual_kind_should_return_empty_when_none() {
    let tr = TypeRef { name: None, kind: None, of_type: None };
    assert_eq!("", tr.get_actual_kind());
}

#[test]
fn typeref_actual_kind_should_return_kind_when_of_type_is_none() {
    let tr = TypeRef { name: None, kind: Some("SCALAR".to_string()), of_type: None };
    assert_eq!("SCALAR", tr.get_actual_kind());
}

#[test]
fn typeref_actual_kind_should_return_nested_kind_when_of_type_is_some() {
    let tr = TypeRef {
        name: None,
        kind: Some("NON_NULL".to_string()),
        of_type: Some(Box::new(TypeRef {
            name: None,
            kind: Some("OBJECT".to_string()),
            of_type: None,
        })),
    };
    assert_eq!("OBJECT", tr.get_actual_kind());
}

#[test]
fn typeref_actual_kind_should_return_third_nested_kind_when_of_type_is_some() {
    let tr = TypeRef {
        name: None,
        kind: Some("NON_NULL".to_string()),
        of_type: Some(Box::new(TypeRef {
            name: None,
            kind: Some("LIST".to_string()),
            of_type: Some(Box::new(TypeRef {
                name: None,
                kind: Some("OBJECT".to_string()),
                of_type: None,
            })),
        })),
    };
    assert_eq!("OBJECT", tr.get_actual_kind());
}

#[test]
fn typeref_actual_kind_should_short_circuit_when_nested_too_deep() {
    let tr = deep_unnamed_chain(8);
    assert_eq!("", tr.get_actual_kind());
}
