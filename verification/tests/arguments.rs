use elastic_cli::arguments::{parse_arguments, Api, Operation, RawArguments};
use elastic_cli::request::MappingError;
use std::str::FromStr;

fn raw(family: &str, operation: Option<&str>) -> RawArguments {
    RawArguments {
        config: Some("./settings".to_string()),
        family: family.to_string(),
        operation: operation.map(|word| word.to_string()),
        index_name: Some("orders".to_string()),
        body: Some("{\"query\":{}}".to_string()),
        document_type: Some("_doc".to_string()),
        id: Some("42".to_string()),
        page: Some(25),
    }
}

#[test]
fn operation_words_are_read() {
    assert_eq!(Operation::from_str("create"), Ok(Operation::Create));
    assert_eq!(Operation::from_str("read"), Ok(Operation::Read));
    assert_eq!(Operation::from_str("update"), Ok(Operation::Update));
    assert_eq!(Operation::from_str("delete"), Ok(Operation::Delete));
    assert_eq!("delete".parse::<Operation>(), Ok(Operation::Delete));
}

#[test]
fn unknown_operation_word_is_named_in_the_error() {
    assert_eq!(Operation::from_str("patch"), Err("Unknown method: patch".to_string()));
    assert_eq!(Operation::from_str(""), Err("Unknown method: ".to_string()));
    assert_eq!(Operation::from_str("Create"), Err("Unknown method: Create".to_string()));
    assert_eq!(Operation::from_str("creat"), Err("Unknown method: creat".to_string()));
    assert_eq!(Operation::from_str("reads"), Err("Unknown method: reads".to_string()));
}

#[test]
fn operation_words_are_written() {
    assert_eq!(Operation::Create.to_string(), "create");
    assert_eq!(Operation::Read.to_string(), "read");
    assert_eq!(Operation::Update.to_string(), "update");
    assert_eq!(Operation::Delete.to_string(), "delete");
    assert_eq!(Operation::Delete.as_str(), "delete");
}

#[test]
fn operation_word_reads_back() {
    for operation in [Operation::Create, Operation::Read, Operation::Update, Operation::Delete] {
        assert_eq!(Operation::from_str(&operation.to_string()), Ok(operation));
    }
}

#[test]
fn parse_arguments_types_a_document_command() {
    let arguments = parse_arguments(raw("document", Some("update"))).unwrap();
    assert_eq!(arguments.config, Some("./settings".to_string()));
    match arguments.api {
        Api::Document(args) => {
            assert_eq!(args.operation, Operation::Update);
            assert_eq!(args.index_name, Some("orders".to_string()));
            assert_eq!(args.body, Some("{\"query\":{}}".to_string()));
            assert_eq!(args.document_type, Some("_doc".to_string()));
            assert_eq!(args.id, Some("42".to_string()));
            assert_eq!(args.page, Some(25));
        }
        other => panic!("not a document command: {:?}", other),
    }
}

#[test]
fn parse_arguments_selects_each_family() {
    assert!(matches!(parse_arguments(raw("info", Some("read"))).unwrap().api, Api::Info(_)));
    assert!(matches!(parse_arguments(raw("index", Some("create"))).unwrap().api, Api::Index(_)));
    assert!(matches!(
        parse_arguments(raw("document", Some("delete"))).unwrap().api,
        Api::Document(_)
    ));
}

#[test]
fn parse_arguments_reads_when_no_operation_is_given() {
    match parse_arguments(raw("index", None)).unwrap().api {
        Api::Index(args) => assert_eq!(args.operation, Operation::Read),
        other => panic!("not an index command: {:?}", other),
    }
}

#[test]
fn search_with_an_http_verb_is_unsupported() {
    let outcome = parse_arguments(raw("document", Some("GET")));
    assert_eq!(
        outcome.unwrap_err(),
        MappingError::UnsupportedOperation("GET".to_string(), "document".to_string())
    );
}

#[test]
fn unknown_family_supports_no_operation() {
    let outcome = parse_arguments(raw("cluster", Some("read")));
    assert_eq!(
        outcome.unwrap_err(),
        MappingError::UnsupportedOperation("read".to_string(), "cluster".to_string())
    );
    let outcome = parse_arguments(raw("cluster", None));
    assert_eq!(
        outcome.unwrap_err(),
        MappingError::UnsupportedOperation("read".to_string(), "cluster".to_string())
    );
}
