use gosub_html5::error_logger::{ErrorLogger, ParserError};
use gosub_html5::location::Location;

#[test]
fn test_error_logger() {
    let mut logger = ErrorLogger::new();

    logger.add_error(Location::new(1, 1, 0), "test");
    logger.add_error(Location::new(1, 1, 0), "test");
    logger.add_error(Location::new(1, 1, 0), "test");
    logger.add_error(Location::new(1, 1, 0), "test");
    logger.add_error(Location::new(1, 1, 0), "test");

    assert_eq!(logger.get_errors().len(), 1);
}

#[test]
fn test_error_logger2() {
    let mut logger = ErrorLogger::new();

    logger.add_error(Location::new(1, 1, 0), "test");
    logger.add_error(Location::new(1, 2, 0), "test");
    logger.add_error(Location::new(1, 3, 0), "test");
    logger.add_error(Location::new(1, 4, 0), "test");
    logger.add_error(Location::new(1, 5, 0), "test");

    assert_eq!(logger.get_errors().len(), 5);
}

#[test]
fn test_error_logger3() {
    let mut logger = ErrorLogger::new();

    logger.add_error(Location::new(1, 1, 0), "test");
    logger.add_error(Location::new(1, 2, 0), "test");
    logger.add_error(Location::new(1, 3, 0), "test");
    logger.add_error(Location::new(1, 4, 0), "test");
    logger.add_error(Location::new(1, 5, 0), "test");
    logger.add_error(Location::new(1, 5, 0), "test");
    logger.add_error(Location::new(1, 5, 0), "test");
    logger.add_error(Location::new(1, 5, 0), "test");
    logger.add_error(Location::new(1, 5, 0), "test");

    assert_eq!(logger.get_errors().len(), 5);
}

#[test]
fn test_error_logger4() {
    let mut logger = ErrorLogger::new();

    logger.add_error(Location::new(0, 1, 1), "test");
    logger.add_error(Location::new(0, 1, 2), "test");
    logger.add_error(Location::new(0, 1, 3), "test");
    logger.add_error(Location::new(0, 1, 4), "test");
    logger.add_error(Location::new(0, 1, 5), "test");
    logger.add_error(Location::new(0, 1, 5), "test");
    logger.add_error(Location::new(0, 1, 5), "test");
    logger.add_error(Location::new(0, 1, 5), "test");
    logger.add_error(Location::new(0, 1, 5), "test");
    logger.add_error(Location::new(0, 2, 1), "test");
    logger.add_error(Location::new(0, 2, 2), "test");
    logger.add_error(Location::new(0, 2, 3), "test");
    logger.add_error(Location::new(0, 2, 4), "test");
    logger.add_error(Location::new(0, 2, 5), "test");
    logger.add_error(Location::new(0, 2, 5), "test");
    logger.add_error(Location::new(0, 2, 5), "test");
    logger.add_error(Location::new(0, 2, 5), "test");
    logger.add_error(Location::new(0, 2, 5), "test");

    assert_eq!(logger.get_errors().len(), 10);
}

#[test]
fn same_code_at_other_location_is_kept() {
    let mut logger = ErrorLogger::new();
    logger.add_error(Location::new(1, 1, 0), "a");
    logger.add_error(Location::new(1, 1, 0), "b");
    logger.add_error(Location::new(1, 1, 0), "a");
    let errors = logger.get_errors();
    assert_eq!(errors.len(), 2);
    assert_eq!(errors[0].message, "a");
    assert_eq!(errors[1].message, "b");
    assert_eq!(logger.len(), 2);
}

#[test]
fn error_codes_are_kebab_case() {
    assert_eq!(ParserError::EofBeforeTagName.as_str(), "eof-before-tag-name");
    assert_eq!(ParserError::NestedComment.as_str(), "nested-comment");
    assert_eq!(ParserError::DuplicateAttribute.as_str(), "duplicate-attribute");
    assert_eq!(
        ParserError::MissingSemicolonAfterCharacterReference.as_str(),
        "missing-semicolon-after-character-reference"
    );
    assert_eq!(ParserError::SurrogateInInputStream.as_str(), "surrogate-in-input-stream");
}
