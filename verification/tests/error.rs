use arc_core::error::ComponentError;

#[test]
fn every_error_has_its_message() {
    assert_eq!(ComponentError::AlreadyExists.message(), "Account Already Exists!");
    assert_eq!(ComponentError::NotFound.message(), "Not Found!");
    assert_eq!(ComponentError::Unauthorized.message(), "Unauthorized!");
    assert_eq!(ComponentError::NotEmpty.message(), "Entity Not Empty!");
    assert_eq!(ComponentError::PayloadTooLarge.message(), "Invalid Data Length!");
    assert_eq!(ComponentError::SizeOverflow.message(), "Size Overflow!");
    assert_eq!(ComponentError::DuplicateSchema.message(), "Duplicate Schema!");
    assert_eq!(ComponentError::AlreadyLinked.message(), "Already Linked!");
    assert_eq!(ComponentError::AlreadyInitialized.message(), "Already Initialized!");
}

#[test]
fn errors_compare_by_kind() {
    assert_eq!(ComponentError::NotFound, ComponentError::NotFound);
    assert_ne!(ComponentError::NotFound, ComponentError::Unauthorized);
}
