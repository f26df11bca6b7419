use messenger_core::error::{BoxedError, DatabaseError, DomainError};

fn code(code: &str) -> DatabaseError {
    DatabaseError::Database(Some(code.to_string()))
}

#[test]
fn database_failures_are_put_into_domain_terms() {
    let cases = vec![
        (DatabaseError::RowNotFound, "Not found: Resource not found"),
        (code("23505"), "Already exists: Resource already exists"),
        (code("23503"), "Validation error: Referenced resource not found"),
        (code("23514"), "Validation error: Validation constraint failed"),
        (code("40001"), "Internal error: Database operation failed"),
        (DatabaseError::Database(None), "Internal error: Database operation failed"),
        (DatabaseError::PoolTimedOut, "Internal error: Service temporarily unavailable"),
        (DatabaseError::Other, "Internal error: An unexpected error occurred"),
    ];
    for (failure, message) in cases {
        assert_eq!(DomainError::from_sqlx(failure).message(), message);
    }
}

#[test]
fn variants_are_kept_apart() {
    assert!(matches!(DomainError::from_sqlx(DatabaseError::RowNotFound), DomainError::NotFound(_)));
    assert!(matches!(DomainError::from_sqlx(code("23505")), DomainError::AlreadyExists(_)));
    assert!(matches!(DomainError::from_sqlx(code("23503")), DomainError::Validation(_)));
    assert!(matches!(DomainError::from_sqlx(code("235")), DomainError::Internal(_)));
}

#[test]
fn boxed_errors_are_looked_into() {
    assert_eq!(
        DomainError::from_boxed_err(BoxedError::Database(code("23505"))).message(),
        "Already exists: Resource already exists"
    );
    assert_eq!(
        DomainError::from_boxed_err(BoxedError::Other).message(),
        "Internal error: An unexpected error occurred"
    );
}

#[test]
fn messages_carry_a_label_and_the_detail() {
    let d = || "x".to_string();
    assert_eq!(DomainError::Validation(d()).message(), "Validation error: x");
    assert_eq!(DomainError::NotFound(d()).message(), "Not found: x");
    assert_eq!(DomainError::AlreadyExists(d()).message(), "Already exists: x");
    assert_eq!(DomainError::Internal(d()).message(), "Internal error: x");
    assert_eq!(DomainError::Unauthorized(d()).message(), "Unauthorized: x");
    assert_eq!(DomainError::BadRequest(d()).message(), "Bad request: x");
    assert_eq!(DomainError::Conflict(d()).message(), "Conflict: x");
}
