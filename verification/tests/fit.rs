use regression::fit::{polynomial_terms, FitError};

#[test]
fn quadratic_through_three_points_has_three_terms() {
    assert_eq!(polynomial_terms(3, 2), Ok(3));
}

#[test]
fn terms_are_one_more_than_the_degree() {
    assert_eq!(polynomial_terms(1, 0), Ok(1));
    assert_eq!(polynomial_terms(1000, 1), Ok(2));
    assert_eq!(polynomial_terms(1000, 3), Ok(4));
    assert_eq!(polynomial_terms(usize::MAX, usize::MAX - 1), Ok(usize::MAX));
}

#[test]
fn degree_at_or_above_the_sample_size_is_singular() {
    assert_eq!(polynomial_terms(2, 2), Err(FitError::SingularDesignMatrix));
    assert_eq!(polynomial_terms(2, 3), Err(FitError::SingularDesignMatrix));
    assert_eq!(polynomial_terms(1, 1), Err(FitError::SingularDesignMatrix));
    assert_eq!(polynomial_terms(usize::MAX, usize::MAX), Err(FitError::SingularDesignMatrix));
}

#[test]
fn empty_sample_determines_no_polynomial() {
    assert_eq!(polynomial_terms(0, 0), Err(FitError::SingularDesignMatrix));
    assert_eq!(polynomial_terms(0, 2), Err(FitError::SingularDesignMatrix));
}
