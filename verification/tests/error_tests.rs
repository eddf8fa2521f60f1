use thrustbench::error::BenchmarkError;

#[test]
fn plain_text_becomes_the_fallback_variant() {
    let err = BenchmarkError::from("something odd".to_string());
    assert_eq!(err, BenchmarkError::Other("something odd".to_string()));
}

#[test]
fn variants_carry_their_payloads() {
    assert_ne!(
        BenchmarkError::ConnectionTimeout(100),
        BenchmarkError::ConnectionTimeout(200)
    );
    assert_ne!(
        BenchmarkError::Io("a".to_string()),
        BenchmarkError::Http("a".to_string())
    );
}
