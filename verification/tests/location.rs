use table_registrar::location::{letter, object_uri, scheme_char};

#[test]
fn accepts_a_bucket_with_a_key() {
    assert!(object_uri("s3://ally-security-development-events/delta/events"));
}

#[test]
fn accepts_a_bare_bucket() {
    assert!(object_uri("s3://b"));
    assert!(object_uri("gs://bucket"));
    assert!(object_uri("abfss+x-1.0://container/path"));
}

#[test]
fn refuses_an_empty_location() {
    assert!(!object_uri(""));
}

#[test]
fn refuses_a_missing_scheme() {
    assert!(!object_uri("://bucket/key"));
    assert!(!object_uri("bucket/key"));
    assert!(!object_uri("/delta/events"));
}

#[test]
fn refuses_a_scheme_that_starts_with_no_letter() {
    assert!(!object_uri("3s://bucket"));
    assert!(!object_uri("+s3://bucket"));
}

#[test]
fn refuses_a_scheme_with_a_foreign_character() {
    assert!(!object_uri("s 3://bucket"));
    assert!(!object_uri("s_3://bucket"));
    assert!(!object_uri("s\u{e9}://bucket"));
}

#[test]
fn refuses_a_broken_separator() {
    assert!(!object_uri("s3:/bucket"));
    assert!(!object_uri("s3:bucket"));
    assert!(!object_uri("s3//bucket"));
    assert!(!object_uri("s3:"));
    assert!(!object_uri("s3:/"));
}

#[test]
fn refuses_an_empty_bucket() {
    assert!(!object_uri("s3://"));
    assert!(!object_uri("s3:///key"));
}

#[test]
fn counts_characters_not_bytes() {
    assert!(object_uri("s3://\u{e9}"));
    assert!(object_uri("s3://b/\u{1F600}"));
}

#[test]
fn tells_letters_and_scheme_characters() {
    assert!(letter('a') && letter('z') && letter('A') && letter('Z'));
    assert!(!letter('0') && !letter('`') && !letter('{') && !letter('@') && !letter('['));
    assert!(scheme_char('0') && scheme_char('9') && scheme_char('+') && scheme_char('-'));
    assert!(scheme_char('.') && scheme_char('q'));
    assert!(!scheme_char(':') && !scheme_char('/') && !scheme_char('_') && !scheme_char(' '));
}
