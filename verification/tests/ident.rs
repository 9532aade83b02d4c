use book_handler::handler::accept_record;
use book_handler::ident::is_valid_v4;
use book_handler::record::Book;

fn fresh_id() -> String {
    let book = Book::new(String::from("Dune"), String::from("Frank Herbert"));
    accept_record(Ok(book)).unwrap().record.id.unwrap()
}

#[test]
fn accepts_canonical_version_4_text() {
    assert!(is_valid_v4("123e4567-e89b-42d3-a456-426614174000"));
    assert!(is_valid_v4("00000000-0000-4000-8000-000000000000"));
    assert!(is_valid_v4("ffffffff-ffff-4fff-bfff-ffffffffffff"));
}

#[test]
fn accepts_each_variant_digit() {
    assert!(is_valid_v4("123e4567-e89b-42d3-8456-426614174000"));
    assert!(is_valid_v4("123e4567-e89b-42d3-9456-426614174000"));
    assert!(is_valid_v4("123e4567-e89b-42d3-a456-426614174000"));
    assert!(is_valid_v4("123e4567-e89b-42d3-b456-426614174000"));
}

#[test]
fn rejects_other_variant_digits() {
    assert!(!is_valid_v4("123e4567-e89b-42d3-7456-426614174000"));
    assert!(!is_valid_v4("123e4567-e89b-42d3-c456-426614174000"));
    assert!(!is_valid_v4("123e4567-e89b-42d3-0456-426614174000"));
}

#[test]
fn rejects_other_versions() {
    assert!(!is_valid_v4("123e4567-e89b-12d3-a456-426614174000"));
    assert!(!is_valid_v4("123e4567-e89b-52d3-a456-426614174000"));
    assert!(!is_valid_v4("00000000-0000-0000-0000-000000000000"));
}

#[test]
fn rejects_upper_case_digits() {
    assert!(!is_valid_v4("123E4567-E89B-42D3-A456-426614174000"));
    assert!(!is_valid_v4("123e4567-e89b-42d3-A456-426614174000"));
}

#[test]
fn rejects_wrong_length() {
    assert!(!is_valid_v4(""));
    assert!(!is_valid_v4("123e4567-e89b-42d3-a456-42661417400"));
    assert!(!is_valid_v4("123e4567-e89b-42d3-a456-4266141740000"));
    assert!(!is_valid_v4("123e4567e89b42d3a456426614174000"));
}

#[test]
fn rejects_misplaced_hyphens() {
    assert!(!is_valid_v4("123e45678e89b-42d3-a456-426614174000"));
    assert!(!is_valid_v4("123e4567-e89b042d3-a456-426614174000"));
    assert!(!is_valid_v4("123e4567-e89b-42d3-a456-4266-4174000"));
}

#[test]
fn rejects_characters_that_are_no_digits() {
    assert!(!is_valid_v4("123e4567-e89b-42d3-a456-42661417400g"));
    assert!(!is_valid_v4("123e4567-e89b-42d3-a456-42661417400 "));
    // 36 characters, one of them outside ASCII
    assert!(!is_valid_v4("123e4567-e89b-42d3-a456-42661417400\u{e9}"));
}

#[test]
fn fresh_identifier_is_version_4() {
    for _ in 0..64 {
        let id = fresh_id();
        assert!(is_valid_v4(&id), "{}", id);
        let parsed = uuid::Uuid::parse_str(&id).unwrap();
        assert_eq!(parsed.get_version_num(), 4);
        assert_eq!(parsed.to_string(), id);
    }
}

#[test]
fn validator_agrees_with_the_generator_library() {
    let id = uuid::Uuid::new_v4().to_string();
    assert!(is_valid_v4(&id));
    let nil = uuid::Uuid::nil().to_string();
    assert!(!is_valid_v4(&nil));
    let upper = id.to_uppercase();
    assert_eq!(is_valid_v4(&upper), upper == id);
}

#[test]
fn fresh_identifiers_differ() {
    let first = fresh_id();
    let second = fresh_id();
    assert_ne!(first, second);
}
