use todo_api::id::Id;
use todo_api::model::{TodoTag, UserTag};

#[test]
fn parse_accepts_lower_case_and_gives_upper_case() {
    let id = Id::<UserTag>::parse("01arz3ndektsv4rrffq69g5fav").unwrap();
    assert_eq!(id.as_str(), "01ARZ3NDEKTSV4RRFFQ69G5FAV");
}

#[test]
fn parse_keeps_canonical_text() {
    let id = Id::<TodoTag>::parse("01ARZ3NDEKTSV4RRFFQ69G5FAV").unwrap();
    assert_eq!(id.value, "01ARZ3NDEKTSV4RRFFQ69G5FAV");
}

#[test]
fn parse_reduces_first_digit_to_three_bits() {
    let id = Id::<TodoTag>::parse("81ARZ3NDEKTSV4RRFFQ69G5FAV").unwrap();
    assert_eq!(id.value, "01ARZ3NDEKTSV4RRFFQ69G5FAV");
}

#[test]
fn parse_refuses_wrong_length() {
    assert!(Id::<UserTag>::parse("01ARZ3NDEKTSV4RRFFQ69G5FA").is_err());
    assert!(Id::<UserTag>::parse("").is_err());
    assert!(Id::<UserTag>::parse("01ARZ3NDEKTSV4RRFFQ69G5FAVV").is_err());
}

#[test]
fn parse_refuses_letters_outside_the_alphabet() {
    assert!(Id::<UserTag>::parse("01ARZ3NDEKTSV4RRFFQ69G5FAI").is_err());
    assert!(Id::<UserTag>::parse("01ARZ3NDEKTSV4RRFFQ69G5FAU").is_err());
    assert!(Id::<UserTag>::parse("01ARZ3NDEKTSV4RRFFQ69G5FA-").is_err());
}

#[test]
fn generated_ids_are_canonical_and_distinct() {
    let a = Id::<TodoTag>::gen();
    let b = Id::<TodoTag>::gen();
    assert_eq!(a.value.len(), 26);
    assert!(a.value.as_bytes()[0] <= b'7');
    assert_ne!(a.value, b.value);
    let again = Id::<TodoTag>::parse(a.as_str()).unwrap();
    assert_eq!(again.value, a.value);
}
