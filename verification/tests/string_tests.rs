use phalcom::string::{phstring_new, StringObject};

fn reference_hash(text: &str) -> u32 {
    let mut hash = 5381u32;
    for byte in text.bytes() {
        hash = hash.wrapping_mul(33).wrapping_add(byte as u32);
    }
    hash
}

#[test]
fn hash_of_the_empty_string_is_the_seed() {
    assert_eq!(StringObject::calculate_hash(""), 5381);
    assert_eq!(StringObject::from_str("").hash(), 5381);
}

#[test]
fn hash_multiplies_by_33_and_adds_each_byte() {
    assert_eq!(StringObject::calculate_hash("a"), 177670);
    assert_eq!(StringObject::calculate_hash("ab"), 5863208);
    assert_eq!(StringObject::calculate_hash("hello"), 261238937);
}

#[test]
fn hash_wraps_around() {
    let long = "the quick brown fox jumps over the lazy dog, twice over and then some";
    assert_eq!(StringObject::calculate_hash(long), reference_hash(long));
    let other = "\u{00e9}\u{4e2d}\u{1f600}";
    assert_eq!(StringObject::calculate_hash(other), reference_hash(other));
}

#[test]
fn a_string_object_holds_its_text_and_its_hash() {
    let s = StringObject::from_string("phalcom".to_string());
    assert_eq!(s.as_str(), "phalcom");
    assert_eq!(s.value(), "phalcom".to_string());
    assert_eq!(s.hash(), reference_hash("phalcom"));
    let t = StringObject::from_str("phalcom");
    assert!(s.equals(&t));
    assert!(!s.equals(&StringObject::from_str("phalcon")));
    let u = phstring_new("phalcom".to_string());
    assert_eq!(u.as_str(), "phalcom");
    assert_eq!(u.hash(), s.hash());
    let copy = s.clone();
    assert!(copy.equals(&s));
    assert_eq!(copy.hash(), s.hash());
}
