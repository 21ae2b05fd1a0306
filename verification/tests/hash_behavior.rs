//! Runtime behaviour of the generated implementation.
//!
//! The implementations of `std::hash::Hash` written out by hand below are,
//! token for token, the fragments the generator emits for the matching
//! descriptions — the tests assert that correspondence on the generated
//! text — so hashing through them exercises exactly the code a user of the
//! facility would compile.

use std::collections::hash_map::DefaultHasher;
use std::hash::{Hash, Hasher};

use discriminant_hash_derive::description::{GenericParam, TypeDescription, TypeKind, Variant};
use discriminant_hash_derive::generate::discriminant_hash_derive;

// Xyz supports neither hashing nor equality.
struct Xyz;

#[allow(dead_code)]
enum Abc<T> {
    Simple,
    Holder(Xyz),
    Generic(T),
}

impl<T> std::hash::Hash for Abc<T> {
    fn hash<H: std::hash::Hasher>(&self, state: &mut H) {
        std::hash::Hash::hash(&std::mem::discriminant(self), state)
    }
}

#[allow(dead_code)]
enum Never {}

impl std::hash::Hash for Never {
    fn hash<H: std::hash::Hasher>(&self, state: &mut H) {
        std::hash::Hash::hash(&std::mem::discriminant(self), state)
    }
}

#[allow(dead_code)]
enum Only {
    One(Xyz),
}

impl std::hash::Hash for Only {
    fn hash<H: std::hash::Hasher>(&self, state: &mut H) {
        std::hash::Hash::hash(&std::mem::discriminant(self), state)
    }
}

fn my_hash<T>(obj: T) -> u64
where
    T: Hash,
{
    let mut hasher = DefaultHasher::new();
    obj.hash(&mut hasher);
    hasher.finish()
}

fn abc_description() -> TypeDescription {
    TypeDescription {
        name: "Abc".to_string(),
        kind: TypeKind::Enumeration,
        generics: vec![GenericParam::Type { name: "T".to_string(), bounds: String::new() }],
        where_clause: String::new(),
        variants: vec![
            Variant { name: "Simple".to_string(), fields: String::new() },
            Variant { name: "Holder".to_string(), fields: "(Xyz)".to_string() },
            Variant { name: "Generic".to_string(), fields: "(T)".to_string() },
        ],
    }
}

#[test]
fn hand_written_impls_match_generated_text() {
    let abc = discriminant_hash_derive(&abc_description()).unwrap();
    assert_eq!(
        abc,
        "impl<T> std::hash::Hash for Abc<T> { fn hash<H: std::hash::Hasher>(&self, state: &mut H) { std::hash::Hash::hash(&std::mem::discriminant(self), state) } }",
    );

    let never = discriminant_hash_derive(&TypeDescription {
        name: "Never".to_string(),
        kind: TypeKind::Enumeration,
        generics: Vec::new(),
        where_clause: String::new(),
        variants: Vec::new(),
    })
    .unwrap();
    assert_eq!(
        never,
        "impl std::hash::Hash for Never { fn hash<H: std::hash::Hasher>(&self, state: &mut H) { std::hash::Hash::hash(&std::mem::discriminant(self), state) } }",
    );

    let only = discriminant_hash_derive(&TypeDescription {
        name: "Only".to_string(),
        kind: TypeKind::Enumeration,
        generics: Vec::new(),
        where_clause: String::new(),
        variants: vec![Variant { name: "One".to_string(), fields: "(Xyz)".to_string() }],
    })
    .unwrap();
    assert_eq!(
        only,
        "impl std::hash::Hash for Only { fn hash<H: std::hash::Hasher>(&self, state: &mut H) { std::hash::Hash::hash(&std::mem::discriminant(self), state) } }",
    );
}

#[test]
fn same_variant_hashes_alike_across_instantiations() {
    assert_eq!(my_hash(Abc::Simple::<i32>), my_hash(Abc::Simple::<Xyz>));
}

#[test]
fn same_variant_hashes_alike_despite_unhashable_fields() {
    assert_eq!(
        my_hash(Abc::Holder::<i32>(Xyz)),
        my_hash(Abc::Holder::<String>(Xyz)),
    );
}

#[test]
fn same_variant_hashes_alike_despite_different_payloads() {
    assert_eq!(my_hash(Abc::Generic::<i32>(4)), my_hash(Abc::Generic::<i32>(7)));
    assert_eq!(my_hash(Abc::Generic::<i32>(4)), my_hash(Abc::Generic::<Xyz>(Xyz)));
}

#[test]
fn distinct_variants_hash_differently() {
    assert_ne!(my_hash(Abc::Simple::<Xyz>), my_hash(Abc::Generic::<i32>(4)));
    assert_ne!(my_hash(Abc::Simple::<i32>), my_hash(Abc::Holder::<i32>(Xyz)));
    assert_ne!(my_hash(Abc::Holder::<i32>(Xyz)), my_hash(Abc::Generic::<i32>(4)));
}

#[test]
fn single_variant_hash_is_constant() {
    assert_eq!(my_hash(Only::One(Xyz)), my_hash(Only::One(Xyz)));
}

#[test]
fn hashing_is_deterministic_within_a_run() {
    assert_eq!(my_hash(Abc::Generic::<u8>(1)), my_hash(Abc::Generic::<u8>(200)));
    assert_eq!(my_hash(Abc::Simple::<u8>), my_hash(Abc::Simple::<u8>));
}
