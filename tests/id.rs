use std::cmp::Ordering;
use std::collections::hash_map::DefaultHasher;
use std::hash::{Hash, Hasher};

use typed_id::id::{ErasedId, Id};
use typed_id::text::compare_text;

struct Task;
struct Project;

fn hash_of<T: Hash>(value: &T) -> u64 {
    let mut hasher = DefaultHasher::new();
    value.hash(&mut hasher);
    hasher.finish()
}

#[test]
fn new_shows_text() {
    let id = Id::<Task>::new("task-42".to_string());
    assert_eq!(id.as_str(), "task-42");
}

#[test]
fn erase_then_with_owner_keeps_text() {
    let id = Id::<Task>::new("t1".to_string());
    let restored: Id<Project> = id.erase().with_owner::<Project>();
    assert_eq!(restored.as_str(), "t1");
}

#[test]
fn equal_texts_give_equal_ids() {
    assert!(Id::<Task>::new("a".to_string()) == Id::<Task>::new("a".to_string()));
}

#[test]
fn different_texts_give_different_ids() {
    assert!(Id::<Task>::new("a".to_string()) != Id::<Task>::new("b".to_string()));
    assert!(Id::<Task>::new("a".to_string()) != Id::<Task>::new("A".to_string()));
    assert!(Id::<Task>::new("".to_string()) != Id::<Task>::new(" ".to_string()));
}

#[test]
fn order_follows_text() {
    assert!(Id::<Task>::new("a".to_string()) < Id::<Task>::new("b".to_string()));
    assert!(!(Id::<Task>::new("b".to_string()) < Id::<Task>::new("a".to_string())));
    assert!(!(Id::<Task>::new("a".to_string()) < Id::<Task>::new("a".to_string())));
}

#[test]
fn prefix_comes_first() {
    let short = Id::<Task>::new("ab".to_string());
    let long = Id::<Task>::new("abc".to_string());
    assert_eq!(short.partial_cmp(&long), Some(Ordering::Less));
    assert_eq!(long.partial_cmp(&short), Some(Ordering::Greater));
    let empty = Id::<Task>::new(String::new());
    assert_eq!(empty.partial_cmp(&short), Some(Ordering::Less));
}

#[test]
fn order_is_byte_wise() {
    // 'Z' (0x5a) before 'a' (0x61); 'é' (0xc3 0xa9) after every ASCII byte.
    let upper = Id::<Task>::new("Z".to_string());
    let lower = Id::<Task>::new("a".to_string());
    let accented = Id::<Task>::new("é".to_string());
    assert!(upper < lower);
    assert!(lower < accented);
    assert_eq!(compare_text("é", "z"), Ordering::Greater);
    assert_eq!(compare_text("日本", "日本語"), Ordering::Less);
    assert_eq!(compare_text("日本", "日本"), Ordering::Equal);
}

#[test]
fn cmp_agrees_with_partial_cmp() {
    let texts = ["", "a", "ab", "b", "Z", "é", "日本"];
    for x in texts.iter() {
        for y in texts.iter() {
            let a = Id::<Task>::new(x.to_string());
            let b = Id::<Task>::new(y.to_string());
            assert_eq!(a.partial_cmp(&b), Some(a.cmp(&b)));
            assert_eq!(a.cmp(&b), x.cmp(y));
            assert_eq!(a == b, x == y);
        }
    }
}

#[test]
fn change_owner_keeps_text() {
    let moved: Id<Project> = Id::<Task>::new("x".to_string()).change_owner::<Project>();
    assert_eq!(moved.as_str(), "x");
}

#[test]
fn empty_text_is_an_identifier() {
    let id = Id::<Task>::new(String::new());
    assert_eq!(id.as_str(), "");
    let back: String = id.into();
    assert_eq!(back, "");
}

#[test]
fn text_round_trip_through_string() {
    let id: Id<Task> = Id::from("task-7".to_string());
    assert_eq!(id.as_str(), "task-7");
    let back: String = String::from(id);
    assert_eq!(back, "task-7");
}

#[test]
fn equal_ids_hash_alike() {
    let a = Id::<Task>::new("same".to_string());
    let b = Id::<Task>::new("same".to_string());
    assert!(a == b);
    assert_eq!(hash_of(&a), hash_of(&b));
    let c = ErasedId::new("same".to_string());
    let d = ErasedId::new("same".to_string());
    assert!(c == d);
    assert_eq!(hash_of(&c), hash_of(&d));
}

#[test]
fn id_hash_is_text_hash() {
    let id = Id::<Task>::new("hashed".to_string());
    assert_eq!(hash_of(&id), hash_of(&"hashed".to_string()));
    assert_ne!(hash_of(&id), hash_of(&Id::<Task>::new("other".to_string())));
}

#[test]
fn clone_is_equal_and_independent() {
    let original = Id::<Task>::new("dup".to_string());
    let copy = original.clone();
    assert!(copy == original);
    assert_eq!(copy.as_str(), "dup");
    assert_ne!(copy.as_str().as_ptr(), original.as_str().as_ptr());
    drop(original);
    assert_eq!(copy.as_str(), "dup");
}

#[test]
fn erased_clone_is_equal_and_independent() {
    let original = ErasedId::new("dup".to_string());
    let copy = original.clone();
    assert!(copy == original);
    assert_ne!(copy.as_str().as_ptr(), original.as_str().as_ptr());
}

#[test]
fn to_string_shows_text_unchanged() {
    let id = Id::<Task>::new("task \"1\"".to_string());
    assert_eq!(id.to_string(), "task \"1\"");
    let erased = ErasedId::new("e-1".to_string());
    assert_eq!(erased.to_string(), "e-1");
}

#[test]
fn erased_new_and_conversions() {
    let erased = ErasedId::new("raw".to_string());
    assert_eq!(erased.as_str(), "raw");
    let from_string: ErasedId = ErasedId::from("raw".to_string());
    assert!(from_string == erased);
    let back: String = String::from(erased);
    assert_eq!(back, "raw");
    let from_id: ErasedId = ErasedId::from(Id::<Task>::new("typed".to_string()));
    assert_eq!(from_id.as_str(), "typed");
}

#[test]
fn erased_equality_and_order_follow_text() {
    let a = ErasedId::new("a".to_string());
    let b = ErasedId::new("b".to_string());
    assert!(a < b);
    assert!(a != b);
    assert!(a == ErasedId::new("a".to_string()));
    assert_eq!(a.partial_cmp(&b), Some(a.cmp(&b)));
    assert_eq!(b.cmp(&a), Ordering::Greater);
}

#[test]
fn erase_keeps_text() {
    let erased = Id::<Project>::new("p-9".to_string()).erase();
    assert_eq!(erased.as_str(), "p-9");
    assert!(erased == ErasedId::new("p-9".to_string()));
}

#[test]
fn ids_sort_by_text() {
    let mut ids = vec![
        Id::<Task>::new("c".to_string()),
        Id::<Task>::new("a".to_string()),
        Id::<Task>::new("b".to_string()),
    ];
    ids.sort();
    let texts: Vec<&str> = ids.iter().map(|id| id.as_str()).collect();
    assert_eq!(texts, vec!["a", "b", "c"]);
}

#[test]
fn cmp_is_a_total_order() {
    let texts = ["", "a", "ab", "b", "Z", "é", "日本"];
    for x in texts.iter() {
        for y in texts.iter() {
            let a = Id::<Task>::new(x.to_string());
            let b = Id::<Task>::new(y.to_string());
            assert_eq!(b.cmp(&a), a.cmp(&b).reverse());
            assert_eq!(a.cmp(&b) == Ordering::Equal, a == b);
            for z in texts.iter() {
                let c = Id::<Task>::new(z.to_string());
                if a.cmp(&b) == Ordering::Less && b.cmp(&c) == Ordering::Less {
                    assert_eq!(a.cmp(&c), Ordering::Less);
                }
            }
        }
    }
}
