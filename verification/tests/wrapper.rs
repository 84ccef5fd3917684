use object_safe::Obj;

type Wrapped = Obj<Vec<u8>>;

#[test]
fn new_holds_the_item() {
    let wrapped = Wrapped::new(vec![1, 2, 3]);
    assert_eq!(wrapped.0, vec![1, 2, 3]);
    assert_eq!(Obj::new(5).0, Obj(5).0);
}

#[test]
fn the_wrapper_forwards_to_its_payload() {
    let wrapped = Obj::new(String::from("payload"));
    assert_eq!(wrapped.len(), 7);
    assert_eq!(&*wrapped, "payload");
    assert!(wrapped.starts_with("pay"));
}

#[test]
fn the_wrapper_forwards_writes_to_its_payload() {
    let mut wrapped = Obj::new(vec![1u8]);
    wrapped.push(2);
    *wrapped = {
        let mut longer = wrapped.0.clone();
        longer.push(3);
        longer
    };
    assert_eq!(wrapped.0, vec![1, 2, 3]);
    let mut number = Obj(1i32);
    *number += 41;
    assert_eq!(*number, 42);
}

#[test]
fn the_wrapper_copies_and_clones_as_its_payload() {
    let number = Obj(9u64);
    let copy = number;
    assert_eq!(number.0, copy.0);
    let words = Obj(vec![String::from("a")]);
    let clone = words.clone();
    assert_eq!(words.0, clone.0);
}

#[test]
fn the_wrapper_prints_its_payload() {
    assert_eq!(format!("{:?}", Obj(5)), "Obj(5)");
}
