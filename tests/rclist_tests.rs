use rclist::RcList;

#[test]
fn test_integer() {
    let empty = RcList::new();

    let s = RcList::new_append(1u8, &empty);
    let s = RcList::new_append(2, &s);
    let s1 = RcList::new_append(3, &s);
    let s2 = RcList::new_append(4, &s);

    let vempty: Vec<u8> = empty.iter().collect().iter().map(|r| **r).collect();
    let v1: Vec<u8> = s1.iter().collect().iter().map(|r| **r).collect();
    let v2: Vec<u8> = s2.iter().collect().iter().map(|r| **r).collect();

    assert_eq!(vempty, []);
    assert_eq!(v1, [3, 2, 1]);
    assert_eq!(v2, [4, 2, 1]);
}

#[test]
fn test_str() {
    let empty = RcList::new();

    let s = RcList::new_append("1", &empty);
    let s = RcList::new_append("2", &s);
    let s1 = RcList::new_append("3", &s);
    let s2 = RcList::new_append("4", &s);

    let vempty: Vec<&str> = empty.iter().collect().iter().map(|r| **r).collect();
    let v1: Vec<&str> = s1.iter().collect().iter().map(|r| **r).collect();
    let v2: Vec<&str> = s2.iter().collect().iter().map(|r| **r).collect();

    let empty_vec: Vec<&str> = vec!();
    assert_eq!(vempty, empty_vec);
    assert_eq!(v1, ["3", "2", "1"]);
    assert_eq!(v2, ["4", "2", "1"]);
}

#[test]
fn test_string() {
    let empty = RcList::new();

    let s = RcList::new_append("1".to_string(), &empty);
    let s = RcList::new_append("2".to_string(), &s);
    let s1 = RcList::new_append("3".to_string(), &s);
    let s2 = RcList::new_append("4".to_string(), &s);

    let vempty: Vec<String> = empty.iter().collect().iter().map(|r| (**r).clone()).collect();
    let v1: Vec<String> = s1.iter().collect().iter().map(|r| (**r).clone()).collect();
    let v2: Vec<String> = s2.iter().collect().iter().map(|r| (**r).clone()).collect();

    let empty_vec: Vec<String> = vec!();
    assert_eq!(vempty, empty_vec);
    assert_eq!(v1, ["3", "2", "1"]);
    assert_eq!(v2, ["4", "2", "1"]);
}

#[test]
fn test_weak() {
    let (s1, s2) = {
        let empty = RcList::new();

        let s = RcList::new_append(1u8, &empty);
        let s = RcList::new_append(2, &s);
        let s1 = RcList::new_append_weak(3, &s);
        let s2 = RcList::new_append_weak(4, &s);

        (s1, s2)
    };

    let v1: Vec<u8> = s1.iter().collect().iter().map(|r| **r).collect();
    let v2: Vec<u8> = s2.iter().collect().iter().map(|r| **r).collect();

    assert_eq!(v1, [3]);
    assert_eq!(v2, [4]);
}

fn walk(list: &RcList<u8>) -> Vec<u8> {
    list.iter().collect().iter().map(|r| **r).collect()
}

#[test]
fn weak_tail_is_kept_while_held() {
    let empty = RcList::new();
    let s = RcList::new_append(1u8, &empty);
    let s = RcList::new_append(2, &s);
    let w = RcList::new_append_weak(3, &s);
    assert_eq!(walk(&w), [3, 2, 1]);
    assert_eq!(walk(&s), [2, 1]);
}

#[test]
fn weak_tail_kept_by_clone() {
    let w = {
        let empty = RcList::new();
        let s = RcList::new_append(1u8, &empty);
        let keep = s.clone();
        let w = RcList::new_append_weak(2, &s);
        drop(s);
        assert_eq!(walk(&w), [2, 1]);
        drop(keep);
        w
    };
    assert_eq!(walk(&w), [2]);
}

#[test]
fn weak_append_onto_empty() {
    let empty = RcList::new();
    let w = RcList::new_append_weak(7u8, &empty);
    assert_eq!(walk(&w), [7]);
    assert_eq!(walk(&empty), []);
}

#[test]
fn strong_link_after_weak_link_survives() {
    // 3 -> (weak) 2 -> 1; then 4 -> 3 strongly.
    let top = {
        let empty = RcList::new();
        let s = RcList::new_append(1u8, &empty);
        let s = RcList::new_append(2, &s);
        let w = RcList::new_append_weak(3, &s);
        let top = RcList::new_append(4, &w);
        assert_eq!(walk(&top), [4, 3, 2, 1]);
        top
    };
    assert_eq!(walk(&top), [4, 3]);
}

#[test]
fn append_is_value_then_base() {
    let empty = RcList::new();
    let a = RcList::new_append(5u8, &empty);
    let b = RcList::new_append(6, &a);
    let c = RcList::new_append(9, &b);
    let mut expected = vec![9u8];
    expected.extend(walk(&b));
    assert_eq!(walk(&c), expected);
}

#[test]
fn append_leaves_base_unchanged() {
    let empty = RcList::new();
    let a = RcList::new_append(1u8, &empty);
    let b = RcList::new_append(2, &a);
    let before = walk(&b);
    let _c = RcList::new_append(3, &b);
    let _d = RcList::new_append_weak(4, &b);
    assert_eq!(walk(&b), before);
    assert_eq!(before, [2, 1]);
}

#[test]
fn empty_walks_to_nothing() {
    let empty: RcList<u8> = RcList::new();
    assert_eq!(walk(&empty), []);
    let mut it = empty.iter();
    assert!(it.next().is_none());
}

#[test]
fn clone_walks_alike() {
    let empty = RcList::new();
    let a = RcList::new_append(1u8, &empty);
    let b = RcList::new_append(2, &a);
    let copy = b.clone();
    assert_eq!(walk(&copy), walk(&b));
    assert_eq!(walk(&copy), [2, 1]);
}

#[test]
fn walking_twice_agrees() {
    let empty = RcList::new();
    let a = RcList::new_append(1u8, &empty);
    let b = RcList::new_append_weak(2, &a);
    let first = walk(&b);
    let second = walk(&b);
    assert_eq!(first, second);
    assert_eq!(first, [2, 1]);
}

#[test]
fn next_after_end_stays_none() {
    let empty = RcList::new();
    let a = RcList::new_append(1u8, &empty);
    let mut it = a.iter();
    let first = it.next();
    assert_eq!(first.map(|r| *r), Some(1));
    assert!(it.next().is_none());
    assert!(it.next().is_none());
    assert!(it.next().is_none());
}

#[test]
fn next_stays_none_after_freed_tail() {
    let w = {
        let empty = RcList::new();
        let a = RcList::new_append(1u8, &empty);
        RcList::new_append_weak(2, &a)
    };
    let mut it = w.iter();
    assert_eq!(it.next().map(|r| *r), Some(2));
    assert!(it.next().is_none());
    assert!(it.next().is_none());
}

#[test]
fn entry_outlives_its_list() {
    let r = {
        let empty = RcList::new();
        let a = RcList::new_append("kept".to_string(), &empty);
        let mut it = a.iter();
        it.next().unwrap()
    };
    assert_eq!(*r, "kept");
}
