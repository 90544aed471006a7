use dynamic_sequence::DynamicSequence;

#[test]
fn new_vec_with_macro() {
    let v = DynamicSequence::from_vec(vec![1, 2, 3]);
    assert_eq!([1, 2, 3].to_vec(), v.into_vec());
}

#[test]
fn new_vec() {
    let mut v = DynamicSequence::new();
    v.push(1);
    v.push(2);
    v.push(3);
    assert_eq!(vec![1, 2, 3], v.as_slice());
    assert_eq!([1, 2, 3].to_vec(), v.into_vec());
}

#[test]
fn new_empty_vec_with_0_capacity() {
    let v1: DynamicSequence<i32> = DynamicSequence::new();
    let v2: DynamicSequence<i32> = DynamicSequence::from_vec(vec![]);

    assert_eq!(v1.len(), 0);
    assert_eq!(v2.len(), 0);

    assert!(v1.is_empty());
    assert!(v2.is_empty());

    assert!(v1.capacity() == 0);
    assert!(v2.capacity() == 0);
}

#[test]
fn new_empty_vec_with_some_capacity() {
    let v: DynamicSequence<i32> = DynamicSequence::with_capacity(10);

    assert_eq!(v.len(), 0);
    assert!(v.is_empty());
    assert!(v.capacity() >= 10);
}

#[test]
fn insert_into_vector() {
    let mut v = DynamicSequence::new();
    v.push(1);
    v.push(10);
    assert_eq!(vec![1, 10], v.as_slice());
}

#[test]
fn remove_last_element_from_vec() {
    let mut v = DynamicSequence::from_vec(vec![10, 20, 30]);

    assert_eq!(v.pop(), Some(30));
    assert_eq!(vec![10, 20], v.as_slice());

    v.pop();
    v.pop();
    assert_eq!(v.into_vec(), Vec::new());
}

#[test]
fn remove_element_from_any_position() {
    let mut v = DynamicSequence::from_vec(vec![1, 2, 3, 4, 5]);

    assert_eq!(v.remove(2), Ok(3));
    assert_eq!(v.len(), 4);
    assert_eq!(vec![1, 2, 4, 5], v.as_slice());
}

#[test]
fn insert_element_at_any_position() {
    let mut v = DynamicSequence::from_vec(vec![1, 2, 3, 4, 5]);

    assert_eq!(v.insert(1, 10), Ok(()));
    assert_eq!(vec![1, 10, 2, 3, 4, 5], v.as_slice());
}

#[test]
fn concatenate_two_vec() {
    let mut v1 = DynamicSequence::from_vec(vec![1, 2, 3]);
    let mut v2 = DynamicSequence::from_vec(vec![4, 5, 6]);
    v1.append(&mut v2);

    assert_eq!(v1.as_slice(), vec![1, 2, 3, 4, 5, 6]);
    assert_eq!(v2.as_slice(), vec![]);
}

#[test]
fn get_len_of_vec() {
    let v = DynamicSequence::from_vec(vec![1, 2, 3]);
    assert_eq!(v.len(), 3);
}

#[test]
fn check_if_vec_is_empty() {
    let mut v: DynamicSequence<i32> = DynamicSequence::new();
    assert_eq!(v.is_empty(), true);

    v.push(1);
    assert_eq!(v.is_empty(), false);
}

#[test]
fn get_capacity_of_vec() {
    let mut v = DynamicSequence::from_vec(vec![1, 2, 3]);
    assert_eq!(v.capacity(), 3);

    v.pop();
    v.pop();
    v.pop();
    assert_eq!(v.capacity(), 3);
    assert_eq!(v.is_empty(), true);
}

#[test]
fn reserve_capacity() {
    let mut v: DynamicSequence<i32> = DynamicSequence::new();
    v.reserve(10);
    assert!(v.capacity() >= 10);
}

#[test]
fn safe_reserve_capacity() {
    let mut v: DynamicSequence<i32> = DynamicSequence::new();
    let _ = v.try_reserve(10);
    assert!(v.capacity() >= 10);
}

#[test]
fn reduce_capacity_of_vec() {
    let mut v = DynamicSequence::from_vec(vec![1, 2, 3]);
    v.reserve(100);
    assert!(v.capacity() >= 100);

    v.shrink_to_fit();
    assert!(v.capacity() <= 100);
    assert!(v.capacity() >= 3);
}

#[test]
fn reduce_capacity_of_vec_min_to() {
    let mut v = DynamicSequence::from_vec(vec![1, 2, 3]);
    v.reserve(100);
    assert!(v.capacity() >= 100);

    v.shrink_to(5);
    assert!(v.capacity() <= 100);
    assert!(v.capacity() >= 5);
}

#[test]
fn empty_the_vec() {
    let mut v = DynamicSequence::from_vec(vec![1, 2, 3, 4, 5]);
    v.clear();

    assert_eq!(Vec::<i32>::new(), v.as_slice());
    assert!(v.is_empty());
    assert!(v.capacity() >= 5);
}

#[test]
fn reduce_vec_len_by_dropping_elems() {
    let mut v = DynamicSequence::from_vec(vec![1, 2, 3, 4, 5]);

    v.truncate(3);
    assert_eq!(vec![1, 2, 3], v.as_slice());
}

#[test]
fn change_size_of_vec() {
    let mut v = DynamicSequence::from_vec(vec![1, 2, 3, 4, 5]);

    v.resize(10, 10);
    assert_eq!(vec![1, 2, 3, 4, 5, 10, 10, 10, 10, 10], v.as_slice());

    v.resize(5, 9);
    assert_eq!(vec![1, 2, 3, 4, 5], v.as_slice());
}

#[test]
fn change_size_with_closure() {
    let mut v = DynamicSequence::from_vec(vec![1, 2, 3, 4, 5]);

    v.resize_with(10, Default::default);
    assert_eq!(vec![1, 2, 3, 4, 5, 0, 0, 0, 0, 0], v.as_slice());

    v.truncate(5);
    v.resize_with(10, || 0);
    assert_eq!(vec![1, 2, 3, 4, 5, 0, 0, 0, 0, 0], v.as_slice());

    let mut i = 1;
    v.clear();
    v.resize_with(10, || {
        i *= 2;
        i
    });
    assert_eq!(vec![2, 4, 8, 16, 32, 64, 128, 256, 512, 1024], v.as_slice());
}

#[test]
fn slice_from_vec() {
    let v = DynamicSequence::from_vec(vec![1, 2, 3, 4, 5]);

    assert_eq!(v.as_slice(), &v.as_slice()[..]);
    assert_eq!(v.as_slice(), vec![1, 2, 3, 4, 5]);
}

#[test]
fn cut_vec_into_two_parts() {
    let mut v = DynamicSequence::from_vec(vec![1, 2, 3, 4, 5]);
    assert_eq!(v.split_off(2).unwrap().as_slice(), [3, 4, 5]);
    assert_eq!(v.as_slice(), [1, 2]);
}
