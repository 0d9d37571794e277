use instant_glicko_2::util::PushOnlyVec;

#[test]
fn push_only_vec_appends() {
    let mut v: PushOnlyVec<u32> = PushOnlyVec::new();
    assert!(v.vec().is_empty());
    v.push(3);
    v.push(5);
    assert_eq!(v.vec(), &vec![3, 5]);
}

#[test]
fn push_only_vec_get_mut() {
    let mut v: PushOnlyVec<u32> = PushOnlyVec::from(vec![1, 2, 3]);
    if let Some(x) = v.get_mut(1) {
        *x = 20;
    }
    assert!(v.get_mut(3).is_none());
    assert_eq!(v.vec(), &vec![1, 20, 3]);
}

#[test]
fn push_only_vec_iter_mut_keeps_length() {
    let mut v: PushOnlyVec<u32> = PushOnlyVec::from(vec![1, 2, 3]);
    for x in v.iter_mut() {
        *x *= 10;
    }
    let back: Vec<u32> = v.into();
    assert_eq!(back, vec![10, 20, 30]);
}
