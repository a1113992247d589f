use cxxbridge::demo::{next_chunk, MultiBuf, ThingR};
use cxxbridge::rust_vec::RustVec;
use cxxbridge::vector::RealVector;

#[test]
fn real_vector_push_and_get() {
    let mut v: RealVector<u8> = RealVector::new();
    assert!(v.is_empty());
    v.push_back(&7);
    v.push_back(&9);
    assert_eq!(v.size(), 2);
    assert!(!v.is_empty());
    assert_eq!(*v.get_unchecked(1), 9);
    assert_eq!(v.get(0), Some(&7));
    assert_eq!(v.get(2), None);
}

#[test]
fn real_vector_cursor_walks_in_order() {
    let mut v: RealVector<u8> = RealVector::new();
    v.push_back(&1);
    v.push_back(&2);
    let mut it = v.iter();
    assert_eq!(it.next(), Some(&1));
    assert_eq!(it.next(), Some(&2));
    assert_eq!(it.next(), None);
    assert_eq!(it.next(), None);
}

#[test]
fn rust_vec_round_trip_and_copy_out() {
    let r = RustVec::from(vec![3u8, 4, 5]);
    assert_eq!(r.len(), 3);
    let mut v: RealVector<u8> = RealVector::new();
    v.push_back(&1);
    r.to_vector(&mut v);
    assert_eq!(v.size(), 4);
    assert_eq!(v.get(3), Some(&5));
    assert_eq!(r.into_vec(), vec![3u8, 4, 5]);
}

#[test]
fn next_chunk_advances() {
    let mut buf = MultiBuf { chunks: vec![b"fearless".to_vec(), b"concurrency".to_vec()], pos: 0 };
    assert_eq!(next_chunk(&mut buf), b"fearless".to_vec());
    assert_eq!(next_chunk(&mut buf), b"concurrency".to_vec());
    assert_eq!(next_chunk(&mut buf), Vec::<u8>::new());
    assert_eq!(buf.pos, 3);
    let t = ThingR(333);
    assert_eq!(t.0, 333);
}
