use slicevec::SliceVec;
use std::borrow::{Borrow, BorrowMut};

#[test]
fn as_mut_slice_covers_the_elements_only() {
    let mut storage = [0; 5];
    let mut s = SliceVec::new(&mut storage);
    assert_eq!(s.push(1), Ok(()));
    assert_eq!(s.push(2), Ok(()));
    assert_eq!(s.as_mut_slice().len(), 2);
    assert_eq!(s.as_mut_slice(), &mut [1, 2]);
    assert_eq!(s.capacity(), 5);
}

#[test]
fn writes_through_as_mut_slice_reach_the_storage() {
    let mut storage = [0, 0, 30];
    {
        let mut s = SliceVec::new(&mut storage);
        assert_eq!(s.push(1), Ok(()));
        assert_eq!(s.push(2), Ok(()));
        {
            let m = s.as_mut_slice();
            m[0] = 11;
            m[1] = 12;
        }
        assert_eq!(s.as_slice(), &[11, 12]);
        assert_eq!(s.len(), 2);
        assert_eq!(s.pop(), Some(12));
    }
    assert_eq!(storage, [11, 0, 30]);
}

#[test]
fn as_slice_of_a_full_vector_is_the_whole_storage() {
    let mut storage = [0; 2];
    let mut s = SliceVec::new(&mut storage);
    assert_eq!(s.push(3), Ok(()));
    assert_eq!(s.push(4), Ok(()));
    assert_eq!(s.as_slice(), &[3, 4]);
    assert_eq!(s.as_slice().len(), s.capacity());
}

#[test]
fn deref_gives_the_elements() {
    let mut storage = [0; 4];
    let mut s = SliceVec::new(&mut storage);
    assert_eq!(s.push(3), Ok(()));
    assert_eq!(s.push(1), Ok(()));
    assert_eq!(s.push(2), Ok(()));
    assert_eq!(&*s, &[3, 1, 2]);
    assert_eq!(s[2], 2);
    assert_eq!(s.iter().sum::<i32>(), 6);
    assert_eq!(s.first(), Some(&3));
    assert_eq!(s.last(), Some(&2));
    assert!(s.contains(&1));
    assert!(!s.contains(&0));
}

#[test]
fn deref_mut_writes_the_elements() {
    let mut storage = [0; 4];
    {
        let mut s = SliceVec::new(&mut storage);
        assert_eq!(s.push(3), Ok(()));
        assert_eq!(s.push(1), Ok(()));
        assert_eq!(s.push(2), Ok(()));
        s[0] = 9;
        assert_eq!(s.as_slice(), &[9, 1, 2]);
        s.sort();
        assert_eq!(s.as_slice(), &[1, 2, 9]);
        s.reverse();
        assert_eq!(&*s, &[9, 2, 1]);
        assert_eq!(s.len(), 3);
    }
    assert_eq!(storage, [9, 2, 1, 0]);
}

#[test]
fn as_ref_and_as_mut_give_the_elements() {
    let mut storage = [0; 3];
    let mut s = SliceVec::new(&mut storage);
    assert_eq!(s.push(5), Ok(()));
    assert_eq!(s.push(6), Ok(()));
    {
        let r: &[i32] = s.as_ref();
        assert_eq!(r, &[5, 6]);
    }
    {
        let m: &mut [i32] = s.as_mut();
        assert_eq!(m.len(), 2);
        m[1] = 60;
    }
    assert_eq!(s.as_slice(), &[5, 60]);
}

#[test]
fn borrow_and_borrow_mut_give_the_elements() {
    let mut storage = [0; 3];
    let mut s = SliceVec::new(&mut storage);
    assert_eq!(s.push(5), Ok(()));
    assert_eq!(s.push(6), Ok(()));
    {
        let r: &[i32] = s.borrow();
        assert_eq!(r, &[5, 6]);
    }
    {
        let m: &mut [i32] = s.borrow_mut();
        assert_eq!(m.len(), 2);
        m[0] = 50;
    }
    assert_eq!(s.as_slice(), &[50, 6]);
}

fn total<S: AsRef<[u32]>>(values: S) -> u32 {
    values.as_ref().iter().sum()
}

#[test]
fn a_vector_serves_where_a_slice_is_asked_for() {
    let mut storage = [9; 4];
    let mut s = SliceVec::new(&mut storage);
    assert_eq!(s.push(1), Ok(()));
    assert_eq!(s.push(2), Ok(()));
    assert_eq!(s.push(3), Ok(()));
    assert_eq!(total(&*s), 6);
    assert_eq!(total(s), 6);
}

#[test]
fn debug_shows_the_storage_and_the_length() {
    let mut storage = [0; 2];
    let mut s = SliceVec::new(&mut storage);
    assert_eq!(s.push(4), Ok(()));
    assert_eq!(format!("{:?}", s), "SliceVec { storage: [4, 0], len: 1 }");
}
