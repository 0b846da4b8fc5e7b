use slicevec::SliceVec;

#[test]
fn basic() {
    const CAP: usize = 1;
    let mut storage = [0; CAP];

    {
        let mut s = SliceVec::new(&mut storage);
        assert!(s.is_empty());
        assert_eq!(s.len(), 0);
        assert_eq!(s.capacity(), CAP);

        assert_eq!(s.push(123), Ok(()));
        assert_eq!(s.len(), 1);
        assert!(!s.is_empty());
        assert_eq!(s.as_slice(), &[123]);
        assert_eq!(s.push(42), Err(42));
        assert!(!s.is_empty());
        assert_eq!(s.as_slice(), &[123]);
        assert_eq!(s.pop(), Some(123));
        assert_eq!(s.len(), 0);
        assert!(s.is_empty());
        assert_eq!(s.as_slice(), &[]);
        assert_eq!(&*s, &[]);
    }
}

#[test]
fn swap_remove() {
    let mut storage = [0; 3];

    {
        let mut s = SliceVec::new(&mut storage);
        assert_eq!(s.len(), 0);
        assert_eq!(s.capacity(), 3);

        assert!(s.is_empty());
        assert_eq!(s.push(0), Ok(()));
        assert!(!s.is_empty());
        assert_eq!(s.push(1), Ok(()));
        assert_eq!(s.push(2), Ok(()));
        assert_eq!(s.push(3), Err(3));
        assert_eq!(s.len(), 3);
        assert_eq!(s.swap_remove(0), 0);
        assert!(!s.is_empty());
        assert_eq!(s.len(), 2);
        assert_eq!(s[0], 2);
        assert_eq!(s[1], 1);
        assert_eq!(s.as_slice().len(), 2);
    }
}
