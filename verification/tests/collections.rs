use vl::collections::Vec;

#[test]
fn new_vector_is_empty() {
    let v: Vec<u8, 16> = Vec::new([0u8; 16]);
    assert_eq!(v.len(), 0);
    assert_eq!(v.capacity(), 16);
    assert!(v.as_slice().is_empty());
}

#[test]
fn push_appends_in_order() {
    let mut v: Vec<u8, 4> = Vec::new([9u8; 4]);
    assert!(v.push(b'1').is_ok());
    assert!(v.push(b'2').is_ok());
    assert!(v.push(b'3').is_ok());
    assert_eq!(v.as_slice(), b"123");
    assert_eq!(v.len(), 3);
}

#[test]
fn push_on_full_vector_fails_and_keeps_contents() {
    let mut v: Vec<u8, 2> = Vec::new([0u8; 2]);
    assert_eq!(v.push(1), Ok(()));
    assert_eq!(v.push(2), Ok(()));
    assert_eq!(v.push(3), Err(()));
    assert_eq!(v.as_slice(), &[1, 2]);
    assert_eq!(v.len(), 2);
}

#[test]
fn zero_capacity_vector_refuses_every_push() {
    let mut v: Vec<u32, 0> = Vec::new([]);
    assert_eq!(v.push(7), Err(()));
    assert_eq!(v.len(), 0);
}

#[test]
fn clear_empties_and_frees_room() {
    let mut v: Vec<u8, 2> = Vec::new([0u8; 2]);
    v.push(1).unwrap();
    v.push(2).unwrap();
    assert!(v.push(3).is_err());
    v.clear();
    assert_eq!(v.len(), 0);
    assert!(v.as_slice().is_empty());
    assert_eq!(v.push(4), Ok(()));
    assert_eq!(v.as_slice(), &[4]);
}

#[test]
fn set_overwrites_a_stored_element() {
    let mut v: Vec<i16, 3> = Vec::new([0; 3]);
    v.push(-1).unwrap();
    v.push(5).unwrap();
    v.set(0, 40);
    assert_eq!(v.as_slice(), &[40, 5]);
}

#[test]
fn line_buffer_of_sixteen_bytes_overflows_on_the_seventeenth() {
    let mut v: Vec<u8, 16> = Vec::new([0u8; 16]);
    for b in b"1234567890123456" {
        assert!(v.push(*b).is_ok());
    }
    assert!(v.push(b'7').is_err());
    assert_eq!(v.as_slice(), b"1234567890123456");
}

#[test]
fn run_of_pushes_keeps_the_first_capacity_elements() {
    let mut v: Vec<u8, 3> = Vec::new([0u8; 3]);
    let results: std::vec::Vec<bool> = [10u8, 20, 30, 40, 50].iter().map(|x| v.push(*x).is_ok()).collect();
    assert_eq!(results, [true, true, true, false, false]);
    assert_eq!(v.as_slice(), &[10, 20, 30]);
}
