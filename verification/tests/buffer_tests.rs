use renderkit::buffer::VertexBufferObject;
use renderkit::layout::Usage;

#[test]
fn new_buffer_is_empty_and_clean() {
    let b = VertexBufferObject::new(Usage::POSITIONS);
    assert_eq!(b.len(), 0);
    assert!(!b.is_dirty());
    assert_eq!(b.usage(), Usage::POSITIONS);
    assert!(b.data().is_empty());
}

#[test]
fn mutations_grow_and_mark_dirty() {
    let mut b = VertexBufferObject::new(Usage::COLORS);
    b.add_data(7);
    assert!(b.is_dirty());
    assert_eq!(b.len(), 1);
    b.add_data_slice(&[8, 9]);
    assert_eq!(b.data().as_slice(), &[7, 8, 9]);
    b.set_data(&[1, 2, 3, 4]);
    assert_eq!(b.data().as_slice(), &[1, 2, 3, 4]);
    assert_eq!(b.len(), 4);
    b.clear();
    assert_eq!(b.len(), 0);
    assert!(b.is_dirty());
}

#[test]
fn bind_uploads_once_until_the_next_mutation() {
    let mut b = VertexBufferObject::new(Usage::POSITIONS);
    assert!(!b.bind());
    b.add_data(1);
    assert!(b.bind());
    assert!(!b.bind());
    assert_eq!(b.data().as_slice(), &[1]);
    b.clear();
    assert!(b.bind());
    assert!(!b.bind());
}
