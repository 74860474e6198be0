use ddlm::buffer::{Buffer, BufferError};
use ddlm::color::argb8888;

fn pixel(bytes: &[u8], width: u32, x: u32, y: u32) -> [u8; 4] {
    let i = 4 * (x + y * width) as usize;
    [bytes[i], bytes[i + 1], bytes[i + 2], bytes[i + 3]]
}

#[test]
fn new_buffer_covers_whole_screen() {
    let mut bytes = vec![0u8; 4 * 8 * 6];
    let b = Buffer::new(&mut bytes[..], (8, 6));
    assert_eq!(b.get_bounds(), (0, 0, 8, 6));
    assert_eq!(b.subdimensions, None);
}

#[test]
fn subdimensions_moves_by_bounds_origin() {
    let mut bytes = vec![0u8; 4 * 10 * 10];
    let mut b = Buffer::new(&mut bytes[..], (10, 10));
    let mut s = b.subdimensions((2, 3, 5, 4)).unwrap();
    assert_eq!(s.get_bounds(), (2, 3, 5, 4));
    let s2 = s.subdimensions((1, 1, 2, 2)).unwrap();
    assert_eq!(s2.get_bounds(), (3, 4, 2, 2));
}

#[test]
fn subdimensions_may_reach_the_edge_but_not_beyond() {
    let mut bytes = vec![0u8; 4 * 10 * 10];
    let mut b = Buffer::new(&mut bytes[..], (10, 10));
    match b.subdimensions((2, 0, 9, 5)) {
        Err(e) => assert_eq!(
            e,
            BufferError::SubdimensionsTooLarge { subdimensions: (2, 0, 9, 5), bounds: (0, 0, 10, 10) }
        ),
        Ok(_) => panic!("accepted a rectangle beyond the edge"),
    }
    assert_eq!(b.subdimensions((2, 0, 8, 5)).unwrap().get_bounds(), (2, 0, 8, 5));
    assert_eq!(b.subdimensions((0, 0, 10, 10)).unwrap().get_bounds(), (0, 0, 10, 10));
    assert!(b.subdimensions((0, 1, 10, 10)).is_err());
    assert!(b.subdimensions((u32::MAX, 0, u32::MAX, 1)).is_err());
}

#[test]
fn offset_keeps_far_corner() {
    let mut bytes = vec![0u8; 4 * 10 * 10];
    let mut b = Buffer::new(&mut bytes[..], (10, 10));
    let mut s = b.subdimensions((1, 1, 6, 6)).unwrap();
    let o = s.offset((2, 3)).unwrap();
    assert_eq!(o.get_bounds(), (3, 4, 4, 3));
}

#[test]
fn offset_outside_is_refused() {
    let mut bytes = vec![0u8; 4 * 10 * 10];
    let mut b = Buffer::new(&mut bytes[..], (10, 10));
    assert!(b.offset((10, 10)).is_ok());
    match b.offset((11, 0)) {
        Err(e) => assert_eq!(e, BufferError::OffsetOutOfBounds { offset: (11, 0), bounds: (0, 0, 10, 10) }),
        Ok(_) => panic!("accepted an offset outside"),
    }
}

#[test]
fn put_writes_one_pixel_in_native_order() {
    let mut bytes = vec![0u8; 4 * 4 * 3];
    {
        let mut b = Buffer::new(&mut bytes[..], (4, 3));
        assert_eq!(b.put((2, 1), 0x11223344), Ok(()));
    }
    assert_eq!(pixel(&bytes, 4, 2, 1), 0x11223344u32.to_ne_bytes());
    let written = 4 * (2 + 4) as usize;
    for (i, v) in bytes.iter().enumerate() {
        if i < written || i >= written + 4 {
            assert_eq!(*v, 0);
        }
    }
}

#[test]
fn put_outside_is_refused_and_writes_nothing() {
    let mut bytes = vec![7u8; 4 * 4 * 3];
    {
        let mut b = Buffer::new(&mut bytes[..], (4, 3));
        assert_eq!(b.put((4, 0), 1), Err(BufferError::PixelOutOfBounds { pos: (4, 0), dim: (4, 3) }));
        assert_eq!(b.put((0, 3), 1), Err(BufferError::PixelOutOfBounds { pos: (0, 3), dim: (4, 3) }));
        let mut s = b.subdimensions((1, 1, 2, 1)).unwrap();
        assert_eq!(
            s.put((2, 0), 1),
            Err(BufferError::PixelOutOfSubdimBounds { pos: (2, 0), subdim: (1, 1, 2, 1) })
        );
    }
    assert!(bytes.iter().all(|b| *b == 7));
}

#[test]
fn put_through_sub_buffer_lands_in_parent() {
    let mut bytes = vec![0u8; 4 * 6 * 6];
    {
        let mut b = Buffer::new(&mut bytes[..], (6, 6));
        let mut s = b.subdimensions((1, 2, 3, 3)).unwrap();
        s.put((1, 1), 0xAABBCCDD).unwrap();
    }
    assert_eq!(pixel(&bytes, 6, 2, 3), 0xAABBCCDDu32.to_ne_bytes());
    let mut other = vec![0u8; 4 * 6 * 6];
    {
        let mut b = Buffer::new(&mut other[..], (6, 6));
        b.put((2, 3), 0xAABBCCDD).unwrap();
    }
    assert_eq!(bytes, other);
}

#[test]
fn memset_fills_bounds_only() {
    let mut bytes = vec![0u8; 4 * 5 * 4];
    {
        let mut b = Buffer::new(&mut bytes[..], (5, 4));
        let mut s = b.subdimensions((1, 1, 3, 2)).unwrap();
        s.memset(0x01020304);
    }
    let color = 0x01020304u32.to_ne_bytes();
    for y in 0..4 {
        for x in 0..5 {
            let inside = (1..4).contains(&x) && (1..3).contains(&y);
            assert_eq!(pixel(&bytes, 5, x, y), if inside { color } else { [0; 4] });
        }
    }
}

#[test]
fn memset_whole_screen() {
    let mut bytes = vec![0u8; 4 * 3 * 2 + 4];
    {
        let mut b = Buffer::new(&mut bytes[..], (3, 2));
        b.memset(argb8888(0xFF, 0x80, 0x40, 0x20));
    }
    let color = 0xFF804020u32.to_ne_bytes();
    for p in 0..6 {
        assert_eq!(&bytes[4 * p..4 * p + 4], &color);
    }
    assert_eq!(&bytes[24..], &[0, 0, 0, 0]);
}

#[test]
fn put_through_offset_lands_shifted() {
    let mut bytes = vec![0u8; 4 * 6 * 6];
    {
        let mut b = Buffer::new(&mut bytes[..], (6, 6));
        let mut s = b.subdimensions((1, 1, 4, 4)).unwrap();
        let mut o = s.offset((2, 1)).unwrap();
        assert_eq!(o.get_bounds(), (3, 2, 2, 3));
        o.put((1, 2), 0x0A0B0C0D).unwrap();
        assert!(o.put((2, 0), 0x0A0B0C0D).is_err());
    }
    assert_eq!(pixel(&bytes, 6, 4, 4), 0x0A0B0C0Du32.to_ne_bytes());
    assert_eq!(bytes.iter().filter(|b| **b != 0).count(), 4);
}

#[test]
fn nested_bounds_stay_inside_parent() {
    let mut bytes = vec![0u8; 4 * 9 * 9];
    let mut b = Buffer::new(&mut bytes[..], (9, 9));
    let mut s = b.subdimensions((2, 2, 5, 5)).unwrap();
    let (px, py, pw, ph) = s.get_bounds();
    let inner = s.subdimensions((1, 1, 3, 3)).unwrap().get_bounds();
    assert!(inner.0 >= px && inner.1 >= py);
    assert!(inner.0 + inner.2 < px + pw && inner.1 + inner.3 < py + ph);
}
