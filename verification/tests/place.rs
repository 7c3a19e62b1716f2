use asahi::place::{place_scalar, Placer};

// Layout of the structure that the tests initialize:
//
//   offset  size  field
//   0       1     b: bool
//   4       4     i: i32
//   8       16    s: string, zero padded
//   24      16    v[0]: string, zero padded
//   40      20    x: nested { a: bool at 0, b: string of 16 at 4 }
//   60      20    y: nested, as x
//   80      20    z: nested, as x
const SIZE: usize = 100;
const NESTED: usize = 20;

fn text(s: &str) -> Vec<u8> {
    let mut out = s.as_bytes().to_vec();
    out.resize(16, 0);
    out
}

fn put(block: &mut Vec<u8>, at: usize, bytes: &[u8]) {
    block[at..at + bytes.len()].copy_from_slice(bytes);
}

fn nested(p: &mut Placer, offset: usize, a: bool, b: &str) {
    p.begin_struct(offset, NESTED, false).unwrap();
    p.scalar(0, &[a as u8]).unwrap();
    p.scalar(1, &[0, 0, 0]).unwrap();
    p.scalar(4, &text(b)).unwrap();
    p.end_struct().unwrap();
}

#[test]
fn test_initialized() {
    // The block starts out as garbage.
    let buf = vec![0xaau8; SIZE];

    let mut p = Placer::new(buf);
    p.begin_struct(0, SIZE, false).unwrap();
    p.scalar(0, &[true as u8]).unwrap();
    p.scalar(1, &[0, 0, 0]).unwrap();
    p.scalar(4, &str::parse::<i32>("123").unwrap().to_le_bytes()).unwrap();
    p.scalar(8, &text("works")).unwrap();
    p.scalar(24, &text("works")).unwrap();
    nested(&mut p, 40, false, "Hello, world!");
    nested(&mut p, 60, false, "Hello, world!");
    nested(&mut p, 80, false, "Hello, world!");
    p.end_struct().unwrap();
    let x = p.finish().unwrap();

    // The same structure, built as a whole.
    let mut expected = vec![0u8; SIZE];
    put(&mut expected, 0, &[1]);
    put(&mut expected, 4, &str::parse::<i32>("123").unwrap().to_le_bytes());
    put(&mut expected, 8, &text("works"));
    put(&mut expected, 24, &text("works"));
    for at in [40usize, 60, 80] {
        put(&mut expected, at, &[0]);
        put(&mut expected, at + 4, &text("Hello, world!"));
    }
    assert_eq!(x, expected);
}

#[test]
fn test_default() {
    // { b: bool at 0, i: i32 at 4, j: i16 at 8 }, 12 bytes.
    let buf = vec![0x55u8; 12];

    let mut p = Placer::new(buf);
    p.begin_struct(0, 12, true).unwrap();
    p.scalar(0, &[true as u8]).unwrap();
    p.scalar(4, &1i32.to_le_bytes()).unwrap();
    p.end_struct().unwrap();
    let x = p.finish().unwrap();

    let mut expected = vec![0u8; 12];
    put(&mut expected, 0, &[1]);
    put(&mut expected, 4, &1i32.to_le_bytes());
    put(&mut expected, 8, &0i16.to_le_bytes());
    assert_eq!(x, expected);
}

#[test]
fn test_scalar() {
    let buf = vec![0xffu8; 4];

    let x = place_scalar(buf, &1234u32.to_le_bytes()).unwrap();

    assert_eq!(u32::from_le_bytes([x[0], x[1], x[2], x[3]]), 1234u32);
}

#[test]
fn place_rejects_fields_outside_their_structure() {
    let mut p = Placer::new(vec![0u8; 16]);
    p.begin_struct(4, 8, false).unwrap();
    assert!(p.scalar(6, &[1, 2, 3]).is_err());
    assert!(p.begin_struct(8, 1, false).is_err());
    assert!(p.scalar(5, &[1, 2, 3]).is_ok());
    assert!(p.end_struct().is_ok());
    assert!(p.end_struct().is_err());
    let mem = p.finish().unwrap();
    assert_eq!(&mem[8..13], &[0, 1, 2, 3, 0]);
}

#[test]
fn place_finish_needs_balance() {
    let mut p = Placer::new(vec![0u8; 16]);
    p.begin_struct(0, 16, true).unwrap();
    assert!(p.finish().is_err());
}
