use wordboy::dictionary::valid_guess;
use wordboy::input::KeyInput;
use wordboy::rand::PRNG;
use wordboy::utils::{ArrayVec, AsciiChar, WordBuffer};

#[test]
fn keys_are_active_low() {
    let all_released = KeyInput(0xFFFF);
    assert!(!all_released.a());
    assert!(!all_released.start());
    assert!(!all_released.l());
    let a_held = KeyInput(0xFFFF & !1);
    assert!(a_held.a());
    assert!(!a_held.b());
    let l_held = KeyInput(0xFFFF & !(1 << 9));
    assert!(l_held.l());
    assert!(!l_held.r());
}

#[test]
fn key_bit_assignments() {
    let held = |bit: u16| KeyInput(0xFFFF & !(1 << bit));
    assert!(held(0).a());
    assert!(held(1).b());
    assert!(held(2).select());
    assert!(held(3).start());
    assert!(held(4).right());
    assert!(held(5).left());
    assert!(held(6).up());
    assert!(held(7).down());
    assert!(held(8).r());
    assert!(held(9).l());
}

#[test]
fn once_fires_only_on_the_falling_edge() {
    let released = KeyInput(0xFFFF);
    let held = KeyInput(0xFFFF & !(1 << 3));
    assert!(held.start_once(released));
    assert!(!held.start_once(held));
    assert!(!released.start_once(held));
    assert!(!released.start_once(released));
    let up_held = KeyInput(0xFFFF & !(1 << 6));
    assert!(up_held.up_once(released));
    assert!(!up_held.up_once(up_held));
}

#[test]
fn prng_follows_the_recurrence() {
    let mut p = PRNG::new(1);
    assert_eq!(p.next(), 48271);
    assert_eq!(p.next(), 22497);
    assert_eq!(p.next(), 21167);
    let mut p = PRNG::seeded(12345);
    assert_eq!(p.next(), 52183);
}

#[test]
fn ascii_char_normalizes() {
    assert_eq!(AsciiChar::from_u8(b'Q').0, b'Q');
    assert_eq!(AsciiChar::from_u8(b'q').0, b'Q');
    assert_eq!(AsciiChar::from_u8(b'a').0, b'A');
    assert_eq!(AsciiChar::from_u8(b'z').0, b'Z');
    assert_eq!(AsciiChar::from_u8(b'0').0, 0);
    assert_eq!(AsciiChar::from_u8(b' ').0, 0);
}

#[test]
fn letter_and_tile_indices() {
    assert_eq!(AsciiChar(b'A').letter_index(), 0);
    assert_eq!(AsciiChar(b'Z').letter_index(), 25);
    assert_eq!(AsciiChar(0).letter_index(), 26);
    assert_eq!(AsciiChar(b'A').tile_index(), 1);
    assert_eq!(AsciiChar(b'B').tile_index(), 5);
    assert_eq!(AsciiChar(0).tile_index(), 26 * 4 + 1);
}

#[test]
fn word_buffer_fills_left_to_right() {
    let mut w = WordBuffer::empty();
    assert!(!w.is_full());
    w.push(AsciiChar(b'H'));
    w.push(AsciiChar(b'E'));
    w.push(AsciiChar(b'L'));
    assert_eq!(w.as_slice()[0], AsciiChar(b'H'));
    assert_eq!(w.as_slice()[1], AsciiChar(b'E'));
    assert_eq!(w.as_slice()[2], AsciiChar(b'L'));
    assert_eq!(w.as_slice()[3], AsciiChar(0));
    w.push(AsciiChar(b'L'));
    w.push(AsciiChar(b'O'));
    assert!(w.is_full());
    // A full buffer ignores further letters.
    w.push(AsciiChar(b'X'));
    assert_eq!(w.as_slice()[4], AsciiChar(b'O'));
}

#[test]
fn word_buffer_pops_from_the_right() {
    let mut w = WordBuffer::from_u8s(*b"cat\0\0");
    assert_eq!(w.pop(), Some(AsciiChar(b'T')));
    assert_eq!(w.pop(), Some(AsciiChar(b'A')));
    assert_eq!(w.pop(), Some(AsciiChar(b'C')));
    assert_eq!(w.pop(), None);
}

#[test]
fn word_buffer_from_u8s_and_clear() {
    let mut w = WordBuffer::from_u8s(*b"GaMeS");
    assert_eq!(w.as_slice(), &[AsciiChar(b'G'), AsciiChar(b'A'), AsciiChar(b'M'), AsciiChar(b'E'), AsciiChar(b'S')]);
    assert!(w.is_full());
    w.clear();
    assert_eq!(w.as_slice(), &[AsciiChar(0); 5]);
}

#[test]
fn valid_guess_needs_five_letters_and_no_z() {
    let full = WordBuffer::from_u8s(*b"MOUSE");
    assert!(valid_guess(&full));
    let short = WordBuffer::from_u8s(*b"MOUS\0");
    assert!(!valid_guess(&short));
    let with_z = WordBuffer::from_u8s(*b"ZEBRA");
    assert!(!valid_guess(&with_z));
    let empty = WordBuffer::empty();
    assert!(!valid_guess(&empty));
}

#[test]
fn array_vec_push_and_bounds() {
    let mut v: ArrayVec<u32, 3> = ArrayVec::new();
    assert_eq!(v.len(), 0);
    assert_eq!(v.capacity(), 3);
    v.push(10);
    v.push(20);
    assert_eq!(v.try_push(30), Ok(()));
    assert_eq!(v.try_push(40), Err(40));
    assert_eq!(v.len(), 3);
    assert_eq!(v.nth(0), Some(&10));
    assert_eq!(v.nth(2), Some(&30));
    assert_eq!(v.nth(3), None);
    v.set_nth(1, 99);
    assert_eq!(v.nth(1), Some(&99));
}
