use verification_annotations::borrow::{
    classify, is_reader_limit_reached, is_reading, is_unused, is_writing, Access, BorrowCell, State,
};
use verification_annotations::path::SymbolicPath;

/// Candidate raw words for a fresh counter value, both inside and outside
/// the regions the tests narrow to.
fn flag_words() -> Vec<u64> {
    vec![0, 1, 2, 7, isize::MAX as u64 - 1, isize::MAX as u64, u64::MAX, u64::MAX - 1, isize::MIN as u64]
}

#[test]
fn lib_test_nopanic() {
    let mut path = SymbolicPath::new(vec![]);
    let mut c = BorrowCell::new(5);
    let m = c.borrow_mut(&mut path);
    // only one mut borrow; so no failure
    assert!(m.is_some());
    assert!(path.is_live());
}

#[test]
fn lib_test_panic() {
    let mut path = SymbolicPath::new(vec![]);
    let mut c = BorrowCell::new(5);
    let _m = c.borrow_mut(&mut path);
    let b = c.borrow(&mut path); // this fails the path
    assert!(b.is_none());
    assert!(path.has_failed());
}

#[test]
fn main_test_nopanic() {
    let mut path = SymbolicPath::new(vec![]);
    let mut c = BorrowCell::new(5);
    let m = c.borrow_mut(&mut path);
    assert!(m.is_some());
    assert_eq!(c.get_borrow_state(), State::Writing);
    assert!(!path.has_failed());
}

#[test]
fn main_test_panic() {
    let mut path = SymbolicPath::new(vec![]);
    let mut c = BorrowCell::new(5);
    let _m = c.borrow_mut(&mut path);
    let _b = c.borrow(&mut path);
    assert!(path.has_failed());
    assert_eq!(c.borrow_flag(), -1);
}

#[test]
fn test_mb_nopanic() {
    for w in flag_words() {
        let mut path = SymbolicPath::new(vec![42, w]);
        let val: u32 = path.fresh_u32();
        let nd_flag_val: isize = path.fresh_isize_where(is_unused);
        let mut c = BorrowCell::new_with_flag(val, nd_flag_val);
        let _m = c.borrow_mut(&mut path);
        assert!(!path.has_failed());
        assert_eq!(path.is_live(), w == 0);
    }
}

#[test]
fn test_mb_nopanic2() {
    for w in flag_words() {
        let mut path = SymbolicPath::new(vec![42, w]);
        let val: u32 = path.fresh_u32();
        let mut c = BorrowCell::new(val);
        let nd_borrow_flag: isize = path.fresh_isize_where(is_unused);
        c.set_borrow_state(nd_borrow_flag);
        let _m = c.borrow_mut(&mut path);
        assert!(!path.has_failed());
        assert_eq!(*c.get(), 42);
    }
}

#[test]
fn test_b_nopanic() {
    for w in flag_words() {
        let mut path = SymbolicPath::new(vec![42, w]);
        let val: u32 = path.fresh_u32();
        let mut c = BorrowCell::new(val);
        let max = c.max_readers();
        let nd_borrow_flag: isize = path.fresh_isize_where(|x: isize| {
            is_unused(x) || (is_reading(x) && !is_reader_limit_reached(x, max))
        });
        c.set_borrow_state(nd_borrow_flag);
        let _m = c.borrow(&mut path);
        assert!(!path.has_failed());
        if path.is_live() {
            assert_eq!(c.get_borrow_state(), State::Reading);
        }
    }
}

// Here we test that if the number of borrows has reached max limit for datatype then adding one
// more borrow rolls over to negative value and we go into mutably borrowed state. This disallows
// one more borrow.
#[test]
fn test_b_to_mb_rollover_panic_sat() {
    let mut rolled_over = false;
    for w in flag_words() {
        let mut path = SymbolicPath::new(vec![42, w]);
        let val: u32 = path.fresh_u32();
        let mut c = BorrowCell::new(val);
        let nd_borrow_flag: isize =
            path.fresh_isize_where(|x: isize| is_unused(x) || is_reading(x));
        c.set_borrow_state(nd_borrow_flag);
        let _m = c.borrow(&mut path);
        assert!(!path.has_failed());
        if path.is_live() && c.get_borrow_state() == State::Writing {
            rolled_over = true;
            assert_eq!(nd_borrow_flag, isize::MAX);
            let again = c.borrow_mut(&mut path);
            assert!(again.is_none());
            assert!(path.has_failed());
        }
    }
    assert!(rolled_over);
}

// When the lifetime for a mutable borrow ends, we should go back to UNUSED state
#[test]
fn test_lifetime_end_removes_mb() {
    for w in [0u64, 1, 2] {
        let mut path = SymbolicPath::new(vec![42, w]);
        let val: u32 = path.fresh_u32();
        let mut a = BorrowCell::new(val);
        let cond: bool = path.fresh_bool();
        if cond {
            let m = a.borrow_mut(&mut path);
            if let Some(g) = m {
                a.release(g);
            }
        }
        path.check(a.get_borrow_state() == State::Unused);
        assert!(!path.has_failed());
        assert_eq!(path.is_live(), w <= 1);
    }
}

#[test]
fn rollover_at_two_readers() {
    let mut path = SymbolicPath::new(vec![]);
    let mut c = BorrowCell::with_max_readers((), 2);
    let g1 = c.borrow(&mut path);
    let g2 = c.borrow(&mut path);
    assert!(g1.is_some() && g2.is_some());
    assert_eq!(c.borrow_flag(), 2);
    let g3 = c.borrow(&mut path);
    assert!(g3.is_some());
    assert_eq!(c.borrow_flag(), -1);
    assert_eq!(c.get_borrow_state(), State::Writing);
    assert!(path.is_live());
    let m = c.borrow_mut(&mut path);
    assert!(m.is_none());
    assert!(path.has_failed());
}

#[test]
fn shared_round_trip() {
    let mut path = SymbolicPath::new(vec![]);
    let mut c = BorrowCell::new(1u8);
    let g = c.borrow(&mut path).unwrap();
    assert_eq!(g.access(), Access::Shared);
    assert_eq!(c.get_borrow_state(), State::Reading);
    c.release(g);
    assert_eq!(c.get_borrow_state(), State::Unused);
    assert!(path.is_live());
}

#[test]
fn exclusive_round_trip() {
    let mut path = SymbolicPath::new(vec![]);
    let mut c = BorrowCell::new(1u8);
    let g = c.borrow_mut(&mut path).unwrap();
    assert_eq!(g.access(), Access::Exclusive);
    assert_eq!(c.borrow_flag(), -1);
    c.release(g);
    assert_eq!(c.borrow_flag(), 0);
    assert!(path.is_live());
}

#[test]
fn readers_count_up_and_down() {
    let mut path = SymbolicPath::new(vec![]);
    let mut c = BorrowCell::new(0i32);
    let a = c.borrow(&mut path).unwrap();
    let b = c.borrow(&mut path).unwrap();
    assert_eq!(c.borrow_flag(), 2);
    let m = c.borrow_mut(&mut path);
    assert!(m.is_none());
    assert!(path.has_failed());
    assert_eq!(c.borrow_flag(), 2);
    c.release(a);
    assert_eq!(c.borrow_flag(), 1);
    c.release(b);
    assert_eq!(c.borrow_flag(), 0);
}

#[test]
fn writing_blocks_both_borrows() {
    for second_is_shared in [true, false] {
        let mut path = SymbolicPath::new(vec![]);
        let mut c = BorrowCell::new(0i32);
        let _w = c.borrow_mut(&mut path).unwrap();
        let r = if second_is_shared { c.borrow(&mut path) } else { c.borrow_mut(&mut path) };
        assert!(r.is_none());
        assert!(path.has_failed());
        assert_eq!(c.borrow_flag(), -1);
    }
}

#[test]
fn invalid_counter_blocks_shared_borrow() {
    let mut path = SymbolicPath::new(vec![]);
    let mut c = BorrowCell::new_with_flag(0i32, -5);
    assert_eq!(c.get_borrow_state(), State::Invalid);
    assert!(c.borrow(&mut path).is_none());
    assert!(path.has_failed());
}

#[test]
fn flag_regions() {
    assert_eq!(classify(0), State::Unused);
    assert_eq!(classify(3), State::Reading);
    assert_eq!(classify(-1), State::Writing);
    assert_eq!(classify(-2), State::Invalid);
    assert!(is_unused(0) && !is_unused(1));
    assert!(is_reading(1) && !is_reading(0) && !is_reading(-1));
    assert!(is_writing(-1) && !is_writing(-2));
    assert!(is_reader_limit_reached(2, 2) && !is_reader_limit_reached(1, 2));
}
