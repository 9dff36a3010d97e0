use overlay_cast::lifetime_expansion::Validity;
use overlay_cast::references::{not_alloc, null, null_mut};

#[test]
fn null_is_always_address_zero() {
    let a = null::<u8>();
    assert_eq!(a.addr, 0);
    assert_eq!(a.dur, Validity::Whole);
    let b = null::<[u64; 4]>();
    assert_eq!(b.addr, 0);
    let c = null::<bool>();
    assert_eq!(c.addr, 0);
}

#[test]
fn null_mut_is_always_address_zero() {
    let a = null_mut::<u8>();
    assert_eq!(a.addr, 0);
    assert_eq!(a.dur, Validity::Whole);
    let b = null_mut::<u128>();
    assert_eq!(b.addr, 0);
}

#[test]
fn not_alloc_is_always_the_maximal_address() {
    let a = not_alloc::<u8>();
    assert_eq!(a.addr, usize::MAX);
    assert_eq!(a.dur, Validity::Whole);
    let b = not_alloc::<i64>();
    assert_eq!(b.addr, usize::MAX);
}
