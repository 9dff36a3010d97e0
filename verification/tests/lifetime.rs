use overlay_cast::lifetime_expansion::{
    expand, expand_mut, lifetime_translator, lifetime_translator_mut, Ref, RefMut, Validity,
    STATIC_UNIT,
};
use overlay_cast::memory::Memory;

#[test]
fn widening_keeps_address_and_bytes() {
    let mut mem = Memory::new_zeroed(8);
    mem.write_byte(2, 7);
    mem.write_byte(3, 9);
    let r = Ref {
        addr: 2,
        dur: Validity::Scope(5),
    };
    let w = expand(r, Validity::Whole);
    assert_eq!(w.addr, r.addr);
    assert_eq!(w.dur, Validity::Whole);
    assert_eq!(mem.read(&w, 2), mem.read(&r, 2));
    assert_eq!(mem.read(&w, 2), vec![7u8, 9u8]);
}

#[test]
fn expand_reaches_any_duration() {
    let r = Ref {
        addr: 10,
        dur: Validity::Scope(3),
    };
    let deeper = expand(r, Validity::Scope(9));
    assert_eq!(
        deeper,
        Ref {
            addr: 10,
            dur: Validity::Scope(9),
        }
    );
    let outer = expand(r, Validity::Scope(1));
    assert_eq!(outer.dur, Validity::Scope(1));
    assert_eq!(outer.addr, 10);
}

#[test]
fn translator_narrows_from_the_token_duration() {
    let r = Ref {
        addr: 4,
        dur: Validity::Whole,
    };
    let t = lifetime_translator(&STATIC_UNIT, r, Validity::Scope(2));
    assert_eq!(
        t,
        Ref {
            addr: 4,
            dur: Validity::Scope(2),
        }
    );
}

#[test]
fn exclusive_widening_keeps_address() {
    let r = RefMut {
        addr: 5,
        dur: Validity::Scope(1),
    };
    let w = expand_mut(r, Validity::Whole);
    assert_eq!(w.addr, 5);
    assert_eq!(w.dur, Validity::Whole);
    let n = lifetime_translator_mut(&STATIC_UNIT, w, Validity::Scope(0));
    assert_eq!(n.addr, 5);
    assert_eq!(n.dur, Validity::Scope(0));
}

#[test]
fn memory_starts_zeroed_and_reads_back_writes() {
    let mut mem = Memory::new_zeroed(4);
    assert_eq!(mem.len(), 4);
    assert_eq!(mem.read_byte(0), 0);
    assert_eq!(mem.read_byte(3), 0);
    mem.write_byte(1, 0xab);
    assert_eq!(mem.read_byte(1), 0xab);
    assert_eq!(mem.read_byte(0), 0);
    let r = Ref {
        addr: 0,
        dur: Validity::Scope(0),
    };
    assert_eq!(mem.read(&r, 4), vec![0u8, 0xab, 0, 0]);
}
