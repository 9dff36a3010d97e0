use overlay_cast::buffer_overflow::{
    buffer_overflow, construct_fake_string, secret_bytes, FakeBuffer, Outcome,
};

#[test]
fn demo_overflow_with_the_secret_is_accepted() {
    // Sixteen name bytes fill the name buffer; the next eight land exactly on
    // the inspected password region; the newline falls just past it.
    let mut input = vec![b'a'; 16];
    input.extend_from_slice(b"letmein!");
    input.push(b'\n');
    assert_eq!(buffer_overflow(&input), Outcome::CorrectPassword);
}

#[test]
fn demo_short_input_never_reaches_the_password() {
    let input = b"Bob\n".to_vec();
    assert_eq!(buffer_overflow(&input), Outcome::Untouched);
}

#[test]
fn demo_overflow_with_other_bytes_is_rejected() {
    // Sixteen typed characters plus the newline: only the newline runs over
    // into the password region, which is then no longer all zero.
    let mut input = vec![b'x'; 16];
    input.push(b'\n');
    match buffer_overflow(&input) {
        Outcome::WrongPassword(found) => {
            assert_eq!(found, vec![b'\n', 0, 0, 0, 0, 0, 0, 0]);
        }
        other => panic!("expected the wrong-password outcome, got {:?}", other),
    }
}

#[test]
fn demo_reports_the_bytes_that_overran() {
    let mut input = vec![b'a'; 16];
    input.extend_from_slice(b"letmeout");
    input.push(b'\n');
    match buffer_overflow(&input) {
        Outcome::WrongPassword(found) => {
            assert_eq!(found, b"letmeout".to_vec());
        }
        other => panic!("expected the wrong-password outcome, got {:?}", other),
    }
}

#[test]
fn demo_exactly_full_name_buffer_leaves_the_password_alone() {
    // Sixteen bytes stop right at the password region's edge.
    let input = vec![b'y'; 16];
    assert_eq!(buffer_overflow(&input), Outcome::Untouched);
}

#[test]
fn demo_zero_bytes_written_over_the_password_count_as_untouched() {
    // The overflow reaches the password region but writes only zero bytes,
    // which the demo cannot tell from an untouched region.
    let mut input = vec![b'a'; 16];
    input.extend_from_slice(&[0u8; 8]);
    assert_eq!(buffer_overflow(&input), Outcome::Untouched);
}

#[test]
fn fake_string_keeps_the_forged_triple() {
    let b = construct_fake_string(0, 1024, 0);
    assert_eq!(
        b,
        FakeBuffer {
            addr: 0,
            cap: 1024,
            len: 0,
        }
    );
    let b = construct_fake_string(7, 99, 3);
    assert_eq!(b.addr, 7);
    assert_eq!(b.cap, 99);
    assert_eq!(b.len, 3);
}

#[test]
fn the_secret_is_letmein() {
    assert_eq!(secret_bytes(), b"letmein!".to_vec());
}
