use runtime_shim::entry::Emit;
use runtime_shim::entry::hello;
use runtime_shim::entry::init_heap;
use runtime_shim::entry::print_string;
use runtime_shim::heap::align_heap_base;
use runtime_shim::messages::get_string;
use runtime_shim::messages::greeting;

#[test]
fn align_concrete_cases() {
    assert_eq!(align_heap_base(0), 0);
    assert_eq!(align_heap_base(1), 8);
    assert_eq!(align_heap_base(7), 8);
    assert_eq!(align_heap_base(8), 8);
    assert_eq!(align_heap_base(9), 16);
    assert_eq!(align_heap_base(16), 16);
    assert_eq!(align_heap_base(17), 24);
}

#[test]
fn align_is_multiple_of_8_within_window() {
    for base in [0u32, 1, 2, 3, 4, 5, 6, 7, 8, 9, 100, 1023, 1024, 65_537, 0xFFFF_FFF8] {
        let aligned = align_heap_base(base);
        assert_eq!(aligned % 8, 0);
        assert!(base <= aligned);
        assert!(u64::from(aligned) <= u64::from(base) + 7);
    }
}

#[test]
fn align_wraps_at_top_of_address_space() {
    // base + 7 reaches 0x1_0000_0000, which truncates to 0 in 32 bits
    assert_eq!(align_heap_base(0xFFFF_FFF9), 0);
    assert_eq!(align_heap_base(0xFFFF_FFFF), 0);
    // the largest base that still rounds up without wrapping
    assert_eq!(align_heap_base(0xFFFF_FFF8), 0xFFFF_FFF8);
}

#[test]
fn selector_zero_gives_zero_message() {
    let s = get_string(0);
    assert_eq!(s, "Zero\n");
    assert_eq!(s.len(), 5);
    assert_eq!(s.as_bytes()[4], b'\n');
}

#[test]
fn selector_other_gives_else_message() {
    for choice in [1, -1, 2, 42, i32::MIN, i32::MAX] {
        let s = get_string(choice);
        assert_eq!(s, "Else branch\n");
        assert_eq!(s.len(), 12);
        assert_eq!(s.as_bytes()[11], b'\n');
    }
}

#[test]
fn greeting_is_fixed() {
    let s = greeting();
    assert_eq!(s, "Hello World!\n");
    assert_eq!(s.len(), 13);
}

#[test]
fn hello_forwards_identical_bytes_every_call() {
    let first = hello();
    for _ in 0..5 {
        let again = hello();
        assert_eq!(again, first);
        assert_eq!(again, vec![Emit::Text("Hello World!\n")]);
    }
}

#[test]
fn print_string_forwards_exact_message() {
    assert_eq!(print_string(0), vec![Emit::Text("Zero\n")]);
    assert_eq!(print_string(7), vec![Emit::Text("Else branch\n")]);
    assert_eq!(print_string(-7), vec![Emit::Text("Else branch\n")]);
}

#[test]
fn init_heap_reports_raw_and_aligned() {
    assert_eq!(
        init_heap(9),
        vec![
            Emit::Text("Heap base: "),
            Emit::Num(9),
            Emit::Text("Heap base aligned: "),
            Emit::Num(16),
        ]
    );
    assert_eq!(
        init_heap(0),
        vec![
            Emit::Text("Heap base: "),
            Emit::Num(0),
            Emit::Text("Heap base aligned: "),
            Emit::Num(0),
        ]
    );
}

#[test]
fn init_heap_numbers_reinterpret_high_bases_as_signed() {
    // the numeric sink takes a signed 32-bit value: a base above i32::MAX
    // arrives reinterpreted, as the original module hands it over
    assert_eq!(
        init_heap(0xFFFF_FFFF),
        vec![
            Emit::Text("Heap base: "),
            Emit::Num(-1),
            Emit::Text("Heap base aligned: "),
            Emit::Num(0),
        ]
    );
    assert_eq!(
        init_heap(0x8000_0000),
        vec![
            Emit::Text("Heap base: "),
            Emit::Num(i32::MIN),
            Emit::Text("Heap base aligned: "),
            Emit::Num(i32::MIN),
        ]
    );
}
