use rusttest::{format_string, free_string, store_string_on_heap, StringSlot};

fn live_bytes(slot: &StringSlot) -> Vec<u8> {
    match slot.live() {
        Some(string) => string.as_bytes_with_nul().to_vec(),
        None => panic!("no string is live"),
    }
}

#[test]
fn a_new_slot_is_empty() {
    let slot = StringSlot::new();
    assert!(!slot.is_live());
    assert!(slot.live().is_none());
}

#[test]
fn format_string_announces_42() {
    let mut slot = StringSlot::new();
    let displaced = format_string(&mut slot, 42);
    assert!(displaced.is_none());
    assert!(slot.is_live());
    let bytes = live_bytes(&slot);
    let mut expected: Vec<u8> = b"The number is 42 ".to_vec();
    expected.extend_from_slice(&[0xc3, 0xa4, 0xc3, 0xb6, 0xc3, 0xbc, 0x20, 0xf0, 0x9f, 0x98, 0x8e]);
    expected.push(0);
    assert_eq!(bytes, expected);
}

#[test]
fn formatted_text_holds_the_digits_and_is_utf8() {
    let mut slot = StringSlot::new();
    format_string(&mut slot, 42);
    let string = slot.live().unwrap();
    let text = std::str::from_utf8(string.as_bytes()).unwrap();
    assert!(text.contains("42"));
    assert_eq!(text, "The number is 42 \u{e4}\u{f6}\u{fc} \u{1f60e}");
}

#[test]
fn formatted_text_is_terminated_once() {
    let mut slot = StringSlot::new();
    format_string(&mut slot, 42);
    let string = slot.live().unwrap();
    let with_nul = string.as_bytes_with_nul();
    assert_eq!(with_nul.last(), Some(&0u8));
    assert_eq!(with_nul.iter().position(|b| *b == 0), Some(with_nul.len() - 1));
    assert_eq!(&with_nul[..with_nul.len() - 1], string.as_bytes());
}

#[test]
fn format_string_writes_zero_as_one_digit() {
    let mut slot = StringSlot::new();
    format_string(&mut slot, 0);
    let text = String::from_utf8(slot.live().unwrap().as_bytes().to_vec()).unwrap();
    assert_eq!(text, "The number is 0 \u{e4}\u{f6}\u{fc} \u{1f60e}");
}

#[test]
fn format_string_writes_every_digit_in_order() {
    let mut slot = StringSlot::new();
    let numbers: [u32; 8] = [7, 10, 99, 100, 1234567890, 4000000000, 1000000000, u32::MAX];
    for number in numbers {
        format_string(&mut slot, number);
        let text = String::from_utf8(slot.live().unwrap().as_bytes().to_vec()).unwrap();
        assert_eq!(text, format!("The number is {} \u{e4}\u{f6}\u{fc} \u{1f60e}", number));
    }
    format_string(&mut slot, u32::MAX);
    let text = String::from_utf8(slot.live().unwrap().as_bytes().to_vec()).unwrap();
    assert_eq!(text, "The number is 4294967295 \u{e4}\u{f6}\u{fc} \u{1f60e}");
}

#[test]
fn the_live_string_stays_readable_until_it_is_released() {
    let mut slot = StringSlot::new();
    format_string(&mut slot, 42);
    let first_read = live_bytes(&slot);
    let second_read = live_bytes(&slot);
    assert_eq!(first_read, second_read);
    assert_eq!(first_read.last(), Some(&0u8));
    free_string(&mut slot);
    assert!(slot.live().is_none());
}

#[test]
fn a_second_string_displaces_the_first() {
    let mut slot = StringSlot::new();
    assert!(format_string(&mut slot, 1).is_none());
    let displaced = format_string(&mut slot, 2);
    let earlier = displaced.unwrap();
    assert_eq!(
        std::str::from_utf8(earlier.as_bytes()).unwrap(),
        "The number is 1 \u{e4}\u{f6}\u{fc} \u{1f60e}"
    );
    assert_eq!(earlier.as_bytes_with_nul().last(), Some(&0u8));
    assert_eq!(
        std::str::from_utf8(slot.live().unwrap().as_bytes()).unwrap(),
        "The number is 2 \u{e4}\u{f6}\u{fc} \u{1f60e}"
    );
}

#[test]
fn free_string_empties_the_slot() {
    let mut slot = StringSlot::new();
    format_string(&mut slot, 5);
    assert!(slot.is_live());
    free_string(&mut slot);
    assert!(!slot.is_live());
}

#[test]
fn free_string_twice_in_a_row_is_harmless() {
    let mut slot = StringSlot::new();
    format_string(&mut slot, 42);
    free_string(&mut slot);
    free_string(&mut slot);
    assert!(!slot.is_live());
    assert!(slot.live().is_none());
}

#[test]
fn free_string_on_a_new_slot_does_nothing() {
    let mut slot = StringSlot::new();
    free_string(&mut slot);
    assert!(!slot.is_live());
}

#[test]
fn a_slot_can_be_used_again_after_release() {
    let mut slot = StringSlot::new();
    format_string(&mut slot, 1);
    free_string(&mut slot);
    let displaced = format_string(&mut slot, 2);
    assert!(displaced.is_none());
    assert_eq!(live_bytes(&slot), {
        let mut expected = "The number is 2 \u{e4}\u{f6}\u{fc} \u{1f60e}".as_bytes().to_vec();
        expected.push(0);
        expected
    });
}

#[test]
fn store_string_on_heap_terminates_a_copy_of_the_text() {
    let mut slot = StringSlot::new();
    let displaced = store_string_on_heap(&mut slot, "abc");
    assert!(displaced.is_none());
    let string = slot.live().unwrap();
    assert_eq!(string.as_bytes(), b"abc");
    assert_eq!(string.as_bytes_with_nul(), b"abc\0");
}

#[test]
fn store_string_on_heap_keeps_an_empty_text_as_a_lone_terminator() {
    let mut slot = StringSlot::new();
    store_string_on_heap(&mut slot, "");
    let string = slot.live().unwrap();
    assert_eq!(string.as_bytes(), b"");
    assert_eq!(string.as_bytes_with_nul(), &[0u8]);
}

#[test]
fn store_string_on_heap_hands_back_the_string_it_displaces() {
    let mut slot = StringSlot::new();
    store_string_on_heap(&mut slot, "first");
    let displaced = store_string_on_heap(&mut slot, "second \u{20ac}");
    assert_eq!(displaced.unwrap().as_bytes(), b"first");
    assert_eq!(slot.live().unwrap().as_bytes(), "second \u{20ac}".as_bytes());
}
