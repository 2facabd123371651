use stretch_backend::progress::{percentage, Transfer, PROGRESS_EVENT};

#[test]
fn percentage_is_whole_percent_rounded_down() {
    assert_eq!(percentage(300_000, 1_000_000), Some(30));
    assert_eq!(percentage(1, 3), Some(33));
    assert_eq!(percentage(2, 3), Some(66));
    assert_eq!(percentage(999_999, 1_000_000), Some(99));
    assert_eq!(percentage(1, 1_000), Some(0));
}

#[test]
fn percentage_is_exact_where_binary_fractions_are_not() {
    assert_eq!(percentage(29, 100), Some(29));
    assert_eq!(percentage(57, 100), Some(57));
    assert_eq!(percentage(58, 100), Some(58));
    assert_eq!(percentage(7, 25), Some(28));
}

#[test]
fn percentage_of_nothing_is_zero() {
    assert_eq!(percentage(0, 1), Some(0));
    assert_eq!(percentage(0, u64::MAX), Some(0));
}

#[test]
fn percentage_of_everything_is_one_hundred() {
    assert_eq!(percentage(1, 1), Some(100));
    assert_eq!(percentage(1_000_000, 1_000_000), Some(100));
    assert_eq!(percentage(u64::MAX, u64::MAX), Some(100));
}

#[test]
fn percentage_is_absent_while_the_size_is_unknown() {
    assert_eq!(percentage(0, 0), None);
    assert_eq!(percentage(12_345, 0), None);
    assert_eq!(percentage(u64::MAX, 0), None);
}

#[test]
fn percentage_follows_the_bytes_beyond_the_declared_size() {
    assert_eq!(percentage(200, 100), Some(200));
    assert_eq!(percentage(1_001, 10), Some(10_010));
}

#[test]
fn percentage_is_held_to_what_the_payload_can_carry() {
    assert_eq!(percentage(u64::MAX, 1), Some(u32::MAX));
    assert_eq!(percentage(42_949_673, 1), Some(u32::MAX));
    assert_eq!(percentage(42_949_672, 1), Some(4_294_967_200));
}

#[test]
fn percentage_never_decreases_with_more_bytes() {
    let total: u64 = 977;
    let mut last: u32 = 0;
    let mut received: u64 = 0;
    while received <= total {
        let now = percentage(received, total).unwrap();
        assert!(now >= last);
        assert!(now <= 100);
        last = now;
        received += 1;
    }
    assert_eq!(last, 100);
}

#[test]
fn transfer_begins_empty_with_the_declared_size() {
    let transfer = Transfer::begin(Some(1_000_000));
    assert_eq!(transfer.bytes_downloaded(), 0);
    assert_eq!(transfer.total_size(), 1_000_000);
    assert_eq!(transfer.percentage(), Some(0));
}

#[test]
fn transfer_without_declared_size_has_total_zero() {
    let transfer = Transfer::begin(None);
    assert_eq!(transfer.bytes_downloaded(), 0);
    assert_eq!(transfer.total_size(), 0);
    assert_eq!(transfer.percentage(), None);
}

#[test]
fn transfer_with_declared_size_zero_shows_nothing() {
    let transfer = Transfer::begin(Some(0));
    assert_eq!(transfer.total_size(), 0);
    assert_eq!(transfer.percentage(), None);
    let later = transfer.record(10).unwrap();
    assert_eq!(later.bytes_downloaded(), 10);
    assert_eq!(later.percentage(), None);
}

#[test]
fn transfer_counts_bytes_and_shows_their_percentage() {
    let start = Transfer::begin(Some(400));
    let first = start.record(100).unwrap();
    assert_eq!(first.bytes_downloaded(), 100);
    assert_eq!(first.total_size(), 400);
    assert_eq!(first.percentage(), Some(25));
    let second = first.record(150).unwrap();
    assert_eq!(second.bytes_downloaded(), 250);
    assert_eq!(second.percentage(), Some(62));
    let third = second.record(150).unwrap();
    assert_eq!(third.bytes_downloaded(), 400);
    assert_eq!(third.percentage(), Some(100));
    assert_eq!(start.bytes_downloaded(), 0);
}

#[test]
fn transfer_keeps_its_state_over_an_empty_chunk() {
    let start = Transfer::begin(Some(8)).record(4).unwrap();
    let same = start.record(0).unwrap();
    assert_eq!(same.bytes_downloaded(), 4);
    assert_eq!(same.percentage(), Some(50));
}

#[test]
fn transfer_refuses_a_count_beyond_64_bits() {
    let full = Transfer::begin(None).record(u64::MAX).unwrap();
    assert_eq!(full.bytes_downloaded(), u64::MAX);
    assert!(full.record(1).is_none());
    assert!(full.record(u64::MAX).is_none());
    assert!(full.record(0).is_some());
    let near = Transfer::begin(Some(10)).record(u64::MAX - 5).unwrap();
    assert!(near.record(5).is_some());
    assert!(near.record(6).is_none());
}

#[test]
fn progress_event_has_its_fixed_name() {
    assert_eq!(PROGRESS_EVENT, "update-download-progress");
}
