use ark::protocol::is_last;
use ark::protocol::is_unique;
use ark::protocol::HandleEvent;
use ark::protocol::INITIAL_COUNT;
use ark::protocol::ONE_HANDLE;

#[test]
fn a_new_cell_counts_one_handle() {
    assert_eq!(INITIAL_COUNT, 1);
    assert!(is_unique(INITIAL_COUNT));
}

#[test]
fn one_handle_counts_for_one() {
    assert_eq!(ONE_HANDLE, 1);
    assert!(!is_unique(INITIAL_COUNT + ONE_HANDLE));
    assert!(is_last(INITIAL_COUNT));
    assert_eq!(INITIAL_COUNT - ONE_HANDLE, 0);
}

#[test]
fn only_a_count_of_one_is_unique() {
    assert!(!is_unique(0));
    assert!(is_unique(1));
    assert!(!is_unique(2));
    assert!(!is_unique(3));
    assert!(!is_unique(usize::MAX));
}

#[test]
fn only_a_decrement_from_one_is_the_last() {
    assert!(!is_last(0));
    assert!(is_last(1));
    assert!(!is_last(2));
    assert!(!is_last(usize::MAX));
}

#[test]
fn replayed_history_reclaims_once() {
    let history = [
        HandleEvent::Cloned,
        HandleEvent::Probed,
        HandleEvent::Cloned,
        HandleEvent::Dropped,
        HandleEvent::Probed,
        HandleEvent::Dropped,
        HandleEvent::Probed,
        HandleEvent::Dropped,
    ];
    let granted = [false, false, true];
    let mut count = INITIAL_COUNT;
    let mut reclaimed = 0;
    let mut probes = 0;
    for event in history {
        match event {
            HandleEvent::Cloned => count += ONE_HANDLE,
            HandleEvent::Dropped => {
                if is_last(count) {
                    reclaimed += 1;
                }
                count -= ONE_HANDLE;
            }
            HandleEvent::Probed => {
                assert_eq!(is_unique(count), granted[probes]);
                probes += 1;
            }
        }
        assert_eq!(reclaimed, if count == 0 { 1 } else { 0 });
    }
    assert_eq!(count, 0);
    assert_eq!(reclaimed, 1);
    assert_eq!(probes, 3);
}
