use dht_pio::engine::{check_reading, clock_divisor, compute_crc, Next, Transaction};
use dht_pio::DhtError;

/// Runs a transaction against a scripted output queue the way a driver does: poll, step,
/// sleep, until the transaction asks for something other than another poll. Gives what it
/// asked for, how many restarts were requested, and how many polls were made.
fn drive(mut t: Transaction, polls: &[Option<u32>]) -> (Next, usize, usize) {
    let mut restarts = 0;
    let mut used = 0;
    loop {
        let received = if used < polls.len() { polls[used] } else { None };
        used += 1;
        let next = t.step(received);
        match next {
            Next::Continue => {}
            Next::Restart => {
                restarts += 1;
                return (next, restarts, used);
            }
            Next::Finish(_) => return (next, restarts, used),
        }
    }
}

#[test]
fn crc_of_zero() {
    assert_eq!(compute_crc(0), 0);
}

#[test]
fn crc_of_all_ones() {
    assert_eq!(compute_crc(0xFFFF_FFFF), (4 * 0xFF) % 256);
    assert_eq!(compute_crc(0xFFFF_FFFF), 252);
}

#[test]
fn crc_of_mixed_pattern() {
    assert_eq!(compute_crc(0x01F4_00C8), (0x01 + 0xF4 + 0x00 + 0xC8) % 256);
    assert_eq!(compute_crc(0x01F4_00C8), 0xBD);
    assert_eq!(compute_crc(0x1234_5678), (0x12 + 0x34 + 0x56 + 0x78) % 256);
}

#[test]
fn check_reading_splits_halves() {
    assert_eq!(check_reading(0x01F4_00C8, 0xBD), Ok((200, 500)));
}

#[test]
fn check_reading_uses_low_byte_of_checksum_word() {
    assert_eq!(check_reading(0x01F4_00C8, 0xFF00_00BD), Ok((0x00C8, 0x01F4)));
}

#[test]
fn check_reading_reports_mismatch() {
    assert_eq!(
        check_reading(0x01F4_00C8, 0xBE),
        Err(DhtError::CrcMismatch(0x01F4_00C8, 0xBE))
    );
}

#[test]
fn start_command_is_length_less_one() {
    assert_eq!(Transaction::begin(1).start_command(), 0);
    assert_eq!(Transaction::begin(18).start_command(), 17);
}

#[test]
fn begin_sets_countdown_with_margin() {
    let t = Transaction::begin(18);
    assert_eq!(t.countdown, 28);
    assert_eq!(t.first, None);
    assert_eq!(t.second, None);
}

#[test]
fn silent_queue_times_out_with_one_restart() {
    let (next, restarts, used) = drive(Transaction::begin(1), &[]);
    assert_eq!(next, Next::Restart);
    assert_eq!(restarts, 1);
    assert_eq!(used, 11);
}

#[test]
fn one_word_times_out() {
    let (next, restarts, used) = drive(Transaction::begin(18), &[None, Some(0x01F4_00C8)]);
    assert_eq!(next, Next::Restart);
    assert_eq!(restarts, 1);
    assert_eq!(used, 28);
}

#[test]
fn second_word_on_last_poll_completes() {
    let mut polls = vec![None; 9];
    polls.push(Some(0x01F4_00C8));
    polls.push(Some(0xBD));
    let (next, restarts, used) = drive(Transaction::begin(1), &polls);
    assert_eq!(next, Next::Finish(Ok((200, 500))));
    assert_eq!(restarts, 0);
    assert_eq!(used, 11);
}

#[test]
fn mismatch_on_last_poll_fails_without_restart() {
    let mut polls = vec![Some(0x01F4_00C8)];
    polls.extend(vec![None; 9]);
    polls.push(Some(0x42));
    let (next, restarts, used) = drive(Transaction::begin(1), &polls);
    assert_eq!(next, Next::Finish(Err(DhtError::CrcMismatch(0x01F4_00C8, 0x42))));
    assert_eq!(restarts, 0);
    assert_eq!(used, 11);
}

#[test]
fn second_word_just_before_last_poll_completes() {
    let mut polls = vec![None; 8];
    polls.push(Some(0x01F4_00C8));
    polls.push(Some(0xBD));
    let (next, restarts, used) = drive(Transaction::begin(1), &polls);
    assert_eq!(next, Next::Finish(Ok((200, 500))));
    assert_eq!(restarts, 0);
    assert_eq!(used, 10);
}

#[test]
fn mismatched_checksum_fails_without_restart() {
    let (next, restarts, _) = drive(Transaction::begin(1), &[Some(0x01F4_00C8), None, Some(0x42)]);
    assert_eq!(next, Next::Finish(Err(DhtError::CrcMismatch(0x01F4_00C8, 0x42))));
    assert_eq!(restarts, 0);
}

#[test]
fn good_reading_on_first_polls() {
    let data: u32 = (0x01F4 << 16) | 0x00C8;
    let crc = compute_crc(data);
    let mut t = Transaction::begin(1);
    assert_eq!(t.step(Some(data)), Next::Continue);
    assert_eq!(t.step(Some(crc)), Next::Finish(Ok((200, 500))));
    assert_eq!(t.countdown, 9);
}

#[test]
fn step_fills_slots_in_order() {
    let mut t = Transaction::begin(1);
    assert_eq!(t.step(None), Next::Continue);
    assert_eq!(t.first, None);
    assert_eq!(t.step(Some(7)), Next::Continue);
    assert_eq!(t.first, Some(7));
    assert_eq!(t.second, None);
    assert_eq!(t.countdown, 9);
}

#[test]
fn clock_divisor_is_megahertz() {
    assert_eq!(clock_divisor(125), Some(125));
    assert_eq!(clock_divisor(1), Some(1));
    assert_eq!(clock_divisor(0), None);
    assert_eq!(clock_divisor(0x1_0000), None);
}
