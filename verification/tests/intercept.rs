use rpio_utils::dev::env::DelayLog;
use rpio_utils::dev::env::Journal;
use rpio_utils::dev::env::Sink;
use rpio_utils::dev::output::intercept::PinOpts;
use rpio_utils::dev::spi::intercept::print_summary;
use rpio_utils::dev::spi::intercept::printable_bytes;
use rpio_utils::dev::spi::intercept::rows;
use rpio_utils::dev::spi::intercept::SpiOpts;
use rpio_utils::dev::spi::mock::Echo;
use rpio_utils::dev::text::align_right;
use rpio_utils::dev::text::decimal;
use rpio_utils::dev::text::digit;
use rpio_utils::dev::Intercept;
use rpio_utils::dev::Mock;
use rpio_utils::dev::PinError;
use rpio_utils::dev::SpiError;
use rpio_utils::OutputPin;
use rpio_utils::Transfer;

/// Answers with every byte turned around, and fails on buffers of seven.
struct Flip;

impl Transfer for Flip {
    type Error = &'static str;

    fn transfer<'w>(&mut self, words: &'w mut [u8]) -> Result<&'w [u8], &'static str> {
        if words.len() == 7 {
            words[0] = 0xee;
            return Err("seven");
        }
        for word in words.iter_mut() {
            *word = !*word;
        }
        Ok(words)
    }
}

/// A line that cannot be driven low.
struct Stuck;

impl OutputPin for Stuck {
    type Error = u32;

    fn set_high(&mut self) -> Result<(), u32> {
        Ok(())
    }

    fn set_low(&mut self) -> Result<(), u32> {
        Err(42)
    }
}

fn lines(journal: &Journal) -> Vec<&str> {
    journal.entries().iter().map(|line| line.as_str()).collect()
}

#[test]
fn intercept_returns_what_the_device_returns() {
    for len in [0usize, 1, 6, 7, 8, 16, 17, 40] {
        let mut bare = vec![0u8; len];
        for (i, byte) in bare.iter_mut().enumerate() {
            *byte = (i as u8).wrapping_mul(7);
        }
        let mut quiet = bare.clone();
        let mut plain = bare.clone();
        let mut full = bare.clone();

        let expected = Flip.transfer(&mut bare).map(|rx| rx.to_vec());

        let mut spi = Intercept::spi("Q").without_log().init(Flip, Journal::new());
        assert_eq!(spi.transfer(&mut quiet).map(|rx| rx.to_vec()), expected);
        assert_eq!(quiet, bare);
        assert!(spi.written().entries().is_empty());

        let mut spi = Intercept::spi("P").init(Flip, Journal::new());
        assert_eq!(spi.transfer(&mut plain).map(|rx| rx.to_vec()), expected);
        assert_eq!(plain, bare);

        let mut spi = Intercept::spi("F").with_byte_log().init(Flip, Journal::new());
        assert_eq!(spi.transfer(&mut full).map(|rx| rx.to_vec()), expected);
        assert_eq!(full, bare);
    }
}

#[test]
fn intercept_reports_start_and_completion() {
    let mut spi = Intercept::spi("MySPI").init(Flip, Journal::new());
    assert!(spi.transfer(&mut [1u8, 2, 3]).is_ok());
    assert_eq!(
        lines(spi.written()),
        vec!["MySPI -> Start transfer (3 bytes)", "MySPI -> Transfer complete"]
    );
}

#[test]
fn intercept_reports_a_failed_transfer() {
    let mut spi = Intercept::spi("MySPI").with_byte_log().init(Flip, Journal::new());
    assert_eq!(spi.transfer(&mut [0u8; 7]), Err("seven"));
    assert_eq!(
        lines(spi.written()),
        vec!["MySPI -> Start transfer (7 bytes)", "MySPI -> Error (transfer failed)"]
    );
}

#[test]
fn intercept_reports_the_bytes_in_rows_of_sixteen() {
    let mut spi = Intercept::spi("S").with_byte_log().init(Flip, Journal::new());
    let mut buffer = [0u8; 20];
    for (i, byte) in buffer.iter_mut().enumerate() {
        *byte = i as u8;
    }
    assert!(spi.transfer(&mut buffer).is_ok());
    assert_eq!(
        lines(spi.written()),
        vec![
            "S -> Start transfer (20 bytes)",
            "        0-16 --> 00 01 02 03 04 05 06 07 08 09 0a 0b 0c 0d 0e 0f -->",
            "             <-- ff fe fd fc fb fa f9 f8 f7 f6 f5 f4 f3 f2 f1 f0 <--",
            "       16-20 --> 10 11 12 13 -->",
            "             <-- ef ee ed ec <--",
            "S -> Transfer complete",
        ]
    );
}

#[test]
fn intercept_switches_follow_set_log() {
    let mut spi = Intercept::spi("S").init(Flip, Journal::new());
    spi.set_log(false);
    assert!(spi.transfer(&mut [1u8]).is_ok());
    assert!(spi.written().entries().is_empty());
    spi.set_log_bytes(true);
    assert!(spi.transfer(&mut [1u8]).is_ok());
    assert!(spi.written().entries().is_empty());
    spi.set_log(true);
    assert!(spi.transfer(&mut [1u8]).is_ok());
    assert_eq!(
        lines(spi.written()),
        vec![
            "S -> Start transfer (1 bytes)",
            "         0-1 --> 01 -->",
            "             <-- fe <--",
            "S -> Transfer complete",
        ]
    );
}

#[test]
fn mock_control_switches_the_report_of_its_intercept() {
    let (mut spi, control) =
        Mock::spi("M").with_generator(Echo).init(DelayLog::new(), Journal::new());
    control.set_log(false);
    assert!(spi.transfer(&mut [1u8, 2]).is_ok());
    assert!(spi.written().entries().is_empty());
    control.set_log(true).set_log_bytes(true);
    control.set_error(SpiError::Transfer).set_error_defer_bytes(2);
    assert!(spi.transfer(&mut [0xabu8, 0xcd]).is_ok());
    assert_eq!(spi.transfer(&mut [1u8]), Err(SpiError::Transfer));
    assert_eq!(
        lines(spi.written()),
        vec![
            "M -> Start transfer (2 bytes)",
            "         0-2 --> ab cd -->",
            "             <-- ab cd <--",
            "M -> Transfer complete",
            "M -> Start transfer (1 bytes)",
            "M -> Error (transfer failed)",
        ]
    );
}

#[test]
fn pin_intercept_reports_every_attempt() {
    let mut pin = Intercept::pin("MyCS").init(Stuck, Journal::new());
    assert_eq!(pin.set_high(), Ok(()));
    assert_eq!(pin.set_low(), Err(42));
    assert_eq!(lines(pin.written()), vec!["MyCS -> high", "MyCS -> Error (not set low)"]);
}

#[test]
fn pin_intercept_reports_a_mock_that_fails() {
    let (mut pin, control) = Mock::pin("CS").init(DelayLog::new(), Journal::new());
    control.set_error(PinError::SetHigh);
    assert_eq!(pin.set_low(), Ok(()));
    assert_eq!(pin.set_high(), Err(PinError::SetHigh));
    assert_eq!(pin.set_high(), Ok(()));
    control.set_log(false);
    assert_eq!(pin.set_low(), Ok(()));
    assert_eq!(
        lines(pin.written()),
        vec!["CS -> low", "CS -> Error (not set high)", "CS -> high"]
    );
}

#[test]
fn pin_intercept_returns_what_the_line_returns() {
    let mut quiet = Intercept::pin("Q").without_log().init(Stuck, Journal::new());
    assert_eq!(quiet.set_high(), Stuck.set_high());
    assert_eq!(quiet.set_low(), Stuck.set_low());
    assert!(quiet.written().entries().is_empty());
    quiet.set_log(true);
    assert_eq!(quiet.set_low(), Stuck.set_low());
    assert_eq!(lines(quiet.written()), vec!["Q -> Error (not set low)"]);
}

#[test]
fn options_start_with_reporting_on() {
    assert!(PinOpts::new().log);
    let opts = SpiOpts::new();
    assert!(opts.log);
    assert!(!opts.bytes);
}

#[test]
fn bytes_print_as_hex_pairs() {
    assert_eq!(printable_bytes(&[]), "");
    assert_eq!(printable_bytes(&[0]), "00");
    assert_eq!(printable_bytes(&[0x0f, 0xa0, 0xff, 0x10]), "0f a0 ff 10");
}

#[test]
fn summary_stops_at_the_shorter_buffer() {
    let mut journal = Journal::new();
    let tx = [0x11u8; 33];
    let rx = [0x22u8; 17];
    print_summary(&tx, &rx, &mut journal);
    assert_eq!(
        lines(&journal),
        vec![
            "        0-16 --> 11 11 11 11 11 11 11 11 11 11 11 11 11 11 11 11 -->",
            "             <-- 22 22 22 22 22 22 22 22 22 22 22 22 22 22 22 22 <--",
            "       16-32 --> 11 11 11 11 11 11 11 11 11 11 11 11 11 11 11 11 -->",
            "             <-- 22 <--",
        ]
    );
    let mut journal = Journal::new();
    print_summary(&[], &[], &mut journal);
    assert!(journal.entries().is_empty());
}

#[test]
fn rows_round_up() {
    assert_eq!(rows(0), 0);
    assert_eq!(rows(1), 1);
    assert_eq!(rows(16), 1);
    assert_eq!(rows(17), 2);
    assert_eq!(rows(32), 2);
    assert_eq!(rows(usize::MAX), usize::MAX / 16 + 1);
}

#[test]
fn numbers_print_in_decimal() {
    assert_eq!(decimal(0), "0");
    assert_eq!(decimal(7), "7");
    assert_eq!(decimal(10), "10");
    assert_eq!(decimal(1234567890), "1234567890");
    assert_eq!(decimal(usize::MAX), usize::MAX.to_string());
    assert_eq!(digit(0), "0");
    assert_eq!(digit(9), "9");
    assert_eq!(digit(10), "a");
    assert_eq!(digit(15), "f");
}

#[test]
fn text_moves_to_the_right_of_its_field() {
    assert_eq!(align_right(String::from("0-16"), 12), "        0-16");
    assert_eq!(align_right(String::new(), 3), "   ");
    assert_eq!(align_right(String::from("abc"), 3), "abc");
    assert_eq!(align_right(String::from("abcdef"), 3), "abcdef");
}

#[test]
fn journal_keeps_its_lines_in_order() {
    let mut journal = Journal::new();
    journal.line(String::from("one"));
    journal.line(String::from("two"));
    assert_eq!(lines(&journal), vec!["one", "two"]);
}
