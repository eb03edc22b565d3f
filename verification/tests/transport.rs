use rpio_utils::dev::env::DelayLog;
use rpio_utils::dev::env::Journal;
use rpio_utils::dev::Mock;
use rpio_utils::dev::PinError;
use rpio_utils::dev::SpiError;
use rpio_utils::dev::spi::mock::Echo;
use rpio_utils::transport::cs::idle_level_of;
use rpio_utils::transport::cs::select_level_of;
use rpio_utils::transport::traits::reported_error;
use rpio_utils::Error;
use rpio_utils::OutputPin;
use rpio_utils::Polarity;
use rpio_utils::SpiDev;
use rpio_utils::Transfer;
use rpio_utils::Transport;
use std::cell::RefCell;
use std::rc::Rc;

#[derive(Debug, Clone, Copy, PartialEq, Eq)]
enum Event {
    High,
    Low,
    Exchange(usize),
}

type Trace = Rc<RefCell<Vec<Event>>>;

/// A line that writes down every attempt and fails where it is told to.
struct Line {
    trace: Trace,
    fail_high: bool,
    fail_low: bool,
}

impl OutputPin for Line {
    type Error = u8;

    fn set_high(&mut self) -> Result<(), u8> {
        self.trace.borrow_mut().push(Event::High);
        if self.fail_high {
            Err(1)
        } else {
            Ok(())
        }
    }

    fn set_low(&mut self) -> Result<(), u8> {
        self.trace.borrow_mut().push(Event::Low);
        if self.fail_low {
            Err(2)
        } else {
            Ok(())
        }
    }
}

/// A device that writes down every exchange and answers with each byte plus
/// one, or fails without touching the buffer.
struct Bus {
    trace: Trace,
    fail: bool,
}

impl Transfer for Bus {
    type Error = u8;

    fn transfer<'w>(&mut self, words: &'w mut [u8]) -> Result<&'w [u8], u8> {
        self.trace.borrow_mut().push(Event::Exchange(words.len()));
        if self.fail {
            return Err(3);
        }
        for word in words.iter_mut() {
            *word = word.wrapping_add(1);
        }
        Ok(words)
    }
}

fn parts(fail_high: bool, fail_low: bool, fail_bus: bool) -> (Bus, Line, Trace) {
    let trace: Trace = Rc::new(RefCell::new(Vec::new()));
    let bus = Bus { trace: trace.clone(), fail: fail_bus };
    let line = Line { trace: trace.clone(), fail_high, fail_low };
    (bus, line, trace)
}

#[test]
fn successful_transfer_is_bracketed_by_select_and_deselect() {
    let (bus, line, trace) = parts(false, false, false);
    let mut transport = Transport::new(bus).with_chip_select(line).init();
    trace.borrow_mut().clear();
    let mut buffer = [1u8, 2, 3];
    let result = transport.transfer(&mut buffer);
    assert_eq!(result, Ok(&[2u8, 3, 4][..]));
    assert_eq!(*trace.borrow(), vec![Event::Low, Event::Exchange(3), Event::High]);
    assert_eq!(buffer, [2, 3, 4]);
}

#[test]
fn construction_drives_the_line_to_idle_high() {
    let (bus, line, trace) = parts(false, false, false);
    let _transport = Transport::new(bus).with_chip_select(line).init();
    assert_eq!(*trace.borrow(), vec![Event::High]);
}

#[test]
fn construction_drives_the_line_to_idle_low() {
    let (bus, line, trace) = parts(false, false, false);
    let _transport =
        Transport::new(bus).with_chip_select(line).with_polarity(Polarity::IdleLow).init();
    assert_eq!(*trace.borrow(), vec![Event::Low]);
}

#[test]
fn construction_leaves_a_mock_line_at_its_idle_level() {
    let (spi, _spi_control) =
        Mock::spi::<Echo>("SPI").without_log().init(DelayLog::new(), Journal::new());
    let (pin, control) = Mock::pin("CS").without_log().init(DelayLog::new(), Journal::new());
    let _transport =
        Transport::new(spi).with_chip_select(pin).with_polarity(Polarity::IdleLow).init();
    assert!(!control.get_value());

    let (spi, _spi_control) =
        Mock::spi::<Echo>("SPI").without_log().init(DelayLog::new(), Journal::new());
    let (pin, control) = Mock::pin("CS").without_log().init(DelayLog::new(), Journal::new());
    control.set_error(PinError::SetLow);
    let high = rpio_utils::transport::cs::Transport::new(spi, pin, Polarity::IdleHigh);
    assert!(control.get_value());
    assert!(high.is_chip_select());
}

#[test]
fn construction_ignores_a_failed_deselect() {
    let (bus, line, trace) = parts(true, false, false);
    let mut transport = Transport::new(bus).with_chip_select(line).init();
    assert_eq!(*trace.borrow(), vec![Event::High]);
    let mut buffer = [0u8; 2];
    assert_eq!(transport.transfer(&mut buffer), Err(Error::ChipDeselect));
}

#[test]
fn failed_select_returns_chip_select_and_tries_nothing_else() {
    let (bus, line, trace) = parts(false, true, false);
    let mut transport = Transport::new(bus).with_chip_select(line).init();
    trace.borrow_mut().clear();
    let mut buffer = [7u8, 8];
    assert_eq!(transport.transfer(&mut buffer), Err(Error::ChipSelect));
    assert_eq!(*trace.borrow(), vec![Event::Low]);
    assert_eq!(buffer, [7, 8]);
}

#[test]
fn failed_exchange_deselects_and_returns_the_transfer_error() {
    let (bus, line, trace) = parts(false, false, true);
    let mut transport = Transport::new(bus).with_chip_select(line).init();
    trace.borrow_mut().clear();
    let mut buffer = [7u8, 8];
    assert_eq!(transport.transfer(&mut buffer), Err(Error::Transfer));
    assert_eq!(*trace.borrow(), vec![Event::Low, Event::Exchange(2), Event::High]);
}

#[test]
fn failed_exchange_and_failed_deselect_return_chip_deselect() {
    let (bus, line, trace) = parts(true, false, true);
    let mut transport = Transport::new(bus).with_chip_select(line).init();
    trace.borrow_mut().clear();
    let mut buffer = [7u8, 8];
    assert_eq!(transport.transfer(&mut buffer), Err(Error::ChipDeselect));
    assert_eq!(*trace.borrow(), vec![Event::Low, Event::Exchange(2), Event::High]);
}

#[test]
fn failed_deselect_after_a_good_exchange_returns_chip_deselect() {
    let (bus, line, trace) = parts(true, false, false);
    let mut transport = Transport::new(bus).with_chip_select(line).init();
    trace.borrow_mut().clear();
    let mut buffer = [7u8, 8];
    assert_eq!(transport.transfer(&mut buffer), Err(Error::ChipDeselect));
    assert_eq!(*trace.borrow(), vec![Event::Low, Event::Exchange(2), Event::High]);
    assert_eq!(buffer, [8, 9]);
}

#[test]
fn idle_low_selects_high_and_deselects_low() {
    let (bus, line, trace) = parts(false, false, false);
    let mut transport =
        Transport::new(bus).with_chip_select(line).with_polarity(Polarity::IdleLow).init();
    trace.borrow_mut().clear();
    let mut buffer = [0u8; 4];
    assert!(transport.transfer(&mut buffer).is_ok());
    assert_eq!(*trace.borrow(), vec![Event::High, Event::Exchange(4), Event::Low]);
}

#[test]
fn levels_follow_the_polarity() {
    assert!(idle_level_of(Polarity::IdleHigh));
    assert!(!idle_level_of(Polarity::IdleLow));
    assert!(!select_level_of(Polarity::IdleHigh));
    assert!(select_level_of(Polarity::IdleLow));
}

#[test]
fn chip_select_transport_steps_one_by_one() {
    let (bus, line, trace) = parts(false, false, false);
    let mut transport = Transport::new(bus).with_chip_select(line).init();
    trace.borrow_mut().clear();
    assert_eq!(transport.select(), Ok(()));
    let mut buffer = [1u8];
    assert_eq!(transport.raw_transfer(&mut buffer), Ok(&[2u8][..]));
    assert_eq!(transport.deselect(), Ok(()));
    assert_eq!(*trace.borrow(), vec![Event::Low, Event::Exchange(1), Event::High]);
    assert!(transport.is_chip_select());
    assert!(!transport.is_clock_speed());
    assert_eq!(transport.set_clock_speed(1_000_000), Err(Error::NotImplemented));
}

#[test]
fn raw_transfer_or_deselect_deselects_only_after_a_failure() {
    let (bus, line, trace) = parts(false, false, false);
    let mut transport = Transport::new(bus).with_chip_select(line).init();
    trace.borrow_mut().clear();
    let mut buffer = [1u8];
    assert_eq!(transport.raw_transfer_or_deselect(&mut buffer), Ok(&[2u8][..]));
    assert_eq!(*trace.borrow(), vec![Event::Exchange(1)]);

    let (bus, line, trace) = parts(false, false, true);
    let mut transport = Transport::new(bus).with_chip_select(line).init();
    trace.borrow_mut().clear();
    assert_eq!(transport.raw_transfer_or_deselect(&mut buffer), Err(Error::Transfer));
    assert_eq!(*trace.borrow(), vec![Event::Exchange(1), Event::High]);

    let (bus, line, _trace) = parts(true, false, true);
    let mut transport = Transport::new(bus).with_chip_select(line).init();
    assert_eq!(transport.raw_transfer_or_deselect(&mut buffer), Err(Error::ChipDeselect));
}

#[test]
fn reported_error_prefers_the_failed_cleanup() {
    assert_eq!(reported_error(Error::Transfer, Ok(())), Error::Transfer);
    assert_eq!(reported_error(Error::Transfer, Err(Error::ChipDeselect)), Error::ChipDeselect);
    assert_eq!(reported_error(Error::ClockSpeed, Err(Error::NotImplemented)), Error::ChipDeselect);
    assert_eq!(reported_error(Error::NotImplemented, Ok(())), Error::NotImplemented);
}

#[test]
fn self_selecting_transport_passes_the_exchange_on() {
    let (bus, _line, trace) = parts(false, false, false);
    let mut transport = Transport::new(bus).init();
    let mut buffer = [10u8, 20];
    assert_eq!(transport.transfer(&mut buffer), Ok(&[11u8, 21][..]));
    assert_eq!(*trace.borrow(), vec![Event::Exchange(2)]);
}

#[test]
fn self_selecting_transport_reports_any_failure_as_transfer() {
    let (bus, _line, _trace) = parts(false, false, true);
    let mut transport = Transport::new(bus).init();
    let mut buffer = [10u8, 20];
    assert_eq!(transport.transfer(&mut buffer), Err(Error::Transfer));
    assert_eq!(buffer, [10, 20]);
}

#[test]
fn self_selecting_transport_declines_every_capability() {
    let (bus, _line, trace) = parts(false, false, false);
    let mut transport = Transport::new(bus).init();
    let mut buffer = [1u8, 2];
    assert!(!transport.is_chip_select());
    assert!(!transport.is_clock_speed());
    assert_eq!(transport.select(), Err(Error::NotImplemented));
    assert_eq!(transport.deselect(), Err(Error::NotImplemented));
    assert_eq!(transport.raw_transfer(&mut buffer), Err(Error::NotImplemented));
    assert_eq!(transport.raw_transfer_or_deselect(&mut buffer), Err(Error::ChipDeselect));
    assert_eq!(transport.set_clock_speed(500_000), Err(Error::NotImplemented));
    assert_eq!(buffer, [1, 2]);
    assert!(trace.borrow().is_empty());
}

#[test]
fn every_error_has_its_message() {
    assert_eq!(Error::Transfer.message(), "SPI transfer error");
    assert_eq!(Error::ChipSelect.message(), "Select SPI chip error");
    assert_eq!(Error::ChipDeselect.message(), "Deselect SPI chip error");
    assert_eq!(Error::ClockSpeed.message(), "Set SPI clock speed error");
    assert_eq!(Error::NotImplemented.message(), "That feature is not implemented");
}

#[test]
fn deferred_error_fires_after_thirty_three_bytes_through_a_transport() {
    let (spi, control) = Mock::spi("SPI")
        .with_byte_log()
        .with_generator(Echo)
        .init(DelayLog::new(), Journal::new());
    let (pin, pin_control) = Mock::pin("CS").init(DelayLog::new(), Journal::new());
    let mut transport = Transport::new(spi).with_chip_select(pin).init();
    control.set_error(SpiError::Transfer).set_error_defer_bytes(33);

    let sent: [u8; 32] = [
        1, 2, 3, 4, 1, 2, 3, 4, 8, 8, 8, 8, 9, 9, 9, 9, 23, 34, 45, 56, 56, 67, 67, 78, 78, 89, 89,
        90, 5, 1, 2, 3,
    ];
    let mut buffer = sent;
    assert_eq!(transport.transfer(&mut buffer), Ok(&sent[..]));
    assert_eq!(transport.transfer(&mut [1]), Ok(&[1u8][..]));
    assert_eq!(transport.transfer(&mut [2]), Err(Error::Transfer));
    assert!(pin_control.get_value());
    assert_eq!(transport.transfer(&mut [3]), Ok(&[3u8][..]));
}
