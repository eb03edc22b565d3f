use rpio_utils::dev::env::Delay;
use rpio_utils::dev::env::DelayLog;
use rpio_utils::dev::env::FnDelay;
use rpio_utils::dev::env::FnSink;
use rpio_utils::dev::env::Journal;
use rpio_utils::dev::env::Sink;
use rpio_utils::dev::output::mock::PinControl;
use rpio_utils::dev::spi::mock::Echo;
use rpio_utils::dev::spi::mock::SpiControl;
use rpio_utils::dev::Intercept;
use rpio_utils::dev::Mock;
use rpio_utils::dev::PinError;
use rpio_utils::dev::SpiError;
use rpio_utils::OutputPin;
use rpio_utils::Transfer;
use std::cell::RefCell;
use std::rc::Rc;
use std::time::Duration;

struct Flat;

impl Transfer for Flat {
    type Error = ();

    fn transfer<'w>(&mut self, words: &'w mut [u8]) -> Result<&'w [u8], ()> {
        Ok(words)
    }
}

#[test]
fn function_delay_hands_every_wait_to_its_function() {
    let seen: Rc<RefCell<Vec<Duration>>> = Rc::new(RefCell::new(Vec::new()));
    let log = seen.clone();
    let mut delay = FnDelay::new(move |duration: Duration| log.borrow_mut().push(duration));
    delay.wait(Duration::from_millis(1));
    delay.wait(Duration::from_millis(7));
    assert_eq!(*seen.borrow(), vec![Duration::from_millis(1), Duration::from_millis(7)]);
}

#[test]
fn delay_log_keeps_every_wait() {
    let mut delay = DelayLog::new();
    assert!(delay.waits().is_empty());
    delay.wait(Duration::from_secs(2));
    delay.wait(Duration::from_nanos(3));
    assert_eq!(*delay.waits(), vec![Duration::from_secs(2), Duration::from_nanos(3)]);
}

#[test]
fn function_sink_hands_every_line_to_its_function() {
    let seen: Rc<RefCell<Vec<String>>> = Rc::new(RefCell::new(Vec::new()));
    let log = seen.clone();
    let mut sink = FnSink::new(move |line: &str| log.borrow_mut().push(line.to_owned()));
    sink.line(String::from("first"));
    sink.line(String::from("second"));
    assert_eq!(*seen.borrow(), vec![String::from("first"), String::from("second")]);
}

#[test]
fn intercept_writes_while_the_transfer_is_under_way() {
    let seen: Rc<RefCell<Vec<String>>> = Rc::new(RefCell::new(Vec::new()));
    let log = seen.clone();
    let sink = FnSink::new(move |line: &str| log.borrow_mut().push(line.to_owned()));
    let mut spi = Intercept::spi("X").init(Flat, sink);
    assert!(spi.transfer(&mut [0u8; 2]).is_ok());
    assert_eq!(
        *seen.borrow(),
        vec![String::from("X -> Start transfer (2 bytes)"), String::from("X -> Transfer complete")]
    );
}

#[test]
fn mock_waits_through_the_delay_it_was_made_with() {
    let seen: Rc<RefCell<Vec<Duration>>> = Rc::new(RefCell::new(Vec::new()));
    let log = seen.clone();
    let clock = FnDelay::new(move |duration: Duration| log.borrow_mut().push(duration));
    let delay = Duration::from_micros(10);
    let (mut spi, control) =
        Mock::spi::<Echo>("S").without_log().with_byte_delay(delay).init(clock, Journal::new());
    assert!(spi.transfer(&mut [0u8; 3]).is_ok());
    assert_eq!(*seen.borrow(), vec![delay; 3]);
    control.set_error(SpiError::Transfer).set_error_defer_bytes(1);
    assert!(spi.transfer(&mut [0u8; 3]).is_err());
    assert_eq!(*seen.borrow(), vec![delay; 4]);
    control.clear_byte_delay();
    assert!(spi.transfer(&mut [0u8; 3]).is_ok());
    assert_eq!(*seen.borrow(), vec![delay; 4]);
}

#[test]
fn mock_line_waits_before_it_looks_at_the_error() {
    let seen: Rc<RefCell<Vec<Duration>>> = Rc::new(RefCell::new(Vec::new()));
    let log = seen.clone();
    let clock = FnDelay::new(move |duration: Duration| log.borrow_mut().push(duration));
    let delay = Duration::from_micros(20);
    let (mut pin, control) = Mock::pin("CS").without_log().with_delay(delay).init(clock, Journal::new());
    control.set_error(PinError::SetLow);
    assert_eq!(pin.set_low(), Err(PinError::SetLow));
    assert_eq!(pin.set_low(), Ok(()));
    assert_eq!(*seen.borrow(), vec![delay; 2]);
    control.clear_delay();
    assert_eq!(pin.set_high(), Ok(()));
    assert_eq!(*seen.borrow(), vec![delay; 2]);
}

#[test]
fn error_armed_during_a_transfer_is_seen_by_the_next_byte() {
    let slot: Rc<RefCell<Option<SpiControl<Echo>>>> = Rc::new(RefCell::new(None));
    let hook = slot.clone();
    let waits: Rc<RefCell<usize>> = Rc::new(RefCell::new(0));
    let count = waits.clone();
    let clock = FnDelay::new(move |_duration: Duration| {
        *count.borrow_mut() += 1;
        if *count.borrow() == 2 {
            if let Some(control) = hook.borrow().as_ref() {
                control.set_error(SpiError::Transfer).set_error_defer_bytes(3);
            }
        }
    });
    let (mut spi, control) = Mock::spi::<Echo>("S")
        .without_log()
        .with_byte_delay(Duration::from_micros(1))
        .init(clock, Journal::new());
    *slot.borrow_mut() = Some(control);
    let mut buffer = [1u8, 2, 3, 4, 5];
    assert_eq!(spi.transfer(&mut buffer), Err(SpiError::Transfer));
    assert_eq!(buffer, [0, 0, 0, 4, 5]);
    assert_eq!(*waits.borrow(), 3);
    let mut buffer = [1u8, 2];
    assert_eq!(spi.transfer(&mut buffer), Ok(&[0u8, 0][..]));
}

#[test]
fn error_armed_during_the_wait_of_a_line_is_seen_after_it() {
    let slot: Rc<RefCell<Option<PinControl>>> = Rc::new(RefCell::new(None));
    let hook = slot.clone();
    let clock = FnDelay::new(move |_duration: Duration| {
        if let Some(control) = hook.borrow().as_ref() {
            control.set_error(PinError::SetLow);
        }
    });
    let (mut pin, control) = Mock::pin("CS")
        .without_log()
        .with_delay(Duration::from_micros(1))
        .init(clock, Journal::new());
    *slot.borrow_mut() = Some(control);
    assert_eq!(pin.set_low(), Err(PinError::SetLow));
    assert_eq!(pin.set_high(), Ok(()));
    assert!(slot.borrow().as_ref().map(|control| control.get_value()).unwrap_or(false));
}
