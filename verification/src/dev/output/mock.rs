//! A simulated output line.
use crate::dev::env::Delay;
use crate::dev::env::Sink;
use crate::dev::output::intercept::Pin;
use crate::dev::output::intercept::PinOpts;
use crate::dev::shared::share;
use crate::dev::shared::Shared;
use crate::hal::OutputPin;
use std::time::Duration;
use vstd::prelude::*;

verus! {

/// The failures a mock output line can be armed with.
#[derive(Clone, Copy, Debug, PartialEq, Eq, Structural)]
pub enum PinError {
    SetHigh,
    SetLow,
}

/// The state of a simulated output line.
#[derive(Clone, Copy, Debug)]
pub struct MockPinDevice {
    /// The level of the line: `true` is high.
    pub value: bool,
    /// How long every attempt to set the line blocks, if at all.
    pub delay: Option<Duration>,
    /// The failure that is armed, if any. It fires once, on the next attempt
    /// in its own direction, and is gone after that.
    pub error: Option<PinError>,
}

/// The failure that an attempt to drive the line to `value` can meet.
pub open spec fn failure_of(value: bool) -> PinError {
    if value {
        PinError::SetHigh
    } else {
        PinError::SetLow
    }
}

impl MockPinDevice {
    /// The waits that one attempt to set the line asks for.
    pub open spec fn pause(self) -> Seq<Duration> {
        match self.delay {
            Some(duration) => seq![duration],
            None => seq![],
        }
    }

    /// Whether an attempt that fails with `unless` fails on this device.
    pub open spec fn fires(self, unless: PinError) -> bool {
        self.error == Some(unless)
    }

    /// The device after an attempt to set the line to `value` that fails with
    /// `unless` if that failure is armed.
    pub open spec fn after_set(self, value: bool, unless: PinError) -> MockPinDevice {
        if self.fires(unless) {
            MockPinDevice { error: None, ..self }
        } else {
            MockPinDevice { value, ..self }
        }
    }

    /// What such an attempt returns.
    pub open spec fn result_of_set(self, unless: PinError) -> Result<(), PinError> {
        if self.fires(unless) {
            Err(unless)
        } else {
            Ok(())
        }
    }

    /// A line that is high, with no delay and no failure armed.
    pub fn new() -> (device: Self)
        ensures
            device.value,
            device.delay.is_none(),
            device.error.is_none(),
    {
        MockPinDevice { value: true, delay: None, error: None }
    }

    /// Sets the line to `value`, unless the failure `unless` is armed: then the
    /// failure is returned and disarmed, and the line keeps its level. A
    /// failure armed for the other direction neither fires nor goes away.
    pub fn try_set(&mut self, value: bool, unless: PinError) -> (r: Result<(), PinError>)
        ensures
            *final(self) == old(self).after_set(value, unless),
            r == old(self).result_of_set(unless),
    {
        let fires = match self.error {
            Some(error) => error == unless,
            None => false,
        };
        if fires {
            self.error = None;
            Err(unless)
        } else {
            self.value = value;
            Ok(())
        }
    }

    /// Waits for the delay, if one is set, and then sets the line as `try_set`
    /// does.
    pub fn set_value_unless<D: Delay>(&mut self, value: bool, unless: PinError, clock: &mut D) -> (r:
        Result<(), PinError>)
        ensures
            *final(self) == old(self).after_set(value, unless),
            r == old(self).result_of_set(unless),
            final(clock).waited() == old(clock).waited() + old(self).pause(),
    {
        match self.delay {
            Some(duration) => {
                clock.wait(duration);
            },
            None => {},
        }
        self.try_set(value, unless)
    }

    /// Makes every attempt to set the line block for `duration`.
    pub fn set_delay(&mut self, duration: Duration)
        ensures
            *final(self) == (MockPinDevice { delay: Some(duration), ..*old(self) }),
    {
        self.delay = Some(duration);
    }

    /// Lets attempts to set the line return without blocking.
    pub fn clear_delay(&mut self)
        ensures
            *final(self) == (MockPinDevice { delay: None, ..*old(self) }),
    {
        self.delay = None;
    }

    /// Arms `error` in place of whatever was armed before.
    pub fn set_error(&mut self, error: PinError)
        ensures
            *final(self) == (MockPinDevice { error: Some(error), ..*old(self) }),
    {
        self.error = Some(error);
    }

    /// Disarms the failure, if one is armed.
    pub fn clear_error(&mut self)
        ensures
            *final(self) == (MockPinDevice { error: None, ..*old(self) }),
    {
        self.error = None;
    }

    /// The level of the line.
    pub fn get_value(&self) -> (value: bool)
        ensures
            value == self.value,
    {
        self.value
    }
}

/// The device handle of a mock output line.
///
/// The handle waits while nobody holds the shared device, and goes back to
/// the device after the wait.
pub struct MockPin<D: Delay> {
    dev: Shared<MockPinDevice>,
    clock: D,
}

impl<D: Delay> MockPin<D> {
    /// The delay that the handle waits with.
    pub closed spec fn clock(self) -> D {
        self.clock
    }

    /// The cell of the device that the handle works on.
    pub closed spec fn device(self) -> Shared<MockPinDevice> {
        self.dev
    }

    pub fn new(dev: Shared<MockPinDevice>, clock: D) -> (pin: Self)
        ensures
            pin.device() == dev,
            pin.clock() == clock,
    {
        MockPin { dev, clock }
    }

    /// An attempt that met the device `found` after waiting as `waits` says.
    pub open spec fn served(
        found: MockPinDevice,
        waits: Seq<Duration>,
        pre: Self,
        post: Self,
        unless: PinError,
        r: Result<(), PinError>,
    ) -> bool {
        &&& r == found.result_of_set(unless)
        &&& waits.len() <= 1
        &&& post.clock().waited() == pre.clock().waited() + waits
    }

    /// One attempt to set the shared device to `value`.
    fn set(&mut self, value: bool, unless: PinError) -> (r: Result<(), PinError>)
        ensures
            exists|found: MockPinDevice, waits: Seq<Duration>| #[trigger]
                Self::served(found, waits, *old(self), *final(self), unless, r),
    {
        let ghost pre = *self;
        let ghost mut waits: Seq<Duration> = Seq::empty();
        match self.dev.cell.get().delay {
            Some(duration) => {
                self.clock.wait(duration);
                proof {
                    waits = waits.push(duration);
                }
            },
            None => {},
        }
        let mut device = self.dev.cell.get();
        let ghost found = device;
        let r = device.try_set(value, unless);
        self.dev.cell.set(device);
        proof {
            assert(self.clock().waited() == pre.clock().waited() + waits);
            assert(Self::served(found, waits, pre, *self, unless, r));
        }
        r
    }
}

impl<D: Delay> OutputPin for MockPin<D> {
    type Error = PinError;

    /// An attempt on the device that the two handles share, of which the
    /// handle knows nothing in advance: the call fails if and only if the
    /// device it meets has the failure of this direction armed, and it waits
    /// at most once.
    open spec fn driven(pre: Self, post: Self, high: bool, r: Result<(), PinError>) -> bool {
        exists|found: MockPinDevice, waits: Seq<Duration>| #[trigger]
            Self::served(found, waits, pre, post, failure_of(high), r)
    }

    fn set_high(&mut self) -> (r: Result<(), PinError>) {
        self.set(true, PinError::SetHigh)
    }

    fn set_low(&mut self) -> (r: Result<(), PinError>) {
        self.set(false, PinError::SetLow)
    }
}

/// The control handle of a mock output line.
pub struct PinControl {
    pin: Shared<MockPinDevice>,
    opts: Shared<PinOpts>,
}

impl PinControl {
    /// The cell of the device that the handle controls.
    pub closed spec fn device(self) -> Shared<MockPinDevice> {
        self.pin
    }

    /// The cell of the reporting switch that the handle sets.
    pub closed spec fn switches(self) -> Shared<PinOpts> {
        self.opts
    }

    /// A control handle on the device in `pin` and the switch in `opts`.
    pub fn new(pin: Shared<MockPinDevice>, opts: Shared<PinOpts>) -> (control: Self)
        ensures
            control.device() == pin,
            control.switches() == opts,
    {
        PinControl { pin, opts }
    }

    /// Sets whether the intercept around the mock reports what happens.
    pub fn set_log(&self, log: bool) -> (control: &Self)
        ensures
            control == self,
    {
        self.opts.cell.set(PinOpts { log });
        self
    }

    /// Makes every attempt to set the line block for `duration`.
    pub fn set_delay(&self, duration: Duration) -> (control: &Self)
        ensures
            control == self,
    {
        let mut device = self.pin.cell.get();
        device.set_delay(duration);
        self.pin.cell.set(device);
        self
    }

    /// Lets attempts to set the line return without blocking.
    pub fn clear_delay(&self) -> (control: &Self)
        ensures
            control == self,
    {
        let mut device = self.pin.cell.get();
        device.clear_delay();
        self.pin.cell.set(device);
        self
    }

    /// Arms a failure. The next attempt that can fail with it does.
    pub fn set_error(&self, error: PinError) -> (control: &Self)
        ensures
            control == self,
    {
        let mut device = self.pin.cell.get();
        device.set_error(error);
        self.pin.cell.set(device);
        self
    }

    /// Disarms the failure, if one is armed.
    pub fn clear_error(&self) -> (control: &Self)
        ensures
            control == self,
    {
        let mut device = self.pin.cell.get();
        device.clear_error();
        self.pin.cell.set(device);
        self
    }

    /// The level of the line, as the device handle left it.
    pub fn get_value(&self) -> (value: bool) {
        self.pin.cell.get().get_value()
    }
}

/// Collects what a mock output line is made with.
#[derive(Clone, Debug)]
pub struct MockBuilder {
    name: String,
    opts: PinOpts,
    delay: Option<Duration>,
}

impl MockBuilder {
    /// The name the mock reports under.
    pub closed spec fn name(self) -> Seq<char> {
        self.name@
    }

    /// Whether the mock will report what happens.
    pub closed spec fn log(self) -> bool {
        self.opts.log
    }

    /// The delay the mock will start with.
    pub closed spec fn delay(self) -> Option<Duration> {
        self.delay
    }

    /// A mock that reports what happens and does not block.
    pub fn new(name: &str) -> (builder: Self)
        ensures
            builder.name() == name@,
            builder.log(),
            builder.delay().is_none(),
    {
        MockBuilder { name: name.to_owned(), opts: PinOpts::new(), delay: None }
    }

    /// Keeps the mock from reporting what happens.
    pub fn without_log(self) -> (builder: Self)
        ensures
            builder.name() == self.name(),
            !builder.log(),
            builder.delay() == self.delay(),
    {
        MockBuilder { name: self.name, opts: PinOpts { log: false }, delay: self.delay }
    }

    /// Makes every attempt to set the line block for `delay`.
    pub fn with_delay(self, delay: Duration) -> (builder: Self)
        ensures
            builder.name() == self.name(),
            builder.log() == self.log(),
            builder.delay() == Some(delay),
    {
        MockBuilder { name: self.name, opts: self.opts, delay: Some(delay) }
    }

    /// Makes the mock: the device handle, inside an intercept that writes to
    /// `sink`, and the control handle. The line starts high. The device handle
    /// waits with `clock`.
    pub fn init<D: Delay, L: Sink>(self, clock: D, sink: L) -> (made: (Pin<MockPin<D>, L>, PinControl))
        ensures
            made.0.label() == self.name(),
            made.0.sink() == sink,
            made.0.inner().clock() == clock,
            made.0.inner().device() == made.1.device(),
            made.0.switches() == made.1.switches(),
            made.1.device().first() == (MockPinDevice {
                value: true,
                delay: self.delay(),
                error: None,
            }),
            made.1.switches().first() == (PinOpts { log: self.log() }),
    {
        let mut device = MockPinDevice::new();
        match self.delay {
            Some(delay) => {
                device.set_delay(delay);
            },
            None => {},
        }
        let opts = share(self.opts);
        let dev = share(device);
        let control = PinControl::new(dev.handle(), opts.handle());
        let pin = Pin::new(self.name, MockPin::new(dev, clock), opts, sink);
        (pin, control)
    }
}

} // verus!
