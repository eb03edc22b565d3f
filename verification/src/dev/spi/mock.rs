//! A simulated byte-exchange device.
use crate::dev::env::Delay;
use crate::dev::env::Sink;
use crate::dev::shared::share;
use crate::dev::shared::Shared;
use crate::dev::spi::intercept::Spi;
use crate::dev::spi::intercept::SpiOpts;
use crate::hal::outcome;
use crate::hal::Transfer;
use std::rc::Rc;
use std::time::Duration;
use vstd::prelude::*;

verus! {

/// Supplies the bytes that a mock device answers with.
pub trait ByteGenerator {
    /// Whether `rx` can be the answer to `tx`. A generator that does not say
    /// may answer anything.
    open spec fn answers(&self, tx: Seq<u8>, rx: Seq<u8>) -> bool {
        true
    }

    /// The answer to the bytes in `tx`. It may be shorter or longer than
    /// `tx`: the device fills up with zeros and drops what is too much.
    fn generate(&self, tx: &[u8]) -> (rx: Vec<u8>)
        ensures
            self.answers(tx@, rx@),
    ;
}

/// Answers with what was sent.
#[derive(Clone, Copy, Debug)]
pub struct Echo;

impl ByteGenerator for Echo {
    open spec fn answers(&self, tx: Seq<u8>, rx: Seq<u8>) -> bool {
        rx == tx
    }

    fn generate(&self, tx: &[u8]) -> (rx: Vec<u8>) {
        let mut rx: Vec<u8> = Vec::new();
        let mut i: usize = 0;
        while i < tx.len()
            invariant
                i <= tx@.len(),
                rx@ == tx@.subrange(0, i as int),
            decreases tx@.len() - i,
        {
            rx.push(tx[i]);
            i = i + 1;
        }
        assert(tx@.subrange(0, tx@.len() as int) == tx@);
        rx
    }
}

/// Answers with what a function makes of the bytes sent.
pub struct FnGenerator<F: Fn(&[u8]) -> Vec<u8>> {
    function: F,
}

impl<F: Fn(&[u8]) -> Vec<u8>> FnGenerator<F> {
    /// The function accepts every buffer.
    #[verifier::type_invariant]
    spec fn total(&self) -> bool {
        forall|tx: &[u8]| call_requires(self.function, (tx,))
    }

    /// The function that answers.
    pub closed spec fn function(&self) -> F {
        self.function
    }

    pub fn new(function: F) -> (generator: Self)
        requires
            forall|tx: &[u8]| call_requires(function, (tx,)),
        ensures
            generator.function() == function,
    {
        FnGenerator { function }
    }
}

impl<F: Fn(&[u8]) -> Vec<u8>> ByteGenerator for FnGenerator<F> {
    open spec fn answers(&self, tx: Seq<u8>, rx: Seq<u8>) -> bool {
        exists|sent: &[u8], answer: Vec<u8>|
            sent@ == tx && answer@ == rx && #[trigger] call_ensures(
                self.function(),
                (sent,),
                answer,
            )
    }

    fn generate(&self, tx: &[u8]) -> (rx: Vec<u8>) {
        proof {
            use_type_invariant(self);
        }
        let rx = (self.function)(tx);
        proof {
            assert(call_ensures(self.function(), (tx,), rx));
        }
        rx
    }
}

/// The failures a mock SPI device can be armed with.
#[derive(Clone, Copy, Debug, PartialEq, Eq, Structural)]
pub enum SpiError {
    Transfer,
}

/// The buffer of a transfer that stopped before the byte at `reach`: up to
/// there it holds the answer, filled up with zeros where the answer is too
/// short; from there on it holds what was sent.
pub open spec fn received(tx: Seq<u8>, response: Seq<u8>, reach: nat) -> Seq<u8> {
    Seq::new(
        tx.len(),
        |i: int|
            if i < reach {
                if i < response.len() {
                    response[i]
                } else {
                    0u8
                }
            } else {
                tx[i]
            },
    )
}

/// `count` waits of the same length, or none where no delay is set.
pub open spec fn repeated(delay: Option<Duration>, count: nat) -> Seq<Duration> {
    match delay {
        Some(duration) => Seq::new(count, |i: int| duration),
        None => seq![],
    }
}

/// The state of a simulated byte-exchange device.
pub struct MockSpiDevice<G: ByteGenerator> {
    /// Where the answers come from. Without it every answer is empty.
    pub generator: Option<Rc<G>>,
    /// How long the device blocks after every byte, if at all.
    pub byte_delay: Option<Duration>,
    /// The failure that is armed, if any. It fires once and is gone.
    pub error: Option<SpiError>,
    /// How many more bytes have to pass before an armed failure fires.
    pub error_after_bytes: usize,
}

impl<G: ByteGenerator> MockSpiDevice<G> {
    /// Whether `response` can be what the device answers `tx` with.
    pub open spec fn responds(self, tx: Seq<u8>, response: Seq<u8>) -> bool {
        match self.generator {
            Some(generator) => generator.answers(tx, response),
            None => response.len() == 0,
        }
    }

    /// Whether the armed failure fires before the byte at `index`: a failure
    /// is armed and no bytes are left before it fires. The index counts from
    /// the start of the transfer under way.
    pub open spec fn fires_at(self, index: nat) -> bool {
        self.error is Some && self.error_after_bytes == index
    }

    /// Whether a transfer of `n` bytes fails: a failure is armed, and fewer
    /// than `n` bytes are left before it fires.
    pub open spec fn fails_within(self, n: nat) -> bool {
        self.error is Some && self.error_after_bytes < n
    }

    /// The number of bytes that a transfer of `n` bytes exchanges.
    pub open spec fn reach(self, n: nat) -> nat {
        if self.fails_within(n) {
            self.error_after_bytes as nat
        } else {
            n
        }
    }

    /// What a transfer of `n` bytes returns.
    pub open spec fn result_of_transfer(self, n: nat) -> Result<(), SpiError> {
        if self.fails_within(n) {
            Err(self.error->0)
        } else {
            Ok(())
        }
    }

    /// The device after a transfer of `n` bytes. A failure that fired is
    /// disarmed and leaves the count at zero. Otherwise the count goes down by
    /// `n`, and stops at zero.
    pub open spec fn after_transfer(self, n: nat) -> Self {
        if self.fails_within(n) {
            MockSpiDevice { error: None, error_after_bytes: 0, ..self }
        } else if self.error_after_bytes >= n {
            MockSpiDevice { error_after_bytes: (self.error_after_bytes - n) as usize, ..self }
        } else {
            MockSpiDevice { error_after_bytes: 0, ..self }
        }
    }

    /// The waits that a transfer of `n` bytes asks for: one for every byte
    /// exchanged.
    pub open spec fn pauses(self, n: nat) -> Seq<Duration> {
        repeated(self.byte_delay, self.reach(n))
    }

    /// A device without generator or delay, and with no failure armed.
    pub fn new() -> (device: Self)
        ensures
            device.generator.is_none(),
            device.byte_delay.is_none(),
            device.error.is_none(),
            device.error_after_bytes == 0,
    {
        MockSpiDevice { generator: None, byte_delay: None, error: None, error_after_bytes: 0 }
    }

    /// The look at the armed failure that comes before the byte at `index`:
    /// a failure that has no bytes left to wait for is returned and disarmed.
    pub fn check(&mut self, index: usize) -> (r: Result<(), SpiError>)
        ensures
            old(self).fires_at(index as nat) ==> r == Err::<(), SpiError>(old(self).error->0)
                && *final(self) == (MockSpiDevice {
                error: None,
                error_after_bytes: 0,
                ..*old(self)
            }),
            !old(self).fires_at(index as nat) ==> r is Ok && *final(self) == *old(self),
    {
        match self.error {
            Some(error) => {
                if self.error_after_bytes == index {
                    self.error = None;
                    self.error_after_bytes = 0;
                    return Err(error);
                }
            },
            None => {},
        }
        Ok(())
    }

    /// Takes the `n` bytes of a transfer that succeeded off the number of
    /// bytes left before an armed failure fires, which never goes below zero.
    pub fn count_down(&mut self, n: usize)
        ensures
            *final(self) == (MockSpiDevice {
                error_after_bytes: if old(self).error_after_bytes >= n {
                    (old(self).error_after_bytes - n) as usize
                } else {
                    0
                },
                ..*old(self)
            }),
    {
        self.error_after_bytes = if self.error_after_bytes >= n {
            self.error_after_bytes - n
        } else {
            0
        };
    }

    /// Exchanges the buffer byte by byte against `response`.
    ///
    /// Before every byte the armed failure is looked at: if no more bytes are
    /// left before it fires, it is returned and disarmed, and this byte and
    /// those after it stay as they were sent. Otherwise the byte is replaced
    /// by the one at its place in `response`, or by zero where `response` has
    /// ended, and the device waits for its delay.
    pub fn exchange<'w, D: Delay>(
        &mut self,
        words: &'w mut [u8],
        response: &[u8],
        clock: &mut D,
    ) -> (r: Result<&'w [u8], SpiError>)
        ensures
            final(words)@ == received(
                old(words)@,
                response@,
                old(self).reach(old(words)@.len()),
            ),
            outcome(r) == old(self).result_of_transfer(old(words)@.len()),
            *final(self) == old(self).after_transfer(old(words)@.len()),
            final(clock).waited() == old(clock).waited() + old(self).pauses(old(words)@.len()),
            r matches Ok(rx) ==> rx@ == final(words)@,
    {
        let ghost tx = words@;
        let ghost start = clock.waited();
        let n = words.len();
        let mut i: usize = 0;
        assert(words@ == received(tx, response@, 0));
        assert(start == start + repeated(self.byte_delay, 0));
        while i < n
            invariant
                i <= n,
                n == tx.len(),
                tx == old(words)@,
                start == old(clock).waited(),
                *self == *old(self),
                words@ == received(tx, response@, i as nat),
                clock.waited() == start + repeated(self.byte_delay, i as nat),
                !(self.error is Some && self.error_after_bytes < i),
            decreases n - i,
        {
            match self.check(i) {
                Err(error) => {
                    return Err(error);
                },
                Ok(_) => {},
            }
            let byte = if i < response.len() {
                response[i]
            } else {
                0
            };
            words[i] = byte;
            match self.byte_delay {
                Some(duration) => {
                    clock.wait(duration);
                },
                None => {},
            }
            i = i + 1;
            proof {
                assert(words@ == received(tx, response@, i as nat));
                assert(clock.waited() == start + repeated(self.byte_delay, i as nat));
            }
        }
        self.count_down(n);
        Ok(words)
    }

    /// Exchanges the buffer against what the generator answers to it, or
    /// against the empty answer where no generator is set. The generator is
    /// asked once, before the first byte, and sees the buffer as it was sent.
    pub fn transfer<'w, D: Delay>(&mut self, words: &'w mut [u8], clock: &mut D) -> (r: Result<
        &'w [u8],
        SpiError,
    >)
        ensures
            exists|response: Seq<u8>|
                #![trigger old(self).responds(old(words)@, response)]
                {
                    &&& old(self).responds(old(words)@, response)
                    &&& final(words)@ == received(
                        old(words)@,
                        response,
                        old(self).reach(old(words)@.len()),
                    )
                },
            outcome(r) == old(self).result_of_transfer(old(words)@.len()),
            *final(self) == old(self).after_transfer(old(words)@.len()),
            final(clock).waited() == old(clock).waited() + old(self).pauses(old(words)@.len()),
            r matches Ok(rx) ==> rx@ == final(words)@,
    {
        let response = match &self.generator {
            Some(generator) => generator.generate(words),
            None => Vec::new(),
        };
        proof {
            assert(self.responds(words@, response@));
        }
        self.exchange(words, response.as_slice(), clock)
    }

    /// Answers with `generator` from now on.
    pub fn set_generator(&mut self, generator: G)
        ensures
            final(self).generator matches Some(set) && *set == generator,
            final(self).byte_delay == old(self).byte_delay,
            final(self).error == old(self).error,
            final(self).error_after_bytes == old(self).error_after_bytes,
    {
        self.generator = Some(Rc::new(generator));
    }

    /// Answers from now on with a generator that other devices may use too.
    pub fn set_boxed_generator(&mut self, generator: Rc<G>)
        ensures
            *final(self) == (MockSpiDevice { generator: Some(generator), ..*old(self) }),
    {
        self.generator = Some(generator);
    }

    /// Answers with nothing from now on.
    pub fn clear_generator(&mut self)
        ensures
            *final(self) == (MockSpiDevice { generator: None, ..*old(self) }),
    {
        self.generator = None;
    }

    /// Makes the device block for `duration` after every byte.
    pub fn set_byte_delay(&mut self, duration: Duration)
        ensures
            *final(self) == (MockSpiDevice { byte_delay: Some(duration), ..*old(self) }),
    {
        self.byte_delay = Some(duration);
    }

    /// Lets the device exchange bytes without blocking.
    pub fn clear_byte_delay(&mut self)
        ensures
            *final(self) == (MockSpiDevice { byte_delay: None, ..*old(self) }),
    {
        self.byte_delay = None;
    }

    /// Arms `error` in place of whatever was armed before. The number of
    /// bytes left before it fires stays as it is.
    pub fn set_error(&mut self, error: SpiError)
        ensures
            *final(self) == (MockSpiDevice { error: Some(error), ..*old(self) }),
    {
        self.error = Some(error);
    }

    /// Sets how many bytes have to pass before an armed failure fires.
    pub fn set_error_defer_bytes(&mut self, defer: usize)
        ensures
            *final(self) == (MockSpiDevice { error_after_bytes: defer, ..*old(self) }),
    {
        self.error_after_bytes = defer;
    }

    /// Disarms the failure, if one is armed.
    pub fn clear_error(&mut self)
        ensures
            *final(self) == (MockSpiDevice { error: None, ..*old(self) }),
    {
        self.error = None;
    }
}

/// A transfer that runs into the armed failure returns it, leaves the bytes
/// before the failure as the answer has them and every byte from the failure
/// on as it was sent. On a device without generator the bytes before the
/// failure are zero.
pub proof fn lemma_partial_failure<G: ByteGenerator>(
    device: MockSpiDevice<G>,
    tx: Seq<u8>,
    response: Seq<u8>,
)
    requires
        device.error is Some,
        device.error_after_bytes < tx.len(),
        device.responds(tx, response),
    ensures
        device.result_of_transfer(tx.len()) == Err::<(), SpiError>(device.error->0),
        received(tx, response, device.reach(tx.len())).len() == tx.len(),
        forall|i: int|
            device.error_after_bytes <= i < tx.len() ==> received(
                tx,
                response,
                device.reach(tx.len()),
            )[i] == tx[i],
        device.generator is None ==> forall|i: int|
            0 <= i < device.error_after_bytes ==> received(
                tx,
                response,
                device.reach(tx.len()),
            )[i] == 0,
{
}

/// A failure fires once: after a transfer that failed, no transfer fails
/// until a failure is armed again.
pub proof fn lemma_fired_failure_is_spent<G: ByteGenerator>(
    device: MockSpiDevice<G>,
    failed: nat,
    next: nat,
)
    requires
        device.result_of_transfer(failed) is Err,
    ensures
        device.after_transfer(failed).error is None,
        device.after_transfer(failed).result_of_transfer(next) is Ok,
        device.after_transfer(failed).after_transfer(next).error is None,
{
}

/// Transfers that succeed count down to the failure together: a device that
/// got through `first` bytes and then through `second` bytes is where one
/// transfer of all those bytes would have left it. An armed failure thus
/// fires once as many bytes have passed as it was deferred by, however they
/// were split into transfers.
pub proof fn lemma_count_runs_across_transfers<G: ByteGenerator>(
    device: MockSpiDevice<G>,
    first: nat,
    second: nat,
)
    requires
        device.result_of_transfer(first) is Ok,
        device.after_transfer(first).result_of_transfer(second) is Ok,
    ensures
        device.result_of_transfer(first + second) is Ok,
        device.after_transfer(first).after_transfer(second) == device.after_transfer(
            first + second,
        ),
{
}

/// An armed failure stops the transfer during which its count runs out: with
/// a failure armed, a transfer fails if and only if it is longer than the
/// number of bytes left.
pub proof fn lemma_failure_fires_on_time<G: ByteGenerator>(device: MockSpiDevice<G>, n: nat)
    requires
        device.error is Some,
    ensures
        device.result_of_transfer(n) is Err <==> device.error_after_bytes < n,
        device.result_of_transfer(n) is Ok ==> device.after_transfer(n).error
            == device.error && device.after_transfer(n).error_after_bytes
            == device.error_after_bytes - n,
{
}

/// The device handle of a mock SPI device.
///
/// The handle goes back to the shared device before every byte, so that what
/// the control handle sets while a transfer is under way is seen by the next
/// byte. The generator is asked and the delay is waited for while nobody
/// holds the shared device.
pub struct MockSpi<G: ByteGenerator, D: Delay> {
    dev: Shared<MockSpiDevice<G>>,
    clock: D,
}

impl<G: ByteGenerator, D: Delay> MockSpi<G, D> {
    /// The delay that the handle waits with.
    pub closed spec fn clock(self) -> D {
        self.clock
    }

    /// The cell of the device that the handle works on.
    pub closed spec fn device(self) -> Shared<MockSpiDevice<G>> {
        self.dev
    }

    pub fn new(dev: Shared<MockSpiDevice<G>>, clock: D) -> (spi: Self)
        ensures
            spi.device() == dev,
            spi.clock() == clock,
    {
        MockSpi { dev, clock }
    }

    /// A transfer that was answered with `response`, which the device `found`
    /// at the start can answer with, that exchanged `reach` bytes and waited
    /// as `waits` says.
    pub open spec fn served(
        found: MockSpiDevice<G>,
        response: Seq<u8>,
        reach: nat,
        waits: Seq<Duration>,
        pre: Self,
        post: Self,
        tx: Seq<u8>,
        rx: Seq<u8>,
        r: Result<(), SpiError>,
    ) -> bool {
        &&& found.responds(tx, response)
        &&& reach <= tx.len()
        &&& rx == received(tx, response, reach)
        &&& r is Ok <==> reach == tx.len()
        &&& waits.len() <= reach
        &&& post.clock().waited() == pre.clock().waited() + waits
    }

    /// The generator of the shared device as it stands.
    fn generator(&self) -> (r: (Option<Rc<G>>, Ghost<MockSpiDevice<G>>))
        ensures
            r.0 == r.1@.generator,
    {
        let device = self.dev.cell.replace(MockSpiDevice::new());
        let generator = match &device.generator {
            Some(generator) => Some(generator.clone()),
            None => None,
        };
        let ghost found = device;
        let _ = self.dev.cell.replace(device);
        (generator, Ghost(found))
    }

    /// The look at the armed failure of the shared device before the byte at
    /// `index`, and the delay to wait for after that byte.
    fn check(&self, index: usize) -> (r: (Result<(), SpiError>, Option<Duration>)) {
        let mut device = self.dev.cell.replace(MockSpiDevice::new());
        let checked = device.check(index);
        let delay = device.byte_delay;
        let _ = self.dev.cell.replace(device);
        (checked, delay)
    }

    /// Tells the shared device that `n` bytes have passed.
    fn count_down(&self, n: usize) {
        let mut device = self.dev.cell.replace(MockSpiDevice::new());
        device.count_down(n);
        let _ = self.dev.cell.replace(device);
    }
}

impl<G: ByteGenerator, D: Delay> Transfer for MockSpi<G, D> {
    type Error = SpiError;

    /// A transfer on the device that the two handles share, of which the
    /// handle knows nothing in advance: some answer of the generator found
    /// there, or the empty answer, is written to the buffer up to the byte
    /// before which a failure fired, or to the end if and only if the call
    /// succeeds; and for every byte written there was at most one wait.
    open spec fn exchanged(
        pre: Self,
        post: Self,
        tx: Seq<u8>,
        rx: Seq<u8>,
        r: Result<(), SpiError>,
    ) -> bool {
        exists|found: MockSpiDevice<G>, response: Seq<u8>, reach: nat, waits: Seq<Duration>| #[trigger]
            Self::served(found, response, reach, waits, pre, post, tx, rx, r)
    }

    fn transfer<'w>(&mut self, words: &'w mut [u8]) -> (r: Result<&'w [u8], SpiError>) {
        let ghost pre = *self;
        let ghost tx = words@;
        let (generator, Ghost(found)) = self.generator();
        let response = match &generator {
            Some(generator) => generator.generate(words),
            None => Vec::new(),
        };
        let n = words.len();
        let mut i: usize = 0;
        let ghost mut waits: Seq<Duration> = Seq::empty();
        assert(words@ == received(tx, response@, 0));
        assert(self.clock().waited() == pre.clock().waited() + waits);
        while i < n
            invariant
                i <= n,
                n == tx.len(),
                tx == old(words)@,
                pre == *old(self),
                found.responds(tx, response@),
                words@ == received(tx, response@, i as nat),
                waits.len() <= i,
                self.clock().waited() == pre.clock().waited() + waits,
            decreases n - i,
        {
            let (checked, delay) = self.check(i);
            match checked {
                Err(error) => {
                    proof {
                        assert(Self::served(
                            found,
                            response@,
                            i as nat,
                            waits,
                            pre,
                            *self,
                            tx,
                            words@,
                            Err(error),
                        ));
                    }
                    return Err(error);
                },
                Ok(_) => {},
            }
            let byte = if i < response.len() {
                response[i]
            } else {
                0
            };
            words[i] = byte;
            match delay {
                Some(duration) => {
                    self.clock.wait(duration);
                    proof {
                        let ghost before = waits;
                        waits = waits.push(duration);
                        assert(pre.clock().waited() + before.push(duration) == (pre.clock().waited()
                            + before).push(duration));
                    }
                },
                None => {},
            }
            i = i + 1;
            proof {
                assert(words@ == received(tx, response@, i as nat));
            }
        }
        self.count_down(n);
        proof {
            assert(Self::served(found, response@, n as nat, waits, pre, *self, tx, words@, Ok(())));
        }
        Ok(words)
    }
}

/// The control handle of a mock SPI device.
pub struct SpiControl<G: ByteGenerator> {
    spi: Shared<MockSpiDevice<G>>,
    opts: Shared<SpiOpts>,
}

impl<G: ByteGenerator> SpiControl<G> {
    /// The cell of the device that the handle controls.
    pub closed spec fn device(self) -> Shared<MockSpiDevice<G>> {
        self.spi
    }

    /// The cell of the reporting switches that the handle sets.
    pub closed spec fn switches(self) -> Shared<SpiOpts> {
        self.opts
    }

    /// A control handle on the device in `spi` and the switches in `opts`.
    pub fn new(spi: Shared<MockSpiDevice<G>>, opts: Shared<SpiOpts>) -> (control: Self)
        ensures
            control.device() == spi,
            control.switches() == opts,
    {
        SpiControl { spi, opts }
    }

    /// Sets whether the intercept around the mock reports what happens.
    pub fn set_log(&self, log: bool) -> (control: &Self)
        ensures
            control == self,
    {
        let opts = self.opts.cell.get();
        self.opts.cell.set(SpiOpts { log, bytes: opts.bytes });
        self
    }

    /// Sets whether the intercept around the mock reports the bytes sent and
    /// received.
    pub fn set_log_bytes(&self, bytes: bool) -> (control: &Self)
        ensures
            control == self,
    {
        let opts = self.opts.cell.get();
        self.opts.cell.set(SpiOpts { log: opts.log, bytes });
        self
    }

    /// Answers with `generator` from now on.
    pub fn set_generator(&self, generator: G) -> (control: &Self)
        ensures
            control == self,
    {
        let mut device = self.spi.cell.replace(MockSpiDevice::new());
        device.set_generator(generator);
        let _ = self.spi.cell.replace(device);
        self
    }

    /// Answers from now on with a generator that other devices may use too.
    pub fn set_boxed_generator(&self, generator: Rc<G>) -> (control: &Self)
        ensures
            control == self,
    {
        let mut device = self.spi.cell.replace(MockSpiDevice::new());
        device.set_boxed_generator(generator);
        let _ = self.spi.cell.replace(device);
        self
    }

    /// Answers with nothing from now on.
    pub fn clear_generator(&self) -> (control: &Self)
        ensures
            control == self,
    {
        let mut device = self.spi.cell.replace(MockSpiDevice::new());
        device.clear_generator();
        let _ = self.spi.cell.replace(device);
        self
    }

    /// Makes the device block for `duration` after every byte.
    pub fn set_byte_delay(&self, duration: Duration) -> (control: &Self)
        ensures
            control == self,
    {
        let mut device = self.spi.cell.replace(MockSpiDevice::new());
        device.set_byte_delay(duration);
        let _ = self.spi.cell.replace(device);
        self
    }

    /// Lets the device exchange bytes without blocking.
    pub fn clear_byte_delay(&self) -> (control: &Self)
        ensures
            control == self,
    {
        let mut device = self.spi.cell.replace(MockSpiDevice::new());
        device.clear_byte_delay();
        let _ = self.spi.cell.replace(device);
        self
    }

    /// Arms a failure. The next transfer that reaches it fails; how many
    /// bytes that takes is set with `set_error_defer_bytes`.
    pub fn set_error(&self, error: SpiError) -> (control: &Self)
        ensures
            control == self,
    {
        let mut device = self.spi.cell.replace(MockSpiDevice::new());
        device.set_error(error);
        let _ = self.spi.cell.replace(device);
        self
    }

    /// Sets how many bytes have to pass before an armed failure fires.
    pub fn set_error_defer_bytes(&self, defer: usize) -> (control: &Self)
        ensures
            control == self,
    {
        let mut device = self.spi.cell.replace(MockSpiDevice::new());
        device.set_error_defer_bytes(defer);
        let _ = self.spi.cell.replace(device);
        self
    }

    /// Disarms the failure, if one is armed.
    pub fn clear_error(&self) -> (control: &Self)
        ensures
            control == self,
    {
        let mut device = self.spi.cell.replace(MockSpiDevice::new());
        device.clear_error();
        let _ = self.spi.cell.replace(device);
        self
    }
}

/// Collects what a mock SPI device is made with.
pub struct MockBuilder<G: ByteGenerator> {
    name: String,
    opts: SpiOpts,
    byte_delay: Option<Duration>,
    generator: Option<Rc<G>>,
}

impl<G: ByteGenerator> MockBuilder<G> {
    /// The name the mock reports under.
    pub closed spec fn name(self) -> Seq<char> {
        self.name@
    }

    /// What the mock will report.
    pub closed spec fn opts(self) -> SpiOpts {
        self.opts
    }

    /// The delay the mock will start with.
    pub closed spec fn byte_delay(self) -> Option<Duration> {
        self.byte_delay
    }

    /// The generator the mock will start with.
    pub closed spec fn generator(self) -> Option<Rc<G>> {
        self.generator
    }

    /// A mock that reports what happens, but not the bytes, answers with
    /// nothing and does not block.
    pub fn new(name: &str) -> (builder: Self)
        ensures
            builder.name() == name@,
            builder.opts().log,
            !builder.opts().bytes,
            builder.byte_delay().is_none(),
            builder.generator().is_none(),
    {
        MockBuilder { name: name.to_owned(), opts: SpiOpts::new(), byte_delay: None, generator: None }
    }

    /// Keeps the mock from reporting what happens.
    pub fn without_log(self) -> (builder: Self)
        ensures
            builder.name() == self.name(),
            !builder.opts().log,
            builder.opts().bytes == self.opts().bytes,
            builder.byte_delay() == self.byte_delay(),
            builder.generator() == self.generator(),
    {
        MockBuilder {
            name: self.name,
            opts: SpiOpts { log: false, bytes: self.opts.bytes },
            byte_delay: self.byte_delay,
            generator: self.generator,
        }
    }

    /// Has the mock report what happens, and the bytes sent and received.
    pub fn with_byte_log(self) -> (builder: Self)
        ensures
            builder.name() == self.name(),
            builder.opts().log,
            builder.opts().bytes,
            builder.byte_delay() == self.byte_delay(),
            builder.generator() == self.generator(),
    {
        MockBuilder {
            name: self.name,
            opts: SpiOpts { log: true, bytes: true },
            byte_delay: self.byte_delay,
            generator: self.generator,
        }
    }

    /// Has the mock answer with `generator`.
    pub fn with_generator(self, generator: G) -> (builder: Self)
        ensures
            builder.name() == self.name(),
            builder.opts() == self.opts(),
            builder.byte_delay() == self.byte_delay(),
            builder.generator() matches Some(set) && *set == generator,
    {
        MockBuilder {
            name: self.name,
            opts: self.opts,
            byte_delay: self.byte_delay,
            generator: Some(Rc::new(generator)),
        }
    }

    /// Has the mock answer with a generator that other devices may use too.
    pub fn with_boxed_generator(self, generator: Rc<G>) -> (builder: Self)
        ensures
            builder.name() == self.name(),
            builder.opts() == self.opts(),
            builder.byte_delay() == self.byte_delay(),
            builder.generator() == Some(generator),
    {
        MockBuilder {
            name: self.name,
            opts: self.opts,
            byte_delay: self.byte_delay,
            generator: Some(generator),
        }
    }

    /// Makes the mock block for `byte_delay` after every byte.
    pub fn with_byte_delay(self, byte_delay: Duration) -> (builder: Self)
        ensures
            builder.name() == self.name(),
            builder.opts() == self.opts(),
            builder.byte_delay() == Some(byte_delay),
            builder.generator() == self.generator(),
    {
        MockBuilder {
            name: self.name,
            opts: self.opts,
            byte_delay: Some(byte_delay),
            generator: self.generator,
        }
    }

    /// Makes the mock: the device handle, inside an intercept that writes to
    /// `sink`, and the control handle. No failure is armed. The device handle
    /// waits with `clock`.
    pub fn init<D: Delay, L: Sink>(self, clock: D, sink: L) -> (made: (
        Spi<MockSpi<G, D>, L>,
        SpiControl<G>,
    ))
        ensures
            made.0.label() == self.name(),
            made.0.sink() == sink,
            made.0.inner().clock() == clock,
            made.0.inner().device() == made.1.device(),
            made.0.switches() == made.1.switches(),
            made.1.device().first() == (MockSpiDevice {
                generator: self.generator(),
                byte_delay: self.byte_delay(),
                error: None,
                error_after_bytes: 0,
            }),
            made.1.switches().first() == self.opts(),
    {
        let mut device = MockSpiDevice::new();
        match self.byte_delay {
            Some(delay) => {
                device.set_byte_delay(delay);
            },
            None => {},
        }
        match self.generator {
            Some(generator) => {
                device.set_boxed_generator(generator);
            },
            None => {},
        }
        let opts = share(self.opts);
        let dev = share(device);
        let control = SpiControl::new(dev.handle(), opts.handle());
        let spi = Spi::new(self.name, MockSpi::new(dev, clock), opts, sink);
        (spi, control)
    }
}

} // verus!
