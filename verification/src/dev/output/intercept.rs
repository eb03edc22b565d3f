//! An output line that reports what happens to the line inside it.
use crate::dev::env::Sink;
use crate::dev::shared::share;
use crate::dev::shared::Shared;
use crate::hal::OutputPin;
use vstd::prelude::*;
use vstd::string::StringExecFns;

verus! {

/// What an output-line intercept reports.
#[derive(Clone, Copy, Debug, Default)]
pub struct PinOpts {
    /// Whether anything is reported at all.
    pub log: bool,
}

impl PinOpts {
    /// Reporting switched on.
    pub fn new() -> (opts: Self)
        ensures
            opts.log,
    {
        PinOpts { log: true }
    }
}

/// What is said of an attempt to drive the line high or low that succeeded
/// (`done`) or failed.
pub open spec fn pin_event(high: bool, done: bool) -> Seq<char> {
    if high {
        if done {
            "high"@
        } else {
            "Error (not set high)"@
        }
    } else {
        if done {
            "low"@
        } else {
            "Error (not set low)"@
        }
    }
}

/// The lines that an intercept named `name` writes for one attempt: none
/// with reporting switched off, else the name, an arrow, and the event.
pub open spec fn pin_report(name: Seq<char>, log: bool, high: bool, done: bool) -> Seq<Seq<char>> {
    if log {
        seq![name + " -> "@ + pin_event(high, done)]
    } else {
        seq![]
    }
}

/// An output line around another one. Every call is passed on to the line
/// inside and returns what that line returned; when reporting is switched on,
/// one line about the call goes to the sink.
pub struct Pin<P: OutputPin, L: Sink> {
    name: String,
    pin: P,
    opts: Shared<PinOpts>,
    sink: L,
}

impl<P: OutputPin, L: Sink> Pin<P, L> {
    /// The name the intercept reports under.
    pub closed spec fn label(self) -> Seq<char> {
        self.name@
    }

    /// The line inside the intercept.
    pub closed spec fn inner(self) -> P {
        self.pin
    }

    /// Where the intercept writes to.
    pub closed spec fn sink(self) -> L {
        self.sink
    }

    /// The cell of the reporting switch that the intercept goes by.
    pub closed spec fn switches(self) -> Shared<PinOpts> {
        self.opts
    }

    pub fn new(name: String, pin: P, opts: Shared<PinOpts>, sink: L) -> (made: Self)
        ensures
            made.label() == name@,
            made.inner() == pin,
            made.switches() == opts,
            made.sink() == sink,
    {
        Pin { name, pin, opts, sink }
    }

    /// Sets whether the intercept reports what happens.
    pub fn set_log(&mut self, log: bool)
        ensures
            final(self).label() == old(self).label(),
            final(self).inner() == old(self).inner(),
            final(self).sink() == old(self).sink(),
    {
        self.opts.cell.set(PinOpts { log });
    }

    /// What the intercept wrote to.
    pub fn written(&self) -> (sink: &L)
        ensures
            *sink == self.sink(),
    {
        &self.sink
    }

    /// Writes what there is to say about one attempt.
    fn report(&mut self, log: bool, high: bool, done: bool)
        ensures
            final(self).label() == old(self).label(),
            final(self).inner() == old(self).inner(),
            final(self).sink().lines() == old(self).sink().lines() + pin_report(
                old(self).label(),
                log,
                high,
                done,
            ),
    {
        if log {
            let mut text = self.name.clone();
            text.append(" -> ");
            if high {
                if done {
                    text.append("high");
                } else {
                    text.append("Error (not set high)");
                }
            } else {
                if done {
                    text.append("low");
                } else {
                    text.append("Error (not set low)");
                }
            }
            self.sink.line(text);
        }
    }

    /// One attempt to drive the line inside high or low, under the reporting
    /// switch `opts`.
    pub fn drive_with(&mut self, opts: PinOpts, high: bool) -> (r: Result<(), P::Error>)
        ensures
            P::driven(old(self).inner(), final(self).inner(), high, r),
            final(self).label() == old(self).label(),
            final(self).sink().lines() == old(self).sink().lines() + pin_report(
                old(self).label(),
                opts.log,
                high,
                r is Ok,
            ),
    {
        let r = if high {
            self.pin.set_high()
        } else {
            self.pin.set_low()
        };
        self.report(opts.log, high, r.is_ok());
        r
    }

    /// One attempt under the reporting switch as it stands.
    fn drive(&mut self, high: bool) -> (r: Result<(), P::Error>)
        ensures
            Self::passed_on(*old(self), *final(self), high, r),
    {
        let ghost before = *self;
        let opts = self.opts.cell.get();
        let r = self.drive_with(opts, high);
        proof {
            assert(self.sink().lines() == before.sink().lines() + pin_report(
                before.label(),
                opts.log,
                high,
                r is Ok,
            ));
        }
        r
    }

    /// The line inside made the attempt and its result is the result of the
    /// call; the name stays, and the sink got what `pin_report` says for some
    /// setting of the reporting switch.
    pub open spec fn passed_on(pre: Self, post: Self, high: bool, r: Result<(), P::Error>) -> bool {
        &&& P::driven(pre.inner(), post.inner(), high, r)
        &&& post.label() == pre.label()
        &&& exists|log: bool|
            post.sink().lines() == pre.sink().lines() + #[trigger] pin_report(
                pre.label(),
                log,
                high,
                r is Ok,
            )
    }
}

impl<P: OutputPin, L: Sink> OutputPin for Pin<P, L> {
    type Error = P::Error;

    open spec fn driven(pre: Self, post: Self, high: bool, r: Result<(), P::Error>) -> bool {
        Self::passed_on(pre, post, high, r)
    }

    fn set_high(&mut self) -> (r: Result<(), P::Error>) {
        self.drive(true)
    }

    fn set_low(&mut self) -> (r: Result<(), P::Error>) {
        self.drive(false)
    }
}

/// What goes through an intercept is what goes through the line inside it:
/// the intercept returns what that line returned, whatever the reporting
/// switch says.
pub proof fn lemma_intercept_is_transparent<P: OutputPin, L: Sink>(
    pre: Pin<P, L>,
    post: Pin<P, L>,
    high: bool,
    r: Result<(), P::Error>,
)
    requires
        Pin::<P, L>::driven(pre, post, high, r),
    ensures
        P::driven(pre.inner(), post.inner(), high, r),
{
}

/// Collects what an output-line intercept is made with.
#[derive(Clone, Debug)]
pub struct InterceptBuilder {
    name: String,
    opts: PinOpts,
}

impl InterceptBuilder {
    /// The name the intercept will report under.
    pub closed spec fn name(self) -> Seq<char> {
        self.name@
    }

    /// Whether the intercept will report what happens.
    pub closed spec fn log(self) -> bool {
        self.opts.log
    }

    /// An intercept that reports what happens.
    pub fn new(name: &str) -> (builder: Self)
        ensures
            builder.name() == name@,
            builder.log(),
    {
        InterceptBuilder { name: name.to_owned(), opts: PinOpts::new() }
    }

    /// Keeps the intercept from reporting what happens.
    pub fn without_log(self) -> (builder: Self)
        ensures
            builder.name() == self.name(),
            !builder.log(),
    {
        InterceptBuilder { name: self.name, opts: PinOpts { log: false } }
    }

    /// Puts the intercept around `pin`, writing to `sink`.
    pub fn init<P: OutputPin, L: Sink>(self, pin: P, sink: L) -> (made: Pin<P, L>)
        ensures
            made.label() == self.name(),
            made.inner() == pin,
            made.sink() == sink,
            made.switches().first() == (PinOpts { log: self.log() }),
    {
        Pin::new(self.name, pin, share(self.opts), sink)
    }
}

} // verus!
