//! What a development device needs from its surroundings: a way to let time
//! pass, and a place to write to.
use std::time::Duration;
use vstd::prelude::*;

verus! {

/// Blocks the caller for a given time.
pub trait Delay {
    /// Every wait made so far, oldest first.
    spec fn waited(&self) -> Seq<Duration>;

    fn wait(&mut self, duration: Duration)
        ensures
            final(self).waited() == old(self).waited().push(duration),
    ;
}

/// A `Delay` that returns at once and keeps the waits it was asked for.
pub struct DelayLog {
    waits: Vec<Duration>,
}

impl DelayLog {
    pub fn new() -> (log: Self)
        ensures
            log.waited() == Seq::<Duration>::empty(),
    {
        DelayLog { waits: Vec::new() }
    }

    /// The waits asked for so far, oldest first.
    pub fn waits(&self) -> (waits: &Vec<Duration>)
        ensures
            waits@ == self.waited(),
    {
        &self.waits
    }
}

impl Delay for DelayLog {
    closed spec fn waited(&self) -> Seq<Duration> {
        self.waits@
    }

    fn wait(&mut self, duration: Duration) {
        self.waits.push(duration);
    }
}

/// A `Delay` that waits by calling a function, such as one that puts the
/// thread to sleep.
pub struct FnDelay<F: Fn(Duration)> {
    function: F,
    asked: Ghost<Seq<Duration>>,
}

impl<F: Fn(Duration)> FnDelay<F> {
    /// The function accepts every length of time.
    #[verifier::type_invariant]
    spec fn total(&self) -> bool {
        forall|duration: Duration| call_requires(self.function, (duration,))
    }

    pub fn new(function: F) -> (delay: Self)
        requires
            forall|duration: Duration| call_requires(function, (duration,)),
        ensures
            delay.waited() == Seq::<Duration>::empty(),
    {
        FnDelay { function, asked: Ghost(Seq::empty()) }
    }
}

impl<F: Fn(Duration)> Delay for FnDelay<F> {
    closed spec fn waited(&self) -> Seq<Duration> {
        self.asked@
    }

    fn wait(&mut self, duration: Duration) {
        proof {
            use_type_invariant(&*self);
        }
        (self.function)(duration);
        self.asked = Ghost(self.asked@.push(duration));
    }
}

/// Takes the lines that an intercept reports.
pub trait Sink {
    /// Every line written so far, oldest first.
    spec fn lines(&self) -> Seq<Seq<char>>;

    fn line(&mut self, text: String)
        ensures
            final(self).lines() == old(self).lines().push(text@),
    ;
}

/// A `Sink` that keeps its lines in memory.
pub struct Journal {
    entries: Vec<String>,
}

impl Journal {
    pub fn new() -> (journal: Self)
        ensures
            journal.lines() == Seq::<Seq<char>>::empty(),
    {
        Journal { entries: Vec::new() }
    }

    /// The lines written so far, oldest first.
    pub fn entries(&self) -> (entries: &Vec<String>)
        ensures
            entries@.len() == self.lines().len(),
            forall|i: int| 0 <= i < entries@.len() ==> (#[trigger] entries@[i])@ == self.lines()[i],
    {
        &self.entries
    }
}

impl Sink for Journal {
    closed spec fn lines(&self) -> Seq<Seq<char>> {
        Seq::new(self.entries@.len(), |i: int| self.entries@[i]@)
    }

    fn line(&mut self, text: String) {
        self.entries.push(text);
    }
}

/// A `Sink` that hands every line to a function, such as one that prints it.
pub struct FnSink<F: Fn(&str)> {
    function: F,
    written: Ghost<Seq<Seq<char>>>,
}

impl<F: Fn(&str)> FnSink<F> {
    /// The function accepts every line.
    #[verifier::type_invariant]
    spec fn total(&self) -> bool {
        forall|text: &str| call_requires(self.function, (text,))
    }

    pub fn new(function: F) -> (sink: Self)
        requires
            forall|text: &str| call_requires(function, (text,)),
        ensures
            sink.lines() == Seq::<Seq<char>>::empty(),
    {
        FnSink { function, written: Ghost(Seq::empty()) }
    }
}

impl<F: Fn(&str)> Sink for FnSink<F> {
    closed spec fn lines(&self) -> Seq<Seq<char>> {
        self.written@
    }

    fn line(&mut self, text: String) {
        proof {
            use_type_invariant(&*self);
        }
        (self.function)(text.as_str());
        self.written = Ghost(self.written@.push(text@));
    }
}

} // verus!
