//! A byte-exchange device that reports what passes through the device
//! inside it.
use crate::dev::env::Sink;
use crate::dev::shared::share;
use crate::dev::shared::Shared;
use crate::hal::outcome;
use crate::hal::Transfer;
use crate::dev::text::align_right;
use crate::dev::text::append_byte;
use crate::dev::text::decimal;
use crate::dev::text::decimal_text;
use crate::dev::text::hex_text;
use crate::dev::text::right_aligned;
use vstd::prelude::*;
use vstd::slice::slice_subrange;
use vstd::slice::slice_to_vec;
use vstd::string::StringExecFns;

verus! {

/// What an SPI intercept reports.
#[derive(Clone, Copy, Debug, Default)]
pub struct SpiOpts {
    /// Whether anything is reported at all.
    pub log: bool,
    /// Whether the bytes sent and received are reported after an exchange
    /// that succeeded. Nothing is reported while `log` is off.
    pub bytes: bool,
}

impl SpiOpts {
    /// Reporting switched on, without the bytes.
    pub fn new() -> (opts: Self)
        ensures
            opts.log,
            !opts.bytes,
    {
        SpiOpts { log: true, bytes: false }
    }
}

/// The number of bytes in a row of the byte report.
pub const ROW: usize = 16;

/// The width of the field that holds the range of a row.
pub const RANGE_WIDTH: usize = 12;

/// The number of rows that `len` bytes take up.
pub open spec fn rows_of(len: nat) -> nat {
    (len + 15) / 16
}

/// Row `row` of `bytes`: sixteen bytes, or what is left of them.
pub open spec fn row_of(bytes: Seq<u8>, row: nat) -> Seq<u8> {
    bytes.subrange(
        (row * 16) as int,
        if row * 16 + 16 <= bytes.len() {
            (row * 16 + 16) as int
        } else {
            bytes.len() as int
        },
    )
}

/// The line for row `row` of the bytes sent: the range of the row, right
/// aligned, and the bytes between arrows that point away from it.
pub open spec fn sent_line(tx: Seq<u8>, row: nat) -> Seq<char> {
    right_aligned(
        decimal_text(row * 16) + "-"@ + decimal_text(row * 16 + row_of(tx, row).len()),
        12,
    ) + " --> "@ + hex_text(row_of(tx, row)) + " -->"@
}

/// The line for row `row` of the bytes received: an empty range, and the
/// bytes between arrows that point towards it.
pub open spec fn received_line(rx: Seq<u8>, row: nat) -> Seq<char> {
    right_aligned(""@, 12) + " <-- "@ + hex_text(row_of(rx, row)) + " <--"@
}

/// The first `rows` rows of the byte report: for every row the line of the
/// bytes sent, then the line of the bytes received.
pub open spec fn summary_lines(tx: Seq<u8>, rx: Seq<u8>, rows: nat) -> Seq<Seq<char>>
    decreases rows,
{
    if rows == 0 {
        Seq::empty()
    } else {
        summary_lines(tx, rx, (rows - 1) as nat).push(sent_line(tx, (rows - 1) as nat)).push(
            received_line(rx, (rows - 1) as nat),
        )
    }
}

/// The byte report of an exchange: as many rows as both buffers have.
pub open spec fn summary(tx: Seq<u8>, rx: Seq<u8>) -> Seq<Seq<char>> {
    summary_lines(
        tx,
        rx,
        if rows_of(tx.len()) <= rows_of(rx.len()) {
            rows_of(tx.len())
        } else {
            rows_of(rx.len())
        },
    )
}

/// The line written before an exchange of `len` bytes.
pub open spec fn start_line(name: Seq<char>, len: nat) -> Seq<char> {
    name + " -> Start transfer ("@ + decimal_text(len) + " bytes)"@
}

/// The line written after an exchange that succeeded.
pub open spec fn complete_line(name: Seq<char>) -> Seq<char> {
    name + " -> Transfer complete"@
}

/// The line written after an exchange that failed.
pub open spec fn failed_line(name: Seq<char>) -> Seq<char> {
    name + " -> Error (transfer failed)"@
}

/// What an intercept named `name` writes after an exchange that sent `tx`
/// and ended with `rx` in the buffer: nothing with reporting switched off;
/// after a failure one line that says so; after a success the byte report,
/// if asked for, and one line that says that the exchange is complete.
pub open spec fn end_report(
    name: Seq<char>,
    opts: SpiOpts,
    tx: Seq<u8>,
    rx: Seq<u8>,
    done: bool,
) -> Seq<Seq<char>> {
    if !opts.log {
        Seq::empty()
    } else if !done {
        seq![failed_line(name)]
    } else if opts.bytes {
        summary(tx, rx).push(complete_line(name))
    } else {
        seq![complete_line(name)]
    }
}

/// Everything an intercept named `name` writes for one exchange: with
/// reporting switched on, the line that announces the exchange, and after the
/// exchange what `end_report` says.
pub open spec fn transfer_report(
    name: Seq<char>,
    opts: SpiOpts,
    tx: Seq<u8>,
    rx: Seq<u8>,
    done: bool,
) -> Seq<Seq<char>> {
    if opts.log {
        seq![start_line(name, tx.len())] + end_report(name, opts, tx, rx, done)
    } else {
        Seq::empty()
    }
}

/// The bytes as two hexadecimal digits each, with one space between
/// neighbours.
pub fn printable_bytes(bytes: &[u8]) -> (text: String)
    ensures
        text@ == hex_text(bytes@),
{
    let mut text = String::new();
    let mut i: usize = 0;
    while i < bytes.len()
        invariant
            i <= bytes@.len(),
            text@ == hex_text(bytes@.subrange(0, i as int)),
        decreases bytes@.len() - i,
    {
        let ghost done = bytes@.subrange(0, i as int);
        let ghost next = bytes@.subrange(0, i + 1);
        if i > 0 {
            text.append(" ");
        }
        append_byte(&mut text, bytes[i]);
        proof {
            assert(next.drop_last() == done);
            assert(next.last() == bytes@[i as int]);
            assert(next[0] == bytes@[0]);
        }
        i = i + 1;
    }
    assert(bytes@.subrange(0, bytes@.len() as int) == bytes@);
    text
}

/// Writes the byte report of an exchange to `sink`.
pub fn print_summary<L: Sink>(tx: &[u8], rx: &[u8], sink: &mut L)
    ensures
        final(sink).lines() == old(sink).lines() + summary(tx@, rx@),
{
    let tx_rows = rows(tx.len());
    let rx_rows = rows(rx.len());
    assert(tx@.len() <= usize::MAX && rx@.len() <= usize::MAX);
    let count = if tx_rows <= rx_rows {
        tx_rows
    } else {
        rx_rows
    };
    let mut row: usize = 0;
    assert(sink.lines() == sink.lines() + summary_lines(tx@, rx@, 0));
    while row < count
        invariant
            row <= count,
            count <= rows_of(tx@.len()),
            count <= rows_of(rx@.len()),
            tx@.len() <= usize::MAX,
            rx@.len() <= usize::MAX,
            sink.lines() == old(sink).lines() + summary_lines(tx@, rx@, row as nat),
        decreases count - row,
    {
        let ghost before = sink.lines();
        assert(ROW == 16 && row * 16 < tx@.len() && row * 16 < rx@.len());
        let from = row * ROW;
        let sent = slice_subrange(tx, from, end_of_row(tx.len(), row));
        let got = slice_subrange(rx, from, end_of_row(rx.len(), row));
        let mut range = decimal(from);
        range.append("-");
        range.append(decimal(from + sent.len()).as_str());
        let mut line = align_right(range, RANGE_WIDTH);
        line.append(" --> ");
        line.append(printable_bytes(sent).as_str());
        line.append(" -->");
        proof {
            assert(sent@ == row_of(tx@, row as nat));
            assert(line@ == sent_line(tx@, row as nat));
        }
        sink.line(line);
        let mut line = align_right(String::from_str(""), RANGE_WIDTH);
        line.append(" <-- ");
        line.append(printable_bytes(got).as_str());
        line.append(" <--");
        proof {
            assert(got@ == row_of(rx@, row as nat));
            assert(line@ == received_line(rx@, row as nat));
        }
        sink.line(line);
        row = row + 1;
        proof {
            assert(sink.lines() == before.push(sent_line(tx@, (row - 1) as nat)).push(
                received_line(rx@, (row - 1) as nat),
            ));
            assert(sink.lines() == old(sink).lines() + summary_lines(tx@, rx@, row as nat));
        }
    }
}

/// The number of rows that `len` bytes take up.
pub fn rows(len: usize) -> (count: usize)
    ensures
        count == rows_of(len as nat),
{
    if len % ROW == 0 {
        len / ROW
    } else {
        len / ROW + 1
    }
}

/// Where row `row` of `len` bytes ends.
fn end_of_row(len: usize, row: usize) -> (end: usize)
    requires
        row < rows_of(len as nat),
    ensures
        end == (if row * 16 + 16 <= len {
            row * 16 + 16
        } else {
            len as int
        }),
        row * 16 <= end <= len,
{
    if len - row * ROW >= ROW {
        row * ROW + ROW
    } else {
        len
    }
}

/// A byte-exchange device around another one. Every exchange is passed on to
/// the device inside and returns what that device returned, with the buffer
/// as that device left it; when reporting is switched on, the sink is told
/// about the exchange.
pub struct Spi<S: Transfer, L: Sink> {
    name: String,
    spi: S,
    opts: Shared<SpiOpts>,
    sink: L,
}

impl<S: Transfer, L: Sink> Spi<S, L> {
    /// The name the intercept reports under.
    pub closed spec fn label(self) -> Seq<char> {
        self.name@
    }

    /// The device inside the intercept.
    pub closed spec fn inner(self) -> S {
        self.spi
    }

    /// Where the intercept writes to.
    pub closed spec fn sink(self) -> L {
        self.sink
    }

    /// The cell of the reporting switches that the intercept goes by.
    pub closed spec fn switches(self) -> Shared<SpiOpts> {
        self.opts
    }

    /// The device inside made the exchange, and what it returned and left in
    /// the buffer is what the call returns and leaves there; the name stays,
    /// and the sink got what `transfer_report` says for some setting of the
    /// reporting switches.
    pub open spec fn passed_on(
        pre: Self,
        post: Self,
        tx: Seq<u8>,
        rx: Seq<u8>,
        r: Result<(), S::Error>,
    ) -> bool {
        &&& S::exchanged(pre.inner(), post.inner(), tx, rx, r)
        &&& post.label() == pre.label()
        &&& exists|opts: SpiOpts|
            post.sink().lines() == pre.sink().lines() + #[trigger] transfer_report(
                pre.label(),
                opts,
                tx,
                rx,
                r is Ok,
            )
    }

    pub fn new(name: String, spi: S, opts: Shared<SpiOpts>, sink: L) -> (made: Self)
        ensures
            made.label() == name@,
            made.inner() == spi,
            made.switches() == opts,
            made.sink() == sink,
    {
        Spi { name, spi, opts, sink }
    }

    /// Sets whether the intercept reports what happens.
    pub fn set_log(&self, log: bool) {
        let opts = self.opts.cell.get();
        self.opts.cell.set(SpiOpts { log, bytes: opts.bytes });
    }

    /// Sets whether the bytes sent and received are reported, which they are
    /// only while reporting is switched on.
    pub fn set_log_bytes(&self, bytes: bool) {
        let opts = self.opts.cell.get();
        self.opts.cell.set(SpiOpts { log: opts.log, bytes });
    }

    /// What the intercept wrote to.
    pub fn written(&self) -> (sink: &L)
        ensures
            *sink == self.sink(),
    {
        &self.sink
    }

    /// Announces an exchange of `len` bytes, if reporting is switched on.
    fn announce(&mut self, opts: SpiOpts, len: usize)
        ensures
            final(self).label() == old(self).label(),
            final(self).inner() == old(self).inner(),
            final(self).sink().lines() == old(self).sink().lines() + (if opts.log {
                seq![start_line(old(self).label(), len as nat)]
            } else {
                Seq::empty()
            }),
    {
        if opts.log {
            let mut line = self.name.clone();
            line.append(" -> Start transfer (");
            line.append(decimal(len).as_str());
            line.append(" bytes)");
            self.sink.line(line);
        }
    }

    /// Writes what there is to say after an exchange.
    fn conclude(&mut self, opts: SpiOpts, tx: &[u8], rx: &[u8], done: bool)
        ensures
            final(self).label() == old(self).label(),
            final(self).inner() == old(self).inner(),
            final(self).sink().lines() == old(self).sink().lines() + end_report(
                old(self).label(),
                opts,
                tx@,
                rx@,
                done,
            ),
    {
        if opts.log {
            if done {
                if opts.bytes {
                    print_summary(tx, rx, &mut self.sink);
                }
                let mut line = self.name.clone();
                line.append(" -> Transfer complete");
                self.sink.line(line);
            } else {
                let mut line = self.name.clone();
                line.append(" -> Error (transfer failed)");
                self.sink.line(line);
            }
        }
    }

    /// An exchange under the reporting switches `opts`.
    pub fn transfer_with<'w>(&mut self, opts: SpiOpts, words: &'w mut [u8]) -> (r: Result<
        &'w [u8],
        S::Error,
    >)
        ensures
            S::exchanged(
                old(self).inner(),
                final(self).inner(),
                old(words)@,
                final(words)@,
                outcome(r),
            ),
            final(self).label() == old(self).label(),
            final(self).sink().lines() == old(self).sink().lines() + transfer_report(
                old(self).label(),
                opts,
                old(words)@,
                final(words)@,
                r is Ok,
            ),
            final(words)@.len() == old(words)@.len(),
            r matches Ok(rx) ==> rx@ == final(words)@,
    {
        let ghost start = self.sink().lines();
        let ghost sent = words@;
        self.announce(opts, words.len());
        let tx = if opts.log {
            slice_to_vec(words)
        } else {
            Vec::new()
        };
        let failure = match self.spi.transfer(words) {
            Ok(_) => None,
            Err(error) => Some(error),
        };
        self.conclude(opts, tx.as_slice(), words, failure.is_none());
        proof {
            assert(self.sink().lines() == start + transfer_report(
                self.label(),
                opts,
                sent,
                words@,
                failure is None,
            ));
        }
        match failure {
            None => Ok(words),
            Some(error) => Err(error),
        }
    }
}

impl<S: Transfer, L: Sink> Transfer for Spi<S, L> {
    type Error = S::Error;

    open spec fn exchanged(
        pre: Self,
        post: Self,
        tx: Seq<u8>,
        rx: Seq<u8>,
        r: Result<(), S::Error>,
    ) -> bool {
        Self::passed_on(pre, post, tx, rx, r)
    }

    fn transfer<'w>(&mut self, words: &'w mut [u8]) -> (r: Result<&'w [u8], S::Error>) {
        let opts = self.opts.cell.get();
        let ghost pre = *self;
        let ghost tx = words@;
        let passed = self.transfer_with(opts, words);
        let ghost end = outcome(passed);
        let failure = match passed {
            Ok(_) => None,
            Err(error) => Some(error),
        };
        proof {
            assert(S::exchanged(pre.inner(), self.inner(), tx, words@, end));
            assert(self.sink().lines() == pre.sink().lines() + transfer_report(
                pre.label(),
                opts,
                tx,
                words@,
                end is Ok,
            ));
            assert(Self::passed_on(pre, *self, tx, words@, end));
        }
        match failure {
            None => Ok(words),
            Some(error) => Err(error),
        }
    }
}

/// What goes through an intercept is what goes through the device inside
/// it: the intercept returns and leaves in the buffer what that device did,
/// whatever the reporting switches say.
pub proof fn lemma_intercept_is_transparent<S: Transfer, L: Sink>(
    pre: Spi<S, L>,
    post: Spi<S, L>,
    tx: Seq<u8>,
    rx: Seq<u8>,
    r: Result<(), S::Error>,
)
    requires
        Spi::<S, L>::exchanged(pre, post, tx, rx, r),
    ensures
        S::exchanged(pre.inner(), post.inner(), tx, rx, r),
{
}

/// Collects what an SPI intercept is made with.
#[derive(Clone, Debug)]
pub struct InterceptBuilder {
    name: String,
    opts: SpiOpts,
}

impl InterceptBuilder {
    /// The name the intercept will report under.
    pub closed spec fn name(self) -> Seq<char> {
        self.name@
    }

    /// What the intercept will report.
    pub closed spec fn opts(self) -> SpiOpts {
        self.opts
    }

    /// An intercept that reports what happens, but not the bytes.
    pub fn new(name: &str) -> (builder: Self)
        ensures
            builder.name() == name@,
            builder.opts().log,
            !builder.opts().bytes,
    {
        InterceptBuilder { name: name.to_owned(), opts: SpiOpts::new() }
    }

    /// Keeps the intercept from reporting what happens.
    pub fn without_log(self) -> (builder: Self)
        ensures
            builder.name() == self.name(),
            !builder.opts().log,
            builder.opts().bytes == self.opts().bytes,
    {
        InterceptBuilder { name: self.name, opts: SpiOpts { log: false, bytes: self.opts.bytes } }
    }

    /// Has the intercept report what happens, and the bytes sent and
    /// received.
    pub fn with_byte_log(self) -> (builder: Self)
        ensures
            builder.name() == self.name(),
            builder.opts().log,
            builder.opts().bytes,
    {
        InterceptBuilder { name: self.name, opts: SpiOpts { log: true, bytes: true } }
    }

    /// Puts the intercept around `spi`, writing to `sink`.
    pub fn init<S: Transfer, L: Sink>(self, spi: S, sink: L) -> (made: Spi<S, L>)
        ensures
            made.label() == self.name(),
            made.inner() == spi,
            made.sink() == sink,
            made.switches().first() == self.opts(),
    {
        Spi::new(self.name, spi, share(self.opts), sink)
    }
}

} // verus!
