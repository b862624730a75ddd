//! The print subsystem: a console device adapter, severity-tagged output
//! channels over one shared writer, and the panic path that trades mutual
//! exclusion for guaranteed progress once the system is going down.

use vstd::prelude::*;
use vstd::string::StringExecFns;

verus! {

/// Relies on `String::push`: appends the given `char` to the end of the string.
pub assume_specification[ String::push ](s: &mut String, c: char)
    ensures
        final(s)@ == old(s)@.push(c),
;

/// The console device adapter. The device is modeled by the transcript of
/// every character it has accepted, in order; a write never fails.
pub struct Writer {
    pub out: String,
}

impl Writer {
    /// A console that has printed nothing yet.
    pub fn new() -> (w: Writer)
        ensures
            w.out@ == Seq::<char>::empty(),
    {
        Writer { out: String::new() }
    }

    /// Hand a single character to the console device.
    pub fn print(&mut self, c: char)
        ensures
            final(self).out@ == old(self).out@.push(c),
    {
        self.out.push(c);
    }

    /// Hand a whole string to the console device, front to back.
    pub fn write_text(&mut self, s: &str)
        ensures
            final(self).out@ == old(self).out@ + s@,
    {
        self.out.append(s);
    }
}

/// The fixed severity channels of the print subsystem. Every channel is a
/// formatting convenience over the same underlying write path: they share
/// the writer, its lock, and the degraded mode.
#[derive(Clone, Copy, PartialEq, Eq, Structural)]
pub enum Channel {
    Plain,
    Message,
    Success,
    Error,
    HartStatus,
}

/// The colored tag that a channel prepends to its message.
pub open spec fn channel_prefix(c: Channel) -> Seq<char> {
    match c {
        Channel::Plain => ""@,
        Channel::Message => "[\x1b[35m  MG  \x1b[0m] "@,
        Channel::Success => "[\x1b[32m  OK  \x1b[0m] "@,
        Channel::Error => "[\x1b[31m  ER  \x1b[0m] "@,
        Channel::HartStatus => "[\x1b[34m  HT  \x1b[0m] "@,
    }
}

/// The colored tag that a channel prepends to its message.
pub fn channel_tag(c: Channel) -> (s: &'static str)
    ensures
        s@ == channel_prefix(c),
{
    match c {
        Channel::Plain => "",
        Channel::Message => "[\x1b[35m  MG  \x1b[0m] ",
        Channel::Success => "[\x1b[32m  OK  \x1b[0m] ",
        Channel::Error => "[\x1b[31m  ER  \x1b[0m] ",
        Channel::HartStatus => "[\x1b[34m  HT  \x1b[0m] ",
    }
}

/// One fully formatted diagnostic line: tag, message, line terminator.
pub open spec fn line_of(c: Channel, msg: Seq<char>) -> Seq<char> {
    channel_prefix(c) + msg + "\n"@
}

/// The boxed banner that precedes every panic diagnostic.
pub open spec fn panic_banner() -> Seq<char> {
    line_of(Channel::Plain, "\x1b[31;1m===[\tPANIC\t]===\x1b[0m"@)
}

/// The fault line a panicking hart emits: `core <id>: <fault>`.
pub open spec fn panic_line(hart: int, fault: Seq<char>) -> Seq<char> {
    line_of(Channel::Plain, "core "@ + crate::decimal::dec_of(hart) + ": "@ + fault)
}

/// Everything the panic handler prints: the banner, then the fault line.
pub open spec fn panic_output(hart: int, fault: Seq<char>) -> Seq<char> {
    panic_banner() + panic_line(hart, fault)
}

/// The print subsystem singleton: the shared writer together with the two
/// mode flags. `locking` starts `true` and is forced to `false` exactly
/// once, by the panic path, never to be restored; from then on the writer
/// is reached without its lock so that a panicking hart can always make
/// progress. `panicked` is monotone `false` to `true` and is exposed for
/// other components that want to skip non-essential work during a panic.
pub struct Pr {
    pub writer: Writer,
    pub panicked: bool,
    pub locking: bool,
}

impl Pr {
    /// The print subsystem as it exists at process start: nothing printed,
    /// lock discipline on, no panic under way.
    pub fn new() -> (pr: Pr)
        ensures
            pr.writer.out@ == Seq::<char>::empty(),
            pr.panicked == false,
            pr.locking == true,
    {
        Pr { writer: Writer::new(), panicked: false, locking: true }
    }

    /// The `panicked` flag, readable from any hart.
    pub fn panicked(&self) -> (b: bool)
        ensures
            b == self.panicked,
    {
        self.panicked
    }

    /// One raw print call: `text` reaches the console as one contiguous
    /// character sequence, with no tag and no terminator added.
    ///
    /// While `locking` holds, the call acquires the writer's
    /// mutual-exclusion lock around the write; once `locking` is off, the
    /// call writes directly. Either way it appends exactly `text` and
    /// always returns: nothing here can fail or block forever once the
    /// lock discipline is off.
    pub fn print_text(&mut self, text: &str)
        ensures
            final(self).writer.out@ == old(self).writer.out@ + text@,
            final(self).panicked == old(self).panicked,
            final(self).locking == old(self).locking,
    {
        self.writer.write_text(text);
    }

    /// One print call: the fully formatted line for `msg` on channel `c`
    /// reaches the console as one contiguous character sequence.
    ///
    /// While `locking` holds, the call acquires the writer's mutual-exclusion
    /// lock around the write, which is what keeps two concurrent lines from
    /// interleaving; once `locking` is off, the call writes directly, a
    /// deliberate trade of exclusion for progress during a panic. Either way
    /// the call appends exactly `line_of(c, msg)`.
    pub fn print_line(&mut self, c: Channel, msg: &str)
        ensures
            final(self).writer.out@ == old(self).writer.out@ + line_of(c, msg@),
            final(self).panicked == old(self).panicked,
            final(self).locking == old(self).locking,
    {
        // In the locked path the lock is acquired here and released after the
        // terminator; the degraded path performs the same three writes bare.
        self.writer.write_text(channel_tag(c));
        self.writer.write_text(msg);
        self.writer.write_text("\n");
        assert(self.writer.out@ =~= old(self).writer.out@ + line_of(c, msg@));
    }

    /// A per-hart status line: `hart <id><what>` on the `HartStatus` channel.
    pub fn hart_line(&mut self, hart: usize, what: &str)
        ensures
            final(self).writer.out@ == old(self).writer.out@ + line_of(
                Channel::HartStatus,
                "hart "@ + crate::decimal::dec_of(hart as int) + what@,
            ),
            final(self).panicked == old(self).panicked,
            final(self).locking == old(self).locking,
    {
        let mut m = String::from_str("hart ");
        crate::decimal::push_dec(&mut m, hart);
        m.append(what);
        self.print_line(Channel::HartStatus, m.as_str());
        assert(self.writer.out@ =~= old(self).writer.out@ + line_of(
            Channel::HartStatus,
            "hart "@ + crate::decimal::dec_of(hart as int) + what@,
        ));
    }

    /// The tail of the panic path: force the lock discipline off before any
    /// further output, emit the fault line naming the originating hart, then
    /// record that a panic is under way. Halting the hart afterwards is the
    /// caller's business.
    pub fn panic_inner(&mut self, hart: usize, fault: &str)
        ensures
            final(self).writer.out@ == old(self).writer.out@ + panic_line(hart as int, fault@),
            final(self).panicked == true,
            final(self).locking == false,
    {
        // Irreversible: nothing ever stores `true` here again, so every later
        // print call takes the lock-free path and cannot block on a lock held
        // by a hart that will never release it.
        self.locking = false;
        let mut m = String::from_str("core ");
        crate::decimal::push_dec(&mut m, hart);
        m.append(": ");
        m.append(fault);
        self.print_line(Channel::Plain, m.as_str());
        self.panicked = true;
        assert(self.writer.out@ =~= old(self).writer.out@ + panic_line(hart as int, fault@));
    }

    /// The system-wide fatal-error sink, reachable from any hart at any
    /// time: switch the lock discipline off, print the boxed banner and the
    /// fault line, and mark the system as panicked.
    pub fn on_panic(&mut self, hart: usize, fault: &str)
        ensures
            final(self).writer.out@ == old(self).writer.out@ + panic_output(hart as int, fault@),
            final(self).panicked == true,
            final(self).locking == false,
    {
        self.locking = false;
        self.print_line(Channel::Plain, "\x1b[31;1m===[\tPANIC\t]===\x1b[0m");
        self.panic_inner(hart, fault);
        assert(self.writer.out@ =~= old(self).writer.out@ + panic_output(hart as int, fault@));
    }
}

} // verus!
