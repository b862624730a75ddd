//! Concurrent print calls, one character at a time.
//!
//! The coarse methods of `printf` describe one print call as one atomic
//! append; this module justifies that picture. It models K harts inside
//! the print subsystem at once, each partway through writing its own
//! fully formatted line, with an adversarial scheduler choosing which
//! hart moves next. While the lock discipline holds, the writer lock
//! keeps every line contiguous: the console ends up holding exactly the
//! submitted lines, whole, in the order the harts finished. Once the
//! panic path has switched the discipline off, every write step of every
//! hart makes progress — no print call can block again — at the declared
//! price that lines may now interleave.

use vstd::prelude::*;
use vstd::set_lib::{lemma_int_range, set_int_range};
use crate::printf::Pr;

verus! {

/// One in-flight print call of one simulated hart: the fully formatted
/// line it is writing and how much of it has reached the console. A
/// formatted line always ends in a terminator, so it is never empty.
pub struct PrintCall {
    pub line: Vec<char>,
    pub pos: usize,
}

impl PrintCall {
    pub open spec fn wf(self) -> bool {
        &&& self.pos <= self.line@.len()
        &&& self.line@.len() >= 1
    }

    /// Every character of the line has reached the console.
    pub open spec fn done(self) -> bool {
        self.pos == self.line@.len()
    }
}

/// The lines of `calls` picked out by `order`, concatenated in order.
pub open spec fn cat_lines(order: Seq<int>, calls: Seq<PrintCall>) -> Seq<char>
    decreases order.len(),
{
    if order.len() == 0 {
        Seq::empty()
    } else {
        cat_lines(order.drop_last(), calls) + calls[order.last()].line@
    }
}

/// `cat_lines` reads only positions of `calls` that `order` names.
proof fn lemma_cat_lines_grow(order: Seq<int>, calls: Seq<PrintCall>, c: PrintCall)
    requires
        forall|k: int| 0 <= k < order.len() ==> 0 <= #[trigger] order[k] < calls.len(),
    ensures
        cat_lines(order, calls.push(c)) == cat_lines(order, calls),
    decreases order.len(),
{
    if order.len() > 0 {
        lemma_cat_lines_grow(order.drop_last(), calls, c);
    }
}

/// `cat_lines` reads only the `line` fields, never the positions.
proof fn lemma_cat_lines_same_lines(order: Seq<int>, c1: Seq<PrintCall>, c2: Seq<PrintCall>)
    requires
        c1.len() == c2.len(),
        forall|i: int| 0 <= i < c1.len() ==> (#[trigger] c1[i]).line@ == c2[i].line@,
        forall|k: int| 0 <= k < order.len() ==> 0 <= #[trigger] order[k] < c1.len(),
    ensures
        cat_lines(order, c1) == cat_lines(order, c2),
    decreases order.len(),
{
    if order.len() > 0 {
        lemma_cat_lines_same_lines(order.drop_last(), c1, c2);
    }
}

/// The print calls of the simulated harts, in flight at once. Each call
/// gets its own index as it is submitted; a hart issuing several calls
/// submits the next after its previous one completes, so any number of
/// calls from any number of harts fits. `lock_owner` models which call's
/// hart currently holds the writer's mutual-exclusion lock; `base` is the
/// transcript as the round began; `finished` records which calls have
/// completed, in completion order.
pub struct PrintSim {
    pub pr: Pr,
    pub lock_owner: Option<usize>,
    pub calls: Vec<PrintCall>,
    pub base: Ghost<Seq<char>>,
    pub finished: Ghost<Seq<int>>,
}

impl PrintSim {
    /// Does hart `i` hold the writer lock?
    pub open spec fn is_owner(self, i: int) -> bool {
        match self.lock_owner {
            Option::Some(o) => o as int == i,
            Option::None => false,
        }
    }

    /// The prefix of the lock holder's line written so far.
    pub open spec fn owner_partial(self) -> Seq<char> {
        match self.lock_owner {
            Option::Some(o) => self.calls@[o as int].line@.take(
                self.calls@[o as int].pos as int,
            ),
            Option::None => Seq::empty(),
        }
    }

    /// The simulation invariant. While the lock discipline holds, only the
    /// lock holder can be midway through a line, and the console holds the
    /// finished lines whole, in completion order, followed by the holder's
    /// partial line — which is what rules out interleaving. Once the
    /// discipline is off, nothing more is claimed of the transcript's
    /// shape: interleaving is the accepted price of progress.
    pub open spec fn inv(self) -> bool {
        &&& forall|i: int| 0 <= i < self.calls@.len() ==> (#[trigger] self.calls@[i]).wf()
        &&& forall|k: int|
            0 <= k < self.finished@.len() ==> 0 <= #[trigger] self.finished@[k]
                < self.calls@.len()
        &&& forall|k: int, l: int|
            0 <= k < l < self.finished@.len() ==> self.finished@[k] != self.finished@[l]
        &&& forall|i: int|
            0 <= i < self.calls@.len() ==> ((#[trigger] self.calls@[i]).done()
                <==> self.finished@.contains(i))
        &&& match self.lock_owner {
            Option::Some(o) => o < self.calls@.len() && (self.pr.locking
                ==> !self.calls@[o as int].done()),
            Option::None => true,
        }
        &&& (self.pr.locking ==> forall|i: int|
            0 <= i < self.calls@.len() && !self.is_owner(i)
                ==> ((#[trigger] self.calls@[i]).pos == 0 || self.calls@[i].done()))
        &&& (self.pr.locking ==> self.pr.writer.out@ == self.base@
            + cat_lines(self.finished@, self.calls@) + self.owner_partial())
    }

    /// A fresh round: no hart inside the subsystem yet, whatever the
    /// console already holds taken as the base transcript.
    pub fn begin(pr: Pr) -> (sim: PrintSim)
        ensures
            sim.inv(),
            sim.pr == pr,
            sim.calls@.len() == 0,
            sim.base@ == pr.writer.out@,
            sim.finished@ == Seq::<int>::empty(),
            sim.lock_owner is None,
    {
        let ghost base = pr.writer.out@;
        let sim = PrintSim {
            pr,
            lock_owner: Option::None,
            calls: Vec::new(),
            base: Ghost(base),
            finished: Ghost(Seq::empty()),
        };
        proof {
            assert(sim.pr.locking ==> sim.pr.writer.out@ =~= sim.base@
                + cat_lines(sim.finished@, sim.calls@) + sim.owner_partial());
        }
        sim
    }

    /// One more hart enters the subsystem, about to print `line`. Returns
    /// the new hart's index.
    pub fn submit(&mut self, line: Vec<char>) -> (h: usize)
        requires
            old(self).inv(),
            line@.len() >= 1,
        ensures
            final(self).inv(),
            h == old(self).calls@.len(),
            final(self).calls@ == old(self).calls@.push(PrintCall { line, pos: 0 }),
            final(self).pr == old(self).pr,
            final(self).base == old(self).base,
            final(self).finished == old(self).finished,
            final(self).lock_owner == old(self).lock_owner,
    {
        let h = self.calls.len();
        self.calls.push(PrintCall { line, pos: 0 });
        proof {
            lemma_cat_lines_grow(self.finished@, old(self).calls@, self.calls@[h as int]);
            assert forall|i: int|
                0 <= i < self.calls@.len() implies ((#[trigger] self.calls@[i]).done()
                <==> self.finished@.contains(i)) by {
                if i < h as int {
                    assert(old(self).calls@[i].done() <==> self.finished@.contains(i));
                } else {
                    // the new call is untouched, and `finished` cannot name it
                    assert(!self.calls@[i].done());
                    if self.finished@.contains(i) {
                        let k = choose|k: int|
                            0 <= k < self.finished@.len() && self.finished@[k] == i;
                        assert(self.finished@[k] < old(self).calls@.len());
                    }
                }
            }
            if self.pr.locking {
                assert(self.owner_partial() == old(self).owner_partial());
                assert(self.pr.writer.out@ == self.base@
                    + cat_lines(self.finished@, self.calls@) + self.owner_partial());
            }
        }
        h
    }

    /// Hart `h` attempts to move one character of its line to the console.
    ///
    /// While the lock discipline holds, a hart whose call is untouched
    /// first acquires the writer lock (or blocks, making no progress, if
    /// another hart holds it); the holder writes its next character and
    /// releases the lock with the line's terminator. Once the discipline
    /// is off, the hart writes directly, without looking at the lock —
    /// every attempt then makes progress, which is exactly what the panic
    /// path needs from this subsystem.
    pub fn step(&mut self, h: usize) -> (progress: bool)
        requires
            old(self).inv(),
            h < old(self).calls@.len(),
            !old(self).calls@[h as int].done(),
        ensures
            final(self).inv(),
            final(self).calls@.len() == old(self).calls@.len(),
            forall|i: int|
                0 <= i < old(self).calls@.len()
                    ==> (#[trigger] final(self).calls@[i]).line == old(self).calls@[i].line,
            final(self).pr.locking == old(self).pr.locking,
            final(self).pr.panicked == old(self).pr.panicked,
            final(self).base == old(self).base,
            !old(self).pr.locking ==> progress,
            old(self).pr.locking && (old(self).lock_owner is None || old(self).lock_owner
                == Option::Some(h)) ==> progress,
            progress ==> final(self).calls@[h as int].pos == old(self).calls@[h as int].pos
                + 1,
            progress ==> forall|i: int|
                0 <= i < old(self).calls@.len() && i != h as int
                    ==> final(self).calls@[i] == old(self).calls@[i],
            progress ==> final(self).pr.writer.out@ == old(self).pr.writer.out@.push(
                old(self).calls@[h as int].line@[old(self).calls@[h as int].pos as int],
            ),
            progress && old(self).pr.locking && !final(self).calls@[h as int].done()
                ==> final(self).lock_owner == Option::Some(h),
            progress && old(self).pr.locking && final(self).calls@[h as int].done()
                ==> final(self).lock_owner is None,
            !old(self).pr.locking ==> final(self).lock_owner == old(self).lock_owner,
            !progress ==> *final(self) == *old(self),
    {
        if self.pr.locking {
            let held_by_other = match self.lock_owner {
                Option::Some(o) => o != h,
                Option::None => false,
            };
            if held_by_other {
                // blocked on the writer lock until its holder releases it
                return false;
            }
            // acquire (a no-op if this hart already holds the lock)
            self.lock_owner = Option::Some(h);
            proof {
                assert forall|i: int|
                    0 <= i < self.calls@.len() && !self.is_owner(i)
                        implies ((#[trigger] self.calls@[i]).pos == 0
                        || self.calls@[i].done()) by {
                    assert(old(self).calls@[i].pos == 0 || old(self).calls@[i].done());
                }
                assert(old(self).is_owner(h as int) || old(self).calls@[h as int].pos == 0);
                assert(self.owner_partial() =~= old(self).owner_partial());
            }
        }
        self.write_next(h)
    }

    /// The write half of one step: hart `h`'s next character goes to the
    /// console; the lock, if this hart holds it, is released with the last
    /// character of the line.
    fn write_next(&mut self, h: usize) -> (progress: bool)
        requires
            old(self).inv(),
            h < old(self).calls@.len(),
            !old(self).calls@[h as int].done(),
            old(self).pr.locking ==> old(self).lock_owner == Option::Some(h),
        ensures
            final(self).inv(),
            progress,
            final(self).calls@.len() == old(self).calls@.len(),
            forall|i: int|
                0 <= i < old(self).calls@.len() && i != h as int
                    ==> final(self).calls@[i] == old(self).calls@[i],
            final(self).calls@[h as int].line == old(self).calls@[h as int].line,
            final(self).calls@[h as int].pos == old(self).calls@[h as int].pos + 1,
            final(self).pr.locking == old(self).pr.locking,
            final(self).pr.panicked == old(self).pr.panicked,
            final(self).base == old(self).base,
            final(self).pr.writer.out@ == old(self).pr.writer.out@.push(
                old(self).calls@[h as int].line@[old(self).calls@[h as int].pos as int],
            ),
            old(self).pr.locking && !final(self).calls@[h as int].done()
                ==> final(self).lock_owner == Option::Some(h),
            old(self).pr.locking && final(self).calls@[h as int].done()
                ==> final(self).lock_owner is None,
            !old(self).pr.locking ==> final(self).lock_owner == old(self).lock_owner,
    {
        let ghost prev = *old(self);
        proof {
            assert(old(self).calls@[h as int].wf());
        }
        let pos = self.calls[h].pos;
        let c = self.calls[h].line[pos];
        self.pr.writer.print(c);
        let call = &mut self.calls[h];
        let linelen = call.line.len();
        proof {
            assert(pos < linelen);
        }
        call.pos = pos + 1;
        let now_done = pos + 1 == linelen;
        proof {
            assert(self.calls@ =~= prev.calls@.update(
                h as int,
                PrintCall { line: prev.calls@[h as int].line, pos: (pos + 1) as usize },
            ));
        }
        if now_done {
            proof {
                // record completion; `finished` gains this call exactly once
                let ghost fin0 = self.finished@;
                self.finished@ = fin0.push(h as int);
                assert(!fin0.contains(h as int));
                assert forall|i: int|
                    0 <= i < self.calls@.len() implies ((#[trigger] self.calls@[i]).done()
                    <==> self.finished@.contains(i)) by {
                    if i == h as int {
                        assert(self.finished@[fin0.len() as int] == i);
                    } else {
                        assert(prev.calls@[i].done() <==> fin0.contains(i));
                        if self.finished@.contains(i) {
                            let k = choose|k: int|
                                0 <= k < self.finished@.len() && self.finished@[k] == i;
                            assert(fin0[k] == i);
                        }
                        if fin0.contains(i) {
                            let k = choose|k: int| 0 <= k < fin0.len() && fin0[k] == i;
                            assert(self.finished@[k] == i);
                        }
                    }
                }
            }
            if self.pr.locking {
                // release: the line is complete, the next caller may enter
                self.lock_owner = Option::None;
            }
        }
        proof {
            if self.pr.locking {
                lemma_cat_lines_same_lines(prev.finished@, self.calls@, prev.calls@);
                let line = prev.calls@[h as int].line@;
                assert(prev.owner_partial() == line.take(pos as int));
                assert(line.take(pos as int + 1) =~= line.take(pos as int).push(
                    line[pos as int],
                ));
                if now_done {
                    lemma_cat_lines_same_lines(self.finished@, self.calls@, prev.calls@);
                    assert(self.finished@.drop_last() =~= prev.finished@);
                    assert(self.finished@.last() == h as int);
                    assert(cat_lines(self.finished@, prev.calls@) == cat_lines(
                        prev.finished@,
                        prev.calls@,
                    ) + line);
                    assert(line.take(pos as int + 1) =~= line);
                    assert(self.owner_partial() == Seq::<char>::empty());
                    assert(self.pr.writer.out@ =~= self.base@ + cat_lines(
                        self.finished@,
                        self.calls@,
                    ) + self.owner_partial());
                } else {
                    assert(self.owner_partial() == line.take(pos as int + 1));
                    assert(self.pr.writer.out@ =~= self.base@ + cat_lines(
                        self.finished@,
                        self.calls@,
                    ) + self.owner_partial());
                }
            }
        }
        true
    }

    /// One whole print call through the character-level machine: hart `h`
    /// steps until its line is complete. With the lock discipline on and
    /// the lock free, no step can block, and what reaches the console is
    /// exactly the hart's whole line, contiguously — the coarse picture
    /// that `printf` presents of one locked print call.
    pub fn run_call(&mut self, h: usize)
        requires
            old(self).inv(),
            h < old(self).calls@.len(),
            old(self).calls@[h as int].pos == 0,
            !old(self).calls@[h as int].done(),
            old(self).pr.locking,
            old(self).lock_owner is None,
        ensures
            final(self).inv(),
            final(self).calls@.len() == old(self).calls@.len(),
            forall|i: int|
                0 <= i < old(self).calls@.len() && i != h as int
                    ==> final(self).calls@[i] == old(self).calls@[i],
            final(self).calls@[h as int].done(),
            final(self).calls@[h as int].line == old(self).calls@[h as int].line,
            final(self).pr.writer.out@ == old(self).pr.writer.out@
                + old(self).calls@[h as int].line@,
            final(self).pr.locking == old(self).pr.locking,
            final(self).pr.panicked == old(self).pr.panicked,
            final(self).base == old(self).base,
            final(self).lock_owner is None,
    {
        let ghost start = *old(self);
        loop
            invariant
                self.inv(),
                h < self.calls@.len(),
                self.calls@.len() == start.calls@.len(),
                forall|i: int|
                    0 <= i < start.calls@.len() && i != h as int
                        ==> self.calls@[i] == start.calls@[i],
                self.calls@[h as int].line == start.calls@[h as int].line,
                self.pr.locking,
                self.pr.panicked == start.pr.panicked,
                self.base == start.base,
                !self.calls@[h as int].done() ==> (self.lock_owner is None
                    || self.lock_owner == Option::Some(h)),
                self.calls@[h as int].done() ==> self.lock_owner is None,
                self.pr.writer.out@ == start.pr.writer.out@
                    + start.calls@[h as int].line@.take(self.calls@[h as int].pos as int),
            ensures
                self.inv(),
                self.calls@.len() == start.calls@.len(),
                forall|i: int|
                    0 <= i < start.calls@.len() && i != h as int
                        ==> self.calls@[i] == start.calls@[i],
                self.calls@[h as int].line == start.calls@[h as int].line,
                self.calls@[h as int].done(),
                self.lock_owner is None,
                self.pr.locking,
                self.pr.panicked == start.pr.panicked,
                self.base == start.base,
                self.pr.writer.out@ == start.pr.writer.out@
                    + start.calls@[h as int].line@.take(self.calls@[h as int].pos as int),
            decreases start.calls@[h as int].line@.len() - self.calls@[h as int].pos,
        {
            let call_done = {
                let pos = self.calls[h].pos;
                pos == self.calls[h].line.len()
            };
            if call_done {
                break;
            }
            let ghost before = *self;
            let progressed = self.step(h);
            proof {
                assert(progressed);
                let line = start.calls@[h as int].line@;
                let p = before.calls@[h as int].pos as int;
                assert(line.take(p + 1) =~= line.take(p).push(line[p]));
                assert(self.pr.writer.out@ =~= start.pr.writer.out@ + line.take(p + 1));
            }
        }
        proof {
            let line = start.calls@[h as int].line@;
            assert(line.take(line.len() as int) =~= line);
        }
    }

    /// A panic begins while harts are inside the print subsystem: the
    /// panic path switches the lock discipline off and emits its output
    /// bare, past whatever the lock holder was writing. From this moment
    /// every `step` of every hart makes progress — `step` promises it of
    /// any state whose `locking` is off, and nothing ever turns it back on.
    pub fn sim_panic(&mut self, h: usize, fault: &str)
        requires
            old(self).inv(),
        ensures
            final(self).inv(),
            final(self).pr.locking == false,
            final(self).pr.panicked == true,
            final(self).pr.writer.out@ == old(self).pr.writer.out@
                + crate::printf::panic_output(h as int, fault@),
            final(self).calls == old(self).calls,
            final(self).finished == old(self).finished,
            final(self).base == old(self).base,
            final(self).lock_owner == old(self).lock_owner,
    {
        self.pr.on_panic(h, fault);
    }
}

/// Law: under normal operation — the lock discipline on from first to last
/// write — a completed round leaves the console holding exactly the
/// submitted lines, each one whole and contiguous, concatenated in the
/// order the calls finished; `finished` names every call exactly once, so
/// the output is a total ordering of the lines with no interleaving.
pub proof fn lemma_no_interleaving(sim: PrintSim)
    requires
        sim.inv(),
        sim.pr.locking,
        forall|i: int| 0 <= i < sim.calls@.len() ==> (#[trigger] sim.calls@[i]).done(),
    ensures
        sim.pr.writer.out@ == sim.base@ + cat_lines(sim.finished@, sim.calls@),
        forall|k: int|
            0 <= k < sim.finished@.len() ==> 0 <= #[trigger] sim.finished@[k]
                < sim.calls@.len(),
        forall|k: int, l: int|
            0 <= k < l < sim.finished@.len() ==> sim.finished@[k] != sim.finished@[l],
        forall|i: int| 0 <= i < sim.calls@.len() ==> sim.finished@.contains(i),
        sim.finished@.len() == sim.calls@.len(),
{
    let n = sim.calls@.len() as int;
    // no hart can still hold the lock: the holder's call would be unfinished
    assert(sim.lock_owner is None);
    assert(sim.pr.writer.out@ =~= sim.base@ + cat_lines(sim.finished@, sim.calls@));
    // `finished` is a duplicate-free sequence covering all of 0..n, so its
    // length is exactly n
    assert(sim.finished@.no_duplicates());
    sim.finished@.unique_seq_to_set();
    assert forall|i: int| 0 <= i < n implies sim.finished@.contains(i) by {
        assert(sim.calls@[i].done());
    }
    assert forall|x: int| sim.finished@.contains(x) implies 0 <= x < n by {
        let k = choose|k: int| 0 <= k < sim.finished@.len() && sim.finished@[k] == x;
        assert(sim.finished@[k] == x);
    }
    assert(sim.finished@.to_set() =~= set_int_range(0, n));
    lemma_int_range(0, n);
}

} // verus!
