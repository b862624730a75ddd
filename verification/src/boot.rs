//! The multi-hart boot synchronization protocol: the boot orchestrator on
//! hart 0, the spin barrier and bring-up on every other hart, and the
//! system-wide panic sink.
//!
//! The machine is modeled one transition at a time: each public method is
//! one atomic step of one hart, and a scheduler (a test harness, or the
//! driver around the library) interleaves the harts by choosing which
//! method to call next. `wf` is the protocol invariant every transition
//! preserves; in particular the boot flag is set only after all twelve
//! initialization steps are recorded complete, so no hart can ever observe
//! it early.

use vstd::prelude::*;
use crate::printf::{Pr, Writer, Channel, line_of, panic_output};
use crate::decimal::dec_of;

verus! {

/// How many one-time initialization steps the boot orchestrator performs.
pub const NUM_INIT_STEPS: usize = 12;

/// How many per-hart steps a secondary hart performs once released.
pub const NUM_BRINGUP_STEPS: usize = 3;

/// The twelve one-time initialization steps, in dependency order. Later
/// steps assume earlier ones completed (paging must be active before any
/// step that allocates virtual mappings), so the order is fixed.
#[derive(Clone, Copy, PartialEq, Eq, Structural)]
pub enum InitStep {
    Console,
    NullDevice,
    PhysicalAllocator,
    KernelPageTable,
    ActivatePaging,
    ProcessTable,
    TrapVector,
    InterruptController,
    InterruptsOnHart,
    BufferCache,
    DiskDriver,
    FirstProcess,
}

/// The step at a given position of the fixed order.
pub open spec fn step_at(i: int) -> InitStep {
    if i == 0 {
        InitStep::Console
    } else if i == 1 {
        InitStep::NullDevice
    } else if i == 2 {
        InitStep::PhysicalAllocator
    } else if i == 3 {
        InitStep::KernelPageTable
    } else if i == 4 {
        InitStep::ActivatePaging
    } else if i == 5 {
        InitStep::ProcessTable
    } else if i == 6 {
        InitStep::TrapVector
    } else if i == 7 {
        InitStep::InterruptController
    } else if i == 8 {
        InitStep::InterruptsOnHart
    } else if i == 9 {
        InitStep::BufferCache
    } else if i == 10 {
        InitStep::DiskDriver
    } else {
        InitStep::FirstProcess
    }
}

/// The step at a given position of the fixed order.
pub fn init_step_at(i: usize) -> (s: InitStep)
    requires
        i < NUM_INIT_STEPS,
    ensures
        s == step_at(i as int),
{
    if i == 0 {
        InitStep::Console
    } else if i == 1 {
        InitStep::NullDevice
    } else if i == 2 {
        InitStep::PhysicalAllocator
    } else if i == 3 {
        InitStep::KernelPageTable
    } else if i == 4 {
        InitStep::ActivatePaging
    } else if i == 5 {
        InitStep::ProcessTable
    } else if i == 6 {
        InitStep::TrapVector
    } else if i == 7 {
        InitStep::InterruptController
    } else if i == 8 {
        InitStep::InterruptsOnHart
    } else if i == 9 {
        InitStep::BufferCache
    } else if i == 10 {
        InitStep::DiskDriver
    } else {
        InitStep::FirstProcess
    }
}

/// The text of the success diagnostic a completed step emits.
pub open spec fn step_name_view(s: InitStep) -> Seq<char> {
    match s {
        InitStep::Console => "console::init"@,
        InitStep::NullDevice => "null::init"@,
        InitStep::PhysicalAllocator => "kalloc::init"@,
        InitStep::KernelPageTable => "vm::init"@,
        InitStep::ActivatePaging => "vm::kinithart"@,
        InitStep::ProcessTable => "proc::init"@,
        InitStep::TrapVector => "trap::inithart"@,
        InitStep::InterruptController => "plic::init"@,
        InitStep::InterruptsOnHart => "plic::inithart"@,
        InitStep::BufferCache => "bio::init"@,
        InitStep::DiskDriver => "virtio_disk::init"@,
        InitStep::FirstProcess => "user_init"@,
    }
}

/// The text of the success diagnostic a completed step emits.
pub fn step_name(s: InitStep) -> (r: &'static str)
    ensures
        r@ == step_name_view(s),
{
    match s {
        InitStep::Console => "console::init",
        InitStep::NullDevice => "null::init",
        InitStep::PhysicalAllocator => "kalloc::init",
        InitStep::KernelPageTable => "vm::init",
        InitStep::ActivatePaging => "vm::kinithart",
        InitStep::ProcessTable => "proc::init",
        InitStep::TrapVector => "trap::inithart",
        InitStep::InterruptController => "plic::init",
        InitStep::InterruptsOnHart => "plic::inithart",
        InitStep::BufferCache => "bio::init",
        InitStep::DiskDriver => "virtio_disk::init",
        InitStep::FirstProcess => "user_init",
    }
}

/// The text of the success diagnostic for a secondary hart's bring-up step.
pub open spec fn bringup_name_view(i: int) -> Seq<char> {
    if i == 0 {
        "turn on paging"@
    } else if i == 1 {
        "install kernel trap vector"@
    } else {
        "ask PLIC for device interrupts"@
    }
}

/// The text of the success diagnostic for a secondary hart's bring-up step.
pub fn bringup_name(i: usize) -> (r: &'static str)
    requires
        i < NUM_BRINGUP_STEPS,
    ensures
        r@ == bringup_name_view(i as int),
{
    if i == 0 {
        "turn on paging"
    } else if i == 1 {
        "install kernel trap vector"
    } else {
        "ask PLIC for device interrupts"
    }
}

/// Where one hart stands. Every hart starts at `Reset` and never moves
/// backward; `Ready` is the handoff into the scheduler, `Halted` is the
/// permanent idle loop a panicking hart enters.
#[derive(Clone, Copy, PartialEq, Eq, Structural, Debug)]
pub enum HartPhase {
    Reset,
    Orchestrating { next: usize },
    WaitingForBoot,
    BringingUp { next: usize },
    Ready,
    Halted,
}

/// The whole machine: the print subsystem, the separate always-unlocked
/// error writer, the boot flag, how many initialization steps are recorded
/// complete, and each hart's phase. Hart 0 is the boot hart, a fixed
/// compile-time policy.
pub struct System {
    pub pr: Pr,
    pub ewriter: Writer,
    pub boot_flag: bool,
    pub steps_done: usize,
    pub harts: Vec<HartPhase>,
}

impl System {
    /// What each phase requires of the surrounding machine.
    pub open spec fn hart_ok(self, i: int) -> bool {
        match self.harts@[i] {
            HartPhase::Reset => true,
            HartPhase::Orchestrating { next } => i == 0 && next == self.steps_done
                && self.steps_done < NUM_INIT_STEPS && !self.boot_flag,
            HartPhase::WaitingForBoot => i != 0,
            HartPhase::BringingUp { next } => i != 0 && next < NUM_BRINGUP_STEPS
                && self.boot_flag,
            HartPhase::Ready => self.boot_flag,
            HartPhase::Halted => true,
        }
    }

    /// The protocol invariant. Its heart is the third clause: the boot flag
    /// is never set while any initialization step is outstanding, so a hart
    /// that reads it as `true` knows every shared subsystem is up.
    pub open spec fn wf(self) -> bool {
        &&& self.harts@.len() >= 1
        &&& self.steps_done <= NUM_INIT_STEPS
        &&& (self.boot_flag ==> self.steps_done == NUM_INIT_STEPS)
        &&& forall|i: int| 0 <= i < self.harts@.len() ==> #[trigger] self.hart_ok(i)
    }

    /// A machine of `n` harts at reset: nothing printed, no step done, the
    /// boot flag clear, the print lock discipline on.
    pub fn new(n: usize) -> (sys: System)
        requires
            1 <= n,
        ensures
            sys.wf(),
            sys.harts@.len() == n as int,
            forall|i: int| 0 <= i < n as int ==> sys.harts@[i] == HartPhase::Reset,
            sys.boot_flag == false,
            sys.steps_done == 0,
            sys.pr.locking == true,
            sys.pr.panicked == false,
            sys.pr.writer.out@ == Seq::<char>::empty(),
            sys.ewriter.out@ == Seq::<char>::empty(),
    {
        let mut harts: Vec<HartPhase> = Vec::new();
        let mut i: usize = 0;
        while i < n
            invariant
                i <= n,
                harts@.len() == i as int,
                forall|j: int| 0 <= j < i as int ==> harts@[j] == HartPhase::Reset,
            decreases n - i,
        {
            harts.push(HartPhase::Reset);
            i = i + 1;
        }
        let sys = System {
            pr: Pr::new(),
            ewriter: Writer::new(),
            boot_flag: false,
            steps_done: 0,
            harts,
        };
        assert forall|k: int| 0 <= k < sys.harts@.len() implies sys.hart_ok(k) by {
            assert(sys.harts@[k] == HartPhase::Reset);
        }
        sys
    }

    /// The banner the boot hart prints once the console is usable.
    pub open spec fn boot_banner() -> Seq<char> {
        line_of(Channel::Plain, ""@) + line_of(Channel::Plain, "octox kernel is booting"@)
            + line_of(Channel::Plain, ""@)
    }

    /// The common entry point of every hart. Hart 0 announces the boot and
    /// becomes the orchestrator; every other hart starts spinning on the
    /// boot flag, printing nothing until it is released.
    pub fn start_hart(&mut self, h: usize)
        requires
            old(self).wf(),
            h < old(self).harts@.len(),
            old(self).harts@[h as int] is Reset,
            h == 0 ==> old(self).steps_done == 0 && !old(self).boot_flag,
        ensures
            final(self).wf(),
            final(self).harts@.len() == old(self).harts@.len(),
            forall|i: int|
                0 <= i < old(self).harts@.len() && i != h as int
                    ==> final(self).harts@[i] == old(self).harts@[i],
            final(self).boot_flag == old(self).boot_flag,
            final(self).steps_done == old(self).steps_done,
            final(self).pr.locking == old(self).pr.locking,
            final(self).pr.panicked == old(self).pr.panicked,
            final(self).ewriter == old(self).ewriter,
            h == 0 ==> final(self).harts@[0] == (HartPhase::Orchestrating { next: 0 })
                && final(self).pr.writer.out@ == old(self).pr.writer.out@
                + Self::boot_banner(),
            h != 0 ==> final(self).harts@[h as int] == HartPhase::WaitingForBoot
                && final(self).pr.writer.out@ == old(self).pr.writer.out@,
    {
        if h == 0 {
            self.pr.print_line(Channel::Plain, "");
            self.pr.print_line(Channel::Plain, "octox kernel is booting");
            self.pr.print_line(Channel::Plain, "");
            self.harts[0] = HartPhase::Orchestrating { next: 0 };
            assert(self.pr.writer.out@ =~= old(self).pr.writer.out@ + Self::boot_banner());
        } else {
            self.harts[h] = HartPhase::WaitingForBoot;
        }
        assert forall|k: int| 0 <= k < self.harts@.len() implies self.hart_ok(k) by {
            if k != h as int {
                assert(old(self).hart_ok(k));
            }
        }
    }

    /// The system-wide fatal-error sink, reachable from any hart at any
    /// time: the print subsystem runs its panic path, and the faulting hart
    /// halts permanently. No other hart is stopped; a hart that faults on
    /// its own follows the same path independently.
    pub fn hart_panic(&mut self, h: usize, fault: &str)
        requires
            old(self).wf(),
            h < old(self).harts@.len(),
        ensures
            final(self).wf(),
            final(self).harts@.len() == old(self).harts@.len(),
            forall|i: int|
                0 <= i < old(self).harts@.len() && i != h as int
                    ==> final(self).harts@[i] == old(self).harts@[i],
            final(self).harts@[h as int] == HartPhase::Halted,
            final(self).pr.writer.out@ == old(self).pr.writer.out@
                + panic_output(h as int, fault@),
            final(self).pr.locking == false,
            final(self).pr.panicked == true,
            final(self).boot_flag == old(self).boot_flag,
            final(self).steps_done == old(self).steps_done,
            final(self).ewriter == old(self).ewriter,
    {
        self.pr.on_panic(h, fault);
        // the permanent idle loop of the faulted hart
        self.harts[h] = HartPhase::Halted;
        assert forall|k: int| 0 <= k < self.harts@.len() implies self.hart_ok(k) by {
            if k != h as int {
                assert(old(self).hart_ok(k));
            }
        }
    }

    /// One initialization step on the boot hart. `ok` says whether the
    /// collaborator completed; a failed step is fatal, with no partial-boot
    /// recovery. After the twelfth step the hart publishes readiness by
    /// setting the boot flag — the last observable action of the sequence —
    /// and hands off to the scheduler.
    pub fn boot_step(&mut self, ok: bool, fault: &str)
        requires
            old(self).wf(),
            old(self).harts@[0] is Orchestrating,
        ensures
            final(self).wf(),
            final(self).harts@.len() == old(self).harts@.len(),
            forall|i: int|
                1 <= i < old(self).harts@.len()
                    ==> final(self).harts@[i] == old(self).harts@[i],
            final(self).ewriter == old(self).ewriter,
            ok ==> {
                let k = old(self).steps_done;
                &&& final(self).steps_done == k + 1
                &&& final(self).pr.writer.out@ == old(self).pr.writer.out@
                    + line_of(Channel::Success, step_name_view(step_at(k as int)))
                &&& final(self).pr.locking == old(self).pr.locking
                &&& final(self).pr.panicked == old(self).pr.panicked
                &&& (k + 1 == NUM_INIT_STEPS ==> final(self).boot_flag
                    && final(self).harts@[0] == HartPhase::Ready)
                &&& (k + 1 < NUM_INIT_STEPS ==> !final(self).boot_flag
                    && final(self).harts@[0] == (HartPhase::Orchestrating {
                        next: (k + 1) as usize,
                    }))
            },
            !ok ==> {
                &&& final(self).steps_done == old(self).steps_done
                &&& !final(self).boot_flag
                &&& final(self).harts@[0] == HartPhase::Halted
                &&& final(self).pr.writer.out@ == old(self).pr.writer.out@
                    + panic_output(0, fault@)
                &&& final(self).pr.locking == false
                &&& final(self).pr.panicked == true
            },
    {
        proof {
            assert(old(self).hart_ok(0));
        }
        if ok {
            let k = self.steps_done;
            let s = init_step_at(k);
            self.pr.print_line(Channel::Success, step_name(s));
            self.steps_done = k + 1;
            if k + 1 == NUM_INIT_STEPS {
                // Publish readiness. Nothing the other harts need happens
                // after this store: it releases the spin barrier.
                self.boot_flag = true;
                self.harts[0] = HartPhase::Ready;
            } else {
                self.harts[0] = HartPhase::Orchestrating { next: k + 1 };
            }
            assert forall|j: int| 0 <= j < self.harts@.len() implies self.hart_ok(j) by {
                if j != 0 {
                    assert(old(self).hart_ok(j));
                }
            }
        } else {
            self.hart_panic(0, fault);
        }
    }

    /// One spin iteration of the boot barrier on a secondary hart: read the
    /// boot flag once (the real hart executes a pause hint between reads).
    /// If the flag is up, the hart is released, announces itself, and moves
    /// to bring-up; a released hart therefore knows that all twelve
    /// initialization steps were recorded complete before its read.
    pub fn secondary_poll(&mut self, h: usize) -> (released: bool)
        requires
            old(self).wf(),
            0 < h < old(self).harts@.len(),
            old(self).harts@[h as int] is WaitingForBoot,
        ensures
            final(self).wf(),
            released == old(self).boot_flag,
            released ==> old(self).steps_done == NUM_INIT_STEPS,
            final(self).harts@.len() == old(self).harts@.len(),
            forall|i: int|
                0 <= i < old(self).harts@.len() && i != h as int
                    ==> final(self).harts@[i] == old(self).harts@[i],
            final(self).boot_flag == old(self).boot_flag,
            final(self).steps_done == old(self).steps_done,
            final(self).pr.locking == old(self).pr.locking,
            final(self).pr.panicked == old(self).pr.panicked,
            final(self).ewriter == old(self).ewriter,
            released ==> final(self).harts@[h as int] == (HartPhase::BringingUp { next: 0 })
                && final(self).pr.writer.out@ == old(self).pr.writer.out@
                + line_of(Channel::HartStatus, "hart "@ + dec_of(h as int) + " starting"@),
            !released ==> *final(self) == *old(self),
    {
        if self.boot_flag {
            self.pr.hart_line(h, " starting");
            self.harts[h] = HartPhase::BringingUp { next: 0 };
            assert forall|k: int| 0 <= k < self.harts@.len() implies self.hart_ok(k) by {
                if k != h as int {
                    assert(old(self).hart_ok(k));
                }
            }
            true
        } else {
            // spin: reread on the next iteration
            false
        }
    }

    /// One per-hart bring-up step on a released secondary hart: paging,
    /// then the trap vector, then interrupt delivery. After the third step
    /// the hart reports itself up and hands off to the scheduler. A failed
    /// step is fatal, exactly as on the boot hart.
    pub fn secondary_step(&mut self, h: usize, ok: bool, fault: &str)
        requires
            old(self).wf(),
            0 < h < old(self).harts@.len(),
            old(self).harts@[h as int] is BringingUp,
        ensures
            final(self).wf(),
            final(self).harts@.len() == old(self).harts@.len(),
            forall|i: int|
                0 <= i < old(self).harts@.len() && i != h as int
                    ==> final(self).harts@[i] == old(self).harts@[i],
            final(self).boot_flag == old(self).boot_flag,
            final(self).steps_done == old(self).steps_done,
            final(self).ewriter == old(self).ewriter,
            ok ==> {
                let k = old(self).harts@[h as int]->BringingUp_next;
                &&& final(self).pr.locking == old(self).pr.locking
                &&& final(self).pr.panicked == old(self).pr.panicked
                &&& (k + 1 == NUM_BRINGUP_STEPS ==> final(self).harts@[h as int]
                    == HartPhase::Ready && final(self).pr.writer.out@
                    == old(self).pr.writer.out@
                    + line_of(Channel::Success, bringup_name_view(k as int))
                    + line_of(Channel::HartStatus, "hart "@ + dec_of(h as int) + ": ok"@))
                &&& (k + 1 < NUM_BRINGUP_STEPS ==> final(self).harts@[h as int]
                    == (HartPhase::BringingUp { next: (k + 1) as usize })
                    && final(self).pr.writer.out@ == old(self).pr.writer.out@
                    + line_of(Channel::Success, bringup_name_view(k as int)))
            },
            !ok ==> {
                &&& final(self).harts@[h as int] == HartPhase::Halted
                &&& final(self).pr.writer.out@ == old(self).pr.writer.out@
                    + panic_output(h as int, fault@)
                &&& final(self).pr.locking == false
                &&& final(self).pr.panicked == true
            },
    {
        proof {
            assert(old(self).hart_ok(h as int));
        }
        if ok {
            let phase = self.harts[h];
            match phase {
                HartPhase::BringingUp { next } => {
                    self.pr.print_line(Channel::Success, bringup_name(next));
                    if next + 1 == NUM_BRINGUP_STEPS {
                        self.pr.hart_line(h, ": ok");
                        self.harts[h] = HartPhase::Ready;
                    } else {
                        self.harts[h] = HartPhase::BringingUp { next: next + 1 };
                    }
                },
                _ => {},
            }
            assert forall|k: int| 0 <= k < self.harts@.len() implies self.hart_ok(k) by {
                if k != h as int {
                    assert(old(self).hart_ok(k));
                }
            }
        } else {
            self.hart_panic(h, fault);
        }
    }

    /// The always-unlocked error/debug path: appends to its own writer and
    /// never touches the shared writer or its lock, so it can never block
    /// on the primary path.
    pub fn eprint(&mut self, text: &str)
        ensures
            final(self).ewriter.out@ == old(self).ewriter.out@ + text@,
            final(self).pr == old(self).pr,
            final(self).boot_flag == old(self).boot_flag,
            final(self).steps_done == old(self).steps_done,
            final(self).harts == old(self).harts,
    {
        self.ewriter.write_text(text);
    }
}

/// The success lines of the first `k` initialization steps, in order.
pub open spec fn ok_lines(k: int) -> Seq<char>
    decreases k,
{
    if k <= 0 {
        Seq::empty()
    } else {
        ok_lines(k - 1) + line_of(Channel::Success, step_name_view(step_at(k - 1)))
    }
}

/// Everything the boot hart prints, as a function of the fault point and
/// the fault text alone: the banner, then one success line per completed
/// step, then — if a step failed — the panic output for hart 0. Replaying
/// the same sequence of step completions replays these same characters.
pub open spec fn boot_transcript(fault_at: Option<usize>, fault: Seq<char>) -> Seq<char> {
    match fault_at {
        Option::None => System::boot_banner() + ok_lines(NUM_INIT_STEPS as int),
        Option::Some(k) => System::boot_banner() + ok_lines(k as int) + panic_output(0, fault),
    }
}

/// The whole transcript of one released secondary hart: its starting line,
/// its three bring-up success lines, and its ready line.
pub open spec fn secondary_transcript(h: int) -> Seq<char> {
    line_of(Channel::HartStatus, "hart "@ + dec_of(h) + " starting"@)
        + line_of(Channel::Success, bringup_name_view(0))
        + line_of(Channel::Success, bringup_name_view(1))
        + line_of(Channel::Success, bringup_name_view(2))
        + line_of(Channel::HartStatus, "hart "@ + dec_of(h) + ": ok"@)
}

impl System {
    /// The whole orchestrator path on the boot hart: from reset through the
    /// twelve steps to scheduler handoff, or up to an injected fault at step
    /// `fault_at` (counted from zero). A single-hart machine boots entirely
    /// through this path; the barrier-wait code is never involved.
    ///
    /// The characters appended to the console are exactly
    /// `boot_transcript(fault_at, fault)` — a function of the inputs alone,
    /// so two runs with the same completions print the same transcript,
    /// byte for byte.
    pub fn boot_hart_run(&mut self, fault_at: Option<usize>, fault: &str)
        requires
            old(self).wf(),
            old(self).harts@[0] is Reset,
            old(self).steps_done == 0,
            !old(self).boot_flag,
            old(self).pr.locking,
            fault_at matches Option::Some(k) ==> k < NUM_INIT_STEPS,
        ensures
            final(self).wf(),
            final(self).harts@.len() == old(self).harts@.len(),
            forall|i: int|
                1 <= i < old(self).harts@.len()
                    ==> final(self).harts@[i] == old(self).harts@[i],
            final(self).ewriter == old(self).ewriter,
            final(self).pr.writer.out@ == old(self).pr.writer.out@
                + boot_transcript(fault_at, fault@),
            fault_at is None ==> final(self).boot_flag
                && final(self).steps_done == NUM_INIT_STEPS
                && final(self).harts@[0] == HartPhase::Ready
                && final(self).pr.locking == old(self).pr.locking
                && final(self).pr.panicked == old(self).pr.panicked,
            fault_at matches Option::Some(k) ==> !final(self).boot_flag
                && final(self).steps_done == k && final(self).harts@[0] == HartPhase::Halted
                && !final(self).pr.locking && final(self).pr.panicked,
    {
        let ghost base = self.pr.writer.out@;
        self.start_hart(0);
        let stop: usize = match fault_at {
            Option::Some(k) => k,
            Option::None => NUM_INIT_STEPS,
        };
        let mut i: usize = 0;
        while i < stop
            invariant
                old(self).wf(),
                self.wf(),
                stop <= NUM_INIT_STEPS,
                i <= stop,
                self.steps_done == i,
                self.harts@.len() == old(self).harts@.len(),
                forall|j: int|
                    1 <= j < old(self).harts@.len()
                        ==> self.harts@[j] == old(self).harts@[j],
                self.ewriter == old(self).ewriter,
                i < NUM_INIT_STEPS ==> !self.boot_flag && self.harts@[0]
                    == (HartPhase::Orchestrating { next: i }),
                i == NUM_INIT_STEPS ==> self.boot_flag && self.harts@[0] == HartPhase::Ready,
                self.pr.writer.out@ == base + Self::boot_banner() + ok_lines(i as int),
                self.pr.locking == old(self).pr.locking,
                self.pr.panicked == old(self).pr.panicked,
            decreases stop - i,
        {
            self.boot_step(true, "");
            i = i + 1;
            assert(self.pr.writer.out@ =~= base + Self::boot_banner() + ok_lines(i as int));
        }
        match fault_at {
            Option::Some(_k) => {
                self.boot_step(false, fault);
                assert(self.pr.writer.out@ =~= base + boot_transcript(fault_at, fault@));
            },
            Option::None => {
                assert(self.pr.writer.out@ =~= base + boot_transcript(fault_at, fault@));
            },
        }
    }

    /// The whole secondary path on hart `h`, once one poll has released it:
    /// the three bring-up steps bracketed by its starting and ready lines.
    /// Returns whether the barrier released; a hart that read the flag as
    /// clear is left exactly as it was, to spin again.
    pub fn secondary_run(&mut self, h: usize) -> (released: bool)
        requires
            old(self).wf(),
            0 < h < old(self).harts@.len(),
            old(self).harts@[h as int] is WaitingForBoot,
        ensures
            final(self).wf(),
            released == old(self).boot_flag,
            released ==> old(self).steps_done == NUM_INIT_STEPS,
            final(self).harts@.len() == old(self).harts@.len(),
            forall|i: int|
                0 <= i < old(self).harts@.len() && i != h as int
                    ==> final(self).harts@[i] == old(self).harts@[i],
            final(self).boot_flag == old(self).boot_flag,
            final(self).steps_done == old(self).steps_done,
            final(self).pr.locking == old(self).pr.locking,
            final(self).pr.panicked == old(self).pr.panicked,
            final(self).ewriter == old(self).ewriter,
            released ==> final(self).harts@[h as int] == HartPhase::Ready
                && final(self).pr.writer.out@ == old(self).pr.writer.out@
                + secondary_transcript(h as int),
            !released ==> *final(self) == *old(self),
    {
        let released = self.secondary_poll(h);
        if released {
            self.secondary_step(h, true, "");
            self.secondary_step(h, true, "");
            self.secondary_step(h, true, "");
            assert(self.pr.writer.out@ =~= old(self).pr.writer.out@
                + secondary_transcript(h as int));
        }
        released
    }
}

/// Law: on every reachable state, the boot flag set means all twelve
/// initialization steps are recorded complete — no hart can observe
/// readiness before the machine earned it.
pub proof fn lemma_flag_implies_fully_initialized(sys: System)
    requires
        sys.wf(),
        sys.boot_flag,
    ensures
        sys.steps_done == NUM_INIT_STEPS,
{
}

/// Law: a hart past the spin barrier — bringing itself up, or already in
/// the scheduler — implies the whole initialization sequence completed
/// before its release.
pub proof fn lemma_past_barrier_implies_initialized(sys: System, h: int)
    requires
        sys.wf(),
        0 <= h < sys.harts@.len(),
        sys.harts@[h] is BringingUp || sys.harts@[h] is Ready,
    ensures
        sys.steps_done == NUM_INIT_STEPS,
{
    assert(sys.hart_ok(h));
}

} // verus!
