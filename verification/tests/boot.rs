use hartboot::boot::{HartPhase, System};
use hartboot::printf::{Channel, Pr};

fn ok_line(msg: &str) -> String {
    format!("[\x1b[32m  OK  \x1b[0m] {}\n", msg)
}

fn ht_line(msg: &str) -> String {
    format!("[\x1b[34m  HT  \x1b[0m] {}\n", msg)
}

fn banner() -> String {
    String::from("\noctox kernel is booting\n\n")
}

fn panic_text(hart: usize, fault: &str) -> String {
    format!("\x1b[31;1m===[\tPANIC\t]===\x1b[0m\ncore {}: {}\n", hart, fault)
}

const STEP_NAMES: [&str; 12] = [
    "console::init",
    "null::init",
    "kalloc::init",
    "vm::init",
    "vm::kinithart",
    "proc::init",
    "trap::inithart",
    "plic::init",
    "plic::inithart",
    "bio::init",
    "virtio_disk::init",
    "user_init",
];

fn full_boot_transcript() -> String {
    let mut expected = banner();
    for name in STEP_NAMES.iter() {
        expected.push_str(&ok_line(name));
    }
    expected
}

#[test]
fn single_hart_boots_to_handoff() {
    // A one-hart machine reaches scheduler handoff through the boot-hart
    // path alone; the barrier-wait code is never involved.
    let mut sys = System::new(1);
    sys.boot_hart_run(None, "");
    assert_eq!(sys.pr.writer.out, full_boot_transcript());
    assert!(sys.boot_flag);
    assert_eq!(sys.steps_done, 12);
    assert_eq!(sys.harts[0], HartPhase::Ready);
    assert!(sys.pr.locking);
    assert!(!sys.pr.panicked());
}

#[test]
fn fault_at_trap_vector_install() {
    // Fault injected at initialization step 7 (trap vector install): the
    // success lines for steps 1-6, a panic banner, one fault line naming
    // hart 0, and the hart halted for good.
    let mut sys = System::new(1);
    sys.boot_hart_run(Some(6), "trap vector install failed");
    let mut expected = banner();
    for name in STEP_NAMES.iter().take(6) {
        expected.push_str(&ok_line(name));
    }
    expected.push_str(&panic_text(0, "trap vector install failed"));
    assert_eq!(sys.pr.writer.out, expected);
    assert!(!sys.boot_flag);
    assert_eq!(sys.steps_done, 6);
    assert_eq!(sys.harts[0], HartPhase::Halted);
    assert!(!sys.pr.locking);
    assert!(sys.pr.panicked());
}

#[test]
fn boot_flag_never_observed_early() {
    // A spinning secondary hart polls before every single initialization
    // step completes: it is never released until all twelve are recorded.
    let mut sys = System::new(2);
    sys.start_hart(1);
    sys.start_hart(0);
    for _ in 0..12 {
        assert!(!sys.secondary_poll(1));
        sys.boot_step(true, "");
    }
    // one polling iteration after the flag is set, the hart is released
    assert!(sys.secondary_poll(1));
    assert_eq!(sys.harts[1], HartPhase::BringingUp { next: 0 });
}

#[test]
fn secondary_released_and_brings_up() {
    // The boot hart completes all steps and sets the flag; the spinning
    // secondary observes it within one polling iteration and runs its
    // three-step bring-up, bracketed by HT-tagged diagnostics.
    let mut sys = System::new(2);
    sys.start_hart(1);
    assert!(!sys.secondary_run(1));
    sys.boot_hart_run(None, "");
    let before = sys.pr.writer.out.clone();
    assert!(sys.secondary_run(1));
    let mut expected = before;
    expected.push_str(&ht_line("hart 1 starting"));
    expected.push_str(&ok_line("turn on paging"));
    expected.push_str(&ok_line("install kernel trap vector"));
    expected.push_str(&ok_line("ask PLIC for device interrupts"));
    expected.push_str(&ht_line("hart 1: ok"));
    assert_eq!(sys.pr.writer.out, expected);
    assert_eq!(sys.harts[1], HartPhase::Ready);
    assert_eq!(sys.harts[0], HartPhase::Ready);
}

#[test]
fn secondary_fault_halts_only_that_hart() {
    // A secondary hart faulting during bring-up halts itself; the boot
    // hart stays in the scheduler and the fault line names the right hart.
    let mut sys = System::new(3);
    sys.start_hart(1);
    sys.start_hart(2);
    sys.boot_hart_run(None, "");
    assert!(sys.secondary_poll(2));
    let before = sys.pr.writer.out.clone();
    sys.secondary_step(2, false, "paging refused");
    assert_eq!(sys.pr.writer.out, format!("{}{}", before, panic_text(2, "paging refused")));
    assert_eq!(sys.harts[2], HartPhase::Halted);
    assert_eq!(sys.harts[0], HartPhase::Ready);
    assert_eq!(sys.harts[1], HartPhase::WaitingForBoot);
    assert!(sys.pr.panicked());
}

#[test]
fn interleaved_secondaries_keep_lines_whole() {
    // Two secondaries bring themselves up under an interleaved schedule:
    // their diagnostic lines appear in schedule order, each line whole.
    let mut sys = System::new(3);
    sys.start_hart(1);
    sys.start_hart(2);
    sys.boot_hart_run(None, "");
    let mut expected = sys.pr.writer.out.clone();
    assert!(sys.secondary_poll(1));
    assert!(sys.secondary_poll(2));
    sys.secondary_step(1, true, "");
    sys.secondary_step(2, true, "");
    sys.secondary_step(2, true, "");
    sys.secondary_step(1, true, "");
    sys.secondary_step(1, true, "");
    sys.secondary_step(2, true, "");
    expected.push_str(&ht_line("hart 1 starting"));
    expected.push_str(&ht_line("hart 2 starting"));
    expected.push_str(&ok_line("turn on paging"));
    expected.push_str(&ok_line("turn on paging"));
    expected.push_str(&ok_line("install kernel trap vector"));
    expected.push_str(&ok_line("install kernel trap vector"));
    expected.push_str(&ok_line("ask PLIC for device interrupts"));
    expected.push_str(&ht_line("hart 1: ok"));
    expected.push_str(&ok_line("ask PLIC for device interrupts"));
    expected.push_str(&ht_line("hart 2: ok"));
    assert_eq!(sys.pr.writer.out, expected);
    assert_eq!(sys.harts[1], HartPhase::Ready);
    assert_eq!(sys.harts[2], HartPhase::Ready);
}

#[test]
fn replay_yields_identical_transcript() {
    // Replaying the same fixed sequence of step completions yields the
    // same diagnostic transcript, byte for byte.
    let run = || {
        let mut sys = System::new(2);
        sys.start_hart(1);
        sys.boot_hart_run(None, "");
        sys.secondary_run(1);
        sys.pr.writer.out
    };
    let first = run();
    let second = run();
    assert_eq!(first, second);
    let faulty = |text: &str| {
        let mut sys = System::new(1);
        sys.boot_hart_run(Some(9), text);
        sys.pr.writer.out
    };
    assert_eq!(faulty("buffer cache exhausted"), faulty("buffer cache exhausted"));
}

#[test]
fn prints_succeed_after_panic() {
    // Once the panic handler has run, print calls from any hart still get
    // through: the path is lock-free from that point on.
    let mut sys = System::new(2);
    sys.start_hart(1);
    sys.hart_panic(1, "unexpected interrupt");
    assert!(sys.pr.panicked());
    assert!(!sys.pr.locking);
    let before = sys.pr.writer.out.clone();
    sys.pr.print_line(Channel::Message, "still reporting");
    assert_eq!(
        sys.pr.writer.out,
        format!("{}[\x1b[35m  MG  \x1b[0m] still reporting\n", before)
    );
}

#[test]
fn eprint_bypasses_the_shared_writer() {
    // The error/debug path goes to its own writer and leaves the shared
    // console and its lock untouched.
    let mut sys = System::new(1);
    sys.eprint("last resort");
    assert_eq!(sys.ewriter.out, "last resort");
    assert_eq!(sys.pr.writer.out, "");
    assert!(sys.pr.locking);
}

#[test]
fn panicked_flag_starts_clear() {
    let pr = Pr::new();
    assert!(!pr.panicked());
    assert!(pr.locking);
    assert_eq!(pr.writer.out, "");
}
