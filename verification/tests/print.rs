use hartboot::decimal::push_dec;
use hartboot::printf::{Channel, Pr, Writer};
use hartboot::printsim::PrintSim;

fn chars_of(s: &str) -> Vec<char> {
    s.chars().collect()
}

#[test]
fn writer_accepts_characters_in_order() {
    let mut w = Writer::new();
    w.print('o');
    w.print('k');
    w.write_text(" done");
    assert_eq!(w.out, "ok done");
}

#[test]
fn channel_tags_are_exact() {
    let mut pr = Pr::new();
    pr.print_line(Channel::Plain, "bare");
    pr.print_line(Channel::Message, "general");
    pr.print_line(Channel::Success, "step done");
    pr.print_line(Channel::Error, "device missing");
    pr.print_line(Channel::HartStatus, "hart 4 starting");
    let expected = "bare\n\
        [\x1b[35m  MG  \x1b[0m] general\n\
        [\x1b[32m  OK  \x1b[0m] step done\n\
        [\x1b[31m  ER  \x1b[0m] device missing\n\
        [\x1b[34m  HT  \x1b[0m] hart 4 starting\n";
    assert_eq!(pr.writer.out, expected);
}

#[test]
fn raw_print_adds_nothing() {
    let mut pr = Pr::new();
    pr.print_text("no tag, ");
    pr.print_text("no terminator");
    assert_eq!(pr.writer.out, "no tag, no terminator");
}

#[test]
fn panic_output_format() {
    let mut pr = Pr::new();
    pr.print_line(Channel::Plain, "before");
    pr.on_panic(3, "stack guard hit");
    assert_eq!(
        pr.writer.out,
        "before\n\x1b[31;1m===[\tPANIC\t]===\x1b[0m\ncore 3: stack guard hit\n"
    );
    assert!(pr.panicked());
    assert!(!pr.locking);
}

#[test]
fn decimal_rendering() {
    let mut s = String::new();
    push_dec(&mut s, 0);
    assert_eq!(s, "0");
    let mut s = String::from("hart ");
    push_dec(&mut s, 7);
    assert_eq!(s, "hart 7");
    let mut s = String::new();
    push_dec(&mut s, 12345);
    assert_eq!(s, "12345");
    let mut s = String::new();
    push_dec(&mut s, 100);
    assert_eq!(s, "100");
}

#[test]
fn locked_round_keeps_lines_whole() {
    // Two harts race their lines character by character under an
    // adversarial round-robin schedule. The writer lock serializes them:
    // whoever gets the lock first finishes its whole line before the
    // other makes any progress, so the output is the two lines whole, in
    // completion order, with no interleaving.
    let mut sim = PrintSim::begin(Pr::new());
    let a = sim.submit(chars_of("aaa\n"));
    let b = sim.submit(chars_of("bb\n"));
    assert!(sim.step(b)); // b acquires the lock and writes 'b'
    assert!(!sim.step(a)); // a is blocked on the lock
    assert!(sim.step(b)); // 'b'
    assert!(!sim.step(a)); // still blocked
    assert!(sim.step(b)); // terminator: b's line done, lock released
    assert!(sim.step(a)); // a acquires and writes 'a'
    assert!(sim.step(a));
    assert!(sim.step(a));
    assert!(sim.step(a)); // terminator
    assert_eq!(sim.pr.writer.out, "bb\naaa\n");
}

#[test]
fn single_call_is_contiguous() {
    let mut sim = PrintSim::begin(Pr::new());
    let h = sim.submit(chars_of("[one line]\n"));
    for _ in 0.."[one line]\n".len() {
        assert!(sim.step(h));
    }
    assert_eq!(sim.pr.writer.out, "[one line]\n");
}

#[test]
fn whole_call_through_the_machine() {
    // Driving one call step by step to completion appends exactly its
    // line — the coarse picture of a locked print call.
    let mut sim = PrintSim::begin(Pr::new());
    let a = sim.submit(chars_of("first\n"));
    let b = sim.submit(chars_of("second\n"));
    sim.run_call(a);
    sim.run_call(b);
    assert_eq!(sim.pr.writer.out, "first\nsecond\n");
}

#[test]
fn degraded_mode_never_blocks() {
    // A panic strikes while one hart holds the writer lock mid-line.
    // Before it, the other hart was blocked; from the panic on, every
    // write attempt of every hart makes progress, at the price of
    // interleaved lines.
    let mut sim = PrintSim::begin(Pr::new());
    let a = sim.submit(chars_of("xx\n"));
    let b = sim.submit(chars_of("y\n"));
    assert!(sim.step(a)); // a takes the lock, writes 'x'
    assert!(!sim.step(b)); // b is blocked while the discipline holds
    sim.sim_panic(0, "oops");
    assert!(sim.step(b)); // b proceeds without the lock: 'y'
    assert!(sim.step(a)); // 'x'
    assert!(sim.step(b)); // b's terminator
    assert!(sim.step(a)); // a's terminator
    let expected = format!(
        "x\x1b[31;1m===[\tPANIC\t]===\x1b[0m\ncore 0: oops\nyx\n\n"
    );
    assert_eq!(sim.pr.writer.out, expected);
    assert!(sim.pr.panicked);
}
