use ferros::layout::Layout;
use ferros::machine::{Machine, Phase, Site};
use ferros::start::start;

fn machine(mpidr: u64) -> Machine {
    let layout = Layout {
        ram_base: 0x8_0000,
        ram_len: 128,
        bss_start: 0x8_0020,
        bss_end: 0x8_0060,
        stack_size: 0,
    };
    Machine::reset(layout, mpidr, 0x1234_5678, vec![0xFF; 128]).unwrap()
}

fn snapshot(cpu: &Machine) -> (u64, Vec<Option<u8>>) {
    (cpu.stack_pointer(), (0x8_0000u64..0x8_0080).map(|a| cpu.read_byte(a)).collect())
}

fn assert_idles_for_ever(cpu: &mut Machine) {
    let before = snapshot(cpu);
    assert_eq!(cpu.site(), Site::FaultWait);
    assert_eq!(cpu.phase(), Phase::Faulted);
    let trace = cpu.run(101);
    for (i, site) in trace.iter().enumerate() {
        let want = if i % 2 == 0 { Site::FaultLoop } else { Site::FaultWait };
        assert_eq!(*site, want, "step {}", i + 1);
    }
    assert_eq!(cpu.phase(), Phase::Faulted);
    assert_eq!(snapshot(cpu), before);
}

#[test]
fn fault_without_payload_idles_for_ever() {
    let mut cpu = machine(0);
    let before = snapshot(&cpu);
    cpu.raise_fault(None);
    assert_eq!(snapshot(&cpu), before);
    assert_idles_for_ever(&mut cpu);
}

#[test]
fn fault_with_payload_idles_for_ever() {
    let mut cpu = machine(0);
    cpu.raise_fault(Some(b"index out of bounds"));
    assert_idles_for_ever(&mut cpu);
    let mut cpu = machine(0);
    cpu.raise_fault(Some(&[]));
    assert_idles_for_ever(&mut cpu);
}

#[test]
fn fault_before_stack_and_region_are_ready() {
    for steps in 0u64..12 {
        let mut cpu = machine(0);
        cpu.run(steps);
        let before = snapshot(&cpu);
        cpu.raise_fault(Some(b"early"));
        assert_eq!(snapshot(&cpu), before);
        assert_idles_for_ever(&mut cpu);
    }
}

#[test]
fn fault_after_hand_off() {
    let mut cpu = machine(0);
    start(&mut cpu);
    cpu.raise_fault(Some(b"kernel"));
    assert_idles_for_ever(&mut cpu);
    assert_eq!(cpu.read_byte(0x8_0020), Some(0));
    assert_eq!(cpu.read_byte(0x8_001F), Some(0xFF));
}

#[test]
fn fault_on_a_parked_core() {
    let mut cpu = machine(3);
    start(&mut cpu);
    cpu.raise_fault(None);
    assert_idles_for_ever(&mut cpu);
}

#[test]
fn fault_in_the_sink_starts_the_sink_again() {
    let mut cpu = machine(0);
    cpu.raise_fault(None);
    cpu.step();
    assert_eq!(cpu.site(), Site::FaultLoop);
    cpu.raise_fault(Some(b"again"));
    assert_idles_for_ever(&mut cpu);
}
