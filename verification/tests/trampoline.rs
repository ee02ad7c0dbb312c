use ferros::layout::{Layout, STACK_TOP};
use ferros::machine::{Machine, Outcome, Phase, Site};
use ferros::start::start;

const RAM_BASE: u64 = 0x1FFE_E000;
const RAM_LEN: u64 = 0x2000;
const BSS_START: u64 = 0x1FFE_E100;
const PAGE: u64 = 4096;
const RESET_SP: u64 = 0xDEAD_BEE0;

fn layout_with_bss(len: u64) -> Layout {
    Layout {
        ram_base: RAM_BASE,
        ram_len: RAM_LEN,
        bss_start: BSS_START,
        bss_end: BSS_START + len,
        stack_size: PAGE,
    }
}

fn machine(mpidr: u64, bss_len: u64) -> Machine {
    Machine::reset(layout_with_bss(bss_len), mpidr, RESET_SP, vec![0xFF; RAM_LEN as usize]).unwrap()
}

fn assert_ram(cpu: &Machine, zero_from: u64, zero_to: u64) {
    for addr in RAM_BASE..RAM_BASE + RAM_LEN {
        let want = if zero_from <= addr && addr < zero_to { 0x00 } else { 0xFF };
        assert_eq!(cpu.read_byte(addr), Some(want), "address {:#x}", addr);
    }
}

#[test]
fn primary_core_boots_end_to_end() {
    let mut cpu = machine(0, 64);
    assert_eq!(start(&mut cpu), Outcome::HandedOff);
    assert_eq!(cpu.stack_pointer(), STACK_TOP);
    assert_eq!(cpu.stack_pointer(), 0x1FFF_0000);
    assert_eq!(cpu.site(), Site::KernelEntry);
    assert_eq!(cpu.phase(), Phase::HandedOff);
    assert_eq!(cpu.stores(), 8);
    for addr in BSS_START..BSS_START + 64 {
        assert_eq!(cpu.read_byte(addr), Some(0));
    }
    assert_eq!(cpu.read_byte(BSS_START - 8), Some(0xFF));
    assert_eq!(cpu.read_byte(BSS_START - 1), Some(0xFF));
    assert_eq!(cpu.read_byte(BSS_START + 64), Some(0xFF));
    assert_ram(&cpu, BSS_START, BSS_START + 64);
}

#[test]
fn secondary_core_is_kept_out_end_to_end() {
    let mut cpu = machine(1, 64);
    assert_eq!(start(&mut cpu), Outcome::Parked);
    assert_eq!(cpu.stack_pointer(), RESET_SP);
    assert_eq!(cpu.site(), Site::ParkWait);
    assert_eq!(cpu.phase(), Phase::Parked);
    assert_eq!(cpu.stores(), 0);
    assert_ram(&cpu, 0, 0);
    let trace = cpu.run(1000);
    assert!(trace.iter().all(|s| *s == Site::ParkWait || *s == Site::ParkLoop));
    assert_eq!(cpu.stack_pointer(), RESET_SP);
    assert_ram(&cpu, 0, 0);
}

#[test]
fn every_secondary_core_oscillates_in_the_parking_loop() {
    for mpidr in [1u64, 2, 3, 0x8000_0001, 0xFF02, u64::MAX] {
        let mut cpu = machine(mpidr, 64);
        let trace = cpu.run(51);
        assert_eq!(
            &trace[..4],
            &[Site::MaskCoreId, Site::CompareCoreId, Site::SelectCore, Site::ParkWait]
        );
        for (i, site) in trace.iter().enumerate().skip(3) {
            let want = if (i - 3) % 2 == 0 { Site::ParkWait } else { Site::ParkLoop };
            assert_eq!(*site, want, "mpidr {:#x}, step {}", mpidr, i + 1);
        }
        assert_eq!(cpu.stack_pointer(), RESET_SP);
        assert_ram(&cpu, 0, 0);
    }
}

#[test]
fn only_the_masked_bits_select_the_core() {
    for mpidr in [0u64, 4, 0x8000_0000, 0xFFFF_FFFF_FFFF_FFFC] {
        let mut cpu = machine(mpidr, 8);
        assert_eq!(start(&mut cpu), Outcome::HandedOff);
        assert_eq!(cpu.mpidr(), mpidr);
    }
}

#[test]
fn primary_core_trace_for_one_word() {
    let mut cpu = machine(0, 8);
    let trace = cpu.run(16);
    assert_eq!(
        trace,
        vec![
            Site::MaskCoreId,
            Site::CompareCoreId,
            Site::SelectCore,
            Site::SetStack,
            Site::LoadBssStart,
            Site::LoadBssEnd,
            Site::CompareBounds,
            Site::ExitIfDone,
            Site::StoreZero,
            Site::LoopBack,
            Site::CompareBounds,
            Site::ExitIfDone,
            Site::HandOff,
            Site::KernelEntry,
            Site::KernelEntry,
            Site::KernelEntry,
        ]
    );
    assert_ram(&cpu, BSS_START, BSS_START + 8);
}

#[test]
fn primary_core_never_enters_the_parking_loop() {
    let mut cpu = machine(0, 64);
    let trace = cpu.run(200);
    assert!(trace.iter().all(|s| *s != Site::ParkWait && *s != Site::ParkLoop));
    assert!(trace.iter().all(|s| *s != Site::FaultWait && *s != Site::FaultLoop));
}

#[test]
fn hand_off_takes_ten_steps_and_four_for_each_word() {
    for words in [0u64, 1, 2, 8, 31] {
        let mut cpu = machine(0, 8 * words);
        let steps = 10 + 4 * words;
        let trace = cpu.run(steps);
        assert_eq!(trace.len() as u64, steps);
        assert_eq!(trace[trace.len() - 1], Site::KernelEntry);
        assert_eq!(trace[trace.len() - 2], Site::HandOff);
        assert!(trace[..trace.len() - 1].iter().all(|s| *s != Site::KernelEntry));
        assert_eq!(cpu.stack_pointer(), STACK_TOP);
        assert_eq!(cpu.stores(), words);
        assert_eq!(trace.iter().filter(|s| **s == Site::LoopBack).count() as u64, words);
        assert_ram(&cpu, BSS_START, BSS_START + 8 * words);
    }
}

#[test]
fn start_ends_where_the_step_count_says() {
    let mut by_start = machine(0, 24);
    let mut by_steps = machine(0, 24);
    start(&mut by_start);
    by_steps.run(10 + 4 * 3);
    assert_eq!(by_start.site(), by_steps.site());
    assert_eq!(by_start.stack_pointer(), by_steps.stack_pointer());
    for addr in RAM_BASE..RAM_BASE + RAM_LEN {
        assert_eq!(by_start.read_byte(addr), by_steps.read_byte(addr));
    }
}

#[test]
fn empty_region_means_no_store() {
    let mut cpu = machine(0, 0);
    let trace = cpu.run(10);
    assert!(trace.iter().all(|s| *s != Site::StoreZero));
    assert_eq!(cpu.stores(), 0);
    assert_eq!(trace[9], Site::KernelEntry);
    assert_ram(&cpu, 0, 0);
    assert_eq!(cpu.stack_pointer(), STACK_TOP);
}

#[test]
fn stack_pointer_is_set_by_the_fifth_instruction() {
    let mut cpu = machine(0, 16);
    cpu.run(4);
    assert_eq!(cpu.site(), Site::SetStack);
    assert_eq!(cpu.stack_pointer(), RESET_SP);
    cpu.step();
    assert_eq!(cpu.site(), Site::LoadBssStart);
    assert_eq!(cpu.stack_pointer(), 0x1FFF_0000);
}

#[test]
fn one_store_clears_one_word_and_no_more() {
    let mut cpu = machine(0, 16);
    cpu.run(9);
    assert_eq!(cpu.site(), Site::StoreZero);
    assert_ram(&cpu, 0, 0);
    cpu.step();
    assert_eq!(cpu.site(), Site::LoopBack);
    assert_ram(&cpu, BSS_START, BSS_START + 8);
    cpu.run(3);
    assert_eq!(cpu.site(), Site::StoreZero);
    assert_ram(&cpu, BSS_START, BSS_START + 8);
    cpu.step();
    assert_ram(&cpu, BSS_START, BSS_START + 16);
}

#[test]
fn phases_come_in_order() {
    let mut cpu = machine(0, 8);
    let mut seen = vec![cpu.phase()];
    for _ in 0..20 {
        cpu.step();
        if *seen.last().unwrap() != cpu.phase() {
            seen.push(cpu.phase());
        }
    }
    assert_eq!(
        seen,
        vec![
            Phase::Reset,
            Phase::Identified,
            Phase::StackReady,
            Phase::BssCleared,
            Phase::HandedOff
        ]
    );
    let mut other = machine(2, 8);
    let mut seen = vec![other.phase()];
    for _ in 0..20 {
        other.step();
        if *seen.last().unwrap() != other.phase() {
            seen.push(other.phase());
        }
    }
    assert_eq!(seen, vec![Phase::Reset, Phase::Identified, Phase::Parked]);
}

#[test]
fn kernel_entry_is_final() {
    let mut cpu = machine(0, 8);
    start(&mut cpu);
    let trace = cpu.run(25);
    assert!(trace.iter().all(|s| *s == Site::KernelEntry));
    assert_eq!(cpu.stack_pointer(), STACK_TOP);
    assert_ram(&cpu, BSS_START, BSS_START + 8);
}

#[test]
fn region_at_the_edges_of_memory() {
    let layout = Layout { ram_base: 0x4000, ram_len: 32, bss_start: 0x4000, bss_end: 0x4020, stack_size: 0 };
    let mut cpu = Machine::reset(layout, 0, 0, vec![0xAB; 32]).unwrap();
    assert_eq!(cpu.layout(), layout);
    assert_eq!(start(&mut cpu), Outcome::HandedOff);
    for addr in 0x4000u64..0x4020 {
        assert_eq!(cpu.read_byte(addr), Some(0));
    }
    assert_eq!(cpu.read_byte(0x3FFF), None);
    assert_eq!(cpu.read_byte(0x4020), None);
    assert_eq!(cpu.read_byte(0), None);
    assert_eq!(cpu.read_byte(u64::MAX), None);
}

#[test]
fn run_of_no_steps_changes_nothing() {
    let mut cpu = machine(0, 8);
    let trace = cpu.run(0);
    assert!(trace.is_empty());
    assert_eq!(cpu.site(), Site::ReadCoreId);
    assert_eq!(cpu.phase(), Phase::Reset);
    assert_eq!(cpu.stack_pointer(), RESET_SP);
}
