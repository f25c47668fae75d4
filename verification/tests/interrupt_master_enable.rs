use gameboy::cpu::interrupt_master_enable::InterruptMasterEnable;

#[test]
fn starts_enabled() {
    let mut ime = InterruptMasterEnable::new();
    assert!(ime.read());
    assert!(ime.read());
}

#[test]
fn ei_fires_at_the_second_read() {
    let mut ime = InterruptMasterEnable::new();
    ime.clear();
    assert!(!ime.read());
    ime.ei();
    assert!(!ime.read());
    assert!(ime.read());
    assert!(ime.read());
}

#[test]
fn di_fires_at_the_second_read() {
    let mut ime = InterruptMasterEnable::new();
    ime.di();
    assert!(ime.read());
    assert!(!ime.read());
    assert!(!ime.read());
}

#[test]
fn reti_fires_at_the_first_read() {
    let mut ime = InterruptMasterEnable::new();
    ime.clear();
    ime.reti();
    assert!(ime.read());
}

#[test]
fn a_disable_wins_over_an_enable_that_fires_with_it() {
    let mut ime = InterruptMasterEnable::new();
    ime.ei();
    ime.di();
    assert!(ime.read());
    assert!(!ime.read());
    assert_eq!(ime, InterruptMasterEnable { value: false, enable_counter: 0, disable_counter: 0 });
}

#[test]
fn clear_switches_off_at_once() {
    let mut ime = InterruptMasterEnable::new();
    ime.clear();
    assert!(!ime.value);
    assert!(!ime.read());
}
