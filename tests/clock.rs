use kosmetic_zx::clock::{Clock, ClockMessage, CPU_DIVISOR, ULA_DIVISOR};

fn count(clock: &mut Clock, n: u32) -> (u32, u32, Vec<u64>) {
    let mut cpu = 0;
    let mut ula = 0;
    let mut at = Vec::new();
    for _ in 0..n {
        let f = clock.tick();
        if f.cpu {
            cpu += 1;
            at.push(clock.ticks);
        }
        if f.ula {
            ula += 1;
        }
    }
    (cpu, ula, at)
}

#[test]
fn two_hundred_ticks_give_one_hundred_cpu_ticks() {
    let mut clock = Clock::new(CPU_DIVISOR, ULA_DIVISOR);
    let (cpu, ula, _) = count(&mut clock, 200);
    assert_eq!(cpu, 100);
    assert_eq!(ula, 200);
    assert_eq!(clock.ticks, 200);
}

#[test]
fn rate_division_is_floor_and_in_order() {
    let mut clock = Clock::new(3, 5);
    let (cpu, ula, at) = count(&mut clock, 10);
    assert_eq!(cpu, 3);
    assert_eq!(ula, 2);
    assert_eq!(at, vec![3, 6, 9]);
}

#[test]
fn first_tick_reaches_only_divisor_one() {
    let mut clock = Clock::new(2, 1);
    let f = clock.tick();
    assert!(!f.cpu);
    assert!(f.ula);
    let f = clock.tick();
    assert!(f.cpu);
    assert!(ClockMessage::Tick != ClockMessage::Stop);
}
