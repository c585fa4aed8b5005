use blinky::bits::{pin_is_set, set_pin, toggle_pin};
use blinky::board::{configure, BlinkConfig, Chip, HandlerOutcome, InitError, Nvic, System};
use blinky::cell::SharedCell;
use blinky::critical::Cpu;
use blinky::gpio::GpioPort;
use blinky::timer::{TimerConfig, TimerError, TimerState, TimerUnit, CFG_16_BIT, MODE_PERIODIC};

fn running_system() -> System {
    let mut chip = Chip::new();
    let config = BlinkConfig::standard();
    let p = configure(&mut chip, &config).unwrap();
    let mut system = System::new(config);
    assert!(system.activate(p).is_ok());
    system
}

#[test]
fn toggle_pin_flips_one_bit() {
    assert_eq!(toggle_pin(0, 3), 8);
    assert_eq!(toggle_pin(8, 3), 0);
    assert_eq!(toggle_pin(0xFF, 2), 0xFB);
    assert_eq!(set_pin(0x10, 3), 0x18);
    assert_eq!(set_pin(0x18, 3), 0x18);
    assert!(pin_is_set(0x08, 3));
    assert!(!pin_is_set(0x08, 2));
}

#[test]
fn single_toggle_per_period() {
    let mut system = running_system();
    for n in 1..=6u32 {
        system.run_periods(1);
        let view = system.snapshot().unwrap();
        assert_eq!(view.gpio.data & 8 != 0, n % 2 == 1);
        assert_eq!(view.gpio.data & !8, 0);
    }
}

#[test]
fn even_and_odd_runs() {
    let mut system = running_system();
    system.run_periods(4);
    assert_eq!(system.snapshot().unwrap().gpio.data, 0);
    system.run_periods(5);
    assert_eq!(system.snapshot().unwrap().gpio.data, 8);
}

#[test]
fn handler_clears_pending_flag() {
    let mut system = running_system();
    assert_eq!(system.tick(), Some(HandlerOutcome::Toggled));
    let view = system.snapshot().unwrap();
    assert!(!view.timer.raw_timeout);
    assert!(!view.timer.masked_timeout());
    assert_eq!(system.on_timer_interrupt(), HandlerOutcome::Spurious);
    assert_eq!(system.snapshot().unwrap().gpio.data, 8);
}

#[test]
fn handler_with_empty_cell_does_nothing() {
    let mut system = System::new(BlinkConfig::standard());
    assert_eq!(system.on_timer_interrupt(), HandlerOutcome::Absent);
    assert!(system.snapshot().is_none());
    assert_eq!(system.nvic, Nvic { enabled: 0 });
    assert!(system.cpu.interrupts_enabled);
    assert_eq!(system.tick(), None);
}

#[test]
fn second_claim_is_refused() {
    let mut chip = Chip::new();
    let config = BlinkConfig::standard();
    assert!(configure(&mut chip, &config).is_ok());
    assert!(chip.claimed);
    assert_eq!(configure(&mut chip, &config).err(), Some(InitError::AlreadyClaimed));
    assert!(chip.take().is_none());
}

#[test]
fn second_publish_is_refused() {
    let mut chip = Chip::new();
    let config = BlinkConfig::standard();
    let p = configure(&mut chip, &config).unwrap();
    let mut system = System::new(config);
    assert!(system.activate(p).is_ok());
    let mut cpu = Cpu::new(true);
    let cs = cpu.acquire();
    assert!(!cpu.interrupts_enabled);
    let mut cell: SharedCell<u32> = SharedCell::new();
    assert_eq!(cell.publish(&cs, 1), Ok(()));
    assert_eq!(cell.publish(&cs, 2), Err(2));
    assert_eq!(cell.get_mut(&cs).map(|v| *v), Some(1));
    cpu.release(cs);
    assert!(cpu.interrupts_enabled);
}

#[test]
fn one_second_period() {
    let c = TimerConfig::one_hertz();
    assert_eq!(c.period_ticks(), 16_000_000);
    assert_eq!(c.exact_period_seconds(16_000_000), Some(1));
    assert_eq!(c.exact_period_seconds(8_000_000), Some(2));
    assert_eq!(c.exact_period_seconds(15_000_000), None);
    assert_eq!(c.exact_period_seconds(0), None);
    assert_eq!(c.prescale_register(), 249);
    assert_eq!(c.reload_register(), 63999);
}

#[test]
fn timer_config_bounds() {
    assert!(TimerConfig::new(256, 65536).is_some());
    assert!(TimerConfig::new(0, 100).is_none());
    assert!(TimerConfig::new(257, 100).is_none());
    assert!(TimerConfig::new(1, 65537).is_none());
    assert!(BlinkConfig::new(8, 21, TimerConfig::one_hertz()).is_none());
    assert!(BlinkConfig::new(2, 32, TimerConfig::one_hertz()).is_none());
    assert!(BlinkConfig::new(2, 21, TimerConfig::one_hertz()).is_some());
}

#[test]
fn unmask_before_publish_is_harmless() {
    let mut chip = Chip::new();
    let config = BlinkConfig::standard();
    let mut p = configure(&mut chip, &config).unwrap();
    let mut system = System::new(config);
    system.unmask_interrupt();
    assert_eq!(system.nvic.enabled, 1 << 21);
    p.expire_timer();
    assert!(p.timer().masked_timeout());
    assert_eq!(system.on_timer_interrupt(), HandlerOutcome::Absent);
    assert!(system.snapshot().is_none());
    assert!(system.activate(p).is_ok());
    assert_eq!(system.on_timer_interrupt(), HandlerOutcome::Toggled);
    assert_eq!(system.snapshot().unwrap().gpio.data, 8);
}

#[test]
fn configure_sets_registers() {
    let mut chip = Chip::new();
    let config = BlinkConfig::new(2, 21, TimerConfig::one_hertz()).unwrap();
    let p = configure(&mut chip, &config).unwrap();
    let g = p.gpio();
    assert!(g.clock_enabled);
    assert_eq!((g.dir, g.den, g.data), (4, 4, 0));
    let t = p.timer();
    assert!(t.clock_enabled && t.enabled && t.timeout_mask && !t.raw_timeout);
    assert_eq!((t.cfg, t.mode, t.prescale, t.interval), (CFG_16_BIT, MODE_PERIODIC, 249, 63999));
}

#[test]
fn timer_state_machine_order() {
    let c = TimerConfig::one_hertz();
    let mut t = TimerUnit::reset();
    assert_eq!(t.current_state(), TimerState::Unconfigured);
    assert_eq!(t.arm(c), Err(TimerError::NotPowered));
    t.power_up();
    assert_eq!(t.current_state(), TimerState::Disabled);
    t.raw_timeout = true;
    assert_eq!(t.arm(c), Ok(()));
    assert_eq!(t.current_state(), TimerState::Armed);
    assert!(!t.raw_timeout);
    assert_eq!(t.arm(c), Err(TimerError::Running));
    t.expire();
    assert!(t.masked_timeout());
    t.clear_timeout();
    assert!(!t.masked_timeout());
    let mut stopped = TimerUnit::reset();
    stopped.expire();
    assert!(!stopped.raw_timeout);
    assert_eq!(stopped.current_state(), TimerState::Unconfigured);
}

#[test]
fn gpio_toggle_keeps_other_pins() {
    let mut g = GpioPort::reset(0b1010_0000);
    g.power_up();
    g.set_direction_output(1);
    g.toggle(1);
    assert_eq!(g.data, 0b1010_0010);
    g.toggle(1);
    assert_eq!(g.data, 0b1010_0000);
    assert_eq!((g.dir, g.den), (2, 2));
}
