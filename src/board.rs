//! The blinker: claiming the peripherals, the two-phase start-up
//! (`configure`, then `activate`), and the timer interrupt handler.
use vstd::prelude::*;
use crate::bits::{bit_set, lemma_toggle_twice, pin_is_set, pin_mask, same_except, set_pin, REGISTER_BITS};
use crate::cell::SharedCell;
use crate::critical::Cpu;
use crate::gpio::{GpioPort, PORT_PINS};
use crate::timer::{TimerConfig, TimerUnit};

verus! {

/// Interrupt-source index of the timer at the interrupt controller.
pub const TIMER_IRQ: u32 = 21;

/// Output pin that the LED hangs on.
pub const LED_PIN: u32 = 3;

/// Where the LED is and how often it toggles.
#[derive(Clone, Copy, Debug, PartialEq, Eq, Structural)]
pub struct BlinkConfig {
    pub pin: u32,
    pub irq: u32,
    pub timer: TimerConfig,
}

impl BlinkConfig {
    pub open spec fn wf(self) -> bool {
        self.pin < PORT_PINS && self.irq < REGISTER_BITS && self.timer.wf()
    }

    /// A configuration; `None` where the pin, the interrupt index or the
    /// timer values are out of range.
    pub fn new(pin: u32, irq: u32, timer: TimerConfig) -> (r: Option<BlinkConfig>)
        ensures
            r is Some <==> (pin < PORT_PINS && irq < REGISTER_BITS && timer.wf()),
            r matches Some(c) ==> c.pin == pin && c.irq == irq && c.timer == timer && c.wf(),
    {
        if pin < PORT_PINS && irq < REGISTER_BITS && 1 <= timer.prescale && timer.prescale
            <= crate::timer::MAX_PRESCALE && 1 <= timer.reload && timer.reload
            <= crate::timer::MAX_RELOAD {
            Some(BlinkConfig { pin, irq, timer })
        } else {
            None
        }
    }

    /// The LED pin, the timer's interrupt index and one toggle per second.
    pub fn standard() -> (r: BlinkConfig)
        ensures
            r.pin == LED_PIN,
            r.irq == TIMER_IRQ,
            r.timer == (TimerConfig { prescale: 250, reload: 64000 }),
            r.wf(),
    {
        BlinkConfig { pin: LED_PIN, irq: TIMER_IRQ, timer: TimerConfig::one_hertz() }
    }
}

/// The interrupt controller's enable-set register.
#[derive(Clone, Copy, Debug, PartialEq, Eq, Structural)]
pub struct Nvic {
    pub enabled: u32,
}

impl Nvic {
    /// Every source masked.
    pub fn reset() -> (r: Nvic)
        ensures
            r.enabled == 0,
    {
        Nvic { enabled: 0 }
    }

    /// Unmasks source `irq`; the other sources keep their state.
    pub fn unmask(&mut self, irq: u32)
        requires
            irq < REGISTER_BITS,
        ensures
            final(self).enabled == old(self).enabled | pin_mask(irq),
            bit_set(final(self).enabled, irq),
    {
        self.enabled = set_pin(self.enabled, irq);
    }

    /// Whether source `irq` is unmasked.
    pub fn is_unmasked(&self, irq: u32) -> (r: bool)
        requires
            irq < REGISTER_BITS,
        ensures
            r == bit_set(self.enabled, irq),
    {
        pin_is_set(self.enabled, irq)
    }
}

/// Exclusive access to the GPIO port and the timer. Only [`Chip::take`]
/// makes one, and only once per chip.
#[derive(Debug)]
pub struct Peripherals {
    gpio: GpioPort,
    timer: TimerUnit,
}

/// The register contents behind a [`Peripherals`] handle.
#[derive(Clone, Copy, Debug, PartialEq, Eq, Structural)]
pub struct PeripheralsView {
    pub gpio: GpioPort,
    pub timer: TimerUnit,
}

impl View for Peripherals {
    type V = PeripheralsView;

    closed spec fn view(&self) -> PeripheralsView {
        PeripheralsView { gpio: self.gpio, timer: self.timer }
    }
}

impl Peripherals {
    /// The GPIO port's registers.
    pub fn gpio(&self) -> (r: GpioPort)
        ensures
            r == self@.gpio,
    {
        self.gpio
    }

    /// The timer's registers.
    pub fn timer(&self) -> (r: TimerUnit)
        ensures
            r == self@.timer,
    {
        self.timer
    }

    /// The hardware counter reaches zero (see [`TimerUnit::expire`]).
    pub fn expire_timer(&mut self)
        ensures
            final(self)@ == (PeripheralsView { timer: expired(old(self)@.timer), ..old(self)@ }),
    {
        self.timer.expire();
    }
}

/// The timer after its counter reaches zero.
pub open spec fn expired(t: TimerUnit) -> TimerUnit {
    TimerUnit { raw_timeout: t.raw_timeout || t.enabled, ..t }
}

/// The chip: it hands its peripherals out once.
#[derive(Debug, PartialEq, Eq, Structural)]
pub struct Chip {
    pub claimed: bool,
}

/// What a claim on `c` gives: whether it succeeds, and the chip afterwards.
pub open spec fn claim_outcome(c: Chip) -> (bool, Chip) {
    (!c.claimed, Chip { claimed: true })
}

impl Chip {
    /// A chip out of reset, its peripherals not yet claimed.
    pub fn new() -> (r: Chip)
        ensures
            !r.claimed,
    {
        Chip { claimed: false }
    }

    /// The peripherals, with their registers at reset, the first time;
    /// `None` afterwards.
    pub fn take(&mut self) -> (r: Option<Peripherals>)
        ensures
            (r is Some, *final(self)) == claim_outcome(*old(self)),
            r matches Some(p) ==> p@.gpio == (GpioPort { clock_enabled: false, dir: 0, den: 0, data: 0 })
                && p@.timer == TimerUnit::at_reset(),
    {
        if self.claimed {
            return None;
        }
        self.claimed = true;
        Some(Peripherals { gpio: GpioPort::reset(0), timer: TimerUnit::reset() })
    }
}

/// A claim on a chip whose peripherals were already handed out fails.
pub proof fn law_claim_once(c: Chip)
    ensures
        claim_outcome(c).1.claimed,
        !claim_outcome(claim_outcome(c).1).0,
{
}

/// Why start-up could not proceed.
#[derive(Clone, Copy, Debug, PartialEq, Eq, Structural)]
pub enum InitError {
    /// The peripherals were claimed before.
    AlreadyClaimed,
}

/// The registers after start-up has run up to, not including, sharing the
/// handle: the pin is an output, low, and the only one configured; the timer
/// runs as `c` says, with no stale flag.
pub open spec fn configured(v: PeripheralsView, c: BlinkConfig) -> bool {
    &&& v.gpio.clock_enabled
    &&& v.gpio.dir == pin_mask(c.pin)
    &&& v.gpio.den == pin_mask(c.pin)
    &&& v.gpio.data == 0
    &&& v.gpio.is_output(c.pin)
    &&& v.timer.armed_with(c.timer)
    &&& !v.timer.raw_timeout
}

/// The first phase of start-up: claims the peripherals, powers the GPIO
/// port and makes the pin an output, then powers the timer, stops it,
/// configures it and arms it. The interrupt controller is left alone.
pub fn configure(chip: &mut Chip, config: &BlinkConfig) -> (r: Result<Peripherals, InitError>)
    requires
        config.wf(),
    ensures
        (r is Ok, *final(chip)) == claim_outcome(*old(chip)),
        r is Err ==> r == Err::<Peripherals, InitError>(InitError::AlreadyClaimed),
        r matches Ok(p) ==> configured(p@, *config),
{
    let mut p = match chip.take() {
        Some(p) => p,
        None => {
            return Err(InitError::AlreadyClaimed);
        },
    };
    p.gpio.power_up();
    p.gpio.set_direction_output(config.pin);
    let pin = config.pin;
    assert(0u32 | (1u32 << pin) == 1u32 << pin) by (bit_vector);
    p.timer.power_up();
    let armed = p.timer.arm(config.timer);
    assert(armed is Ok);
    Ok(p)
}

/// What the interrupt handler did.
#[derive(Clone, Copy, Debug, PartialEq, Eq, Structural)]
pub enum HandlerOutcome {
    /// The cell was empty: nothing was read or written.
    Absent,
    /// The time-out was not pending: nothing was written.
    Spurious,
    /// The pin was toggled and the time-out flag cleared.
    Toggled,
}

/// The registers after the handler has run on `v`.
pub open spec fn serviced(v: PeripheralsView, pin: u32) -> PeripheralsView {
    if v.timer.masked() {
        PeripheralsView {
            gpio: GpioPort { data: v.gpio.data ^ pin_mask(pin), ..v.gpio },
            timer: TimerUnit { raw_timeout: false, ..v.timer },
        }
    } else {
        v
    }
}

/// After the handler, the time-out interrupt is no longer pending, so it
/// does not fire again until the next expiry.
pub proof fn law_no_refire(v: PeripheralsView, pin: u32)
    ensures
        !serviced(v, pin).timer.masked(),
        v.timer.masked() ==> !serviced(v, pin).timer.raw_timeout,
{
}

/// The foreground and the interrupt context, and what they share.
#[derive(Debug)]
pub struct System {
    pub cpu: Cpu,
    pub cell: SharedCell<Peripherals>,
    pub nvic: Nvic,
    pub config: BlinkConfig,
}

impl System {
    pub open spec fn wf(&self) -> bool {
        self.config.wf()
    }

    /// Interrupts on, every source masked, the cell empty.
    pub fn new(config: BlinkConfig) -> (r: System)
        requires
            config.wf(),
        ensures
            r.wf(),
            r.config == config,
            r.cpu.interrupts_enabled,
            r.nvic.enabled == 0,
            r.cell@ is None,
    {
        System { cpu: Cpu::new(true), cell: SharedCell::new(), nvic: Nvic::reset(), config }
    }

    /// Unmasks the timer's source at the interrupt controller.
    pub fn unmask_interrupt(&mut self)
        requires
            old(self).wf(),
        ensures
            final(self).nvic.enabled == old(self).nvic.enabled | pin_mask(old(self).config.irq),
            bit_set(final(self).nvic.enabled, old(self).config.irq),
            final(self).cell@ == old(self).cell@,
            final(self).cpu == old(self).cpu,
            final(self).config == old(self).config,
    {
        self.nvic.unmask(self.config.irq);
    }

    /// The second phase of start-up: publishes `p` into the cell under the
    /// critical section, and only then unmasks the timer's source. Where the
    /// cell is occupied already, nothing changes and `p` is handed back.
    pub fn activate(&mut self, p: Peripherals) -> (r: Result<(), Peripherals>)
        requires
            old(self).wf(),
        ensures
            r is Ok <==> old(self).cell@ is None,
            r is Ok ==> final(self).cell@ == Some(p) && final(self).nvic.enabled
                == old(self).nvic.enabled | pin_mask(old(self).config.irq) && bit_set(
                final(self).nvic.enabled,
                old(self).config.irq,
            ),
            r is Err ==> r == Err::<(), Peripherals>(p) && final(self).cell@ == old(self).cell@
                && final(self).nvic == old(self).nvic,
            final(self).cpu == old(self).cpu,
            final(self).config == old(self).config,
    {
        let cs = self.cpu.acquire();
        let published = self.cell.publish(&cs, p);
        self.cpu.release(cs);
        match published {
            Ok(()) => {
                self.unmask_interrupt();
                Ok(())
            },
            Err(p) => Err(p),
        }
    }

    /// The timer interrupt handler. Under the critical section: where the
    /// cell holds the peripherals and the masked time-out status is set,
    /// toggles the pin and clears the time-out flag; otherwise writes nothing.
    pub fn on_timer_interrupt(&mut self) -> (r: HandlerOutcome)
        requires
            old(self).wf(),
        ensures
            final(self).cpu == old(self).cpu,
            final(self).nvic == old(self).nvic,
            final(self).config == old(self).config,
            old(self).cell@ is None ==> r == HandlerOutcome::Absent && final(self).cell@ is None,
            old(self).cell@ matches Some(p) ==> final(self).cell@ matches Some(q) && q@ == serviced(
                p@,
                old(self).config.pin,
            ),
            old(self).cell@ matches Some(p) ==> r == (if p@.timer.masked() {
                HandlerOutcome::Toggled
            } else {
                HandlerOutcome::Spurious
            }),
            r == HandlerOutcome::Toggled ==> (final(self).cell@ matches Some(q) && !q@.timer.raw_timeout),
    {
        let pin = self.config.pin;
        let cs = self.cpu.acquire();
        let outcome = match self.cell.get_mut(&cs) {
            None => HandlerOutcome::Absent,
            Some(p) => {
                if p.timer.masked_timeout() {
                    p.gpio.toggle(pin);
                    p.timer.clear_timeout();
                    HandlerOutcome::Toggled
                } else {
                    HandlerOutcome::Spurious
                }
            },
        };
        self.cpu.release(cs);
        outcome
    }

    /// The registers behind the handle, where the cell holds one.
    pub fn snapshot(&mut self) -> (r: Option<PeripheralsView>)
        ensures
            r == (match old(self).cell@ {
                Some(p) => Some(p@),
                None => None::<PeripheralsView>,
            }),
            final(self).cell@ == old(self).cell@,
            final(self).cpu == old(self).cpu,
            final(self).nvic == old(self).nvic,
            final(self).config == old(self).config,
    {
        let cs = self.cpu.acquire();
        let r = match self.cell.get_mut(&cs) {
            Some(p) => Some(PeripheralsView { gpio: p.gpio, timer: p.timer }),
            None => None,
        };
        self.cpu.release(cs);
        r
    }

    /// One timer period on the hardware: the published timer's counter
    /// reaches zero, and where interrupts are on, the source is unmasked at
    /// the controller and the time-out is pending, the handler runs.
    /// `None` where the handler did not run.
    pub fn tick(&mut self) -> (r: Option<HandlerOutcome>)
        requires
            old(self).wf(),
        ensures
            final(self).cpu == old(self).cpu,
            final(self).nvic == old(self).nvic,
            final(self).config == old(self).config,
            old(self).cell@ is None ==> r is None && final(self).cell@ is None,
            old(self).cell@ matches Some(p) ==> final(self).cell@ matches Some(q) && ({
                let e = PeripheralsView { timer: expired(p@.timer), ..p@ };
                if old(self).cpu.interrupts_enabled && bit_set(old(self).nvic.enabled, old(self).config.irq)
                    && e.timer.masked() {
                    q@ == serviced(e, old(self).config.pin) && r == Some(HandlerOutcome::Toggled)
                } else {
                    q@ == e && r is None
                }
            }),
    {
        let cs = self.cpu.acquire();
        let pending = match self.cell.get_mut(&cs) {
            Some(p) => {
                p.expire_timer();
                p.timer.masked_timeout()
            },
            None => false,
        };
        self.cpu.release(cs);
        if pending && self.cpu.interrupts_enabled && self.nvic.is_unmasked(self.config.irq) {
            Some(self.on_timer_interrupt())
        } else {
            None
        }
    }

    /// The handle is published, the timer runs with its time-out unmasked
    /// and not pending, and the source is unmasked at the controller.
    pub open spec fn running(&self) -> bool {
        &&& self.cpu.interrupts_enabled
        &&& bit_set(self.nvic.enabled, self.config.irq)
        &&& self.cell@ matches Some(p) && p@.timer.enabled && p@.timer.timeout_mask
            && !p@.timer.raw_timeout
    }

    /// Runs `n` timer periods: each toggles the pin once, and the timer
    /// comes back to where it was.
    pub fn run_periods(&mut self, n: u32)
        requires
            old(self).wf(),
            old(self).running(),
        ensures
            final(self).running(),
            final(self).cpu == old(self).cpu,
            final(self).nvic == old(self).nvic,
            final(self).config == old(self).config,
            final(self).cell@ matches Some(q) && q@ == (PeripheralsView {
                gpio: GpioPort {
                    data: toggled_times(old(self).cell@->Some_0@.gpio.data, old(self).config.pin, n as nat),
                    ..old(self).cell@->Some_0@.gpio
                },
                ..old(self).cell@->Some_0@
            }),
    {
        let mut i: u32 = 0;
        while i < n
            invariant
                i <= n,
                self.wf(),
                self.running(),
                self.cpu == old(self).cpu,
                self.nvic == old(self).nvic,
                self.config == old(self).config,
                self.cell@ matches Some(q) && q@ == (PeripheralsView {
                    gpio: GpioPort {
                        data: toggled_times(old(self).cell@->Some_0@.gpio.data, old(self).config.pin, i as nat),
                        ..old(self).cell@->Some_0@.gpio
                    },
                    ..old(self).cell@->Some_0@
                }),
            decreases n - i,
        {
            let _ = self.tick();
            i = i + 1;
        }
    }
}

/// The data register after `n` toggles of `pin`.
pub open spec fn toggled_times(data: u32, pin: u32, n: nat) -> u32
    decreases n,
{
    if n == 0 {
        data
    } else {
        toggled_times(data, pin, (n - 1) as nat) ^ pin_mask(pin)
    }
}

/// After `n` toggles the pin has flipped exactly `n` times: it is back where
/// it started after an even number, inverted after an odd one, and no other
/// bit has moved.
pub proof fn law_toggle_parity(data: u32, pin: u32, n: nat)
    requires
        pin < 32,
    ensures
        toggled_times(data, pin, n) == (if n % 2 == 0 {
            data
        } else {
            data ^ pin_mask(pin)
        }),
        bit_set(toggled_times(data, pin, n), pin) == (bit_set(data, pin) != (n % 2 == 1)),
        same_except(toggled_times(data, pin, n), data, pin),
    decreases n,
{
    if n > 0 {
        law_toggle_parity(data, pin, (n - 1) as nat);
        lemma_toggle_twice(data, pin);
    }
    let r = toggled_times(data, pin, n);
    if n % 2 == 0 {
        assert(r == data);
    } else {
        assert(r == data ^ (1u32 << pin));
        assert(bit_set(r, pin) == !bit_set(data, pin)) by (bit_vector)
            requires
                r == data ^ (1u32 << pin),
                pin < 32,
        ;
        assert forall|i: u32| i < 32 && i != pin implies #[trigger] bit_set(r, i) == bit_set(data, i) by {
            assert(bit_set(r, i) == bit_set(data, i)) by (bit_vector)
                requires
                    r == data ^ (1u32 << pin),
                    pin < 32,
                    i < 32,
                    i != pin,
            ;
        }
    }
}

} // verus!
