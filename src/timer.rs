//! The 16-bit periodic down-counting timer: its configuration, the period it
//! yields, and the register sequence that arms it.
use vstd::prelude::*;

verus! {

/// Value of the configuration register that selects 16-bit mode.
pub const CFG_16_BIT: u32 = 4;

/// Value of the mode register that selects periodic down-counting.
pub const MODE_PERIODIC: u32 = 2;

/// Largest prescale divisor of a 16-bit timer (an 8-bit register holds it minus one).
pub const MAX_PRESCALE: u32 = 256;

/// Largest reload count of a 16-bit timer (a 16-bit register holds it minus one).
pub const MAX_RELOAD: u32 = 65536;

/// A (prescale, reload) pair: the timer fires every `prescale * reload`
/// clock cycles.
#[derive(Clone, Copy, Debug, PartialEq, Eq, Structural)]
pub struct TimerConfig {
    pub prescale: u32,
    pub reload: u32,
}

impl TimerConfig {
    /// Both values fit their registers once one is taken off.
    pub open spec fn wf(self) -> bool {
        1 <= self.prescale <= MAX_PRESCALE && 1 <= self.reload <= MAX_RELOAD
    }

    /// Clock cycles between two fires.
    pub open spec fn ticks(self) -> int {
        self.prescale * self.reload
    }

    /// A configuration from its two values; `None` where one does not fit.
    pub fn new(prescale: u32, reload: u32) -> (r: Option<TimerConfig>)
        ensures
            r is Some <==> (1 <= prescale <= MAX_PRESCALE && 1 <= reload <= MAX_RELOAD),
            r matches Some(c) ==> c.prescale == prescale && c.reload == reload && c.wf(),
    {
        if 1 <= prescale && prescale <= MAX_PRESCALE && 1 <= reload && reload <= MAX_RELOAD {
            Some(TimerConfig { prescale, reload })
        } else {
            None
        }
    }

    /// The configuration that gives one fire per second at a 16 MHz clock.
    pub fn one_hertz() -> (r: TimerConfig)
        ensures
            r.prescale == 250,
            r.reload == 64000,
            r.wf(),
    {
        TimerConfig { prescale: 250, reload: 64000 }
    }

    /// What the prescale register holds.
    pub fn prescale_register(&self) -> (r: u32)
        requires
            self.wf(),
        ensures
            r == self.prescale - 1,
    {
        self.prescale - 1
    }

    /// What the interval-load register holds.
    pub fn reload_register(&self) -> (r: u32)
        requires
            self.wf(),
        ensures
            r == self.reload - 1,
    {
        self.reload - 1
    }

    /// Clock cycles between two fires.
    pub fn period_ticks(&self) -> (r: u64)
        requires
            self.wf(),
        ensures
            r == self.ticks(),
    {
        assert(self.prescale * self.reload <= MAX_PRESCALE * MAX_RELOAD) by (nonlinear_arith)
            requires
                self.prescale <= MAX_PRESCALE,
                self.reload <= MAX_RELOAD,
        ;
        (self.prescale as u64) * (self.reload as u64)
    }

    /// The period in seconds at clock frequency `clock_hz`, where it is a
    /// whole number of seconds; `None` where it is not (or the clock is 0).
    pub fn exact_period_seconds(&self, clock_hz: u32) -> (r: Option<u64>)
        requires
            self.wf(),
        ensures
            r is Some <==> (clock_hz > 0 && self.ticks() % (clock_hz as int) == 0),
            r matches Some(s) ==> s * clock_hz == self.ticks(),
    {
        if clock_hz == 0 {
            return None;
        }
        let t = self.period_ticks();
        let c = clock_hz as u64;
        if t % c == 0 {
            let s = t / c;
            assert(s * c == t) by (nonlinear_arith)
                requires
                    s == t / c,
                    t % c == 0,
                    c > 0,
            ;
            Some(s)
        } else {
            None
        }
    }
}

/// Why the timer refused to be armed.
#[derive(Clone, Copy, Debug, PartialEq, Eq, Structural)]
pub enum TimerError {
    /// The timer's clock gate is off: its registers cannot be written.
    NotPowered,
    /// The timer is running: its configuration cannot be rewritten.
    Running,
}

/// The life cycle of the timer.
#[derive(Clone, Copy, Debug, PartialEq, Eq, Structural)]
pub enum TimerState {
    /// Clock gate off.
    Unconfigured,
    /// Clock gate on, counter stopped.
    Disabled,
    /// Counting and firing.
    Armed,
}

/// The registers of one timer unit.
#[derive(Clone, Copy, Debug, PartialEq, Eq, Structural)]
pub struct TimerUnit {
    /// Clock gate of the unit.
    pub clock_enabled: bool,
    /// Enable bit of the control register.
    pub enabled: bool,
    /// Configuration register.
    pub cfg: u32,
    /// Mode register.
    pub mode: u32,
    /// Prescale register.
    pub prescale: u32,
    /// Interval-load register.
    pub interval: u32,
    /// Raw time-out flag: set by the hardware on expiry, cleared by software.
    pub raw_timeout: bool,
    /// Time-out bit of the interrupt-mask register.
    pub timeout_mask: bool,
}

impl TimerUnit {
    pub open spec fn state(self) -> TimerState {
        if !self.clock_enabled {
            TimerState::Unconfigured
        } else if !self.enabled {
            TimerState::Disabled
        } else {
            TimerState::Armed
        }
    }

    /// The unit runs periodically as `c` says, with its time-out interrupt unmasked.
    pub open spec fn armed_with(self, c: TimerConfig) -> bool {
        &&& self.clock_enabled
        &&& self.enabled
        &&& self.cfg == CFG_16_BIT
        &&& self.mode == MODE_PERIODIC
        &&& self.prescale == c.prescale - 1
        &&& self.interval == c.reload - 1
        &&& self.timeout_mask
    }

    /// The pending flag as the interrupt logic sees it.
    pub open spec fn masked(self) -> bool {
        self.raw_timeout && self.timeout_mask
    }

    /// Every register cleared.
    pub open spec fn at_reset() -> TimerUnit {
        TimerUnit {
            clock_enabled: false,
            enabled: false,
            cfg: 0,
            mode: 0,
            prescale: 0,
            interval: 0,
            raw_timeout: false,
            timeout_mask: false,
        }
    }

    /// The registers at reset.
    pub fn reset() -> (r: TimerUnit)
        ensures
            r == TimerUnit::at_reset(),
            r.state() == TimerState::Unconfigured,
    {
        TimerUnit {
            clock_enabled: false,
            enabled: false,
            cfg: 0,
            mode: 0,
            prescale: 0,
            interval: 0,
            raw_timeout: false,
            timeout_mask: false,
        }
    }

    /// Turns the clock gate on and clears the enable bit, so that no stale
    /// configuration runs while the registers are rewritten.
    pub fn power_up(&mut self)
        ensures
            final(self).state() == TimerState::Disabled,
            *final(self) == (TimerUnit { clock_enabled: true, enabled: false, ..*old(self) }),
    {
        self.clock_enabled = true;
        self.enabled = false;
    }

    /// Writes the configuration of `c` into a stopped unit, clears any stale
    /// time-out flag, unmasks the time-out interrupt and, last, enables the
    /// counter. Refused, with the registers untouched, where the clock gate is
    /// off or the counter already runs.
    pub fn arm(&mut self, c: TimerConfig) -> (r: Result<(), TimerError>)
        requires
            c.wf(),
        ensures
            old(self).state() == TimerState::Unconfigured <==> r == Err::<(), TimerError>(TimerError::NotPowered),
            old(self).state() == TimerState::Armed <==> r == Err::<(), TimerError>(TimerError::Running),
            r is Ok <==> old(self).state() == TimerState::Disabled,
            r is Ok ==> final(self).armed_with(c) && !final(self).raw_timeout
                && final(self).state() == TimerState::Armed,
            r is Err ==> *final(self) == *old(self),
    {
        if !self.clock_enabled {
            return Err(TimerError::NotPowered);
        }
        if self.enabled {
            return Err(TimerError::Running);
        }
        self.cfg = CFG_16_BIT;
        self.mode = MODE_PERIODIC;
        self.prescale = c.prescale_register();
        self.interval = c.reload_register();
        self.clear_timeout();
        self.timeout_mask = true;
        self.enabled = true;
        Ok(())
    }

    /// The counter reaches zero: a running unit latches its time-out flag and
    /// reloads by itself; a stopped one does nothing.
    pub fn expire(&mut self)
        ensures
            *final(self) == (TimerUnit { raw_timeout: old(self).raw_timeout || old(self).enabled, ..*old(self) }),
    {
        if self.enabled {
            self.raw_timeout = true;
        }
    }

    /// Where the unit stands in its life cycle.
    pub fn current_state(&self) -> (r: TimerState)
        ensures
            r == self.state(),
    {
        if !self.clock_enabled {
            TimerState::Unconfigured
        } else if !self.enabled {
            TimerState::Disabled
        } else {
            TimerState::Armed
        }
    }

    /// Reads the masked interrupt status: the time-out flag where it is unmasked.
    pub fn masked_timeout(&self) -> (r: bool)
        ensures
            r == self.masked(),
    {
        self.raw_timeout && self.timeout_mask
    }

    /// Writes the interrupt-clear register: the time-out flag is deasserted.
    pub fn clear_timeout(&mut self)
        ensures
            *final(self) == (TimerUnit { raw_timeout: false, ..*old(self) }),
    {
        self.raw_timeout = false;
    }
}

} // verus!
