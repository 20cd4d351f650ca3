//! GPIO pin mode and level access.
//!
//! The data pin must be switched to its peripheral function before the
//! timing peripheral is armed; beyond that the GPIO block is not part of
//! the timing path.  Accesses go through a register window and are
//! recorded in its trace like every other register effect.

use vstd::prelude::*;
use crate::regwin::{spec_field_write_ops, trace_bit_read, trace_field_write, RegOp, RegisterWindow};

verus! {

/// Byte offset of the first pin-function register.
pub const GPIO_MODE0: usize = 0x00;
/// Byte offset of the first output-set register.
pub const GPIO_SET0: usize = 0x1c;
/// Byte offset of the first output-clear register.
pub const GPIO_CLR0: usize = 0x28;
/// Byte offset of the first level register.
pub const GPIO_LEV0: usize = 0x34;
/// The window must cover the registers above for every pin.
pub const GPIO_WINDOW_SIZE: usize = 0x40;
/// Pins beyond this index do not exist on the header's controller.
pub const GPIO_NPINS: usize = 54;

/// A pin's function: plain input or output, or one of the six alternate
/// peripheral functions.
pub enum GpioMode {
    Input,
    Output,
    Alt0,
    Alt1,
    Alt2,
    Alt3,
    Alt4,
    Alt5,
}

/// The three-bit function code a mode is programmed as.
pub open spec fn spec_mode_bits(mode: GpioMode) -> u32 {
    match mode {
        GpioMode::Input => 0u32,
        GpioMode::Output => 1u32,
        GpioMode::Alt0 => 4u32,
        GpioMode::Alt1 => 5u32,
        GpioMode::Alt2 => 6u32,
        GpioMode::Alt3 => 7u32,
        GpioMode::Alt4 => 3u32,
        GpioMode::Alt5 => 2u32,
    }
}

/// The three-bit function code a mode is programmed as.
pub fn mode_bits(mode: &GpioMode) -> (r: u32)
    ensures
        r == spec_mode_bits(*mode),
{
    match mode {
        GpioMode::Input => 0,
        GpioMode::Output => 1,
        GpioMode::Alt0 => 4,
        GpioMode::Alt1 => 5,
        GpioMode::Alt2 => 6,
        GpioMode::Alt3 => 7,
        GpioMode::Alt4 => 3,
        GpioMode::Alt5 => 2,
    }
}

/// Byte offset of the function register holding `pin`'s mode field: the
/// registers hold ten pins each, at four-byte strides.
pub open spec fn spec_mode_off(pin: int) -> int {
    GPIO_MODE0 + (pin / 10) * 4
}

/// Bit offset of `pin`'s mode field within its function register.
pub open spec fn spec_mode_shift(pin: int) -> int {
    (pin % 10) * 3
}

/// Byte offset of `pin`'s word within a bank of set, clear, or level
/// registers starting at `base`: thirty-two pins per four-byte register.
pub open spec fn spec_level_off(base: int, pin: int) -> int {
    base + (pin / 32) * 4
}

/// Bit offset of `pin` within its set, clear, or level register.
pub open spec fn spec_level_shift(pin: int) -> int {
    pin % 32
}

/// The trace of programming `pin`'s three-bit function field to `mode`,
/// having read `prev`.
pub open spec fn spec_mode_write_ops(pin: usize, mode: u32, prev: u32) -> Seq<RegOp> {
    spec_field_write_ops(
        (GPIO_MODE0 + (pin / 10) * 4) as usize,
        ((pin % 10) * 3) as u32,
        3,
        mode,
        prev,
    )
}

/// The trace of returning `pins` to plain input in order, having read
/// `prevs`.
pub open spec fn spec_release_ops(pins: Seq<usize>, prevs: Seq<u32>) -> Seq<RegOp>
    recommends
        prevs.len() == pins.len(),
    decreases pins.len(),
{
    if pins.len() == 0 {
        Seq::empty()
    } else {
        spec_release_ops(pins.drop_last(), prevs.drop_last()) + spec_mode_write_ops(
            pins.last(),
            0u32,
            prevs.last(),
        )
    }
}

/// The GPIO controller: its register window and the pins this instance
/// has configured.
pub struct Gpio {
    /// The GPIO controller's register window.
    pub win: RegisterWindow,
    configured_pins: Vec<usize>,
}

impl Gpio {
    /// The pins configured through this instance, in configuration order.
    pub closed spec fn spec_pins(&self) -> Seq<usize> {
        self.configured_pins@
    }

    /// A usable controller: the window covers the pin registers, and
    /// every recorded pin exists.
    pub closed spec fn wf(&self) -> bool {
        &&& self.win.wf()
        &&& self.win.spec_size() >= GPIO_WINDOW_SIZE
        &&& forall|i: int|
            0 <= i < self.configured_pins@.len() ==> #[trigger] self.configured_pins@[i]
                < GPIO_NPINS
    }

    /// The accesses performed on the controller's window, oldest first.
    pub closed spec fn spec_trace(&self) -> Seq<RegOp> {
        self.win.trace()
    }

    /// Wrap a mapping of the GPIO register block; no register is touched.
    pub fn new(win: RegisterWindow) -> (r: Gpio)
        requires
            win.wf(),
            win.spec_size() >= GPIO_WINDOW_SIZE,
        ensures
            r.wf(),
            r.spec_trace() == win.trace(),
            r.spec_pins() == Seq::<usize>::empty(),
    {
        Gpio { win, configured_pins: Vec::new() }
    }

    /// Program `pin`'s three-bit function field, preserving the other
    /// pins' fields in the same register.  Returns the register value
    /// read.
    fn set_pin_mode(&mut self, pin: usize, mode: u32) -> (prev: u32)
        requires
            old(self).wf(),
            pin < GPIO_NPINS,
        ensures
            final(self).wf(),
            final(self).spec_pins() == old(self).spec_pins(),
            final(self).spec_trace() == old(self).spec_trace() + spec_mode_write_ops(
                pin,
                mode,
                prev,
            ),
    {
        let off: usize = GPIO_MODE0 + (pin / 10) * 4;
        let shift: u32 = ((pin % 10) * 3) as u32;
        self.win.write_field(off, shift, 3, mode)
    }

    /// Record `pin` as configured and program its function field.
    pub fn configure_pin(&mut self, pin: usize, mode: GpioMode)
        requires
            old(self).wf(),
            pin < GPIO_NPINS,
        ensures
            final(self).wf(),
            final(self).spec_pins() == old(self).spec_pins().push(pin),
            exists|prev: u32|
                final(self).spec_trace() == old(self).spec_trace() + spec_mode_write_ops(
                    pin,
                    spec_mode_bits(mode),
                    prev,
                ),
    {
        self.configured_pins.push(pin);
        let bits = mode_bits(&mode);
        let prev = self.set_pin_mode(pin, bits);
    }

    /// Drive `pin` high or low by oring its bit into the set or the clear
    /// register.
    pub fn set_pin(&mut self, pin: usize, value: bool)
        requires
            old(self).wf(),
            pin < GPIO_NPINS,
        ensures
            final(self).wf(),
            final(self).spec_pins() == old(self).spec_pins(),
            trace_field_write(
                old(self).spec_trace(),
                final(self).spec_trace(),
                ((if value {
                    GPIO_SET0
                } else {
                    GPIO_CLR0
                }) + (pin / 32) * 4) as usize,
                (pin % 32) as u32,
                1,
                1u32,
            ),
    {
        let base: usize = if value {
            GPIO_SET0
        } else {
            GPIO_CLR0
        };
        let off: usize = base + (pin / 32) * 4;
        let shift: u32 = (pin % 32) as u32;
        let prev = self.win.write_field(off, shift, 1, 1);
    }

    /// Whether `pin`'s level register bit reads as high.
    pub fn read_pin(&mut self, pin: usize) -> (b: bool)
        requires
            old(self).wf(),
            pin < GPIO_NPINS,
        ensures
            final(self).wf(),
            final(self).spec_pins() == old(self).spec_pins(),
            trace_bit_read(
                old(self).spec_trace(),
                final(self).spec_trace(),
                (GPIO_LEV0 + (pin / 32) * 4) as usize,
                (pin % 32) as u32,
                b,
            ),
    {
        let off: usize = GPIO_LEV0 + (pin / 32) * 4;
        let shift: u32 = (pin % 32) as u32;
        self.win.read_field(off, shift, 1) != 0
    }

    /// Return every configured pin to plain input, oldest first, and
    /// forget them.
    pub fn release_pins(&mut self)
        requires
            old(self).wf(),
        ensures
            final(self).wf(),
            final(self).spec_pins() == Seq::<usize>::empty(),
            exists|prevs: Seq<u32>|
                prevs.len() == old(self).spec_pins().len() && final(self).spec_trace() == old(
                    self,
                ).spec_trace() + spec_release_ops(old(self).spec_pins(), prevs),
    {
        let ghost t0 = self.spec_trace();
        let ghost all = self.configured_pins@;
        let ghost mut prevs: Seq<u32> = Seq::empty();
        let n = self.configured_pins.len();
        let mut i: usize = 0;
        while i < n
            invariant
                self.wf(),
                n == self.configured_pins@.len(),
                i <= n,
                all == self.configured_pins@,
                prevs.len() == i,
                self.spec_trace() == t0 + spec_release_ops(all.take(i as int), prevs),
            decreases n - i,
        {
            let pin = self.configured_pins[i];
            let prev = self.set_pin_mode(pin, 0);
            proof {
                let prevs0 = prevs;
                prevs = prevs.push(prev);
                assert(prevs.drop_last() =~= prevs0);
                assert(all.take(i as int + 1).drop_last() =~= all.take(i as int));
                assert(all.take(i as int + 1).last() == all[i as int]);
                assert(spec_release_ops(all.take(i as int + 1), prevs) == spec_release_ops(
                    all.take(i as int),
                    prevs0,
                ) + spec_mode_write_ops(all[i as int], 0u32, prev));
                assert(self.spec_trace() =~= t0 + spec_release_ops(
                    all.take(i as int + 1),
                    prevs,
                ));
            }
            i = i + 1;
        }
        self.configured_pins.clear();
        proof {
            assert(all.take(n as int) =~= all);
            assert(prevs.len() == old(self).spec_pins().len() && self.spec_trace() == old(
                self,
            ).spec_trace() + spec_release_ops(old(self).spec_pins(), prevs));
        }
    }
}

} // verus!
