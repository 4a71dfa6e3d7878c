use vstd::prelude::*;

use crate::bus::Bus;
use crate::error::Error;
use crate::protocol::ADDR_BASE;
use crate::protocol::Bp5758dChannel;
use crate::protocol::OUT1_GRAYSCALE_MASK;
use crate::protocol::OUT_ALL_DISABLE;
use crate::protocol::OUT_ALL_ENABLE;
use crate::protocol::OUT_ENABLE_MASK;
use crate::protocol::SLEEP_DISABLE_MASK;
use crate::protocol::SLEEP_ENABLE_MASK;
use crate::protocol::grayscale_mask;
use crate::protocol::high_byte;
use crate::protocol::is_grayscale_addr;
use crate::protocol::low_byte;
use crate::protocol::place_values;
use crate::protocol::transform_current;
use crate::protocol::validate_transform_current;

verus! {

/// The transaction that forces every grayscale register to zero: ten zero
/// bytes at the grayscale registers of physical channel 1 and up.
pub open spec fn shutdown_entry() -> (u8, Seq<u8>) {
    (ADDR_BASE | SLEEP_DISABLE_MASK | OUT1_GRAYSCALE_MASK, Seq::new(10, |i: int| 0u8))
}

/// The transaction that disables all outputs and commands sleep.
pub open spec fn sleep_entry() -> (u8, Seq<u8>) {
    (ADDR_BASE | OUT_ENABLE_MASK | SLEEP_ENABLE_MASK, Seq::new(6, |i: int| 0u8))
}

/// The transaction that commands wake: all outputs enabled, followed by
/// the five stored wire-format current limits.
pub open spec fn wake_entry(currents: Seq<u8>) -> (u8, Seq<u8>) {
    (ADDR_BASE | OUT_ENABLE_MASK | SLEEP_DISABLE_MASK, seq![OUT_ALL_ENABLE] + currents)
}

/// The transaction that sets one channel's grayscale register to `v`.
pub open spec fn channel_entry(c: Bp5758dChannel, v: u16) -> (u8, Seq<u8>) {
    (ADDR_BASE | SLEEP_DISABLE_MASK | grayscale_mask(c), seq![low_byte(v), high_byte(v)])
}

/// The transaction that sets all five grayscale registers in one write:
/// each logical value at the slot its mapping entry selects.
pub open spec fn rgbcw_entry(mapping: Seq<u8>, values: Seq<u16>) -> (u8, Seq<u8>) {
    (ADDR_BASE | SLEEP_DISABLE_MASK | OUT1_GRAYSCALE_MASK, place_values(mapping, values, 5))
}

/// The transactions a grayscale operation issues before its own write:
/// the wake transition when the chip is asleep, nothing otherwise.
pub open spec fn wake_prefix(v: DriverView) -> Seq<(u8, Seq<u8>)> {
    if v.sleeping {
        seq![wake_entry(v.currents)]
    } else {
        Seq::empty()
    }
}

/// Abstract state of a [`Bp5758d`] controller: whether the chip is
/// commanded asleep, the stored configuration, and the transactions its
/// transport has issued.
pub struct DriverView {
    /// Whether the chip is currently commanded asleep.
    pub sleeping: bool,
    /// Physical output channel of each logical color channel (r, g, b, c, w).
    pub mapping: Seq<u8>,
    /// The five per-channel current limits, already in wire format.
    pub currents: Seq<u8>,
    /// The (address, payload) transactions issued so far, oldest first.
    pub writes: Seq<(u8, Seq<u8>)>,
}

/// BP5758d driver controller: owns the bus transport and tracks the chip's
/// sleep state and validated configuration.
pub struct Bp5758d<T: Bus> {
    sleeping: bool,
    mapping: [u8; 5],  // rgbcw channels
    max_current: [u8; 5],
    i2c: T,
}

impl<T: Bus> View for Bp5758d<T> {
    type V = DriverView;

    closed spec fn view(&self) -> DriverView {
        DriverView {
            sleeping: self.sleeping,
            mapping: self.mapping@,
            currents: self.max_current@,
            writes: self.i2c.history(),
        }
    }
}

impl<T: Bus> Bp5758d<T> {
    /// Initialize the driver around the transport `driver`.
    ///
    /// `channel_mapping` gives the physical output channel (1 to 5) driving
    /// each logical color channel r, g, b, c, w; an entry above 5 is
    /// rejected. `max_current` gives the five per-channel current limits in
    /// the chip's native units; an entry above 90 is rejected, and the rest
    /// are stored already transformed into wire format. The bus is not
    /// touched, and the chip is assumed to start in its power-on sleep
    /// state.
    pub fn new(driver: T, channel_mapping: [u8; 5], max_current: [u8; 5]) -> (r: Result<
        Bp5758d<T>,
        Error,
    >)
        ensures
            r.is_ok() <==> ((forall|i: int| 0 <= i < 5 ==> channel_mapping@[i] <= 5) && (forall|i: int|
                0 <= i < 5 ==> max_current@[i] <= 90)),
            r matches Ok(d) ==> {
                &&& d@.sleeping
                &&& d@.mapping == channel_mapping@
                &&& d@.currents == Seq::new(5, |i: int| transform_current(max_current@[i]))
                &&& d@.writes == driver.history()
            },
            r.is_err() ==> (r matches Err(e) && e == Error::InvalidArg),
    {
        let mut i: usize = 0;
        while i < 5
            invariant
                i <= 5,
                forall|j: int| 0 <= j < i ==> channel_mapping@[j] <= 5,
            decreases 5 - i,
        {
            if channel_mapping[i] > 5 {
                return Err(Error::InvalidArg);
            }
            i = i + 1;
        }

        let mut currents: [u8; 5] = max_current;
        match validate_transform_current(&mut currents) {
            Ok(()) => {},
            Err(e) => {
                return Err(e);
            },
        }

        let d = Bp5758d { sleeping: true, i2c: driver, mapping: channel_mapping, max_current: currents };
        proof {
            assert(d@.currents =~= Seq::new(5, |i: int| transform_current(max_current@[i])));
        }
        Ok(d)
    }

    /// Issue one write on the transport, erasing the transport's failure
    /// detail into [`Error::I2c`].
    fn write(&mut self, addr: u8, data: &[u8]) -> (r: Result<(), Error>)
        ensures
            final(self)@.sleeping == old(self)@.sleeping,
            final(self)@.mapping == old(self)@.mapping,
            final(self)@.currents == old(self)@.currents,
            final(self)@.writes == old(self)@.writes.push((addr, data@)),
            r.is_err() ==> (r matches Err(e) && e == Error::I2c),
    {
        match self.i2c.write(addr, data) {
            Ok(()) => Ok(()),
            Err(e) => Err(Error::from(e)),
        }
    }

    /// Force all five grayscale registers to zero with one dedicated write.
    fn set_shutdown(&mut self) -> (r: Result<(), Error>)
        ensures
            final(self)@.sleeping == old(self)@.sleeping,
            final(self)@.mapping == old(self)@.mapping,
            final(self)@.currents == old(self)@.currents,
            final(self)@.writes == old(self)@.writes.push(shutdown_entry()),
            r.is_err() ==> (r matches Err(e) && e == Error::I2c),
    {
        let addr: u8 = ADDR_BASE | SLEEP_DISABLE_MASK | OUT1_GRAYSCALE_MASK;
        let data: [u8; 10] = [0; 10];
        proof {
            assert(data@ =~= shutdown_entry().1);
        }
        self.write(addr, data.as_slice())
    }

    /// Enable or disable the chip's low-power sleep mode.
    ///
    /// Entering sleep first zeroes all grayscale registers, then disables
    /// the outputs; the state becomes asleep only once both writes have
    /// succeeded. Leaving sleep issues a single write enabling all outputs
    /// and restoring the stored current limits; grayscale values are not
    /// restored. The writes are issued whether or not the chip is already
    /// in the requested state.
    pub fn set_sleep(&mut self, sleep: bool) -> (r: Result<(), Error>)
        ensures
            final(self)@.mapping == old(self)@.mapping,
            final(self)@.currents == old(self)@.currents,
            r.is_err() ==> (r matches Err(e) && e == Error::I2c),
            sleep && r.is_ok() ==> final(self)@.sleeping && final(self)@.writes == old(self)@.writes
                + seq![shutdown_entry(), sleep_entry()],
            sleep && r.is_err() ==> final(self)@.sleeping == old(self)@.sleeping && (final(self)@.writes
                == old(self)@.writes.push(shutdown_entry()) || final(self)@.writes == old(self)@.writes
                + seq![shutdown_entry(), sleep_entry()]),
            !sleep ==> final(self)@.writes == old(self)@.writes.push(wake_entry(old(self)@.currents))
                && final(self)@.sleeping == (if r.is_ok() { false } else { old(self)@.sleeping }),
    {
        let mut addr: u8 = ADDR_BASE | OUT_ENABLE_MASK;
        if sleep {
            addr = addr | SLEEP_ENABLE_MASK;
            let mut data: [u8; 6] = [0; 6];
            data[0] = OUT_ALL_DISABLE;
            proof {
                assert(data@ =~= sleep_entry().1);
            }
            match self.set_shutdown() {
                Ok(()) => {},
                Err(e) => {
                    return Err(e);
                },
            }
            match self.write(addr, data.as_slice()) {
                Ok(()) => {},
                Err(e) => {
                    return Err(e);
                },
            }
            self.sleeping = true;
            Ok(())
        } else {
            addr = addr | SLEEP_DISABLE_MASK;
            let mut data: Vec<u8> = Vec::new();
            data.push(OUT_ALL_ENABLE);
            let mut i: usize = 0;
            while i < 5
                invariant
                    i <= 5,
                    data@ == seq![OUT_ALL_ENABLE] + self.max_current@.subrange(0, i as int),
                decreases 5 - i,
            {
                data.push(self.max_current[i]);
                proof {
                    assert(data@ =~= seq![OUT_ALL_ENABLE] + self.max_current@.subrange(
                        0,
                        i + 1,
                    ));
                }
                i = i + 1;
            }
            proof {
                assert(self.max_current@.subrange(0, 5) =~= self.max_current@);
            }
            let r = self.write(addr, data.as_slice());
            match r {
                Ok(()) => {
                    self.sleeping = false;
                    Ok(())
                },
                Err(e) => Err(e),
            }
        }
    }

    /// Set the grayscale value of one channel.
    ///
    /// `value` must be below 1024. If the chip is asleep, the wake
    /// transition is issued first; then the channel's 2-byte register pair
    /// is written in one transaction. Other channels are untouched.
    pub fn set_channel(&mut self, channel: Bp5758dChannel, value: u16) -> (r: Result<(), Error>)
        ensures
            final(self)@.mapping == old(self)@.mapping,
            final(self)@.currents == old(self)@.currents,
            value >= 1024 ==> (r matches Err(e) && e == Error::InvalidArg) && *final(self) == *old(
                self,
            ),
            value < 1024 && r.is_ok() ==> !final(self)@.sleeping && final(self)@.writes == old(self)@.writes
                + wake_prefix(old(self)@) + seq![channel_entry(channel, value)],
            value < 1024 && r.is_err() ==> (r matches Err(e) && e == Error::I2c) && ({
                ||| (old(self)@.sleeping && final(self)@.sleeping && final(self)@.writes == old(self)@.writes.push(
                    wake_entry(old(self)@.currents),
                ))
                ||| (!final(self)@.sleeping && final(self)@.writes == old(self)@.writes + wake_prefix(
                    old(self)@,
                ) + seq![channel_entry(channel, value)])
            }),
    {
        if value >= 1024 {
            return Err(Error::InvalidArg);
        }

        let mut addr: u8 = ADDR_BASE | SLEEP_DISABLE_MASK;
        addr = addr | channel.get_grayscale_mask();

        let mut data: Vec<u8> = Vec::new();
        data.push((value & 0x1F) as u8);
        data.push((value >> 5) as u8);
        proof {
            assert(data@ =~= channel_entry(channel, value).1);
        }

        if self.sleeping {
            match self.set_sleep(false) {
                Ok(()) => {},
                Err(e) => {
                    return Err(e);
                },
            }
        }

        self.write(addr, data.as_slice())
    }

    /// Set all five channels' grayscale values in one transaction.
    ///
    /// Each value must be below 1024; validation happens before any bus
    /// activity. Each logical value's two bytes are placed at the payload
    /// offset of the physical channel its mapping entry selects. If the
    /// chip is asleep, the wake transition is issued first.
    ///
    /// The stored channel mapping must not contain the entry 0, which no
    /// physical channel answers to; construction does not reject it.
    pub fn set_rgbcw(&mut self, r: u16, g: u16, b: u16, c: u16, w: u16) -> (res: Result<(), Error>)
        requires
            forall|i: int| 0 <= i < 5 ==> 1 <= #[trigger] old(self)@.mapping[i] <= 5,
        ensures
            final(self)@.mapping == old(self)@.mapping,
            final(self)@.currents == old(self)@.currents,
            !(r < 1024 && g < 1024 && b < 1024 && c < 1024 && w < 1024) ==> (res matches Err(e)
                && e == Error::InvalidArg) && *final(self) == *old(self),
            (r < 1024 && g < 1024 && b < 1024 && c < 1024 && w < 1024) && res.is_ok()
                ==> !final(self)@.sleeping && final(self)@.writes == old(self)@.writes + wake_prefix(
                old(self)@,
            ) + seq![rgbcw_entry(old(self)@.mapping, seq![r, g, b, c, w])],
            (r < 1024 && g < 1024 && b < 1024 && c < 1024 && w < 1024) && res.is_err() ==> (
            res matches Err(e) && e == Error::I2c) && ({
                ||| (old(self)@.sleeping && final(self)@.sleeping && final(self)@.writes == old(self)@.writes.push(
                    wake_entry(old(self)@.currents),
                ))
                ||| (!final(self)@.sleeping && final(self)@.writes == old(self)@.writes + wake_prefix(
                    old(self)@,
                ) + seq![rgbcw_entry(old(self)@.mapping, seq![r, g, b, c, w])])
            }),
    {
        let addr: u8 = ADDR_BASE | SLEEP_DISABLE_MASK | OUT1_GRAYSCALE_MASK;
        let values: [u16; 5] = [r, g, b, c, w];

        let mut data: Vec<u8> = Vec::new();
        let mut k: usize = 0;
        while k < 10
            invariant
                k <= 10,
                data@.len() == k,
                forall|j: int| 0 <= j < k ==> data@[j] == 0u8,
            decreases 10 - k,
        {
            data.push(0);
            k = k + 1;
        }
        proof {
            assert(data@ =~= place_values(self@.mapping, values@, 0));
        }

        let mut i: usize = 0;
        while i < 5
            invariant
                i <= 5,
                values@ == seq![r, g, b, c, w],
                forall|j: int| 0 <= j < 5 ==> 1 <= #[trigger] self@.mapping[j] <= 5,
                data@.len() == 10,
                forall|j: int| 0 <= j < i ==> values@[j] < 1024,
                data@ == place_values(self@.mapping, values@, i as int),
            decreases 5 - i,
        {
            let value: u16 = values[i];
            if value >= 1024 {
                return Err(Error::InvalidArg);
            }

            let slot: usize = (self.mapping[i] - 1) as usize;
            data[2 * slot] = (value & 0x1F) as u8;
            data[2 * slot + 1] = (value >> 5) as u8;
            proof {
                assert(data@ =~= place_values(self@.mapping, values@, i as int + 1));
            }
            i = i + 1;
        }

        if self.sleeping {
            match self.set_sleep(false) {
                Ok(()) => {},
                Err(e) => {
                    return Err(e);
                },
            }
        }

        self.write(addr, data.as_slice())
    }

    /// Best-effort teardown for scope exit: if the controller is awake,
    /// the sleep transition is attempted once; its failure is swallowed,
    /// since no propagation channel exists at release time. Asleep, the
    /// bus is not touched.
    pub fn power_down(&mut self)
        ensures
            final(self)@.mapping == old(self)@.mapping,
            final(self)@.currents == old(self)@.currents,
            old(self)@.sleeping ==> *final(self) == *old(self),
            !old(self)@.sleeping ==> ({
                ||| (final(self)@.sleeping && final(self)@.writes == old(self)@.writes
                    + seq![shutdown_entry(), sleep_entry()])
                ||| (!final(self)@.sleeping && (final(self)@.writes == old(self)@.writes.push(
                    shutdown_entry(),
                ) || final(self)@.writes == old(self)@.writes
                    + seq![shutdown_entry(), sleep_entry()]))
            }),
    {
        if !self.sleeping {
            let _ = self.set_sleep(true);
        }
    }

    /// Whether the chip is currently commanded asleep.
    pub fn is_sleeping(&self) -> (r: bool)
        ensures
            r == self@.sleeping,
    {
        self.sleeping
    }

    /// The transport, for inspection.
    pub fn transport(&self) -> (r: &T)
        ensures
            r.history() == self@.writes,
    {
        &self.i2c
    }
}

/// Waking the chip re-writes only the output-enable register and the
/// stored current limits: the single transaction of the wake transition
/// never targets a grayscale register, so grayscale values destroyed by
/// sleep are not restored.
pub proof fn lemma_wake_writes_no_grayscale(currents: Seq<u8>)
    ensures
        !is_grayscale_addr(wake_entry(currents).0),
{
    assert((0x80u8 | 0x00u8 | 0x20u8) != (0x80u8 | 0x20u8 | 0x06u8)) by (bit_vector);
    assert((0x80u8 | 0x00u8 | 0x20u8) != (0x80u8 | 0x20u8 | 0x08u8)) by (bit_vector);
    assert((0x80u8 | 0x00u8 | 0x20u8) != (0x80u8 | 0x20u8 | 0x0Au8)) by (bit_vector);
    assert((0x80u8 | 0x00u8 | 0x20u8) != (0x80u8 | 0x20u8 | 0x0Cu8)) by (bit_vector);
    assert((0x80u8 | 0x00u8 | 0x20u8) != (0x80u8 | 0x20u8 | 0x0Eu8)) by (bit_vector);
}

} // verus!
