//! Transport contract required from the environment: byte-level write and
//! write-then-read transactions to an addressed bus device, plus a blocking
//! millisecond delay.

use vstd::prelude::*;

verus! {

/// The two bus operations the driver core needs.
///
/// The specification models the addressed device as a plain file of 256
/// byte-wide registers, `reg_val`: a write transaction that sends
/// `[reg, d0, d1, ...]` stores `d0` at `reg`, `d1` at `reg + 1` and so on;
/// a write-then-read transaction that sends `[reg]` and reads `n` bytes
/// observes registers `reg ..= reg + n - 1` and stores nothing. Nothing
/// here says when a transaction fails: an implementation may fail always,
/// never, or at will, and a failed transaction may leave the register file
/// in any state.
///
/// This is an idealization of a live sensor: registers the device itself
/// updates between transactions (measurement data, latched interrupt
/// status) are outside it. Contracts proved against this trait hold of
/// implementations that meet it, such as an in-memory register file.
pub trait I2cTransport {
    /// The transport's own bus error type.
    type Error;

    /// The modeled register file: the byte the device holds at each address.
    spec fn reg_val(&self, reg: u8) -> u8;

    /// Send `data[0]` as the register pointer, then store `data[1..]` at
    /// consecutive register addresses from there.
    fn write(&mut self, dev_addr: u8, data: &Vec<u8>) -> (r: Result<(), Self::Error>)
        requires
            1 <= data@.len(),
            data@[0] + data@.len() - 1 <= 256,
        ensures
            r is Ok ==> forall|x: u8|
                #[trigger] final(self).reg_val(x) == if data@[0] <= x < data@[0] + data@.len()
                    - 1 {
                    data@[x - data@[0] + 1]
                } else {
                    old(self).reg_val(x)
                },
    ;

    /// Send `data[0]` as the register pointer, then read `buffer.len()`
    /// bytes from consecutive register addresses into `buffer`.
    fn write_read(&mut self, dev_addr: u8, data: &Vec<u8>, buffer: &mut Vec<u8>) -> (r: Result<
        (),
        Self::Error,
    >)
        requires
            data@.len() == 1,
            data@[0] + old(buffer)@.len() <= 256,
        ensures
            final(buffer)@.len() == old(buffer)@.len(),
            r is Ok ==> {
                &&& forall|i: int|
                    0 <= i < old(buffer)@.len() ==> final(buffer)@[i] == old(self).reg_val(
                        (data@[0] + i) as u8,
                    )
                &&& forall|x: u8| #[trigger] final(self).reg_val(x) == old(self).reg_val(x)
            },
    ;
}

/// A blocking, millisecond-granularity sleep the driver requests from its
/// environment; no cancellation, no contract beyond returning.
pub trait Delay {
    /// Block the calling thread for at least `ms` milliseconds.
    fn delay_ms(&mut self, ms: u32);
}

/// The bus error an in-memory register file never produces.
#[derive(Debug, Clone, Copy, PartialEq, Eq, Structural)]
pub struct NoBusError;

/// The transport contract's register-file model made executable: an
/// in-memory device of 256 byte-wide registers whose transactions always
/// succeed. A stand-in for a live sensor where none is attached.
pub struct RegisterFile {
    regs: Vec<u8>,
}

impl RegisterFile {
    #[verifier::type_invariant]
    spec fn inv(self) -> bool {
        self.regs@.len() == 256
    }

    /// A register file holding zero in every register.
    pub fn new() -> (r: RegisterFile)
        ensures
            forall|x: u8| #[trigger] r.reg_val(x) == 0u8,
    {
        let mut regs: Vec<u8> = Vec::new();
        while regs.len() < 256
            invariant
                regs@.len() <= 256,
                forall|i: int| 0 <= i < regs@.len() ==> regs@[i] == 0u8,
            decreases 256 - regs@.len(),
        {
            regs.push(0);
        }
        RegisterFile { regs }
    }

    /// Store `val` at `reg` directly, without a bus transaction.
    pub fn set(&mut self, reg: u8, val: u8)
        ensures
            forall|x: u8|
                #[trigger] final(self).reg_val(x) == if x == reg {
                    val
                } else {
                    old(self).reg_val(x)
                },
    {
        proof {
            use_type_invariant(&*self);
        }
        self.regs[reg as usize] = val;
    }

    /// Read the register at `reg` directly, without a bus transaction.
    pub fn get(&self, reg: u8) -> (r: u8)
        ensures
            r == self.reg_val(reg),
    {
        proof {
            use_type_invariant(self);
        }
        self.regs[reg as usize]
    }
}

impl I2cTransport for RegisterFile {
    type Error = NoBusError;

    closed spec fn reg_val(&self, reg: u8) -> u8 {
        self.regs@[reg as int]
    }

    fn write(&mut self, dev_addr: u8, data: &Vec<u8>) -> (r: Result<(), NoBusError>)
        ensures
            r is Ok,
    {
        proof {
            use_type_invariant(&*self);
        }
        let reg = data[0];
        let mut k: usize = 1;
        while k < data.len()
            invariant
                1 <= k <= data@.len(),
                data@[0] + data@.len() - 1 <= 256,
                reg == data@[0],
                self.regs@.len() == 256,
                forall|x: u8|
                    #[trigger] self.reg_val(x) == if reg <= x < reg + k - 1 {
                        data@[x - reg + 1]
                    } else {
                        old(self).reg_val(x)
                    },
            decreases data@.len() - k,
        {
            let idx: usize = reg as usize + (k - 1);
            let ghost prev = *self;
            self.regs[idx] = data[k];
            proof {
                assert forall|x: u8|
                    #[trigger] self.reg_val(x) == (if reg <= x < reg + k {
                        data@[x - reg + 1]
                    } else {
                        old(self).reg_val(x)
                    }) by {
                    assert(prev.reg_val(x) == (if reg <= x < reg + k - 1 {
                        data@[x - reg + 1]
                    } else {
                        old(self).reg_val(x)
                    }));
                    if x == idx as u8 {
                        assert(x as int == idx as int);
                        assert(x - reg + 1 == k as int);
                    } else {
                        assert(x as int != idx as int);
                        assert(self.reg_val(x) == prev.reg_val(x));
                    }
                }
            }
            k += 1;
        }
        Ok(())
    }

    fn write_read(&mut self, dev_addr: u8, data: &Vec<u8>, buffer: &mut Vec<u8>) -> (r: Result<
        (),
        NoBusError,
    >)
        ensures
            r is Ok,
    {
        proof {
            use_type_invariant(&*self);
        }
        let reg = data[0];
        let mut k: usize = 0;
        while k < buffer.len()
            invariant
                0 <= k <= buffer@.len(),
                buffer@.len() == old(buffer)@.len(),
                reg == data@[0],
                reg + buffer@.len() <= 256,
                self.regs@.len() == 256,
                *self == *old(self),
                forall|i: int| 0 <= i < k ==> buffer@[i] == self.reg_val((reg + i) as u8),
            decreases buffer@.len() - k,
        {
            let idx: usize = reg as usize + k;
            buffer[k] = self.regs[idx];
            k += 1;
        }
        Ok(())
    }
}

} // verus!
