//! Diagnostic byte sink: the model of the serial port used by an external
//! harness to observe the kernel. Unlike the text grid it has no geometry;
//! it is an ordered stream of bytes. The port transmission itself happens
//! outside the library.

use vstd::prelude::*;

use crate::locked::Locked;

verus! {

/// The diagnostic writer: everything sent so far, oldest byte first.
pub struct SerialWriter {
    transmitted: Vec<u8>,
}

impl View for SerialWriter {
    type V = Seq<u8>;

    closed spec fn view(&self) -> Seq<u8> {
        self.transmitted@
    }
}

impl SerialWriter {
    /// A fresh sink with nothing transmitted.
    pub fn new() -> (w: SerialWriter)
        ensures
            w@ == Seq::<u8>::empty(),
    {
        SerialWriter { transmitted: Vec::new() }
    }

    /// Everything transmitted so far, oldest byte first.
    pub fn transmitted(&self) -> (b: &[u8])
        ensures
            b@ == self@,
    {
        self.transmitted.as_slice()
    }

    /// Transmit one byte.
    pub fn write_byte(&mut self, byte: u8)
        ensures
            final(self)@ == old(self)@.push(byte),
    {
        self.transmitted.push(byte);
    }

    /// Transmit a byte string in order.
    pub fn write_string(&mut self, s: &[u8])
        ensures
            final(self)@ == old(self)@ + s@,
    {
        let ghost s0 = self@;
        let mut i: usize = 0;
        while i < s.len()
            invariant
                i <= s@.len(),
                self@ == s0 + s@.take(i as int),
            decreases s@.len() - i,
        {
            proof {
                assert(s@.take(i as int).push(s@[i as int]) =~= s@.take(i as int + 1));
                assert((s0 + s@.take(i as int)).push(s@[i as int]) =~= s0 + s@.take(i as int + 1));
            }
            self.write_byte(s[i]);
            i = i + 1;
        }
        proof {
            assert(s@.take(s@.len() as int) =~= s@);
            assert(s0 + s@.take(s@.len() as int) =~= old(self)@ + s@);
        }
    }
}

/// Write bytes to the diagnostic sink under its lock: the channel an
/// external harness observes.
pub fn serial_print(serial: &mut Locked<SerialWriter>, s: &[u8])
    requires
        !old(serial).is_held(),
    ensures
        !final(serial).is_held(),
        final(serial).inner()@ == old(serial).inner()@ + s@,
{
    let mut writer = serial.acquire();
    writer.write_string(s);
    serial.release(writer);
}

} // verus!
