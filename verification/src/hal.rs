//! The hardware behind the capabilities, as the host sees it, and a provider
//! that keeps everything in memory for machines without the hardware.

use vstd::prelude::*;
use vstd::slice::slice_to_vec;
use crate::error::HostError;
use crate::leds::{get_led_buffer, set_led_buffer, sync_leds, uniform, LedBuffer};

verus! {

/// What the host asks of the hardware. How a provider talks to the devices
/// is its own affair; every failure comes back as a value.
pub trait HardwareProvider {
    /// Writes `write_data` to the device at `addr`, then reads `read_len`
    /// bytes from it.
    fn i2c_transfer(&mut self, addr: u8, write_data: &[u8], read_len: u32) -> Result<
        Vec<u8>,
        HostError,
    >;

    /// Sends `data` and gives what came back while it was sent.
    fn spi_transfer(&mut self, data: &[u8]) -> Result<Vec<u8>, HostError>;

    /// Makes `pin` an input or an output.
    fn set_gpio_mode(&mut self, pin: u8, mode: &str) -> Result<(), HostError>;

    /// Drives `pin` high or low.
    fn write_gpio(&mut self, pin: u8, level: bool) -> Result<(), HostError>;

    /// Sets one pixel of the indicator buffer.
    fn set_led(&mut self, index: u8, r: u8, g: u8, b: u8) -> Result<(), HostError>;

    /// Pushes the indicator buffer to the strip.
    fn sync_leds(&mut self) -> Result<(), HostError>;

    /// Plays a named pattern on the buzzer at `pin`.
    fn buzz(&mut self, pin: u8, pattern: &str) -> Result<(), HostError>;

    /// Switches the fan at `pin`.
    fn set_fan(&mut self, pin: u8, on: bool) -> Result<(), HostError>;

    /// Whether the fan was last switched on.
    fn get_fan_state(&self, pin: u8) -> bool;
}

/// A provider without hardware: pixels and the fan's state are kept in
/// memory, the bus reads zeros, and the serial link echoes.
pub struct Hal {
    pub leds: LedBuffer,
    pub fan_on: bool,
}

impl Hal {
    /// A provider with every pixel off and the fan off.
    pub fn new() -> (hal: Self)
        ensures
            hal.leds@ == uniform((0u8, 0u8, 0u8)),
            !hal.fan_on,
    {
        Hal { leds: get_led_buffer(), fan_on: false }
    }

    /// The indicator buffer as it stands.
    pub fn get_buffer(&self) -> (buffer: LedBuffer)
        ensures
            buffer@ == self.leds@,
    {
        sync_leds(&self.leds)
    }
}

impl HardwareProvider for Hal {
    /// Reads `read_len` zeros, whatever is written.
    fn i2c_transfer(&mut self, addr: u8, write_data: &[u8], read_len: u32) -> (read: Result<
        Vec<u8>,
        HostError,
    >)
        ensures
            read matches Ok(bytes) && bytes@ == Seq::new(read_len as nat, |i: int| 0u8),
            *final(self) == *old(self),
    {
        let mut bytes: Vec<u8> = Vec::new();
        let mut n: u32 = 0;
        while n < read_len
            invariant
                n <= read_len,
                bytes@ == Seq::new(n as nat, |i: int| 0u8),
            decreases read_len - n,
        {
            bytes.push(0);
            n += 1;
            assert(bytes@ =~= Seq::new(n as nat, |i: int| 0u8));
        }
        Ok(bytes)
    }

    /// Gives back what was sent.
    fn spi_transfer(&mut self, data: &[u8]) -> (read: Result<Vec<u8>, HostError>)
        ensures
            read matches Ok(bytes) && bytes@ == data@,
            *final(self) == *old(self),
    {
        Ok(slice_to_vec(data))
    }

    /// Does nothing.
    fn set_gpio_mode(&mut self, pin: u8, mode: &str) -> (done: Result<(), HostError>)
        ensures
            done is Ok,
            *final(self) == *old(self),
    {
        Ok(())
    }

    /// Does nothing.
    fn write_gpio(&mut self, pin: u8, level: bool) -> (done: Result<(), HostError>)
        ensures
            done is Ok,
            *final(self) == *old(self),
    {
        Ok(())
    }

    /// Sets one pixel of the buffer. An index beyond the strip changes
    /// nothing.
    fn set_led(&mut self, index: u8, r: u8, g: u8, b: u8) -> (done: Result<(), HostError>)
        ensures
            done is Ok,
            final(self).leds@ == if index < 11 {
                old(self).leds@.update(index as int, (r, g, b))
            } else {
                old(self).leds@
            },
            final(self).fan_on == old(self).fan_on,
    {
        set_led_buffer(&mut self.leds, index, r, g, b);
        Ok(())
    }

    /// Has no strip to push to: the buffer stays as it is.
    fn sync_leds(&mut self) -> (done: Result<(), HostError>)
        ensures
            done is Ok,
            *final(self) == *old(self),
    {
        Ok(())
    }

    /// Does nothing.
    fn buzz(&mut self, pin: u8, pattern: &str) -> (done: Result<(), HostError>)
        ensures
            done is Ok,
            *final(self) == *old(self),
    {
        Ok(())
    }

    /// Remembers the state asked for.
    fn set_fan(&mut self, pin: u8, on: bool) -> (done: Result<(), HostError>)
        ensures
            done is Ok,
            final(self).fan_on == on,
            final(self).leds == old(self).leds,
    {
        self.fan_on = on;
        Ok(())
    }

    /// The state last asked for, whatever the pin.
    fn get_fan_state(&self, pin: u8) -> (on: bool)
        ensures
            on == self.fan_on,
    {
        self.fan_on
    }
}

} // verus!
