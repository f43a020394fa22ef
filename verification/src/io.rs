use vstd::prelude::*;

verus! {

/// The capability that the engine asks of its single I/O device.
///
/// The trait itself promises nothing: the value that `input` hands back and
/// what `output` does with a value are the device's own business. A device
/// that has more to say of itself says so in `input_spec` and `output_spec`,
/// and the port and the engine pass that on to their callers.
pub trait IODevice: Sized {
    /// What holds of an `input` that returns `value` and takes the device
    /// from `self` to `after`. Anything, unless the device says otherwise.
    open spec fn input_spec(&self, after: &Self, value: u32) -> bool {
        true
    }

    /// What holds of an `output` of `value` that takes the device from
    /// `self` to `after`. Anything, unless the device says otherwise.
    open spec fn output_spec(&self, after: &Self, value: u32) -> bool {
        true
    }

    /// Delivers the next value from the outside.
    fn input(&mut self) -> (value: u32)
        ensures
            old(self).input_spec(final(self), value),
    ;

    /// Hands `value` to the outside.
    fn output(&mut self, value: u32)
        ensures
            old(self).output_spec(final(self), value),
    ;
}

/// The port through which the engine reaches its one device.
///
/// Beside the device it keeps a record of the traffic: every value that came
/// in and every value that was sent out, oldest first.
pub struct IOController<D: IODevice> {
    device: D,
    received: Ghost<Seq<u32>>,
    sent: Ghost<Seq<u32>>,
}

impl<D: IODevice> IOController<D> {
    /// The values read from the device so far, oldest first.
    pub closed spec fn received(&self) -> Seq<u32> {
        self.received@
    }

    /// The values handed to the device so far, oldest first.
    pub closed spec fn sent(&self) -> Seq<u32> {
        self.sent@
    }

    /// The device behind the port.
    pub closed spec fn device_spec(&self) -> D {
        self.device
    }

    /// A port bound to `device`, with no traffic yet.
    pub fn new(device: D) -> (io: Self)
        ensures
            io.device_spec() == device,
            io.received() == Seq::<u32>::empty(),
            io.sent() == Seq::<u32>::empty(),
    {
        IOController { device, received: Ghost(Seq::empty()), sent: Ghost(Seq::empty()) }
    }

    /// Reads one value from the device and records it.
    pub fn input(&mut self) -> (value: u32)
        ensures
            final(self).received() == old(self).received().push(value),
            final(self).sent() == old(self).sent(),
            old(self).device_spec().input_spec(&final(self).device_spec(), value),
    {
        let value: u32 = self.device.input();
        proof {
            self.received@ = self.received@.push(value);
        }
        value
    }

    /// Hands `value` to the device and records it.
    pub fn output(&mut self, value: u32)
        ensures
            final(self).sent() == old(self).sent().push(value),
            final(self).received() == old(self).received(),
            old(self).device_spec().output_spec(&final(self).device_spec(), value),
    {
        self.device.output(value);
        proof {
            self.sent@ = self.sent@.push(value);
        }
    }

    /// Read access to the device.
    pub fn device(&self) -> (device: &D)
        ensures
            *device == self.device_spec(),
    {
        &self.device
    }

    /// Write access to the device; the record of the traffic is not touched.
    pub fn device_mut(&mut self) -> (device: &mut D)
        ensures
            *device == old(self).device_spec(),
            final(self).device_spec() == *final(device),
            final(self).received() == old(self).received(),
            final(self).sent() == old(self).sent(),
    {
        &mut self.device
    }
}

/// A device for experiments: it answers every `input` with a preset value and
/// remembers the last value it was given.
#[derive(Clone, Copy, Debug, PartialEq, Eq, Structural)]
pub struct MockIOController {
    next_input: u32,
    last_output: u32,
}

impl MockIOController {
    /// The value that the next `input` returns.
    pub closed spec fn next_input(&self) -> u32 {
        self.next_input
    }

    /// The value most recently given to `output`, zero before the first.
    pub closed spec fn last_output(&self) -> u32 {
        self.last_output
    }

    /// A device that answers zero and has seen no output.
    pub fn new() -> (mock: Self)
        ensures
            mock.next_input() == 0,
            mock.last_output() == 0,
    {
        MockIOController { next_input: 0, last_output: 0 }
    }

    /// Presets the value that `input` returns from now on.
    pub fn set_next_input(&mut self, value: u32)
        ensures
            final(self).next_input() == value,
            final(self).last_output() == old(self).last_output(),
    {
        self.next_input = value;
    }

    /// The value most recently given to `output`.
    pub fn get_last_output(&self) -> (value: u32)
        ensures
            value == self.last_output(),
    {
        self.last_output
    }
}

impl IODevice for MockIOController {
    /// An input returns the preset value and leaves the device as it was.
    open spec fn input_spec(&self, after: &Self, value: u32) -> bool {
        value == self.next_input() && *after == *self
    }

    /// An output is remembered as the last one; the preset value stays.
    open spec fn output_spec(&self, after: &Self, value: u32) -> bool {
        after.last_output() == value && after.next_input() == self.next_input()
    }

    fn input(&mut self) -> (value: u32) {
        self.next_input
    }

    fn output(&mut self, value: u32) {
        self.last_output = value;
    }
}

} // verus!
