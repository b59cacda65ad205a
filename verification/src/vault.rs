//! Key-vault model: a closed set of named slots holding secret bytes.

use vstd::prelude::*;

verus! {

/// The closed set of key-vault slot identifiers.
///
/// `DeviceSecret` holds the device-unique secret, present only during the
/// boot phase that seeds the chain. `Chain` is the canonical chain slot and
/// `Scratch` the ephemeral working slot used during derivation. The
/// `Output*` slots are destinations callers may derive secrets into.
#[derive(Clone, Copy, Debug, PartialEq, Eq, Structural)]
pub enum KeySlot {
    DeviceSecret,
    Chain,
    Scratch,
    Output0,
    Output1,
    Output2,
    Output3,
}

/// Model of the key vault: each slot holds key material as plain bytes, and
/// an empty slot reads as erased.
///
/// A hardware vault never reveals slot contents; this model exposes them so
/// that chain seeding, extension and derivation can be stated and checked
/// over the values themselves, and so that a harness can inject key material.
pub struct KeyVault {
    device_secret: Vec<u8>,
    chain: Vec<u8>,
    scratch: Vec<u8>,
    output0: Vec<u8>,
    output1: Vec<u8>,
    output2: Vec<u8>,
    output3: Vec<u8>,
}

impl KeyVault {
    /// The bytes a slot currently holds; the empty sequence means erased.
    pub closed spec fn slot_value(self, slot: KeySlot) -> Seq<u8> {
        match slot {
            KeySlot::DeviceSecret => self.device_secret@,
            KeySlot::Chain => self.chain@,
            KeySlot::Scratch => self.scratch@,
            KeySlot::Output0 => self.output0@,
            KeySlot::Output1 => self.output1@,
            KeySlot::Output2 => self.output2@,
            KeySlot::Output3 => self.output3@,
        }
    }

    /// A vault with every slot erased.
    pub fn new() -> (r: KeyVault)
        ensures
            forall|s: KeySlot| #[trigger] r.slot_value(s) == Seq::<u8>::empty(),
    {
        KeyVault {
            device_secret: Vec::new(),
            chain: Vec::new(),
            scratch: Vec::new(),
            output0: Vec::new(),
            output1: Vec::new(),
            output2: Vec::new(),
            output3: Vec::new(),
        }
    }

    /// Read a slot's current contents.
    pub fn read_slot(&self, slot: KeySlot) -> (r: &Vec<u8>)
        ensures
            r@ == self.slot_value(slot),
    {
        match slot {
            KeySlot::DeviceSecret => &self.device_secret,
            KeySlot::Chain => &self.chain,
            KeySlot::Scratch => &self.scratch,
            KeySlot::Output0 => &self.output0,
            KeySlot::Output1 => &self.output1,
            KeySlot::Output2 => &self.output2,
            KeySlot::Output3 => &self.output3,
        }
    }

    /// Load key material into a slot, replacing what it held. This is the
    /// platform's injection point, e.g. for the device-unique secret.
    pub fn write_slot(&mut self, slot: KeySlot, value: Vec<u8>)
        ensures
            final(self).slot_value(slot) == value@,
            forall|s: KeySlot| s != slot ==> #[trigger] final(self).slot_value(s)
                == old(self).slot_value(s),
    {
        match slot {
            KeySlot::DeviceSecret => { self.device_secret = value; }
            KeySlot::Chain => { self.chain = value; }
            KeySlot::Scratch => { self.scratch = value; }
            KeySlot::Output0 => { self.output0 = value; }
            KeySlot::Output1 => { self.output1 = value; }
            KeySlot::Output2 => { self.output2 = value; }
            KeySlot::Output3 => { self.output3 = value; }
        }
    }

    /// Erase a slot: afterwards it reads as empty. Idempotent.
    pub fn erase_slot(&mut self, slot: KeySlot)
        ensures
            final(self).slot_value(slot) == Seq::<u8>::empty(),
            forall|s: KeySlot| s != slot ==> #[trigger] final(self).slot_value(s)
                == old(self).slot_value(s),
    {
        self.write_slot(slot, Vec::new());
    }

    /// Whether a slot currently reads as erased.
    pub fn slot_is_erased(&self, slot: KeySlot) -> (r: bool)
        ensures
            r <==> self.slot_value(slot).len() == 0,
    {
        self.read_slot(slot).len() == 0
    }
}

} // verus!
