use crate::fault::HardwareFault;
use std::collections::HashMap;
use vstd::prelude::*;

verus! {

broadcast use vstd::std_specs::hash::group_hash_axioms;

/// Mathematical state of an I2C bus mock.
#[verifier::ext_equal]
pub ghost struct I2cModel {
    /// Every successful write, in call order: the address and the bytes sent.
    /// Append-only; no entry is ever removed or changed.
    pub write_log: Seq<(u8, Seq<u8>)>,
    /// The byte sequence served on reads of each configured address.
    pub read_responses: Map<u8, Seq<u8>>,
    /// Addresses on which every operation fails.
    pub failing: Set<u8>,
}

impl I2cModel {
    /// The state of a freshly constructed bus.
    pub open spec fn empty() -> I2cModel {
        I2cModel { write_log: Seq::empty(), read_responses: Map::empty(), failing: Set::empty() }
    }

    /// Whether `address` is in the failure set.
    pub open spec fn is_failing(self, address: u8) -> bool {
        self.failing.contains(address)
    }

    /// State after a successful write: the entry is appended to the log and
    /// nothing else changes.
    pub open spec fn write_step(self, address: u8, data: Seq<u8>) -> I2cModel {
        I2cModel { write_log: self.write_log.push((address, data)), ..self }
    }

    /// State after installing (or overwriting) the read response served at
    /// `address`; the last configuration wins.
    pub open spec fn set_response_step(self, address: u8, data: Seq<u8>) -> I2cModel {
        I2cModel { read_responses: self.read_responses.insert(address, data), ..self }
    }

    /// State after adding `address` to the failure set. There is no inverse
    /// step: I2C failures are sticky for the life of the bus.
    pub open spec fn fail_step(self, address: u8) -> I2cModel {
        I2cModel { failing: self.failing.insert(address), ..self }
    }

    /// How many bytes a successful read of `address` into a buffer of length
    /// `n` reports: the configured response's length capped at `n`, or, with
    /// no response configured, the whole buffer length.
    pub open spec fn read_count(self, address: u8, n: nat) -> nat {
        if self.read_responses.contains_key(address) {
            vstd::math::min(n as int, self.read_responses[address].len() as int) as nat
        } else {
            n
        }
    }

    /// Buffer contents after a successful read of `address`: the first
    /// `read_count` bytes of the configured response, with the rest of the
    /// buffer untouched — or the whole buffer zero-filled when no response
    /// is configured at all.
    pub open spec fn read_buffer(self, address: u8, buf: Seq<u8>) -> Seq<u8> {
        if self.read_responses.contains_key(address) {
            let k = self.read_count(address, buf.len()) as int;
            self.read_responses[address].take(k) + buf.skip(k)
        } else {
            Seq::new(buf.len(), |i: int| 0u8)
        }
    }
}

/// Abstract I2C capability: write bytes to an address, read bytes back into
/// a caller-provided buffer. Consumers depend on this interface, never on a
/// backend's internals; each backend pins its behaviour down through the two
/// spec functions per method.
pub trait I2c: Sized {
    /// What a backend demands before a write may be issued.
    spec fn write_req(self, address: u8, data: Seq<u8>) -> bool;

    /// What a write guarantees, relating the state before to the state after.
    spec fn write_ens(self, post: Self, address: u8, data: Seq<u8>, r: Result<
        (),
        HardwareFault,
    >) -> bool;

    /// What a backend demands before a read may be issued.
    spec fn read_req(self, address: u8, buf: Seq<u8>) -> bool;

    /// What a read guarantees, relating the state and buffer before the call
    /// to the state and buffer after it.
    spec fn read_ens(self, post: Self, address: u8, buf: Seq<u8>, buf_post: Seq<u8>, r: Result<
        usize,
        HardwareFault,
    >) -> bool;

    /// Send `data` to the device at `address`.
    fn write(&mut self, address: u8, data: &[u8]) -> (r: Result<(), HardwareFault>)
        requires
            old(self).write_req(address, data@),
        ensures
            old(self).write_ens(*final(self), address, data@, r),
    ;

    /// Read from the device at `address` into `buffer`, returning how many
    /// bytes were filled in.
    fn read(&mut self, address: u8, buffer: &mut Vec<u8>) -> (r: Result<usize, HardwareFault>)
        requires
            old(self).read_req(address, old(buffer)@),
        ensures
            old(self).read_ens(*final(self), address, old(buffer)@, final(buffer)@, r),
    ;
}

/// Scriptable in-memory I2C backend: keeps a write-once audit trail of all
/// writes, serves configured read responses, and fails on demand.
#[derive(Debug, Clone)]
pub struct MockI2c {
    write_log: Vec<(u8, Vec<u8>)>,
    read_responses: HashMap<u8, Vec<u8>>,
    failure_addresses: Vec<u8>,
}

impl View for MockI2c {
    type V = I2cModel;

    closed spec fn view(&self) -> I2cModel {
        I2cModel {
            write_log: self.write_log@.map_values(|e: (u8, Vec<u8>)| (e.0, e.1@)),
            read_responses: self.read_responses@.map_values(|v: Vec<u8>| v@),
            failing: self.failure_addresses@.to_set(),
        }
    }
}

impl MockI2c {
    /// A fresh bus: empty log, no configured responses, no failing addresses.
    pub fn new() -> (b: MockI2c)
        ensures
            b@ == I2cModel::empty(),
    {
        let b = MockI2c {
            write_log: Vec::new(),
            read_responses: HashMap::new(),
            failure_addresses: Vec::new(),
        };
        proof {
            assert(b@ =~= I2cModel::empty());
        }
        b
    }

    /// Install the response served on reads of `address`, replacing any
    /// earlier one.
    pub fn set_read_response(&mut self, address: u8, data: Vec<u8>)
        ensures
            final(self)@ == old(self)@.set_response_step(address, data@),
    {
        let ghost pre = self@;
        self.read_responses.insert(address, data);
        proof {
            assert(self@.read_responses =~= pre.set_response_step(address, data@).read_responses);
            assert(self@ =~= pre.set_response_step(address, data@));
        }
    }

    /// Make every operation on `address` fail from now on. Idempotent, and
    /// sticky: the mock has no way back out of the failure set.
    pub fn set_address_failure(&mut self, address: u8)
        ensures
            final(self)@ == old(self)@.fail_step(address),
    {
        let ghost pre = self@;
        let ghost pre_addrs = self.failure_addresses@;
        self.failure_addresses.push(address);
        proof {
            pre_addrs.lemma_push_to_set_commute(address);
            assert(self@ =~= pre.fail_step(address));
        }
    }

    /// The full write log, in call order.
    pub fn get_write_log(&self) -> (log: &Vec<(u8, Vec<u8>)>)
        ensures
            log@.len() == self@.write_log.len(),
            forall|i: int|
                0 <= i < log@.len() ==> log@[i].0 == self@.write_log[i].0 && log@[i].1@
                    == self@.write_log[i].1,
    {
        &self.write_log
    }
}

impl Default for MockI2c {
    /// Same as `MockI2c::new`.
    fn default() -> (b: MockI2c)
        ensures
            b@ == I2cModel::empty(),
    {
        MockI2c::new()
    }
}

impl I2c for MockI2c {
    /// Writes are always admissible on the mock.
    open spec fn write_req(self, address: u8, data: Seq<u8>) -> bool {
        true
    }

    /// A write on a failing address reports the fault and leaves the bus
    /// exactly as it was; otherwise it appends the entry to the log and
    /// changes nothing else.
    open spec fn write_ens(self, post: Self, address: u8, data: Seq<u8>, r: Result<
        (),
        HardwareFault,
    >) -> bool {
        if self@.is_failing(address) {
            r == Err::<(), HardwareFault>(HardwareFault::I2cAddress { address }) && post@ == self@
        } else {
            r == Ok::<(), HardwareFault>(()) && post@ == self@.write_step(address, data)
        }
    }

    /// Reads are always admissible on the mock.
    open spec fn read_req(self, address: u8, buf: Seq<u8>) -> bool {
        true
    }

    /// A read on a failing address reports the fault and leaves bus and
    /// buffer exactly as they were. Otherwise the bus is unchanged and the
    /// buffer receives the configured response: its first `read_count` bytes
    /// with the tail untouched — or all zeroes for the buffer's full length
    /// when no response is configured.
    open spec fn read_ens(self, post: Self, address: u8, buf: Seq<u8>, buf_post: Seq<u8>, r: Result<
        usize,
        HardwareFault,
    >) -> bool {
        if self@.is_failing(address) {
            r == Err::<usize, HardwareFault>(HardwareFault::I2cAddress { address }) && post@
                == self@ && buf_post == buf
        } else {
            &&& post@ == self@
            &&& r == Ok::<usize, HardwareFault>(self@.read_count(address, buf.len()) as usize)
            &&& buf_post == self@.read_buffer(address, buf)
        }
    }

    fn write(&mut self, address: u8, data: &[u8]) -> (r: Result<(), HardwareFault>) {
        if crate::util::contains_byte(&self.failure_addresses, address) {
            return Err(HardwareFault::I2cAddress { address });
        }
        let ghost pre = self@;
        let entry = (address, vstd::slice::slice_to_vec(data));
        self.write_log.push(entry);
        proof {
            assert(self@.write_log =~= pre.write_step(address, data@).write_log);
            assert(self@ =~= pre.write_step(address, data@));
        }
        Ok(())
    }

    fn read(&mut self, address: u8, buffer: &mut Vec<u8>) -> (r: Result<usize, HardwareFault>) {
        if crate::util::contains_byte(&self.failure_addresses, address) {
            return Err(HardwareFault::I2cAddress { address });
        }
        let ghost pre = self@;
        let ghost buf0 = buffer@;
        match self.read_responses.get(&address) {
            Some(response) => {
                let k = if buffer.len() < response.len() {
                    buffer.len()
                } else {
                    response.len()
                };
                let mut i: usize = 0;
                while i < k
                    invariant
                        i <= k,
                        k <= buffer@.len(),
                        k <= response@.len(),
                        buffer@.len() == buf0.len(),
                        forall|j: int| 0 <= j < i ==> buffer@[j] == response@[j],
                        forall|j: int| i <= j < buf0.len() ==> buffer@[j] == buf0[j],
                    decreases k - i,
                {
                    buffer[i] = response[i];
                    i += 1;
                }
                proof {
                    assert(buffer@ =~= pre.read_buffer(address, buf0));
                }
                Ok(k)
            },
            None => {
                let n = buffer.len();
                let mut i: usize = 0;
                while i < n
                    invariant
                        i <= n,
                        buffer@.len() == n,
                        forall|j: int| 0 <= j < i ==> buffer@[j] == 0u8,
                    decreases n - i,
                {
                    buffer[i] = 0;
                    i += 1;
                }
                proof {
                    assert(buffer@ =~= pre.read_buffer(address, buf0));
                }
                Ok(n)
            },
        }
    }
}

/// The model reached from `m` by the given successful writes, in order.
pub open spec fn i2c_write_step_n(m: I2cModel, ops: Seq<(u8, Seq<u8>)>) -> I2cModel
    decreases ops.len(),
{
    if ops.len() == 0 {
        m
    } else {
        i2c_write_step_n(m, ops.drop_last()).write_step(ops.last().0, ops.last().1)
    }
}

/// Law: the write log is an append-only audit trail whose order equals call
/// order exactly — a sequence of successful writes appends precisely its
/// entries, in the order they were issued, and disturbs nothing that was
/// logged before.
pub proof fn lemma_i2c_write_log_is_call_order(m: I2cModel, ops: Seq<(u8, Seq<u8>)>)
    ensures
        i2c_write_step_n(m, ops).write_log == m.write_log + ops,
        i2c_write_step_n(m, ops).read_responses == m.read_responses,
        i2c_write_step_n(m, ops).failing == m.failing,
    decreases ops.len(),
{
    if ops.len() == 0 {
        assert(m.write_log + ops =~= m.write_log);
    } else {
        lemma_i2c_write_log_is_call_order(m, ops.drop_last());
        assert((m.write_log + ops.drop_last()).push(ops.last()) =~= m.write_log + ops);
    }
}

} // verus!
