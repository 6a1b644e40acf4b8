use crate::fault::HardwareFault;
use vstd::prelude::*;

verus! {

/// Mathematical state of an SPI channel mock.
#[verifier::ext_equal]
pub ghost struct SpiModel {
    /// The input buffer of every successful transfer, in call order;
    /// append-only.
    pub transfer_log: Seq<Seq<u8>>,
    /// Scripted full-duplex responses, consumed front to back, one per
    /// transfer.
    pub responses: Seq<Seq<u8>>,
    /// Index of the next unconsumed response.
    pub cursor: usize,
    /// Whether transfers currently fail. A toggle, not a sticky set: SPI
    /// models a transient bus fault, unlike the GPIO and I2C failure sets.
    pub failing: bool,
}

impl SpiModel {
    /// The state of a freshly constructed channel.
    pub open spec fn empty() -> SpiModel {
        SpiModel { transfer_log: Seq::empty(), responses: Seq::empty(), cursor: 0, failing: false }
    }

    /// State after appending a scripted response to the back of the queue.
    pub open spec fn add_response_step(self, data: Seq<u8>) -> SpiModel {
        SpiModel { responses: self.responses.push(data), ..self }
    }

    /// State after flipping the failure flag to `failing`.
    pub open spec fn set_failure_step(self, failing: bool) -> SpiModel {
        SpiModel { failing, ..self }
    }

    /// What the buffer holds after a successful transfer that sent `buf`:
    /// the next unconsumed response overwrites the head of the buffer (each
    /// keeps its own length: only the first `min` of the two lengths bytes
    /// change), or, with the queue exhausted, the buffer echoes back exactly
    /// what was sent.
    pub open spec fn transfer_buffer(self, buf: Seq<u8>) -> Seq<u8> {
        if self.cursor < self.responses.len() {
            let r = self.responses[self.cursor as int];
            let k = vstd::math::min(buf.len() as int, r.len() as int);
            r.take(k) + buf.skip(k)
        } else {
            buf
        }
    }

    /// State after a successful transfer that sent `buf`: the sent bytes are
    /// logged, and the cursor advances exactly when a response was consumed.
    pub open spec fn transfer_step(self, buf: Seq<u8>) -> SpiModel {
        let logged = SpiModel { transfer_log: self.transfer_log.push(buf), ..self };
        if self.cursor < self.responses.len() {
            SpiModel { cursor: (self.cursor + 1) as usize, ..logged }
        } else {
            logged
        }
    }
}

/// Abstract SPI capability: one full-duplex transfer, the buffer serving as
/// both input and output. Consumers depend on this interface, never on a
/// backend's internals; each backend pins its behaviour down through the two
/// spec functions.
pub trait Spi: Sized {
    /// What a backend demands before a transfer may be issued.
    spec fn transfer_req(self, buf: Seq<u8>) -> bool;

    /// What a transfer guarantees, relating the state and buffer before the
    /// call to the state and buffer after it.
    spec fn transfer_ens(self, post: Self, buf: Seq<u8>, buf_post: Seq<u8>, r: Result<
        (),
        HardwareFault,
    >) -> bool;

    /// Exchange the bytes in `data` with the device, in place.
    fn transfer(&mut self, data: &mut Vec<u8>) -> (r: Result<(), HardwareFault>)
        requires
            old(self).transfer_req(old(data)@),
        ensures
            old(self).transfer_ens(*final(self), old(data)@, final(data)@, r),
    ;
}

/// Scriptable in-memory SPI backend: logs every transfer's input, serves
/// queued responses first-in first-out, and fails while the failure flag is
/// up.
#[derive(Debug, Clone)]
pub struct MockSpi {
    transfer_log: Vec<Vec<u8>>,
    responses: Vec<Vec<u8>>,
    response_index: usize,
    should_fail: bool,
}

impl View for MockSpi {
    type V = SpiModel;

    closed spec fn view(&self) -> SpiModel {
        SpiModel {
            transfer_log: self.transfer_log@.map_values(|v: Vec<u8>| v@),
            responses: self.responses@.map_values(|v: Vec<u8>| v@),
            cursor: self.response_index,
            failing: self.should_fail,
        }
    }
}

impl MockSpi {
    /// A fresh channel: empty log, empty queue, failure flag down.
    pub fn new() -> (c: MockSpi)
        ensures
            c@ == SpiModel::empty(),
    {
        let c = MockSpi {
            transfer_log: Vec::new(),
            responses: Vec::new(),
            response_index: 0,
            should_fail: false,
        };
        proof {
            assert(c@ =~= SpiModel::empty());
        }
        c
    }

    /// Queue a scripted response behind any already queued: responses are
    /// consumed in the order they were added.
    pub fn add_response(&mut self, response: Vec<u8>)
        ensures
            final(self)@ == old(self)@.add_response_step(response@),
    {
        let ghost pre = self@;
        self.responses.push(response);
        proof {
            assert(self@.responses =~= pre.add_response_step(response@).responses);
            assert(self@ =~= pre.add_response_step(response@));
        }
    }

    /// Raise or lower the failure flag; transfers fail exactly while it is
    /// up.
    pub fn set_failure(&mut self, should_fail: bool)
        ensures
            final(self)@ == old(self)@.set_failure_step(should_fail),
    {
        let ghost pre = self@;
        self.should_fail = should_fail;
        proof {
            assert(self@ =~= pre.set_failure_step(should_fail));
        }
    }

    /// The input buffers of all successful transfers, in call order.
    pub fn get_transfer_log(&self) -> (log: &Vec<Vec<u8>>)
        ensures
            log@.len() == self@.transfer_log.len(),
            forall|i: int| 0 <= i < log@.len() ==> log@[i]@ == self@.transfer_log[i],
    {
        &self.transfer_log
    }
}

impl Default for MockSpi {
    /// Same as `MockSpi::new`.
    fn default() -> (c: MockSpi)
        ensures
            c@ == SpiModel::empty(),
    {
        MockSpi::new()
    }
}

impl Spi for MockSpi {
    /// Transfers are always admissible on the mock.
    open spec fn transfer_req(self, buf: Seq<u8>) -> bool {
        true
    }

    /// While the failure flag is up a transfer reports the fault and leaves
    /// channel and buffer exactly as they were — the input is not even
    /// logged. Otherwise the sent bytes are logged, and the buffer receives
    /// the next queued response, or comes back untouched once the queue is
    /// exhausted.
    open spec fn transfer_ens(self, post: Self, buf: Seq<u8>, buf_post: Seq<u8>, r: Result<
        (),
        HardwareFault,
    >) -> bool {
        if self@.failing {
            r == Err::<(), HardwareFault>(HardwareFault::SpiBus) && post@ == self@ && buf_post
                == buf
        } else {
            &&& r == Ok::<(), HardwareFault>(())
            &&& post@ == self@.transfer_step(buf)
            &&& buf_post == self@.transfer_buffer(buf)
        }
    }

    fn transfer(&mut self, data: &mut Vec<u8>) -> (r: Result<(), HardwareFault>) {
        if self.should_fail {
            return Err(HardwareFault::SpiBus);
        }
        let ghost pre = self@;
        let ghost buf0 = data@;
        let sent = vstd::slice::slice_to_vec(data.as_slice());
        self.transfer_log.push(sent);
        proof {
            assert(self@.transfer_log =~= pre.transfer_log.push(buf0));
        }
        if self.response_index < self.responses.len() {
            let response = &self.responses[self.response_index];
            let k = if data.len() < response.len() {
                data.len()
            } else {
                response.len()
            };
            let mut i: usize = 0;
            while i < k
                invariant
                    i <= k,
                    k <= data@.len(),
                    k <= response@.len(),
                    data@.len() == buf0.len(),
                    forall|j: int| 0 <= j < i ==> data@[j] == response@[j],
                    forall|j: int| i <= j < buf0.len() ==> data@[j] == buf0[j],
                decreases k - i,
            {
                data[i] = response[i];
                i += 1;
            }
            self.response_index = self.response_index + 1;
            proof {
                assert(data@ =~= pre.transfer_buffer(buf0));
                assert(self@ =~= pre.transfer_step(buf0));
            }
        } else {
            proof {
                assert(self@ =~= pre.transfer_step(buf0));
            }
        }
        Ok(())
    }
}

/// The model reached from `m` by successful transfers that sent the buffers
/// in `bufs`, in order.
pub open spec fn spi_transfer_step_n(m: SpiModel, bufs: Seq<Seq<u8>>) -> SpiModel
    decreases bufs.len(),
{
    if bufs.len() == 0 {
        m
    } else {
        spi_transfer_step_n(m, bufs.drop_last()).transfer_step(bufs.last())
    }
}

/// Successive transfers log exactly the buffers sent, in call order, leave
/// the response queue itself alone, and advance the cursor one consumed
/// response at a time until the queue is exhausted.
pub proof fn lemma_spi_transfer_steps_advance_cursor(m: SpiModel, bufs: Seq<Seq<u8>>)
    requires
        m.cursor <= m.responses.len(),
        m.responses.len() <= usize::MAX,
    ensures
        spi_transfer_step_n(m, bufs).transfer_log == m.transfer_log + bufs,
        spi_transfer_step_n(m, bufs).responses == m.responses,
        spi_transfer_step_n(m, bufs).failing == m.failing,
        spi_transfer_step_n(m, bufs).cursor == vstd::math::min(
            m.cursor + bufs.len(),
            m.responses.len() as int,
        ),
    decreases bufs.len(),
{
    if bufs.len() == 0 {
        assert(m.transfer_log + bufs =~= m.transfer_log);
    } else {
        lemma_spi_transfer_steps_advance_cursor(m, bufs.drop_last());
        assert((m.transfer_log + bufs.drop_last()).push(bufs.last()) =~= m.transfer_log + bufs);
    }
}

/// Law: queued responses are consumed first-in first-out, one per transfer —
/// the `i`-th transfer after a fresh queue receives the `i`-th queued
/// response — and a transfer issued after the queue is exhausted hands the
/// buffer back byte for byte as it was sent.
pub proof fn lemma_spi_responses_fifo(m: SpiModel, bufs: Seq<Seq<u8>>, i: int)
    requires
        m.cursor == 0,
        m.responses.len() <= usize::MAX,
        0 <= i < bufs.len(),
    ensures
        i < m.responses.len() ==> spi_transfer_step_n(m, bufs.take(i)).transfer_buffer(bufs[i])
            == ({
            let r = m.responses[i];
            let k = vstd::math::min(bufs[i].len() as int, r.len() as int);
            r.take(k) + bufs[i].skip(k)
        }),
        i >= m.responses.len() ==> spi_transfer_step_n(m, bufs.take(i)).transfer_buffer(bufs[i])
            == bufs[i],
{
    lemma_spi_transfer_steps_advance_cursor(m, bufs.take(i));
}

/// Law: the failure flag is a toggle, not sticky — raising it and lowering
/// it again restores a channel identical to one whose flag was simply
/// lowered, on which every transfer succeeds; the log and the queue are
/// untouched. This contrasts with the GPIO and I2C failure sets, which have
/// no removal step at all.
pub proof fn lemma_spi_failure_toggle(m: SpiModel)
    ensures
        ({
            let restored = m.set_failure_step(true).set_failure_step(false);
            &&& restored == (SpiModel { failing: false, ..m })
            &&& !restored.failing
            &&& restored.transfer_log == m.transfer_log
            &&& restored.responses == m.responses
            &&& restored.cursor == m.cursor
        }),
{
}

} // verus!
