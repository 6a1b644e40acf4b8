use crate::fault::HardwareFault;
use std::collections::HashMap;
use vstd::prelude::*;

verus! {

broadcast use vstd::std_specs::hash::group_hash_axioms;

/// Mathematical state of a GPIO port: what each operation reads and records.
///
/// Absent keys stand for pins never touched by the corresponding operation;
/// the accessor functions below supply the defaults.
#[verifier::ext_equal]
pub ghost struct GpioModel {
    /// Last level written to each pin.
    pub pin_states: Map<u8, bool>,
    /// How many writes have succeeded on each pin.
    pub write_counts: Map<u8, usize>,
    /// How many reads have succeeded on each pin.
    pub read_counts: Map<u8, usize>,
    /// Scripted levels that successive reads of a pin return.
    pub scripts: Map<u8, Seq<bool>>,
    /// Next unconsumed index into each pin's script.
    pub cursors: Map<u8, usize>,
    /// Pins on which every operation fails.
    pub failing: Set<u8>,
}

impl GpioModel {
    /// The state of a freshly constructed (or reset) port.
    pub open spec fn empty() -> GpioModel {
        GpioModel {
            pin_states: Map::empty(),
            write_counts: Map::empty(),
            read_counts: Map::empty(),
            scripts: Map::empty(),
            cursors: Map::empty(),
            failing: Set::empty(),
        }
    }

    /// Number of successful writes on `pin`; zero if never written.
    pub open spec fn write_count(self, pin: u8) -> usize {
        if self.write_counts.contains_key(pin) {
            self.write_counts[pin]
        } else {
            0
        }
    }

    /// Number of successful reads on `pin`; zero if never read.
    pub open spec fn read_count(self, pin: u8) -> usize {
        if self.read_counts.contains_key(pin) {
            self.read_counts[pin]
        } else {
            0
        }
    }

    /// The last level written to `pin`, or `None` if it was never written.
    pub open spec fn pin_state(self, pin: u8) -> Option<bool> {
        if self.pin_states.contains_key(pin) {
            Some(self.pin_states[pin])
        } else {
            None
        }
    }

    /// The script configured for `pin`; empty if none was configured.
    pub open spec fn script(self, pin: u8) -> Seq<bool> {
        if self.scripts.contains_key(pin) {
            self.scripts[pin]
        } else {
            Seq::empty()
        }
    }

    /// The next unconsumed index into `pin`'s script; zero if never set.
    pub open spec fn cursor(self, pin: u8) -> usize {
        if self.cursors.contains_key(pin) {
            self.cursors[pin]
        } else {
            0
        }
    }

    /// Whether `pin` is in the failure set.
    pub open spec fn is_failing(self, pin: u8) -> bool {
        self.failing.contains(pin)
    }

    /// What a read of `pin` falls back to once no scripted response applies:
    /// the last written level, or low if the pin was never written.
    pub open spec fn fallback(self, pin: u8) -> bool {
        if self.pin_states.contains_key(pin) {
            self.pin_states[pin]
        } else {
            false
        }
    }

    /// The level a successful read of `pin` returns: the next scripted
    /// response if one is unconsumed, otherwise the fallback level.
    pub open spec fn read_value(self, pin: u8) -> bool {
        if self.cursor(pin) < self.script(pin).len() {
            self.script(pin)[self.cursor(pin) as int]
        } else {
            self.fallback(pin)
        }
    }

    /// State after a successful write of `level` to `pin`.
    pub open spec fn write_step(self, pin: u8, level: bool) -> GpioModel {
        GpioModel {
            pin_states: self.pin_states.insert(pin, level),
            write_counts: self.write_counts.insert(pin, (self.write_count(pin) + 1) as usize),
            ..self
        }
    }

    /// State after a successful read of `pin`: the read is counted, and the
    /// script cursor advances exactly when it consumed a scripted response.
    pub open spec fn read_step(self, pin: u8) -> GpioModel {
        let counted = GpioModel {
            read_counts: self.read_counts.insert(pin, (self.read_count(pin) + 1) as usize),
            ..self
        };
        if self.cursor(pin) < self.script(pin).len() {
            GpioModel { cursors: self.cursors.insert(pin, (self.cursor(pin) + 1) as usize), ..counted }
        } else {
            counted
        }
    }

    /// State after replacing `pin`'s script: the new script is installed and
    /// its cursor rewinds to the start.
    pub open spec fn set_script_step(self, pin: u8, responses: Seq<bool>) -> GpioModel {
        GpioModel {
            scripts: self.scripts.insert(pin, responses),
            cursors: self.cursors.insert(pin, 0),
            ..self
        }
    }

    /// State after adding `pin` to the failure set. There is no inverse step:
    /// GPIO failures are sticky for the life of the port.
    pub open spec fn fail_step(self, pin: u8) -> GpioModel {
        GpioModel { failing: self.failing.insert(pin), ..self }
    }
}

/// Abstract GPIO capability: write a level to a pin, read a level back.
/// Consumers depend on this interface, never on a backend's internals; each
/// backend pins its behaviour down through the two spec functions per method.
pub trait Gpio: Sized {
    /// What a backend demands before a write may be issued.
    spec fn write_req(self, pin: u8) -> bool;

    /// What a write guarantees, relating the state before to the state after.
    spec fn write_ens(self, post: Self, pin: u8, level: bool, r: Result<
        (),
        HardwareFault,
    >) -> bool;

    /// What a backend demands before a read may be issued.
    spec fn read_req(self, pin: u8) -> bool;

    /// What a read guarantees, relating the state before to the state after.
    spec fn read_ens(self, post: Self, pin: u8, r: Result<bool, HardwareFault>) -> bool;

    /// Drive `pin` to `level`.
    fn write(&mut self, pin: u8, level: bool) -> (r: Result<(), HardwareFault>)
        requires
            old(self).write_req(pin),
        ensures
            old(self).write_ens(*final(self), pin, level, r),
    ;

    /// Sample the level of `pin`.
    fn read(&mut self, pin: u8) -> (r: Result<bool, HardwareFault>)
        requires
            old(self).read_req(pin),
        ensures
            old(self).read_ens(*final(self), pin, r),
    ;
}

/// Scriptable in-memory GPIO backend: records every operation, serves
/// scripted read responses in order, and fails on demand.
#[derive(Debug, Clone)]
pub struct MockGpio {
    pin_states: HashMap<u8, bool>,
    write_counts: HashMap<u8, usize>,
    read_counts: HashMap<u8, usize>,
    scripted_responses: HashMap<u8, Vec<bool>>,
    response_indices: HashMap<u8, usize>,
    failure_pins: Vec<u8>,
}

impl View for MockGpio {
    type V = GpioModel;

    closed spec fn view(&self) -> GpioModel {
        GpioModel {
            pin_states: self.pin_states@,
            write_counts: self.write_counts@,
            read_counts: self.read_counts@,
            scripts: self.scripted_responses@.map_values(|v: Vec<bool>| v@),
            cursors: self.response_indices@,
            failing: self.failure_pins@.to_set(),
        }
    }
}

impl MockGpio {
    /// A fresh port: nothing written, nothing counted, nothing scripted,
    /// no failing pins.
    pub fn new() -> (g: MockGpio)
        ensures
            g@ == GpioModel::empty(),
    {
        let g = MockGpio {
            pin_states: HashMap::new(),
            write_counts: HashMap::new(),
            read_counts: HashMap::new(),
            scripted_responses: HashMap::new(),
            response_indices: HashMap::new(),
            failure_pins: Vec::new(),
        };
        proof {
            assert(g@ =~= GpioModel::empty());
        }
        g
    }

    /// Replace the scripted responses served by successive reads of `pin`,
    /// rewinding the pin's cursor to the start of the new script.
    pub fn set_scripted_responses(&mut self, pin: u8, responses: Vec<bool>)
        ensures
            final(self)@ == old(self)@.set_script_step(pin, responses@),
    {
        let ghost pre = self@;
        self.scripted_responses.insert(pin, responses);
        self.response_indices.insert(pin, 0);
        proof {
            assert(self@.scripts =~= pre.set_script_step(pin, responses@).scripts);
            assert(self@ =~= pre.set_script_step(pin, responses@));
        }
    }

    /// Make every operation on `pin` fail from now on. Idempotent, and
    /// sticky: only `reset` removes a pin from the failure set.
    pub fn set_pin_failure(&mut self, pin: u8)
        ensures
            final(self)@ == old(self)@.fail_step(pin),
    {
        let ghost pre = self@;
        let ghost pre_pins = self.failure_pins@;
        self.failure_pins.push(pin);
        proof {
            pre_pins.lemma_push_to_set_commute(pin);
            assert(self@ =~= pre.fail_step(pin));
        }
    }

    /// Number of successful writes on `pin` so far.
    pub fn get_write_count(&self, pin: u8) -> (n: usize)
        ensures
            n == self@.write_count(pin),
    {
        match self.write_counts.get(&pin) {
            Some(c) => *c,
            None => 0,
        }
    }

    /// Number of successful reads on `pin` so far.
    pub fn get_read_count(&self, pin: u8) -> (n: usize)
        ensures
            n == self@.read_count(pin),
    {
        match self.read_counts.get(&pin) {
            Some(c) => *c,
            None => 0,
        }
    }

    /// The last level written to `pin`, or `None` if it was never written.
    pub fn get_pin_state(&self, pin: u8) -> (s: Option<bool>)
        ensures
            s == self@.pin_state(pin),
    {
        match self.pin_states.get(&pin) {
            Some(v) => Some(*v),
            None => None,
        }
    }

    /// Return the port to its initial state: all records, scripts and
    /// failure injections are gone.
    pub fn reset(&mut self)
        ensures
            final(self)@ == GpioModel::empty(),
    {
        self.pin_states.clear();
        self.write_counts.clear();
        self.read_counts.clear();
        self.scripted_responses.clear();
        self.response_indices.clear();
        self.failure_pins.clear();
        proof {
            assert(self@ =~= GpioModel::empty());
        }
    }
}

impl Default for MockGpio {
    /// Same as `MockGpio::new`.
    fn default() -> (g: MockGpio)
        ensures
            g@ == GpioModel::empty(),
    {
        MockGpio::new()
    }
}

impl Gpio for MockGpio {
    /// The write counter must have room to grow by one.
    open spec fn write_req(self, pin: u8) -> bool {
        self@.write_count(pin) < usize::MAX
    }

    /// A write on a failing pin reports the fault and leaves the port
    /// exactly as it was; otherwise it counts the write and records the
    /// level, and nothing else changes.
    open spec fn write_ens(self, post: Self, pin: u8, level: bool, r: Result<
        (),
        HardwareFault,
    >) -> bool {
        if self@.is_failing(pin) {
            r == Err::<(), HardwareFault>(HardwareFault::GpioPin { pin }) && post@ == self@
        } else {
            r == Ok::<(), HardwareFault>(()) && post@ == self@.write_step(pin, level)
        }
    }

    /// The read counter must have room to grow by one.
    open spec fn read_req(self, pin: u8) -> bool {
        self@.read_count(pin) < usize::MAX
    }

    /// A read on a failing pin reports the fault and leaves the port exactly
    /// as it was; otherwise it counts the read, returns the next scripted
    /// response (consuming it) or else the fallback level, and changes
    /// nothing but the counter and the cursor.
    open spec fn read_ens(self, post: Self, pin: u8, r: Result<bool, HardwareFault>) -> bool {
        if self@.is_failing(pin) {
            r == Err::<bool, HardwareFault>(HardwareFault::GpioPin { pin }) && post@ == self@
        } else {
            r == Ok::<bool, HardwareFault>(self@.read_value(pin)) && post@ == self@.read_step(pin)
        }
    }

    fn write(&mut self, pin: u8, level: bool) -> (r: Result<(), HardwareFault>) {
        if crate::util::contains_byte(&self.failure_pins, pin) {
            return Err(HardwareFault::GpioPin { pin });
        }
        let ghost pre = self@;
        let count = match self.write_counts.get(&pin) {
            Some(c) => *c,
            None => 0,
        };
        self.write_counts.insert(pin, count + 1);
        self.pin_states.insert(pin, level);
        proof {
            assert(self@ =~= pre.write_step(pin, level));
        }
        Ok(())
    }

    fn read(&mut self, pin: u8) -> (r: Result<bool, HardwareFault>) {
        if crate::util::contains_byte(&self.failure_pins, pin) {
            return Err(HardwareFault::GpioPin { pin });
        }
        let ghost pre = self@;
        let count = match self.read_counts.get(&pin) {
            Some(c) => *c,
            None => 0,
        };
        self.read_counts.insert(pin, count + 1);
        if let Some(responses) = self.scripted_responses.get(&pin) {
            let index = match self.response_indices.get(&pin) {
                Some(i) => *i,
                None => 0,
            };
            if index < responses.len() {
                let response = responses[index];
                self.response_indices.insert(pin, index + 1);
                proof {
                    assert(self@ =~= pre.read_step(pin));
                }
                return Ok(response);
            }
        }
        let value = match self.pin_states.get(&pin) {
            Some(v) => *v,
            None => false,
        };
        proof {
            assert(self@ =~= pre.read_step(pin));
        }
        Ok(value)
    }
}

/// Law: on a fresh (or freshly reset) port every pin reports zero writes,
/// zero reads and no recorded level.
pub proof fn lemma_gpio_fresh_pin_reports_nothing(p: u8)
    ensures
        GpioModel::empty().write_count(p) == 0,
        GpioModel::empty().read_count(p) == 0,
        GpioModel::empty().pin_state(p) is None,
        !GpioModel::empty().is_failing(p),
{
}

/// Law: every operation touches only its own pin — so a pin never operated
/// on keeps reporting zero writes, zero reads and no recorded level, however
/// much the rest of the port is exercised.
pub proof fn lemma_gpio_operations_touch_only_their_pin(
    m: GpioModel,
    pin: u8,
    level: bool,
    responses: Seq<bool>,
    q: u8,
)
    requires
        q != pin,
    ensures
        m.write_step(pin, level).write_count(q) == m.write_count(q),
        m.write_step(pin, level).read_count(q) == m.read_count(q),
        m.write_step(pin, level).pin_state(q) == m.pin_state(q),
        m.read_step(pin).write_count(q) == m.write_count(q),
        m.read_step(pin).read_count(q) == m.read_count(q),
        m.read_step(pin).pin_state(q) == m.pin_state(q),
        m.set_script_step(pin, responses).write_count(q) == m.write_count(q),
        m.set_script_step(pin, responses).read_count(q) == m.read_count(q),
        m.set_script_step(pin, responses).pin_state(q) == m.pin_state(q),
        m.fail_step(pin).write_count(q) == m.write_count(q),
        m.fail_step(pin).read_count(q) == m.read_count(q),
        m.fail_step(pin).pin_state(q) == m.pin_state(q),
        !m.fail_step(pin).is_failing(q) <==> !m.is_failing(q),
{
}

/// The model reached from `m` by `n` successful reads of `pin`.
pub open spec fn gpio_read_step_n(m: GpioModel, pin: u8, n: nat) -> GpioModel
    decreases n,
{
    if n == 0 {
        m
    } else {
        gpio_read_step_n(m, pin, (n - 1) as nat).read_step(pin)
    }
}

/// Successive reads leave the script, the written levels and the failure set
/// alone, and advance the cursor one consumed response at a time until the
/// script is exhausted.
pub proof fn lemma_gpio_read_steps_advance_cursor(m: GpioModel, pin: u8, n: nat)
    requires
        m.cursor(pin) <= m.script(pin).len(),
        m.script(pin).len() <= usize::MAX,
    ensures
        gpio_read_step_n(m, pin, n).script(pin) == m.script(pin),
        gpio_read_step_n(m, pin, n).pin_states == m.pin_states,
        gpio_read_step_n(m, pin, n).failing == m.failing,
        gpio_read_step_n(m, pin, n).cursor(pin) == vstd::math::min(
            m.cursor(pin) + n,
            m.script(pin).len() as int,
        ),
    decreases n,
{
    if n > 0 {
        lemma_gpio_read_steps_advance_cursor(m, pin, (n - 1) as nat);
    }
}

/// Law: scripted responses are consumed strictly in order and exactly once
/// each — the `i`-th read after a rewound script returns the `i`-th scripted
/// response — and once the script is exhausted, every further read returns
/// the last-written level (low if the pin was never written).
pub proof fn lemma_gpio_scripted_reads_in_order(m: GpioModel, pin: u8, i: nat)
    requires
        m.cursor(pin) == 0,
        m.script(pin).len() <= usize::MAX,
    ensures
        i < m.script(pin).len() ==> gpio_read_step_n(m, pin, i).read_value(pin) == m.script(
            pin,
        )[i as int],
        i >= m.script(pin).len() ==> gpio_read_step_n(m, pin, i).read_value(pin) == m.fallback(
            pin,
        ),
{
    lemma_gpio_read_steps_advance_cursor(m, pin, i);
}

} // verus!
