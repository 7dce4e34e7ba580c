//! Exclusive, one-shot allocation of the chipset's pins.
//!
//! A claim checks the slot and marks it in one step, on a manager that the
//! caller holds exclusively. Where several threads share the manager, they
//! share it behind one lock, held for the whole of a claim: their claims then
//! take place one after the other, in some order, and the laws below hold of
//! every order.

use vstd::prelude::*;
use crate::error::PinError;
use crate::physical::hardware;
use crate::types::{Level, Pull};

verus! {

/// The table of pin slots: slot `i` is `true` once pin `i` has been claimed.
/// There is no way to release a pin.
pub struct PinManager {
    pin_state: [bool; 49],
}

/// A claimed pin that has not been given a direction yet. Only a successful
/// claim makes one, and giving it a direction uses it up.
pub struct ClaimedPin {
    pin: u8,
}

/// A claimed pin configured as an input, with its pull mode.
pub struct GpioInput {
    pin: u8,
    pull: Pull,
}

/// A claimed pin configured as an output, with the level it starts at.
pub struct GpioOutput {
    pin: u8,
    level: Level,
}

impl View for PinManager {
    type V = Seq<bool>;

    closed spec fn view(&self) -> Seq<bool> {
        self.pin_state@
    }
}

impl View for ClaimedPin {
    type V = u8;

    closed spec fn view(&self) -> u8 {
        self.pin
    }
}

/// The slot table after a claim of `pin`.
pub open spec fn claim_table(table: Seq<bool>, pin: u8) -> Seq<bool> {
    if pin < hardware::MAX_PINS && !table[pin as int] {
        table.update(pin as int, true)
    } else {
        table
    }
}

/// What a claim of `pin` answers: the index of the granted pin, or the error.
pub open spec fn claim_result(table: Seq<bool>, pin: u8) -> Result<u8, PinError> {
    if pin >= hardware::MAX_PINS {
        Err(PinError::InvalidPin(pin))
    } else if table[pin as int] {
        Err(PinError::PinInUse(pin))
    } else {
        Ok(pin)
    }
}

/// The slot table after the claims of `pins`, made one after the other.
pub open spec fn claims_table(table: Seq<bool>, pins: Seq<u8>) -> Seq<bool>
    decreases pins.len(),
{
    if pins.len() == 0 {
        table
    } else {
        claim_table(claims_table(table, pins.drop_last()), pins.last())
    }
}

/// What the claim number `k` of the claims `pins` answers, all of them made
/// one after the other on a table that starts as `table`.
pub open spec fn claims_answer(table: Seq<bool>, pins: Seq<u8>, k: int) -> Result<u8, PinError> {
    claim_result(claims_table(table, pins.take(k)), pins[k])
}

/// A slot is claimed after a run of claims exactly if it was claimed before
/// or one of the claims asked for it.
proof fn lemma_claims_table(table: Seq<bool>, pins: Seq<u8>, pin: u8)
    requires
        table.len() == hardware::MAX_PINS,
        pin < hardware::MAX_PINS,
    ensures
        claims_table(table, pins).len() == hardware::MAX_PINS,
        claims_table(table, pins)[pin as int] == (table[pin as int] || pins.contains(pin)),
    decreases pins.len(),
{
    if pins.len() == 0 {
    } else {
        let front = pins.drop_last();
        lemma_claims_table(table, front, pin);
        if pins.last() == pin {
            assert(pins[pins.len() - 1] == pin);
        } else if pins.contains(pin) {
            let i = choose|i: int| 0 <= i < pins.len() && pins[i] == pin;
            assert(front[i] == pin);
        } else if front.contains(pin) {
            let i = choose|i: int| 0 <= i < front.len() && front[i] == pin;
            assert(pins[i] == pin);
        }
    }
}

/// Exclusive claims: however many claims of one valid, still free pin are
/// made, and whatever other claims come between them, exactly one of them is
/// granted, and every other one is refused with `PinInUse`.
pub proof fn law_one_claim_wins(table: Seq<bool>, pins: Seq<u8>, pin: u8)
    requires
        table.len() == hardware::MAX_PINS,
        pin < hardware::MAX_PINS,
        !table[pin as int],
        pins.contains(pin),
    ensures
        exists|w: int|
            0 <= w < pins.len() && pins[w] == pin
                && #[trigger] claims_answer(table, pins, w) == Ok::<u8, PinError>(pin)
                && forall|k: int|
                    0 <= k < pins.len() && pins[k] == pin && k != w
                        ==> #[trigger] claims_answer(table, pins, k)
                            == Err::<u8, PinError>(PinError::PinInUse(pin)),
{
    let w = pins.index_of_first(pin).unwrap();
    pins.index_of_first_ensures(pin);
    lemma_claims_table(table, pins.take(w), pin);
    assert(!pins.take(w).contains(pin)) by {
        if pins.take(w).contains(pin) {
            let i = choose|i: int| 0 <= i < pins.take(w).len() && pins.take(w)[i] == pin;
            assert(pins[i] == pin);
        }
    }
    assert(claims_answer(table, pins, w) == Ok::<u8, PinError>(pin));
    assert forall|k: int| 0 <= k < pins.len() && pins[k] == pin && k != w implies #[trigger]
        claims_answer(table, pins, k) == Err::<u8, PinError>(PinError::PinInUse(pin)) by {
        lemma_claims_table(table, pins.take(k), pin);
        assert(pins.take(k)[w] == pin);
    }
}

/// A claim of a pin that is already taken is refused, whatever claims were
/// made before it, and so is every claim of an index outside the table, which
/// also leaves the table as it was.
pub proof fn law_refusals(table: Seq<bool>, pins: Seq<u8>, k: int)
    requires
        table.len() == hardware::MAX_PINS,
        0 <= k < pins.len(),
    ensures
        pins[k] >= hardware::MAX_PINS ==> claims_answer(table, pins, k) == Err::<u8, PinError>(
            PinError::InvalidPin(pins[k]),
        ) && claims_table(table, pins.take(k + 1)) == claims_table(table, pins.take(k)),
        pins[k] < hardware::MAX_PINS && table[pins[k] as int] ==> claims_answer(table, pins, k)
            == Err::<u8, PinError>(PinError::PinInUse(pins[k])),
{
    assert(pins.take(k + 1).drop_last() == pins.take(k));
    if pins[k] < hardware::MAX_PINS {
        lemma_claims_table(table, pins.take(k), pins[k]);
    }
}

impl ClaimedPin {
    /// Index of the claimed pin.
    pub fn pin(&self) -> (pin: u8)
        ensures
            pin == self@,
    {
        self.pin
    }

    /// Configures the pin as an input with the given pull mode.
    pub fn into_input(self, pull: Pull) -> (input: GpioInput)
        ensures
            input.spec_pin() == self@,
            input.spec_pull() == pull,
    {
        GpioInput { pin: self.pin, pull }
    }

    /// Configures the pin as an output that starts at the given level.
    pub fn into_output(self, level: Level) -> (output: GpioOutput)
        ensures
            output.spec_pin() == self@,
            output.spec_level() == level,
    {
        GpioOutput { pin: self.pin, level }
    }
}

impl GpioInput {
    pub closed spec fn spec_pin(&self) -> u8 {
        self.pin
    }

    pub closed spec fn spec_pull(&self) -> Pull {
        self.pull
    }

    /// Index of the pin.
    #[verifier::when_used_as_spec(spec_pin)]
    pub fn pin(&self) -> (pin: u8)
        ensures
            pin == self.spec_pin(),
    {
        self.pin
    }

    /// Pull mode the input is to be driven with.
    #[verifier::when_used_as_spec(spec_pull)]
    pub fn pull(&self) -> (pull: Pull)
        ensures
            pull == self.spec_pull(),
    {
        self.pull
    }
}

impl GpioOutput {
    pub closed spec fn spec_pin(&self) -> u8 {
        self.pin
    }

    pub closed spec fn spec_level(&self) -> Level {
        self.level
    }

    /// Index of the pin.
    #[verifier::when_used_as_spec(spec_pin)]
    pub fn pin(&self) -> (pin: u8)
        ensures
            pin == self.spec_pin(),
    {
        self.pin
    }

    /// Level the output starts at.
    #[verifier::when_used_as_spec(spec_level)]
    pub fn level(&self) -> (level: Level)
        ensures
            level == self.spec_level(),
    {
        self.level
    }
}

impl PinManager {
    pub fn new() -> (mgr: Self)
        ensures
            mgr@.len() == hardware::MAX_PINS,
            forall|i: int| 0 <= i < hardware::MAX_PINS ==> !mgr@[i],
    {
        PinManager { pin_state: [false; 49] }
    }

    /// Get a pin from the pin manager.
    ///
    /// This takes the pin: once taken, the pin cannot be retaken.
    pub fn get_pin(&mut self, pin: u8) -> (r: Result<ClaimedPin, PinError>)
        ensures
            final(self)@ == claim_table(old(self)@, pin),
            match r {
                Ok(handle) => claim_result(old(self)@, pin) == Ok::<u8, PinError>(handle@),
                Err(e) => claim_result(old(self)@, pin) == Err::<u8, PinError>(e),
            },
    {
        if pin >= hardware::MAX_PINS {
            return Err(PinError::InvalidPin(pin));
        }
        if self.pin_state[pin as usize] {
            return Err(PinError::PinInUse(pin));
        }
        self.pin_state[pin as usize] = true;
        Ok(ClaimedPin { pin })
    }

    /// Get a pin and designate it as an input.
    pub fn get_input(&mut self, pin: u8, pull: Pull) -> (r: Result<GpioInput, PinError>)
        ensures
            final(self)@ == claim_table(old(self)@, pin),
            match r {
                Ok(input) => claim_result(old(self)@, pin) == Ok::<u8, PinError>(input.pin())
                    && input.pull() == pull,
                Err(e) => claim_result(old(self)@, pin) == Err::<u8, PinError>(e),
            },
    {
        match self.get_pin(pin) {
            Ok(handle) => Ok(handle.into_input(pull)),
            Err(e) => Err(e),
        }
    }

    /// Get a pin and designate it as an output.
    pub fn get_output(&mut self, pin: u8, level: Level) -> (r: Result<GpioOutput, PinError>)
        ensures
            final(self)@ == claim_table(old(self)@, pin),
            match r {
                Ok(output) => claim_result(old(self)@, pin) == Ok::<u8, PinError>(output.pin())
                    && output.level() == level,
                Err(e) => claim_result(old(self)@, pin) == Err::<u8, PinError>(e),
            },
    {
        match self.get_pin(pin) {
            Ok(handle) => Ok(handle.into_output(level)),
            Err(e) => Err(e),
        }
    }

    /// The table has one slot for each pin of the chipset.
    pub proof fn table_len(&self)
        ensures
            self@.len() == hardware::MAX_PINS,
    {
    }

    /// Whether `pin` has been claimed. A pin outside the table never is.
    pub fn is_claimed(&self, pin: u8) -> (claimed: bool)
        ensures
            claimed == (pin < hardware::MAX_PINS && self@[pin as int]),
    {
        pin < hardware::MAX_PINS && self.pin_state[pin as usize]
    }
}

} // verus!
