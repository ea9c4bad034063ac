//! The peripherals of the chip, handed out once.

use crate::leuart::LEUART;
use crate::usart::USART;
use vstd::prelude::*;

verus! {

/// Base address of the register block of LEUART0.
pub const LEUART0_BASE: u32 = 0x4004_a000;

/// Base address of the register block of USART0.
pub const USART0_BASE: u32 = 0x4001_0000;

/// Base address of the register block of USART1.
pub const USART1_BASE: u32 = 0x4001_0400;

/// Remembers whether the peripherals have been handed out.
///
/// There is to be one guard for the chip, kept for as long as the program
/// runs. It goes from free to taken and never back: the peripherals cannot
/// be returned.
pub struct Claim {
    taken: bool,
}

impl View for Claim {
    type V = bool;

    /// A guard is known by whether the peripherals are taken.
    closed spec fn view(&self) -> bool {
        self.taken
    }
}

impl Claim {
    /// A guard for peripherals that nobody has taken yet.
    pub fn new() -> (claim: Claim)
        ensures
            !claim@,
    {
        Claim { taken: false }
    }

    /// A guard for peripherals that are taken already.
    pub fn taken() -> (claim: Claim)
        ensures
            claim@,
    {
        Claim { taken: true }
    }

    /// Whether the peripherals are taken.
    pub fn is_taken(&self) -> (taken: bool)
        ensures
            taken == self@,
    {
        self.taken
    }
}

/// Peripherals contains all the serial peripherals of the chip.
///
/// Users should get an instance of this and then distribute the individual
/// peripherals wherever they need to go
pub struct Peripherals {
    pub leuart0: LEUART,
    pub usart0: USART,
    pub usart1: USART,
}

impl Peripherals {
    /// Whether an acquisition succeeds on a guard in state `taken`.
    pub open spec fn granted(taken: bool) -> bool {
        !taken
    }

    /// The state of a guard after an acquisition: taken, whatever it was.
    pub open spec fn after(taken: bool) -> bool {
        true
    }

    /// Whether each of `n` acquisitions succeeds that are made one after
    /// another on a guard that starts in state `taken`.
    pub open spec fn outcomes(taken: bool, n: nat) -> Seq<bool>
        decreases n,
    {
        if n == 0 {
            Seq::empty()
        } else {
            seq![Self::granted(taken)] + Self::outcomes(Self::after(taken), (n - 1) as nat)
        }
    }

    /// Holds of the peripherals as they are handed out: each is the one its
    /// name says.
    pub open spec fn wf(&self) -> bool {
        &&& self.leuart0@ == LEUART0_BASE
        &&& self.usart0@ == USART0_BASE
        &&& self.usart1@ == USART1_BASE
    }

    /// Gets the peripherals, if they haven't already been got.
    ///
    /// The guard is taken afterwards, so on one guard the first call gets
    /// the peripherals and every later call gets nothing. The call borrows
    /// the guard for itself, so two calls on one guard never overlap.
    pub fn get(claim: &mut Claim) -> (r: Option<Peripherals>)
        ensures
            final(claim)@ == Self::after(old(claim)@),
            r is Some <==> Self::granted(old(claim)@),
            r matches Some(peripherals) ==> peripherals.wf(),
    {
        if claim.taken {
            return None;
        }
        claim.taken = true;

        Some(
            Peripherals {
                leuart0: LEUART::at(LEUART0_BASE),
                usart0: USART::at(USART0_BASE),
                usart1: USART::at(USART1_BASE),
            },
        )
    }
}

/// Of any number of acquisitions made one after another on a fresh guard,
/// the first succeeds and every later one fails.
pub proof fn lemma_only_first_acquisition_succeeds(n: nat)
    ensures
        Peripherals::outcomes(false, n).len() == n,
        forall|i: int| 0 <= i < n ==> Peripherals::outcomes(false, n)[i] == (i == 0),
{
    if n > 0 {
        lemma_no_acquisition_succeeds_once_taken((n - 1) as nat);
    }
}

/// Of any number of acquisitions made on a guard that is taken, none
/// succeeds.
pub proof fn lemma_no_acquisition_succeeds_once_taken(n: nat)
    ensures
        Peripherals::outcomes(true, n).len() == n,
        forall|i: int| 0 <= i < n ==> !Peripherals::outcomes(true, n)[i],
    decreases n,
{
    if n > 0 {
        lemma_no_acquisition_succeeds_once_taken((n - 1) as nat);
    }
}

/// No two of the peripherals that are handed out share a register block.
pub proof fn lemma_peripherals_distinct(peripherals: Peripherals)
    requires
        peripherals.wf(),
    ensures
        peripherals.usart0@ != peripherals.usart1@,
        peripherals.leuart0@ != peripherals.usart0@,
        peripherals.leuart0@ != peripherals.usart1@,
{
}

} // verus!
