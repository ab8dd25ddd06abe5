//! Asynchronous error flags: one sticky mask fed by several producers and
//! drained by one query, and the decoding of the hardware error registers.

use vstd::prelude::*;

verus! {

/// Two events were scheduled for one channel at one time.
pub const ASYNC_ERROR_COLLISION: u8 = 1;

/// An event reached a channel that was still busy.
pub const ASYNC_ERROR_BUSY: u8 = 2;

/// Events for one channel were submitted out of order.
pub const ASYNC_ERROR_SEQUENCE_ERROR: u8 = 4;

/// The kinds of asynchronous error that a destination reports.
#[derive(Debug, Clone, Copy, PartialEq, Eq, Structural)]
pub enum AsyncErrorKind {
    Collision,
    Busy,
    SequenceError,
}

impl AsyncErrorKind {
    /// The flag that stands for this kind in the mask.
    pub open spec fn flag(self) -> u8 {
        match self {
            AsyncErrorKind::Collision => ASYNC_ERROR_COLLISION,
            AsyncErrorKind::Busy => ASYNC_ERROR_BUSY,
            AsyncErrorKind::SequenceError => ASYNC_ERROR_SEQUENCE_ERROR,
        }
    }

    /// The flag that stands for this kind in the mask.
    pub fn mask(self) -> (flag: u8)
        ensures
            flag == self.flag(),
    {
        match self {
            AsyncErrorKind::Collision => ASYNC_ERROR_COLLISION,
            AsyncErrorKind::Busy => ASYNC_ERROR_BUSY,
            AsyncErrorKind::SequenceError => ASYNC_ERROR_SEQUENCE_ERROR,
        }
    }
}

/// The sticky mask of asynchronous errors seen since the last query. Its
/// view is the mask.
#[derive(Debug, PartialEq, Eq)]
pub struct AsyncErrors {
    seen: u8,
}

impl View for AsyncErrors {
    type V = u8;

    closed spec fn view(&self) -> u8 {
        self.seen
    }
}

impl AsyncErrors {
    /// The empty mask, as it stands at boot.
    pub fn new() -> (errors: AsyncErrors)
        ensures
            errors@ == 0,
    {
        AsyncErrors { seen: 0 }
    }

    /// Adds `flags` to the mask; what was seen before stays.
    pub fn record(&mut self, flags: u8)
        ensures
            final(self)@ == old(self)@ | flags,
    {
        self.seen = self.seen | flags;
    }
}

/// Reads the mask and clears it, in one step.
pub fn get_async_errors(seen: &mut AsyncErrors) -> (errors: u8)
    ensures
        errors == old(seen)@,
        final(seen)@ == 0,
{
    let errors: u8 = seen.seen;
    seen.seen = 0;
    errors
}

/// Flags recorded by two producers into an empty mask, in either order, are
/// both found by the next query, which leaves the mask empty.
pub proof fn lemma_flags_accumulate(first: u8, second: u8)
    ensures
        (0u8 | first) | second == first | second,
        (0u8 | second) | first == first | second,
        (first | second) & first == first,
        (first | second) & second == second,
{
    assert((0u8 | first) | second == first | second) by (bit_vector);
    assert((0u8 | second) | first == first | second) by (bit_vector);
    assert((first | second) & first == first) by (bit_vector);
    assert((first | second) & second == second) by (bit_vector);
}

/// Which asynchronous errors a value of the hardware error register names.
#[derive(Debug, Clone, Copy, PartialEq, Eq, Structural)]
pub struct AsyncErrorReport {
    pub collision: bool,
    pub busy: bool,
    pub sequence_error: bool,
}

/// The report that the register value `errors` stands for.
pub open spec fn async_report(errors: u8) -> AsyncErrorReport {
    AsyncErrorReport {
        collision: errors & ASYNC_ERROR_COLLISION != 0,
        busy: errors & ASYNC_ERROR_BUSY != 0,
        sequence_error: errors & ASYNC_ERROR_SEQUENCE_ERROR != 0,
    }
}

/// One round of the error poll, on a non-zero value `errors` of the hardware
/// error register: the value is folded into the mask, and the report says
/// for which kinds the offending channel is to be read and logged. The
/// caller then writes `errors` back to the register to clear it.
pub fn async_error_thread(seen: &mut AsyncErrors, errors: u8) -> (report: AsyncErrorReport)
    ensures
        report == async_report(errors),
        final(seen)@ == old(seen)@ | errors,
{
    seen.record(errors);
    AsyncErrorReport {
        collision: errors & ASYNC_ERROR_COLLISION != 0,
        busy: errors & ASYNC_ERROR_BUSY != 0,
        sequence_error: errors & ASYNC_ERROR_SEQUENCE_ERROR != 0,
    }
}

/// Which local protocol errors a link's error register names.
#[derive(Debug, Clone, Copy, PartialEq, Eq, Structural)]
pub struct LocalErrors {
    /// A packet of an unknown type was received.
    pub unknown_packet_type: bool,
    /// A truncated packet was received.
    pub truncated_packet: bool,
    /// The remote buffer space was not reported in time.
    pub buffer_space_timeout: bool,
}

/// The local errors that the register value `errors` stands for.
pub open spec fn local_errors(errors: u8) -> LocalErrors {
    LocalErrors {
        unknown_packet_type: errors & 1 != 0,
        truncated_packet: errors & 2 != 0,
        buffer_space_timeout: errors & 4 != 0,
    }
}

/// Decodes a link's protocol error register: nothing to log for zero,
/// otherwise which of the three conditions were flagged.
pub fn process_local_errors(errors: u8) -> (found: Option<LocalErrors>)
    ensures
        found == if errors == 0 {
            None
        } else {
            Some(local_errors(errors))
        },
{
    if errors != 0 {
        Some(
            LocalErrors {
                unknown_packet_type: errors & 1 != 0,
                truncated_packet: errors & 2 != 0,
                buffer_space_timeout: errors & 4 != 0,
            },
        )
    } else {
        None
    }
}

} // verus!
