//! The bounded message log: a fixed-capacity ring buffer of
//! `(topic, body)` pairs from the `circular_buffer` crate, oldest entry
//! evicted on overflow.
//!
//! The buffer itself is outside code; `log_entries` names what it holds,
//! front to back, and the wrappers here state what each call does to that
//! sequence, as the crate's source shows.

use vstd::prelude::*;

verus! {

/// Fixed capacity of the message log; eviction is by count, not by time.
pub const MONITOR_LOG_LENGTH: usize = 256;

#[verifier::external_type_specification]
#[verifier::external_body]
#[verifier::reject_recursive_types(T)]
pub struct ExFixedCircularBuffer<T, const N: usize>(
    circular_buffer::FixedCircularBuffer<T, N>,
);

/// What the log buffer holds, front (oldest) to back (newest), as views.
pub uninterp spec fn log_entries(
    b: circular_buffer::FixedCircularBuffer<(String, String), MONITOR_LOG_LENGTH>,
) -> Seq<(Seq<char>, Seq<char>)>;

/// Relies on FixedCircularBuffer::new: returns an empty buffer.
#[verifier::external_body]
pub fn log_new() -> (b: circular_buffer::FixedCircularBuffer<(String, String), MONITOR_LOG_LENGTH>)
    ensures
        log_entries(b) == Seq::<(Seq<char>, Seq<char>)>::empty(),
{
    circular_buffer::FixedCircularBuffer::new()
}

/// Relies on CircularBuffer::push_back: appends at the back and, when the
/// buffer is at capacity, removes the front (oldest) element to make room.
#[verifier::external_body]
pub fn log_push(
    b: &mut circular_buffer::FixedCircularBuffer<(String, String), MONITOR_LOG_LENGTH>,
    item: (String, String),
)
    requires
        log_entries(*old(b)).len() <= MONITOR_LOG_LENGTH,
    ensures
        log_entries(*old(b)).len() < MONITOR_LOG_LENGTH ==> log_entries(*final(b)) == log_entries(
            *old(b),
        ).push((item.0@, item.1@)),
        log_entries(*old(b)).len() == MONITOR_LOG_LENGTH ==> log_entries(*final(b)) == log_entries(
            *old(b),
        ).drop_first().push((item.0@, item.1@)),
{
    b.push_back(item);
}

/// Relies on CircularBuffer::len: the number of elements in the buffer.
#[verifier::external_body]
pub fn log_len(
    b: &circular_buffer::FixedCircularBuffer<(String, String), MONITOR_LOG_LENGTH>,
) -> (n: usize)
    ensures
        n == log_entries(*b).len(),
{
    b.len()
}

/// Relies on CircularBuffer::to_vec: clones the elements into a `Vec`,
/// front to back, leaving the buffer unchanged.
#[verifier::external_body]
pub fn log_to_vec(
    b: &circular_buffer::FixedCircularBuffer<(String, String), MONITOR_LOG_LENGTH>,
) -> (v: Vec<(String, String)>)
    ensures
        v.deep_view() == log_entries(*b),
{
    b.to_vec()
}

} // verus!
