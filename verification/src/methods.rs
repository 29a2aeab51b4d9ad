//! The exported "add two numbers" function.
//!
//! The host hands the function an opaque arguments container; what the logic
//! reads of it is its arity and, for each position, whether it holds a signed
//! integer and which one. That is modelled by a sequence of [`ArgValue`].
//! Decoding asks for exactly two integers within the narrower host-facing
//! (32-bit) export range; the sum itself is accumulated in the wider `i64`,
//! so it can never overflow.

use vstd::prelude::*;

use crate::host::ErrorChannel;
use crate::host::ErrorKind;

verus! {

/// Smallest value of the narrower host-facing export range.
pub const EXPORT_MIN: i64 = -2147483648;

/// Largest value of the narrower host-facing export range.
pub const EXPORT_MAX: i64 = 2147483647;

/// One argument of the host-provided arguments container, as the exported
/// function reads it: a signed integer, or any other host object.
#[derive(Clone, Copy, Debug, PartialEq, Eq, Structural)]
pub enum ArgValue {
    Int(i64),
    NonInt,
}

/// `v` lies in the narrower range that the host-facing signature exports.
pub open spec fn in_export_range(v: i64) -> bool {
    EXPORT_MIN <= v && v <= EXPORT_MAX
}

/// What decoding the arguments container as a fixed two-integer signature
/// yields: the two integers, or nothing on wrong arity, a non-integer
/// argument, or an integer outside the export range.
pub open spec fn decode_two_ints(args: Seq<ArgValue>) -> Option<(i64, i64)> {
    if args.len() == 2 && args[0] is Int && args[1] is Int && in_export_range(args[0]->0)
        && in_export_range(args[1]->0) {
        Some((args[0]->0, args[1]->0))
    } else {
        None
    }
}

/// The outcome of one call of the exported sum function: the sum of the two
/// decoded integers, or the failure sentinel when decoding fails.
pub open spec fn add_numbers_spec(args: Seq<ArgValue>) -> Option<i64> {
    match decode_two_ints(args) {
        Some((a, b)) => Some((a + b) as i64),
        None => None,
    }
}

/// The exported "add two numbers" function.
///
/// Decodes the arguments as exactly two integers of the export range and
/// returns their signed sum, to be wrapped by the host as an integer object.
/// When decoding fails it returns the absent (null) sentinel and records the
/// argument-decode failure on the host's error channel, which the host
/// surfaces to the caller as a TypeError; the channel is untouched otherwise.
pub fn add_numbers(args: &Vec<ArgValue>, channel: &mut ErrorChannel) -> (result: Option<i64>)
    ensures
        result == add_numbers_spec(args@),
        decode_two_ints(args@) is Some ==> *final(channel) == *old(channel),
        decode_two_ints(args@) is None ==> final(channel).holds_error(
            ErrorKind::TypeError,
            "wrong argument type"@,
        ),
{
    if args.len() == 2 {
        let a_ok: Option<i64> = match args[0] {
            ArgValue::Int(v) => Some(v),
            ArgValue::NonInt => None,
        };
        let b_ok: Option<i64> = match args[1] {
            ArgValue::Int(v) => Some(v),
            ArgValue::NonInt => None,
        };
        if let (Some(a), Some(b)) = (a_ok, b_ok) {
            if EXPORT_MIN <= a && a <= EXPORT_MAX && EXPORT_MIN <= b && b <= EXPORT_MAX {
                return Some(a + b);
            }
        }
    }
    channel.record(ErrorKind::TypeError, "wrong argument type");
    None
}

/// Idempotence of the exported sum function: its outcome is a function of the
/// arguments alone, so repeated calls on the same inputs always produce the
/// same output.
pub proof fn lemma_add_numbers_idempotent(args1: Seq<ArgValue>, args2: Seq<ArgValue>)
    requires
        args1 == args2,
    ensures
        add_numbers_spec(args1) == add_numbers_spec(args2),
{
}

/// For every pair of signed integers within the export range, the call on
/// exactly those two arguments succeeds and its outcome equals their sum.
pub proof fn lemma_add_numbers_sums(a: i64, b: i64)
    requires
        in_export_range(a),
        in_export_range(b),
    ensures
        add_numbers_spec(seq![ArgValue::Int(a), ArgValue::Int(b)]) == Some((a + b) as i64),
{
}

/// Wrong arity, or any non-integer argument, makes the exported sum function
/// return the failure sentinel.
pub proof fn lemma_add_numbers_rejects(args: Seq<ArgValue>)
    requires
        args.len() != 2 || (exists|i: int| 0 <= i < args.len() && !((#[trigger] args[i]) is Int)),
    ensures
        add_numbers_spec(args) is None,
{
}

} // verus!
