//! Random faults: a request fails when a uniform draw from 1..=100 is at or
//! below the requested percentage.
use vstd::prelude::*;
use crate::status::{INTERNAL_SERVER_ERROR, OK};

verus! {

/// Relies on rand::random_range, which draws uniformly from the given range
/// with the thread-local generator (one per thread, so concurrent callers share
/// no generator state); the range is not empty, so it does not panic.
#[verifier::external_body]
fn draw_percentile() -> (r: u16)
    ensures
        1 <= r <= 100,
{
    rand::random_range(1u16..=100u16)
}

/// Whether a draw of `draw` fails a request made with `percent`.
pub open spec fn fails_at(percent: u16, draw: u16) -> bool {
    draw <= percent
}

/// Whether a request made with `percent` fails on the given draw.
pub fn fails_on_draw(percent: u16, draw: u16) -> (r: bool)
    ensures
        r == fails_at(percent, draw),
{
    draw <= percent
}

/// Draws a value in 1..=100 and decides whether to inject a failure. A
/// percentage of zero never fails, one of 100 or more always does.
pub fn should_fail(percent: u16) -> (r: bool)
    ensures
        exists|draw: u16| 1 <= draw <= 100 && r == fails_at(percent, draw),
        percent == 0 ==> !r,
        percent >= 100 ==> r,
{
    let draw = draw_percentile();
    fails_on_draw(percent, draw)
}

/// The status of a request to the random-error endpoint on a given draw.
pub fn random_status(percent: u16, draw: u16) -> (r: u16)
    ensures
        r == (if fails_at(percent, draw) {
            INTERNAL_SERVER_ERROR
        } else {
            OK
        }),
{
    if fails_on_draw(percent, draw) {
        INTERNAL_SERVER_ERROR
    } else {
        OK
    }
}

/// The status of a request to the random-error endpoint: a server error with
/// the requested percentage as probability, success otherwise.
pub fn random_error(percent: u16) -> (r: u16)
    ensures
        exists|draw: u16|
            1 <= draw <= 100 && r == (if fails_at(percent, draw) {
                INTERNAL_SERVER_ERROR
            } else {
                OK
            }),
        percent == 0 ==> r == OK,
        percent >= 100 ==> r == INTERNAL_SERVER_ERROR,
{
    let draw = draw_percentile();
    random_status(percent, draw)
}

} // verus!
