//! A measurement's frequency response as the chart shows it: its colour,
//! whether it is shown, and its computed and smoothed curves.
use vstd::prelude::*;
use rand::Rng;

use crate::analysis::Computation;

verus! {

/// A colour of 8 bits per channel.
#[derive(Debug, Clone, Copy, PartialEq, Eq, Structural)]
pub struct Rgb8 {
    pub r: u8,
    pub g: u8,
    pub b: u8,
}

/// Calls `rand::thread_rng().gen_range(0..high)`: a value drawn uniformly
/// from `0..high`; nothing more is known of it.
#[verifier::external_body]
fn random_below(high: u8) -> (r: u8)
    requires
        high > 0,
    ensures
        r < high,
{
    rand::thread_rng().gen_range(0..high)
}

/// A random colour; no channel reaches 255.
pub fn random_color() -> (c: Rgb8)
    ensures
        c.r < 255 && c.g < 255 && c.b < 255,
{
    let max_color_value: u8 = 255;
    let r = random_below(max_color_value);
    let g = random_below(max_color_value);
    let b = random_below(max_color_value);
    Rgb8 { r, g, b }
}

/// A computed frequency response `D`, the curve `L` drawn for it, and the
/// curve of the smoothing chosen, once that is computed.
#[derive(Debug, Clone)]
pub struct Data<D, L> {
    pub origin: D,
    pub base_smoothed: L,
    pub smoothed: Option<L>,
}

/// One entry of the frequency-response chart.
#[derive(Debug, Clone)]
pub struct FrequencyResponse<D, L> {
    pub color: Rgb8,
    pub is_shown: bool,
    pub state: Computation<Data<D, L>>,
}

impl<D, L> FrequencyResponse<D, L> {
    /// A shown entry in a random colour, with nothing computed yet.
    pub fn new() -> (r: Self)
        ensures
            r.is_shown,
            r.state is Idle,
            r.color.r < 255 && r.color.g < 255 && r.color.b < 255,
    {
        FrequencyResponse { color: random_color(), is_shown: true, state: Computation::Idle }
    }

    pub fn result(&self) -> (r: Option<&Data<D, L>>)
        ensures
            match self.state {
                Computation::Computed(d) => r == Some(&d),
                _ => r is None,
            },
    {
        self.state.result()
    }

    /// Stores a computed response and the curve drawn for it; any smoothing
    /// is to be computed anew.
    pub fn set_result(&mut self, origin: D, base_smoothed: L)
        ensures
            final(self).state == Computation::Computed(
                Data { origin, base_smoothed, smoothed: None },
            ),
            final(self).color == old(self).color,
            final(self).is_shown == old(self).is_shown,
    {
        self.state = Computation::Computed(Data { origin, base_smoothed, smoothed: None });
    }

    /// Stores the smoothed curve, where a response is computed; otherwise
    /// nothing changes. Returns whether it was stored.
    pub fn set_smoothed(&mut self, smoothed: L) -> (r: bool)
        ensures
            r == old(self).state is Computed,
            final(self).color == old(self).color,
            final(self).is_shown == old(self).is_shown,
            match old(self).state {
                Computation::Computed(d) => final(self).state == Computation::Computed(
                    Data { origin: d.origin, base_smoothed: d.base_smoothed, smoothed: Some(smoothed) },
                ),
                _ => final(self).state == old(self).state,
            },
    {
        if let Computation::Computed(data) = &mut self.state {
            data.smoothed = Some(smoothed);
            true
        } else {
            false
        }
    }

    /// Drops the smoothed curve, where a response is computed.
    pub fn reset_smoothing(&mut self)
        ensures
            final(self).color == old(self).color,
            final(self).is_shown == old(self).is_shown,
            match old(self).state {
                Computation::Computed(d) => final(self).state == Computation::Computed(
                    Data { origin: d.origin, base_smoothed: d.base_smoothed, smoothed: None },
                ),
                _ => final(self).state == old(self).state,
            },
    {
        if let Computation::Computed(data) = &mut self.state {
            data.smoothed = None;
        }
    }
}

} // verus!
