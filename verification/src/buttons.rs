//! Button debouncing and edge detection.
//!
//! A raw button level must hold steady for the debounce time before it
//! counts as a state change; the change is then reported as a rising or
//! falling edge, once.  A press that has held for a second is a long press.
//! The clock is injected as milliseconds, so the logic is independent of
//! where the time comes from; reading the pins themselves is the embedding
//! program's concern.

use vstd::prelude::*;

verus! {

/// How long a level must hold steady to count, in milliseconds.
pub const DEBOUNCE_MS: u64 = 50;

/// How long a press must hold to count as a long press, in milliseconds.
pub const LONG_PRESS_MS: u64 = 1000;

/// A debounced state change: the button went down (rising) or up (falling).
#[derive(Debug, Clone, Copy, PartialEq, Eq, Structural)]
pub enum Edge {
    Rising,
    Falling,
}

/// One button's debouncing state: the most recent raw level, the last
/// debounced (stable) level, when the raw level last changed, and when the
/// current press began, if one is in progress.
#[derive(Debug, Clone, Copy, PartialEq, Eq, Structural)]
pub struct ButtonState {
    pub current: bool,
    pub last_stable: bool,
    pub last_change_ms: u64,
    pub press_start: Option<u64>,
}

impl ButtonState {
    /// A released button, as of time `now_ms`.
    pub fn new(now_ms: u64) -> (s: ButtonState)
        ensures
            s == (ButtonState {
                current: false,
                last_stable: false,
                last_change_ms: now_ms,
                press_start: None,
            }),
    {
        ButtonState { current: false, last_stable: false, last_change_ms: now_ms, press_start: None }
    }

    /// Feed one raw sample taken at `now_ms` (which must not precede the
    /// previous sample).  A changed raw level only restarts the debounce
    /// clock.  A level that has held for the debounce time and differs from
    /// the last stable level becomes the new stable level and is reported
    /// as an edge; a rising edge starts the press clock, a falling edge
    /// clears it.  Anything else changes nothing.
    pub fn update(&mut self, new_level: bool, now_ms: u64) -> (edge: Option<Edge>)
        requires
            old(self).last_change_ms <= now_ms,
        ensures
            final(self).last_change_ms <= now_ms,
            new_level != old(self).current ==> {
                &&& *final(self) == (ButtonState {
                    current: new_level,
                    last_change_ms: now_ms,
                    ..*old(self)
                })
                &&& edge is None
            },
            new_level == old(self).current && now_ms - old(self).last_change_ms >= DEBOUNCE_MS
                && old(self).current != old(self).last_stable ==> {
                &&& *final(self) == (ButtonState {
                    last_stable: old(self).current,
                    press_start: (if old(self).current {
                        Some(now_ms)
                    } else {
                        None
                    }),
                    ..*old(self)
                })
                &&& edge == Some(
                    if old(self).current {
                        Edge::Rising
                    } else {
                        Edge::Falling
                    },
                )
            },
            new_level == old(self).current && !(now_ms - old(self).last_change_ms >= DEBOUNCE_MS
                && old(self).current != old(self).last_stable) ==> {
                &&& *final(self) == *old(self)
                &&& edge is None
            },
    {
        if new_level != self.current {
            self.current = new_level;
            self.last_change_ms = now_ms;
            return None;
        }

        if now_ms - self.last_change_ms >= DEBOUNCE_MS && self.current != self.last_stable {
            let edge = if self.current {
                self.press_start = Some(now_ms);
                Some(Edge::Rising)
            } else {
                self.press_start = None;
                Some(Edge::Falling)
            };
            self.last_stable = self.current;
            return edge;
        }

        None
    }

    /// Whether a press is in progress, stable, and at least the long-press
    /// time old at `now_ms`.
    pub fn is_long_press(&self, now_ms: u64) -> (r: bool)
        requires
            self.press_start matches Some(start) ==> start <= now_ms,
        ensures
            r == (match self.press_start {
                Some(start) => self.last_stable && now_ms - start >= LONG_PRESS_MS,
                None => false,
            }),
    {
        if let Some(start) = self.press_start {
            if self.last_stable {
                return now_ms - start >= LONG_PRESS_MS;
            }
        }
        false
    }
}

} // verus!
