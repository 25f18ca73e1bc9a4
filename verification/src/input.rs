//! Input → parameter mapping: one `step` per frame over the held keys.
//!
//! Keys are polled, not edge-triggered: a held key repeats its effect every
//! frame. The step applies the effects in a fixed order — zoom keys first,
//! then pan keys (which move by the already-updated zoom divided by 150),
//! then reset, then the detail keys.

use vstd::prelude::*;
use crate::fixed::sat_add_spec;
use crate::fixed::sat_sub_spec;
use crate::fixed::sat_add;
use crate::fixed::sat_sub;
use crate::view::ViewState;
use crate::view::init_spec;
use crate::view::pan_step_spec;
use crate::view::pan_step;
use crate::view::zoom_numer;
use crate::view::zoom_denom;
use crate::view::lemma_zoom_rational_positive;
use vstd::arithmetic::power::pow;

verus! {

/// Which of the mapped keys are held down during one frame.
#[derive(Clone, Copy, PartialEq, Eq, Structural, Debug)]
pub struct KeyState {
    /// Divide the zoom by 1.01.
    pub zoom_in: bool,
    /// Multiply the zoom by 1.01.
    pub zoom_out: bool,
    /// Move the offset up by zoom/150.
    pub pan_up: bool,
    /// Move the offset down by zoom/150.
    pub pan_down: bool,
    /// Move the offset right by zoom/150.
    pub pan_right: bool,
    /// Move the offset left by zoom/150.
    pub pan_left: bool,
    /// Restore offset (0, 0) and zoom 1.
    pub reset: bool,
    /// Raise the iteration limit by 1.
    pub detail_up: bool,
    /// Lower the iteration limit by 1, stopping at 0.
    pub detail_down: bool,
}

impl KeyState {
    /// No key held.
    pub fn none() -> (k: KeyState)
        ensures
            k == no_keys(),
    {
        KeyState {
            zoom_in: false,
            zoom_out: false,
            pan_up: false,
            pan_down: false,
            pan_right: false,
            pan_left: false,
            reset: false,
            detail_up: false,
            detail_down: false,
        }
    }
}

/// A frame in which no mapped key is held.
pub open spec fn no_keys() -> KeyState {
    KeyState {
        zoom_in: false,
        zoom_out: false,
        pan_up: false,
        pan_down: false,
        pan_right: false,
        pan_left: false,
        reset: false,
        detail_up: false,
        detail_down: false,
    }
}

/// The zoom exponent after the two zoom keys of one frame, each saturating
/// at the `i64` range ends.
pub open spec fn zoom_exp_after(e: int, k: KeyState) -> int {
    let e1 = if k.zoom_in && e > i64::MIN {
        e - 1
    } else {
        e
    };
    if k.zoom_out && e1 < i64::MAX {
        e1 + 1
    } else {
        e1
    }
}

/// The state one frame of held keys turns `v` into.
pub open spec fn step_spec(v: ViewState, k: KeyState) -> ViewState {
    let e = zoom_exp_after(v.zoom_exp as int, k);
    let d = pan_step_spec(e);
    let oy1 = if k.pan_up {
        sat_add_spec(v.offset_y as int, d)
    } else {
        v.offset_y as int
    };
    let oy2 = if k.pan_down {
        sat_sub_spec(oy1, d)
    } else {
        oy1
    };
    let ox1 = if k.pan_right {
        sat_add_spec(v.offset_x as int, d)
    } else {
        v.offset_x as int
    };
    let ox2 = if k.pan_left {
        sat_sub_spec(ox1, d)
    } else {
        ox1
    };
    let l1 = if k.detail_up && v.iteration_limit < u32::MAX {
        v.iteration_limit + 1
    } else {
        v.iteration_limit as int
    };
    let l2 = if k.detail_down && l1 > 0 {
        l1 - 1
    } else {
        l1
    };
    if k.reset {
        ViewState { zoom_exp: 0, offset_x: 0, offset_y: 0, iteration_limit: l2 as u32 }
    } else {
        ViewState {
            zoom_exp: e as i64,
            offset_x: ox2 as i64,
            offset_y: oy2 as i64,
            iteration_limit: l2 as u32,
        }
    }
}

impl ViewState {
    /// Apply one frame of held keys, in the fixed per-frame order.
    pub fn step(&mut self, k: &KeyState)
        ensures
            *final(self) == step_spec(*old(self), *k),
    {
        let mut e: i64 = self.zoom_exp;
        if k.zoom_in && e > i64::MIN {
            e = e - 1;
        }
        if k.zoom_out && e < i64::MAX {
            e = e + 1;
        }
        let d: i64 = pan_step(e);
        if k.pan_up {
            self.offset_y = sat_add(self.offset_y, d);
        }
        if k.pan_down {
            self.offset_y = sat_sub(self.offset_y, d);
        }
        if k.pan_right {
            self.offset_x = sat_add(self.offset_x, d);
        }
        if k.pan_left {
            self.offset_x = sat_sub(self.offset_x, d);
        }
        self.zoom_exp = e;
        if k.reset {
            self.zoom_exp = 0;
            self.offset_x = 0;
            self.offset_y = 0;
        }
        if k.detail_up && self.iteration_limit < u32::MAX {
            self.iteration_limit = self.iteration_limit + 1;
        }
        if k.detail_down && self.iteration_limit > 0 {
            self.iteration_limit = self.iteration_limit - 1;
        }
    }
}

/// The state reached from `v` after a whole sequence of frames.
pub open spec fn apply_keys(v: ViewState, keys: Seq<KeyState>) -> ViewState
    decreases keys.len(),
{
    if keys.len() == 0 {
        v
    } else {
        apply_keys(step_spec(v, keys[0]), keys.drop_first())
    }
}

/// `n` frames in which the same keys are held.
pub open spec fn hold_key(k: KeyState, n: nat) -> Seq<KeyState> {
    Seq::new(n, |i: int| k)
}

/// However the keys are held across any number of frames, the zoom stays
/// strictly positive: its exact value is a rational with positive numerator
/// and positive denominator, so it never reaches 0.
pub proof fn lemma_zoom_stays_positive(start: ViewState, keys: Seq<KeyState>)
    ensures
        zoom_numer(apply_keys(start, keys).zoom_exp as int) > 0,
        zoom_denom(apply_keys(start, keys).zoom_exp as int) > 0,
{
    lemma_zoom_rational_positive(apply_keys(start, keys).zoom_exp as int);
}

/// A frame whose keys include reset restores offset (0, 0) and zoom 1,
/// whatever the prior state and whatever else is held.
pub proof fn lemma_reset_restores(v: ViewState, k: KeyState)
    requires
        k.reset,
    ensures
        step_spec(v, k).zoom_exp == 0,
        step_spec(v, k).offset_x == 0,
        step_spec(v, k).offset_y == 0,
        zoom_numer(0) == 1,
        zoom_denom(0) == 1,
{
    vstd::arithmetic::power::lemma_pow0(101);
    vstd::arithmetic::power::lemma_pow0(100);
}

/// The iteration limit never goes below 0, and lowering it at 0 leaves it
/// at 0.
pub proof fn lemma_detail_floor(v: ViewState, k: KeyState)
    ensures
        step_spec(v, k).iteration_limit >= 0,
        v.iteration_limit == 0 && !k.detail_up ==> step_spec(v, k).iteration_limit == 0,
{
}

/// Holding only zoom-in for `n` frames lowers the zoom exponent by `n`
/// and touches nothing else.
pub proof fn lemma_hold_zoom_in(v: ViewState, n: nat)
    requires
        v.zoom_exp - n >= i64::MIN,
    ensures
        apply_keys(v, hold_key(zoom_in_only(), n)) == (ViewState {
            zoom_exp: (v.zoom_exp - n) as i64,
            offset_x: v.offset_x,
            offset_y: v.offset_y,
            iteration_limit: v.iteration_limit,
        }),
    decreases n,
{
    if n == 0 {
        assert(hold_key(zoom_in_only(), 0) =~= Seq::<KeyState>::empty());
    } else {
        let keys = hold_key(zoom_in_only(), n);
        assert(keys.drop_first() =~= hold_key(zoom_in_only(), (n - 1) as nat));
        lemma_hold_zoom_in(step_spec(v, zoom_in_only()), (n - 1) as nat);
    }
}

/// Holding only zoom-out for `n` frames raises the zoom exponent by `n`
/// and touches nothing else.
pub proof fn lemma_hold_zoom_out(v: ViewState, n: nat)
    requires
        v.zoom_exp + n <= i64::MAX,
    ensures
        apply_keys(v, hold_key(zoom_out_only(), n)) == (ViewState {
            zoom_exp: (v.zoom_exp + n) as i64,
            offset_x: v.offset_x,
            offset_y: v.offset_y,
            iteration_limit: v.iteration_limit,
        }),
    decreases n,
{
    if n == 0 {
        assert(hold_key(zoom_out_only(), 0) =~= Seq::<KeyState>::empty());
    } else {
        let keys = hold_key(zoom_out_only(), n);
        assert(keys.drop_first() =~= hold_key(zoom_out_only(), (n - 1) as nat));
        lemma_hold_zoom_out(step_spec(v, zoom_out_only()), (n - 1) as nat);
    }
}

/// A queued window event, reduced to what the loop reads of it.
#[derive(Clone, Copy, PartialEq, Eq, Structural, Debug)]
pub enum ViewEvent {
    /// The quit key went down.
    EscapePressed,
    /// Any other event; the loop ignores it.
    Other,
}

/// Decide from one queued event whether a window close is to be requested:
/// only a press of the quit key asks for one.
pub fn handle_window_event(event: &ViewEvent) -> (close: bool)
    ensures
        close == (*event matches ViewEvent::EscapePressed),
{
    match event {
        ViewEvent::EscapePressed => true,
        ViewEvent::Other => false,
    }
}

/// Only the zoom-in key held.
pub open spec fn zoom_in_only() -> KeyState {
    KeyState { zoom_in: true, ..no_keys() }
}

/// Only the zoom-out key held.
pub open spec fn zoom_out_only() -> KeyState {
    KeyState { zoom_out: true, ..no_keys() }
}

/// Starting from the defaults, holding zoom-in for `n` frames leaves the
/// zoom at exactly `1 / 1.01^n == 100^n / 101^n`, and holding zoom-out for
/// `n` frames leaves it at exactly `1.01^n == 101^n / 100^n`.
pub proof fn lemma_zoom_hold_from_start(n: nat)
    requires
        n <= i64::MAX,
    ensures
        zoom_numer(apply_keys(init_spec(), hold_key(zoom_in_only(), n)).zoom_exp as int) == pow(
            100,
            n,
        ),
        zoom_denom(apply_keys(init_spec(), hold_key(zoom_in_only(), n)).zoom_exp as int) == pow(
            101,
            n,
        ),
        zoom_numer(apply_keys(init_spec(), hold_key(zoom_out_only(), n)).zoom_exp as int) == pow(
            101,
            n,
        ),
        zoom_denom(apply_keys(init_spec(), hold_key(zoom_out_only(), n)).zoom_exp as int) == pow(
            100,
            n,
        ),
{
    lemma_hold_zoom_in(init_spec(), n);
    lemma_hold_zoom_out(init_spec(), n);
    if n == 0 {
        vstd::arithmetic::power::lemma_pow0(101);
        vstd::arithmetic::power::lemma_pow0(100);
    }
}

} // verus!
