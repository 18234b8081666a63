//! The gamepad report: the one record sent to the host, and its byte layout.
use vstd::prelude::*;

use crate::bits::{
    bit_at, get_bit_u8, lemma_bits_determine_byte, lemma_with_bit_changes_only_bit, set_bit_u8,
    with_bit,
};

verus! {

/// Number of fret switches, packed into bits `0..FRET_COUNT` of `frets`.
pub const FRET_COUNT: u8 = 6;

/// Number of button lines, packed into bits `0..BUTTON_COUNT` of `buttons`.
pub const BUTTON_COUNT: u8 = 5;

/// Bit of `buttons` that carries strum-up.
pub const STRUM_UP: u8 = 0;

/// Bit of `buttons` that carries strum-down.
pub const STRUM_DOWN: u8 = 1;

/// Bit of `buttons` that carries start.
pub const START: u8 = 2;

/// Bit of `buttons` that carries select.
pub const SELECT: u8 = 3;

/// Bit of `buttons` that carries the hero (whammy-toggle) button.
pub const HERO: u8 = 4;

/// Length of a report on the wire, in bytes.
pub const REPORT_LEN: usize = 4;

/// The state of the controller as the host sees it.
///
/// On the wire: `whammy` as a little-endian `u16`, then `frets`, then `buttons`.
#[derive(Clone, Copy, Debug, PartialEq, Eq, Structural)]
pub struct GamepadReport {
    /// Raw whammy-bar sample.
    pub whammy: u16,
    /// Bit `i` set when fret `i + 1` is pressed; bits 6 and 7 are zero.
    pub frets: u8,
    /// Strum-up, strum-down, start, select and hero in bits 0 to 4; bits 5 to 7 are zero.
    pub buttons: u8,
}

/// `v` with bit `i` set to `flags[i]` for every index of `flags`, written from
/// index 0 upwards; bits at and above `flags.len()` are left as they were.
pub open spec fn with_flags(v: u8, flags: Seq<bool>) -> u8
    decreases flags.len(),
{
    if flags.len() == 0 {
        v
    } else {
        with_bit(with_flags(v, flags.drop_last()), (flags.len() - 1) as u8, flags.last())
    }
}

/// The report after writing `(button, state)` pairs into `buttons`, in order.
pub open spec fn with_button_writes(r: GamepadReport, writes: Seq<(u8, bool)>) -> GamepadReport
    decreases writes.len(),
{
    if writes.len() == 0 {
        r
    } else {
        let prev = with_button_writes(r, writes.drop_last());
        GamepadReport {
            whammy: prev.whammy,
            frets: prev.frets,
            buttons: with_bit(prev.buttons, writes.last().0, writes.last().1),
        }
    }
}

impl GamepadReport {
    /// The unused bits of `frets` and `buttons` are zero.
    pub open spec fn wf(&self) -> bool {
        self.frets < 64 && self.buttons < 32
    }

    /// Marks fret `fret` (counted from 0) as pressed or released.
    pub fn set_fret(&mut self, fret: u8, pressed: bool)
        requires
            fret < FRET_COUNT,
        ensures
            final(self).frets == with_bit(old(self).frets, fret, pressed),
            final(self).whammy == old(self).whammy,
            final(self).buttons == old(self).buttons,
            old(self).wf() ==> final(self).wf(),
    {
        proof {
            lemma_with_bit_below(self.frets, fret, pressed, 64);
        }
        set_bit_u8(&mut self.frets, fret, pressed);
    }

    /// Marks button `button` (one of `STRUM_UP` to `HERO`) as active or not.
    pub fn set_button(&mut self, button: u8, active: bool)
        requires
            button < BUTTON_COUNT,
        ensures
            final(self).buttons == with_bit(old(self).buttons, button, active),
            final(self).whammy == old(self).whammy,
            final(self).frets == old(self).frets,
            old(self).wf() ==> final(self).wf(),
    {
        proof {
            lemma_with_bit_below(self.buttons, button, active, 32);
        }
        set_bit_u8(&mut self.buttons, button, active);
    }
}

impl Default for GamepadReport {
    /// The idle report: bar at rest, nothing pressed.
    fn default() -> (r: Self)
        ensures
            r.whammy == 0,
            r.frets == 0,
            r.buttons == 0,
            r.wf(),
    {
        GamepadReport { whammy: 0, frets: 0, buttons: 0 }
    }
}

impl GamepadReport {
    /// Whether fret `fret` (counted from 0) is marked pressed.
    pub fn fret_pressed(&self, fret: u8) -> (r: bool)
        requires
            fret < FRET_COUNT,
        ensures
            r == bit_at(self.frets, fret),
    {
        get_bit_u8(self.frets, fret)
    }

    /// Whether button `button` (one of `STRUM_UP` to `HERO`) is marked active.
    pub fn button_active(&self, button: u8) -> (r: bool)
        requires
            button < BUTTON_COUNT,
        ensures
            r == bit_at(self.buttons, button),
    {
        get_bit_u8(self.buttons, button)
    }

    /// The report as sent to the host: `whammy` little-endian, then `frets`, then `buttons`.
    pub fn to_bytes(&self) -> (r: [u8; REPORT_LEN])
        ensures
            r@ == seq![
                (self.whammy % 256) as u8,
                (self.whammy / 256) as u8,
                self.frets,
                self.buttons,
            ],
    {
        let lo: u8 = (self.whammy % 256) as u8;
        let hi: u8 = (self.whammy / 256) as u8;
        let r: [u8; REPORT_LEN] = [lo, hi, self.frets, self.buttons];
        assert(r@ =~= seq![lo, hi, self.frets, self.buttons]);
        r
    }
}

/// Bit `j` of `with_flags(v, flags)` is `flags[j]` below `flags.len()` and bit `j` of `v` above.
pub proof fn lemma_with_flags_bits(v: u8, flags: Seq<bool>)
    requires
        flags.len() <= 8,
    ensures
        forall|j: u8|
            j < 8 ==> #[trigger] bit_at(with_flags(v, flags), j) == if (j as int) < flags.len() {
                flags[j as int]
            } else {
                bit_at(v, j)
            },
    decreases flags.len(),
{
    if flags.len() > 0 {
        let prev = flags.drop_last();
        let i = (flags.len() - 1) as u8;
        lemma_with_flags_bits(v, prev);
        lemma_with_bit_changes_only_bit(with_flags(v, prev), i, flags.last());
        assert forall|j: u8| j < 8 implies #[trigger] bit_at(with_flags(v, flags), j) == if (j
            as int) < flags.len() {
            flags[j as int]
        } else {
            bit_at(v, j)
        } by {
            if j != i {
                assert(bit_at(with_flags(v, flags), j) == bit_at(with_flags(v, prev), j));
            }
        }
    }
}

/// Writing the same flags a second time changes nothing.
pub proof fn lemma_with_flags_idempotent(v: u8, flags: Seq<bool>)
    requires
        flags.len() <= 8,
    ensures
        with_flags(with_flags(v, flags), flags) == with_flags(v, flags),
{
    let once = with_flags(v, flags);
    lemma_with_flags_bits(v, flags);
    lemma_with_flags_bits(once, flags);
    assert forall|j: u8| j < 8 implies bit_at(with_flags(once, flags), j) == bit_at(once, j) by {
        assert(bit_at(with_flags(once, flags), j) == bit_at(with_flags(once, flags), j));
        assert(bit_at(once, j) == bit_at(with_flags(v, flags), j));
    }
    lemma_bits_determine_byte(with_flags(once, flags), once);
}

/// Six fret states written into a fret field whose unused bits are zero read back
/// as exactly those states, and the two unused bits stay zero.
pub proof fn lemma_fret_round_trip(frets: u8, states: Seq<bool>)
    requires
        frets < 64,
        states.len() == FRET_COUNT,
    ensures
        forall|i: u8| i < FRET_COUNT ==> #[trigger] bit_at(with_flags(frets, states), i) == states[i as int],
        !bit_at(with_flags(frets, states), 6),
        !bit_at(with_flags(frets, states), 7),
        with_flags(frets, states) < 64,
{
    let w = with_flags(frets, states);
    lemma_with_flags_bits(frets, states);
    assert(bit_at(w, 6) == bit_at(frets, 6));
    assert(bit_at(w, 7) == bit_at(frets, 7));
    assert(frets < 64 ==> !bit_at(frets, 6) && !bit_at(frets, 7)) by (bit_vector);
    assert(!bit_at(w, 6) && !bit_at(w, 7) ==> w < 64) by (bit_vector);
}

/// Writing any sequence of button states into button bits 0 to 4 leaves `whammy`,
/// `frets` and every button bit that was not written as they were.
pub proof fn lemma_button_writes_independent(r: GamepadReport, writes: Seq<(u8, bool)>)
    requires
        forall|k: int| 0 <= k < writes.len() ==> (#[trigger] writes[k]).0 < BUTTON_COUNT,
    ensures
        with_button_writes(r, writes).whammy == r.whammy,
        with_button_writes(r, writes).frets == r.frets,
        forall|j: u8|
            j < 8 && (forall|k: int| 0 <= k < writes.len() ==> (#[trigger] writes[k]).0 != j)
                ==> #[trigger] bit_at(with_button_writes(r, writes).buttons, j) == bit_at(r.buttons, j),
        r.wf() ==> with_button_writes(r, writes).wf(),
    decreases writes.len(),
{
    if writes.len() > 0 {
        let prev = writes.drop_last();
        let last = writes.last();
        assert forall|k: int| 0 <= k < prev.len() implies (#[trigger] prev[k]).0 < BUTTON_COUNT by {
            assert(prev[k] == writes[k]);
        }
        lemma_button_writes_independent(r, prev);
        let p = with_button_writes(r, prev);
        lemma_with_bit_changes_only_bit(p.buttons, last.0, last.1);
        lemma_with_bit_below(p.buttons, last.0, last.1, 32);
        assert forall|j: u8|
            j < 8 && (forall|k: int| 0 <= k < writes.len() ==> (#[trigger] writes[k]).0 != j)
            implies #[trigger] bit_at(with_button_writes(r, writes).buttons, j) == bit_at(r.buttons, j) by {
            assert(writes[writes.len() - 1].0 != j);
            assert forall|k: int| 0 <= k < prev.len() implies (#[trigger] prev[k]).0 != j by {
                assert(prev[k] == writes[k]);
            }
        }
    }
}

/// Writing a bit below a power of two keeps a byte below that power of two.
proof fn lemma_with_bit_below(v: u8, i: u8, s: bool, bound: u8)
    requires
        bound == 32 || bound == 64,
        i < 8,
        (bound == 32 ==> i < 5),
        (bound == 64 ==> i < 6),
    ensures
        v < bound ==> with_bit(v, i, s) < bound,
{
    assert(v < 32 && i < 5 ==> (v | (1u8 << i)) < 32) by (bit_vector);
    assert(v < 64 && i < 6 ==> (v | (1u8 << i)) < 64) by (bit_vector);
    assert((v & !(1u8 << i)) <= v) by (bit_vector);
}

} // verus!
