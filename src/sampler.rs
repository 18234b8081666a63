//! Turning one reading of the controller's input lines into a report.
use vstd::prelude::*;

use crate::bits::bit_at;
use crate::report::{
    lemma_with_flags_bits, lemma_with_flags_idempotent, with_flags, GamepadReport, BUTTON_COUNT,
    FRET_COUNT,
};

verus! {

/// One reading of every input line.
///
/// A digital line reads `Some(level)`, or `None` when its state could not be determined.
#[derive(Clone, Copy, Debug)]
pub struct InputSnapshot {
    /// Frets 1 to 6, in that order.
    pub frets: [Option<bool>; 6],
    /// Strum-up, strum-down, start, select and hero, in that order.
    pub buttons: [Option<bool>; 5],
    /// The sample the analog converter held when the lines were read.
    pub whammy: u16,
}

/// The logical state of a line: pressed only when it read high; a failed read counts as released.
pub open spec fn line_level(line: Option<bool>) -> bool {
    line == Some(true)
}

/// The logical state of each line of `lines`.
pub open spec fn levels(lines: Seq<Option<bool>>) -> Seq<bool> {
    lines.map_values(|line: Option<bool>| line_level(line))
}

/// `r` after a refresh from `inputs`: the whammy sample copied, each fret and
/// button bit set from its line, the unused bits left as they were.
pub open spec fn refreshed(r: GamepadReport, inputs: InputSnapshot) -> GamepadReport {
    GamepadReport {
        whammy: inputs.whammy,
        frets: with_flags(r.frets, levels(inputs.frets@)),
        buttons: with_flags(r.buttons, levels(inputs.buttons@)),
    }
}

/// The logical state of one line reading.
pub fn read_level(line: Option<bool>) -> (r: bool)
    ensures
        r == line_level(line),
{
    match line {
        Some(level) => level,
        None => false,
    }
}

/// Writes one reading of the lines into `report`: fret `i + 1` into bit `i` of
/// `frets`, the buttons into bits 0 to 4 of `buttons`, and the analog sample into `whammy`.
pub fn refresh(report: &mut GamepadReport, inputs: &InputSnapshot)
    ensures
        *final(report) == refreshed(*old(report), *inputs),
        final(report).whammy == inputs.whammy,
        forall|i: u8| i < FRET_COUNT ==> #[trigger] bit_at(final(report).frets, i) == line_level(inputs.frets@[i as int]),
        forall|i: u8| i < BUTTON_COUNT ==> #[trigger] bit_at(final(report).buttons, i) == line_level(inputs.buttons@[i as int]),
        forall|i: u8| FRET_COUNT <= i < 8 ==> #[trigger] bit_at(final(report).frets, i) == bit_at(old(report).frets, i),
        forall|i: u8| BUTTON_COUNT <= i < 8 ==> #[trigger] bit_at(final(report).buttons, i) == bit_at(old(report).buttons, i),
        old(report).wf() ==> final(report).wf(),
{
    let ghost start = *report;
    let ghost fret_levels = levels(inputs.frets@);
    let ghost button_levels = levels(inputs.buttons@);
    let mut i: usize = 0;
    while i < 6
        invariant
            i <= 6,
            fret_levels == levels(inputs.frets@),
            report.whammy == start.whammy,
            report.buttons == start.buttons,
            report.frets == with_flags(start.frets, fret_levels.take(i as int)),
            start.wf() ==> report.wf(),
        decreases 6 - i,
    {
        let level = read_level(inputs.frets[i]);
        report.set_fret(i as u8, level);
        assert(fret_levels.take(i + 1).drop_last() =~= fret_levels.take(i as int));
        i = i + 1;
    }
    assert(fret_levels.take(6) =~= fret_levels);
    let mut j: usize = 0;
    while j < 5
        invariant
            j <= 5,
            button_levels == levels(inputs.buttons@),
            report.whammy == start.whammy,
            report.frets == with_flags(start.frets, fret_levels),
            report.buttons == with_flags(start.buttons, button_levels.take(j as int)),
            start.wf() ==> report.wf(),
        decreases 5 - j,
    {
        let level = read_level(inputs.buttons[j]);
        report.set_button(j as u8, level);
        assert(button_levels.take(j + 1).drop_last() =~= button_levels.take(j as int));
        j = j + 1;
    }
    assert(button_levels.take(5) =~= button_levels);
    report.whammy = inputs.whammy;
    proof {
        lemma_with_flags_bits(start.frets, fret_levels);
        lemma_with_flags_bits(start.buttons, button_levels);
    }
}

/// Refreshing twice from the same reading gives the same report as refreshing once.
pub proof fn lemma_refresh_idempotent(r: GamepadReport, inputs: InputSnapshot)
    ensures
        refreshed(refreshed(r, inputs), inputs) == refreshed(r, inputs),
{
    lemma_with_flags_idempotent(r.frets, levels(inputs.frets@));
    lemma_with_flags_idempotent(r.buttons, levels(inputs.buttons@));
}

/// A fret line whose read failed gives the same report as that line read low:
/// its bit is clear and no other field changes.
pub proof fn lemma_failed_fret_reads_released(
    r: GamepadReport,
    failed: InputSnapshot,
    low: InputSnapshot,
    k: int,
)
    requires
        0 <= k < FRET_COUNT,
        failed.frets@[k] is None,
        low.frets@ == failed.frets@.update(k, Some(false)),
        low.buttons@ == failed.buttons@,
        low.whammy == failed.whammy,
    ensures
        refreshed(r, failed) == refreshed(r, low),
        !bit_at(refreshed(r, failed).frets, k as u8),
{
    assert(levels(low.frets@) =~= levels(failed.frets@));
    lemma_with_flags_bits(r.frets, levels(failed.frets@));
    assert(!bit_at(refreshed(r, failed).frets, k as u8));
}

/// A button line whose read failed gives the same report as that line read low:
/// its bit is clear and no other field changes.
pub proof fn lemma_failed_button_reads_released(
    r: GamepadReport,
    failed: InputSnapshot,
    low: InputSnapshot,
    k: int,
)
    requires
        0 <= k < BUTTON_COUNT,
        failed.buttons@[k] is None,
        low.buttons@ == failed.buttons@.update(k, Some(false)),
        low.frets@ == failed.frets@,
        low.whammy == failed.whammy,
    ensures
        refreshed(r, failed) == refreshed(r, low),
        !bit_at(refreshed(r, failed).buttons, k as u8),
{
    assert(levels(low.buttons@) =~= levels(failed.buttons@));
    lemma_with_flags_bits(r.buttons, levels(failed.buttons@));
    assert(!bit_at(refreshed(r, failed).buttons, k as u8));
}

} // verus!
