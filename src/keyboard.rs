use vstd::prelude::*;

use crate::components::{Scale, ScaleCommand};

verus! {

/// How far one command moves the zoom level.
pub const SCALE_STEP: i32 = 1;

/// The zoom level that `command` leaves behind when applied to `level`.
pub open spec fn scale_after(level: int, command: Option<ScaleCommand>) -> int {
    match command {
        None => level,
        Some(ScaleCommand::Increase) => level + SCALE_STEP,
        Some(ScaleCommand::Reduce) => level - SCALE_STEP,
    }
}

/// Whether `command` can be applied to `level` without leaving the range of `i32`.
pub open spec fn scale_fits(level: i32, command: Option<ScaleCommand>) -> bool {
    i32::MIN <= scale_after(level as int, command) <= i32::MAX
}

/// The level after every command of `commands` was applied in order.
pub open spec fn scale_after_all(level: int, commands: Seq<Option<ScaleCommand>>) -> int
    decreases commands.len(),
{
    if commands.len() == 0 {
        level
    } else {
        scale_after_all(scale_after(level, commands[0]), commands.drop_first())
    }
}

/// The level after applying `command` to `level`, one step up or down or unchanged.
pub fn apply_scale_command(level: i32, command: Option<ScaleCommand>) -> (r: i32)
    requires
        scale_fits(level, command),
    ensures
        r as int == scale_after(level as int, command),
{
    match command {
        None => level,
        Some(ScaleCommand::Increase) => level + SCALE_STEP,
        Some(ScaleCommand::Reduce) => level - SCALE_STEP,
    }
}

/// The stage that turns the tick's scale command into a change of every zoom level.
#[derive(Debug, Clone, Copy, Default)]
pub struct Keyboard;

impl Keyboard {
    /// Applies `command` to every level in `scales`; no command leaves them as they are.
    pub fn run(&mut self, command: &Option<ScaleCommand>, scales: &mut Vec<Scale>)
        requires
            forall|i: int| 0 <= i < old(scales)@.len() ==> scale_fits(#[trigger] old(scales)@[i].0, *command),
        ensures
            final(scales)@.len() == old(scales)@.len(),
            forall|i: int|
                0 <= i < final(scales)@.len() ==> #[trigger] final(scales)@[i].0 as int
                    == scale_after(old(scales)@[i].0 as int, *command),
    {
        let command = *command;
        let n = scales.len();
        let mut i: usize = 0;
        while i < n
            invariant
                n == old(scales)@.len(),
                scales@.len() == n,
                0 <= i <= n,
                forall|j: int| 0 <= j < n ==> scale_fits(#[trigger] old(scales)@[j].0, command),
                forall|j: int| 0 <= j < i ==> #[trigger] scales@[j].0 as int == scale_after(old(scales)@[j].0 as int, command),
                forall|j: int| i <= j < n ==> #[trigger] scales@[j] == old(scales)@[j],
            decreases n - i,
        {
            let level = apply_scale_command(scales[i].0, command);
            scales.set(i, Scale(level));
            i = i + 1;
        }
    }
}

/// Three steps up and one step down leave the zoom level two steps above
/// where it started, at any starting level: nothing bounds it.
pub proof fn lemma_three_up_one_down(level: int)
    ensures
        scale_after_all(
            level,
            seq![
                Some(ScaleCommand::Increase),
                Some(ScaleCommand::Increase),
                Some(ScaleCommand::Increase),
                Some(ScaleCommand::Reduce),
            ],
        ) == level + 2,
{
    let s = seq![
        Some(ScaleCommand::Increase),
        Some(ScaleCommand::Increase),
        Some(ScaleCommand::Increase),
        Some(ScaleCommand::Reduce),
    ];
    assert(s.drop_first() =~= seq![Some(ScaleCommand::Increase), Some(ScaleCommand::Increase), Some(ScaleCommand::Reduce)]);
    assert(s.drop_first().drop_first() =~= seq![Some(ScaleCommand::Increase), Some(ScaleCommand::Reduce)]);
    assert(s.drop_first().drop_first().drop_first() =~= seq![Some(ScaleCommand::Reduce)]);
    assert(s.drop_first().drop_first().drop_first().drop_first() =~= Seq::<Option<ScaleCommand>>::empty());
    reveal_with_fuel(scale_after_all, 5);
}

} // verus!
