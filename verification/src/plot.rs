//! Per-frame decisions of the line-plot window.
//!
//! A window shows one or more line series, each with a name. On every frame it
//! reads the keyboard: the window closes when Escape is pressed or any key is
//! held down. A legend is drawn only when more than one series is shown, and
//! a line carries a label only when its series has a non-empty name.

use vstd::prelude::*;

verus! {

/// The keyboard state that one frame of the window reads.
pub struct FrameInput {
    /// Whether Escape was pressed during this frame.
    pub escape_pressed: bool,
    /// How many keys are held down during this frame.
    pub keys_down: usize,
}

/// What one frame of the window does.
pub struct FramePlan {
    /// Whether the window closes after this frame.
    pub close: bool,
    /// Whether the plot draws a legend.
    pub show_legend: bool,
    /// For each series, in order, whether its line carries the series' name.
    pub labelled: Vec<bool>,
}

/// The window closes on a frame where Escape is pressed or any key is down.
pub open spec fn closes_on(input: FrameInput) -> bool {
    input.escape_pressed || input.keys_down > 0
}

/// A legend is drawn when more than one series is shown.
pub open spec fn legend_for(series_count: nat) -> bool {
    series_count > 1
}

/// A line is labelled when its series has a non-empty name.
pub open spec fn labelled_name(name: Seq<char>) -> bool {
    name.len() > 0
}

/// Decides what a frame does for a window showing series with the given
/// names, in order, under the given keyboard state.
pub fn plan_frame(names: &Vec<String>, input: FrameInput) -> (plan: FramePlan)
    ensures
        plan.close == closes_on(input),
        plan.close == (input.escape_pressed || input.keys_down > 0),
        plan.show_legend == legend_for(names@.len()),
        plan.show_legend == (names@.len() >= 2),
        plan.labelled@.len() == names@.len(),
        forall|i: int|
            0 <= i < names@.len() ==> #[trigger] plan.labelled@[i] == labelled_name(names@[i]@),
        forall|i: int|
            0 <= i < names@.len() ==> (#[trigger] plan.labelled@[i] <==> names@[i]@.len() >= 1),
{
    let close = input.escape_pressed || input.keys_down > 0;
    let show_legend = names.len() > 1;
    let mut labelled: Vec<bool> = Vec::new();
    let n = names.len();
    for i in 0..n
        invariant
            n == names@.len(),
            labelled@.len() == i,
            forall|j: int| 0 <= j < i ==> #[trigger] labelled@[j] == labelled_name(names@[j]@),
    {
        let named = !names[i].as_str().is_empty();
        labelled.push(named);
    }
    FramePlan { close, show_legend, labelled }
}

/// Any held key closes the window, however many keys are down, and so does
/// Escape; a frame with neither keeps the window open.
pub proof fn law_close_on_any_key(escape_pressed: bool, keys_down: usize)
    ensures
        keys_down >= 1 ==> closes_on(FrameInput { escape_pressed, keys_down }),
        escape_pressed ==> closes_on(FrameInput { escape_pressed, keys_down }),
        !escape_pressed && keys_down == 0 ==> !closes_on(FrameInput { escape_pressed, keys_down }),
        keys_down < usize::MAX && closes_on(FrameInput { escape_pressed, keys_down })
            ==> closes_on(FrameInput { escape_pressed, keys_down: (keys_down + 1) as usize }),
{
}

/// No legend for zero or one series; a legend for every count of two or
/// more, and adding a series never takes a legend away.
pub proof fn law_legend_from_two_series(series_count: nat)
    ensures
        !legend_for(0),
        !legend_for(1),
        series_count >= 2 ==> legend_for(series_count),
        legend_for(series_count) ==> legend_for(series_count + 1),
{
}

/// A series name is labelled exactly when it holds at least one character:
/// the empty name is not labelled, and appending any character to any name
/// (letters, digits, spaces, of any length) yields a labelled name.
pub proof fn law_label_every_nonempty_name(name: Seq<char>, c: char)
    ensures
        !labelled_name(Seq::<char>::empty()),
        labelled_name(name.push(c)),
        labelled_name(seq![c].add(name)),
        labelled_name(name) <==> name != Seq::<char>::empty(),
{
    assert(name.push(c).len() > 0);
    assert(seq![c].add(name).len() > 0);
    if name.len() == 0 {
        assert(name =~= Seq::<char>::empty());
    }
}

} // verus!
