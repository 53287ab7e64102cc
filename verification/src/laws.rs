//! General properties of the display's two steps, stated over the spec
//! functions [`read_step`] and [`update_step`] that the executable methods'
//! contracts are written with.

use vstd::prelude::*;

use crate::navigation_display::read_step;
use crate::navigation_display::update_step;
use crate::navigation_display::NavigationDisplay;
use crate::simulation::SimulatorReader;
use crate::units::Length;

verus! {

/// One invocation made on a display: a read step from some reader, or an
/// update step with some range table.
pub enum Step {
    Read(SimulatorReader),
    Update(Seq<Length>),
}

/// The display state after one step.
pub open spec fn apply_step(d: NavigationDisplay, s: Step) -> NavigationDisplay {
    match s {
        Step::Read(reader) => read_step(d, reader),
        Step::Update(table) => update_step(d, table),
    }
}

/// The display state after a sequence of steps, first step first.
pub open spec fn apply_steps(d: NavigationDisplay, steps: Seq<Step>) -> NavigationDisplay
    decreases steps.len(),
{
    if steps.len() == 0 {
        d
    } else {
        apply_steps(apply_step(d, steps[0]), steps.skip(1))
    }
}

/// Read purity: a read step is a function of the handles and the reader
/// alone, so reading twice from the same reader gives the state one read
/// gives.
pub proof fn lemma_read_idempotent(d: NavigationDisplay, reader: SimulatorReader)
    ensures
        read_step(read_step(d, reader), reader) == read_step(d, reader),
{
}

/// Field isolation: a read step never changes the range, and an update step
/// never changes the last-read knob position, mode, terrain-pushbutton state
/// or backlight level.
pub proof fn lemma_field_isolation(
    d: NavigationDisplay,
    reader: SimulatorReader,
    table: Seq<Length>,
)
    ensures
        read_step(d, reader).range == d.range,
        update_step(d, table).range_knob_position == d.range_knob_position,
        update_step(d, table).mode == d.mode,
        update_step(d, table).terrain_on_nd_pb_active == d.terrain_on_nd_pb_active,
        update_step(d, table).potentiometer == d.potentiometer,
{
}

/// Handle stability: no sequence of read and update steps moves any of the
/// four handles obtained at construction.
pub proof fn lemma_handle_stability(d: NavigationDisplay, steps: Seq<Step>)
    ensures
        apply_steps(d, steps).range_knob_id == d.range_knob_id,
        apply_steps(d, steps).mode_id == d.mode_id,
        apply_steps(d, steps).terrain_on_nd_pb_id == d.terrain_on_nd_pb_id,
        apply_steps(d, steps).potentiometer_id == d.potentiometer_id,
    decreases steps.len(),
{
    if steps.len() > 0 {
        lemma_handle_stability(apply_step(d, steps[0]), steps.skip(1));
    }
}

} // verus!
