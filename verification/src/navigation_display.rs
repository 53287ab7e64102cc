//! State of one navigation display (ND) side: the four simulation variables
//! it watches, their last-read values, and the resolved display range.

use vstd::prelude::*;
use vstd::string::StringExecFns;

use crate::decimal::decimal_digits;
use crate::decimal::u32_decimal;
use crate::simulation::InitContext;
use crate::simulation::SimulationElement;
use crate::simulation::SimulatorReader;
use crate::simulation::VariableIdentifier;
use crate::units::Length;
use crate::units::Ratio;

verus! {

/// The name of the range-knob variable of side `side`.
pub open spec fn range_knob_name(side: Seq<char>) -> Seq<char> {
    "EFIS_"@ + side + "_ND_RANGE"@
}

/// The name of the mode-selector variable of side `side`.
pub open spec fn mode_name(side: Seq<char>) -> Seq<char> {
    "EFIS_"@ + side + "_ND_MODE"@
}

/// The name of the terrain-pushbutton variable of side `side`.
pub open spec fn terrain_pb_name(side: Seq<char>) -> Seq<char> {
    "EFIS_TERR_"@ + side + "_ACTIVE"@
}

/// The name of the backlight potentiometer variable of channel `channel`.
pub open spec fn potentiometer_name(channel: nat) -> Seq<char> {
    "LIGHT POTENTIOMETER:"@ + decimal_digits(channel)
}

fn format_range_knob_name(side: &str) -> (r: String)
    ensures
        r@ == range_knob_name(side@),
{
    let mut s = "EFIS_".to_owned();
    s.append(side);
    s.append("_ND_RANGE");
    proof {
        assert(s@ =~= range_knob_name(side@));
    }
    s
}

fn format_mode_name(side: &str) -> (r: String)
    ensures
        r@ == mode_name(side@),
{
    let mut s = "EFIS_".to_owned();
    s.append(side);
    s.append("_ND_MODE");
    proof {
        assert(s@ =~= mode_name(side@));
    }
    s
}

fn format_terrain_pb_name(side: &str) -> (r: String)
    ensures
        r@ == terrain_pb_name(side@),
{
    let mut s = "EFIS_TERR_".to_owned();
    s.append(side);
    s.append("_ACTIVE");
    proof {
        assert(s@ =~= terrain_pb_name(side@));
    }
    s
}

fn format_potentiometer_name(channel: u32) -> (r: String)
    ensures
        r@ == potentiometer_name(channel as nat),
{
    let mut s = "LIGHT POTENTIOMETER:".to_owned();
    let digits = u32_decimal(channel);
    s.append(digits.as_str());
    proof {
        assert(s@ =~= potentiometer_name(channel as nat));
    }
    s
}

/// The failure reported by [`NavigationDisplay::try_update`] when the last
/// read knob position has no entry in the supplied range table.
#[derive(Clone, Copy, Debug, PartialEq, Eq, Structural)]
pub enum UpdateError {
    IndexOutOfBounds,
}

/// One navigation display side.
///
/// Construction registers the four variables the display depends on and
/// sets every value field to its default. Each simulation tick the owner
/// calls [`NavigationDisplay::read`] to pull fresh raw values, and, when it
/// sees fit, [`NavigationDisplay::update`] to resolve the knob position
/// into a physical range through a range table of its choosing.
#[derive(Clone, Copy, Debug, PartialEq, Eq, Structural)]
pub struct NavigationDisplay {
    /// Handle of the range-knob variable; fixed at construction.
    pub range_knob_id: VariableIdentifier,
    /// Last-read discrete position of the range knob.
    pub range_knob_position: usize,
    /// The resolved display range; changes only in an update step.
    pub range: Length,
    /// Handle of the mode-selector variable; fixed at construction.
    pub mode_id: VariableIdentifier,
    /// Last-read display mode enumerant.
    pub mode: u8,
    /// Handle of the terrain-pushbutton variable; fixed at construction.
    pub terrain_on_nd_pb_id: VariableIdentifier,
    /// Whether the terrain-overlay pushbutton was engaged at the last read.
    pub terrain_on_nd_pb_active: bool,
    /// Handle of the backlight potentiometer variable; fixed at construction.
    pub potentiometer_id: VariableIdentifier,
    /// Last-read backlight level.
    pub potentiometer: Ratio,
}

/// The state after a read step: the four value fields are replaced by the
/// reader's raw values for the display's handles, and nothing else moves.
pub open spec fn read_step(d: NavigationDisplay, reader: SimulatorReader) -> NavigationDisplay {
    NavigationDisplay {
        range_knob_position: reader.raw(d.range_knob_id),
        mode: reader.raw(d.mode_id) as u8,
        terrain_on_nd_pb_active: reader.raw(d.terrain_on_nd_pb_id) != 0,
        potentiometer: Ratio { percent: reader.raw(d.potentiometer_id) as u64 },
        ..d
    }
}

/// The state after an update step with range table `table`: the range is
/// replaced by the table entry at the last-read knob position, and nothing
/// else moves.
pub open spec fn update_step(d: NavigationDisplay, table: Seq<Length>) -> NavigationDisplay {
    NavigationDisplay { range: table[d.range_knob_position as int], ..d }
}

impl SimulationElement for NavigationDisplay {
    /// Every handle resolves to a value in `reader`, and the mode reading
    /// fits its small enumerant field.
    open spec fn can_read(self, reader: SimulatorReader) -> bool {
        &&& reader.has_value(self.range_knob_id)
        &&& reader.has_value(self.mode_id)
        &&& reader.has_value(self.terrain_on_nd_pb_id)
        &&& reader.has_value(self.potentiometer_id)
        &&& reader.raw(self.mode_id) <= u8::MAX as usize
    }

    open spec fn read_result(self, reader: SimulatorReader) -> NavigationDisplay {
        read_step(self, reader)
    }

    /// The read step: replaces the four value fields with the reader's
    /// current raw values for this display's handles. The range and the
    /// handles are untouched, and the new state is a function of the old
    /// handles and the reader alone, so reading again from the same reader
    /// changes nothing further.
    fn read(&mut self, reader: &SimulatorReader) {
        self.range_knob_position = reader.read_usize(&self.range_knob_id);
        self.mode = reader.read_u8(&self.mode_id);
        self.terrain_on_nd_pb_active = reader.read_bool(&self.terrain_on_nd_pb_id);
        self.potentiometer = Ratio::new_percent(reader.read_usize(&self.potentiometer_id) as u64);
    }
}

impl NavigationDisplay {
    /// Builds the display of side `side` (for example `"L"` or `"R"`) with
    /// backlight potentiometer channel `potentiometer`.
    ///
    /// The four side- and channel-specific variable names are registered
    /// with `context`, and each handle field holds the handle the registry
    /// issued for its name. Value fields start at their defaults: knob
    /// position `0`, range 10 nautical miles, mode `0`, terrain overlay off,
    /// full brightness.
    pub fn new(context: &mut InitContext, side: &str, potentiometer: u32) -> (r:
        NavigationDisplay)
        requires
            old(context).wf(),
        ensures
            final(context).wf(),
            old(context).names@.is_prefix_of(final(context).names@),
            final(context).names@.len() <= old(context).names@.len() + 4,
            forall|i: int|
                old(context).names@.len() <= i < final(context).names@.len()
                    ==> #[trigger] final(context).names@[i]@ == range_knob_name(side@)
                    || final(context).names@[i]@ == mode_name(side@)
                    || final(context).names@[i]@ == terrain_pb_name(side@)
                    || final(context).names@[i]@ == potentiometer_name(potentiometer as nat),
            final(context).has_name(range_knob_name(side@)),
            final(context).has_name(mode_name(side@)),
            final(context).has_name(terrain_pb_name(side@)),
            final(context).has_name(potentiometer_name(potentiometer as nat)),
            r.range_knob_id.index == final(context).id_index(range_knob_name(side@)),
            r.mode_id.index == final(context).id_index(mode_name(side@)),
            r.terrain_on_nd_pb_id.index == final(context).id_index(terrain_pb_name(side@)),
            r.potentiometer_id.index == final(context).id_index(
                potentiometer_name(potentiometer as nat),
            ),
            r.range_knob_position == 0,
            r.range == (Length { nautical_miles: 10 }),
            r.mode == 0,
            !r.terrain_on_nd_pb_active,
            r.potentiometer == (Ratio { percent: 100 }),
    {
        let range_knob_id = context.get_identifier(format_range_knob_name(side));
        let mode_id = context.get_identifier(format_mode_name(side));
        let terrain_on_nd_pb_id = context.get_identifier(format_terrain_pb_name(side));
        let potentiometer_id = context.get_identifier(format_potentiometer_name(potentiometer));
        NavigationDisplay {
            range_knob_id,
            range_knob_position: 0,
            range: Length::new_nautical_miles(10),
            mode_id,
            mode: 0,
            terrain_on_nd_pb_id,
            terrain_on_nd_pb_active: false,
            potentiometer_id,
            potentiometer: Ratio::new_percent(100),
        }
    }

    /// The update step: resolves the last-read knob position into a physical
    /// range through `range_lookup`, whose entry `i` is the range shown when
    /// the knob reads `i`.
    ///
    /// Bounds responsibility lies with the caller: the knob position must
    /// have an entry in the table. A caller that cannot promise this uses
    /// [`NavigationDisplay::try_update`], which reports the failure instead.
    pub fn update(&mut self, range_lookup: &Vec<Length>)
        requires
            old(self).range_knob_position < range_lookup@.len(),
        ensures
            *final(self) == update_step(*old(self), range_lookup@),
            final(self).range == range_lookup@[old(self).range_knob_position as int],
            final(self).range_knob_position == old(self).range_knob_position,
            final(self).mode == old(self).mode,
            final(self).terrain_on_nd_pb_active == old(self).terrain_on_nd_pb_active,
            final(self).potentiometer == old(self).potentiometer,
            final(self).range_knob_id == old(self).range_knob_id,
            final(self).mode_id == old(self).mode_id,
            final(self).terrain_on_nd_pb_id == old(self).terrain_on_nd_pb_id,
            final(self).potentiometer_id == old(self).potentiometer_id,
    {
        self.range = range_lookup[self.range_knob_position];
    }

    /// The update step with the out-of-bounds case reported: fails with
    /// [`UpdateError::IndexOutOfBounds`], leaving the state untouched, when
    /// the last-read knob position has no entry in `range_lookup`; otherwise
    /// behaves exactly as [`NavigationDisplay::update`].
    pub fn try_update(&mut self, range_lookup: &Vec<Length>) -> (r: Result<(), UpdateError>)
        ensures
            r is Ok <==> old(self).range_knob_position < range_lookup@.len(),
            r is Ok ==> *final(self) == update_step(*old(self), range_lookup@),
            r is Err ==> *final(self) == *old(self) && r == Err::<(), UpdateError>(
                UpdateError::IndexOutOfBounds,
            ),
    {
        if self.range_knob_position < range_lookup.len() {
            self.range = range_lookup[self.range_knob_position];
            Ok(())
        } else {
            Err(UpdateError::IndexOutOfBounds)
        }
    }
}

} // verus!
