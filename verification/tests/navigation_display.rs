use navigation_display::InitContext;
use navigation_display::Length;
use navigation_display::NavigationDisplay;
use navigation_display::Ratio;
use navigation_display::SimulationElement;
use navigation_display::SimulatorReader;
use navigation_display::UpdateError;
use navigation_display::decimal::u32_decimal;

fn reader_for(ctx: &InitContext, nd: &NavigationDisplay, knob: usize, mode: usize, terrain: usize, pot: usize) -> SimulatorReader {
    let mut values = vec![0usize; ctx.names.len()];
    values[nd.range_knob_id.index] = knob;
    values[nd.mode_id.index] = mode;
    values[nd.terrain_on_nd_pb_id.index] = terrain;
    values[nd.potentiometer_id.index] = pot;
    SimulatorReader::new(values)
}

fn nm(n: u64) -> Length {
    Length::new_nautical_miles(n)
}

#[test]
fn construction_registers_exact_names() {
    let mut ctx = InitContext::new();
    let nd = NavigationDisplay::new(&mut ctx, "L", 1);
    assert_eq!(ctx.name_of(&nd.range_knob_id).as_str(), "EFIS_L_ND_RANGE");
    assert_eq!(ctx.name_of(&nd.mode_id).as_str(), "EFIS_L_ND_MODE");
    assert_eq!(ctx.name_of(&nd.terrain_on_nd_pb_id).as_str(), "EFIS_TERR_L_ACTIVE");
    assert_eq!(ctx.name_of(&nd.potentiometer_id).as_str(), "LIGHT POTENTIOMETER:1");
}

#[test]
fn default_state() {
    let mut ctx = InitContext::new();
    let nd = NavigationDisplay::new(&mut ctx, "L", 1);
    assert_eq!(nd.range, nm(10));
    assert_eq!(nd.range_knob_position, 0);
    assert_eq!(nd.mode, 0);
    assert!(!nd.terrain_on_nd_pb_active);
    assert_eq!(nd.potentiometer, Ratio::new_percent(100));
}

#[test]
fn read_pulls_fresh_raw_values() {
    let mut ctx = InitContext::new();
    let mut nd = NavigationDisplay::new(&mut ctx, "L", 1);
    let reader = reader_for(&ctx, &nd, 2, 1, 1, 75);
    nd.read(&reader);
    assert_eq!(nd.range_knob_position, 2);
    assert_eq!(nd.mode, 1);
    assert!(nd.terrain_on_nd_pb_active);
    assert_eq!(nd.potentiometer, Ratio::new_percent(75));
}

#[test]
fn update_resolves_read_knob_position() {
    let mut ctx = InitContext::new();
    let mut nd = NavigationDisplay::new(&mut ctx, "L", 1);
    let reader = reader_for(&ctx, &nd, 2, 1, 1, 75);
    nd.read(&reader);
    let table = vec![nm(10), nm(20), nm(40)];
    nd.update(&table);
    assert_eq!(nd.range, nm(40));
}

#[test]
fn empty_table_reports_out_of_bounds() {
    let mut ctx = InitContext::new();
    let mut nd = NavigationDisplay::new(&mut ctx, "L", 1);
    assert_eq!(nd.range_knob_position, 0);
    let empty: Vec<Length> = Vec::new();
    let result = nd.try_update(&empty);
    assert_eq!(result, Err(UpdateError::IndexOutOfBounds));
}

#[test]
fn read_twice_gives_identical_state() {
    let mut ctx = InitContext::new();
    let mut nd = NavigationDisplay::new(&mut ctx, "R", 2);
    let reader = reader_for(&ctx, &nd, 3, 2, 0, 40);
    nd.read(&reader);
    let after_first = nd;
    nd.read(&reader);
    assert_eq!(nd, after_first);
}

#[test]
fn update_changes_only_the_range() {
    let mut ctx = InitContext::new();
    let mut nd = NavigationDisplay::new(&mut ctx, "L", 1);
    let reader = reader_for(&ctx, &nd, 1, 3, 1, 60);
    nd.read(&reader);
    let before = nd;
    nd.update(&vec![nm(5), nm(15), nm(25)]);
    assert_eq!(nd.range, nm(15));
    assert_eq!(nd.range_knob_position, before.range_knob_position);
    assert_eq!(nd.mode, before.mode);
    assert_eq!(nd.terrain_on_nd_pb_active, before.terrain_on_nd_pb_active);
    assert_eq!(nd.potentiometer, before.potentiometer);
}

#[test]
fn read_never_changes_the_range() {
    let mut ctx = InitContext::new();
    let mut nd = NavigationDisplay::new(&mut ctx, "L", 1);
    nd.update(&vec![nm(80)]);
    let reader = reader_for(&ctx, &nd, 0, 0, 0, 20);
    nd.read(&reader);
    assert_eq!(nd.range, nm(80));
}

#[test]
fn handles_stable_over_reads_and_updates() {
    let mut ctx = InitContext::new();
    let mut nd = NavigationDisplay::new(&mut ctx, "R", 2);
    let ids = (
        nd.range_knob_id,
        nd.mode_id,
        nd.terrain_on_nd_pb_id,
        nd.potentiometer_id,
    );
    for knob in 0..3usize {
        let reader = reader_for(&ctx, &nd, knob, knob, knob % 2, 10 * knob);
        nd.read(&reader);
        nd.update(&vec![nm(10), nm(20), nm(40), nm(80)]);
    }
    assert_eq!(ids.0, nd.range_knob_id);
    assert_eq!(ids.1, nd.mode_id);
    assert_eq!(ids.2, nd.terrain_on_nd_pb_id);
    assert_eq!(ids.3, nd.potentiometer_id);
}

#[test]
fn try_update_succeeds_in_bounds() {
    let mut ctx = InitContext::new();
    let mut nd = NavigationDisplay::new(&mut ctx, "L", 1);
    let result = nd.try_update(&vec![nm(160), nm(320)]);
    assert_eq!(result, Ok(()));
    assert_eq!(nd.range, nm(160));
}

#[test]
fn registry_issues_one_handle_per_name() {
    let mut ctx = InitContext::new();
    let a = ctx.get_identifier(String::from("EFIS_L_ND_RANGE"));
    let b = ctx.get_identifier(String::from("EFIS_L_ND_MODE"));
    let a_again = ctx.get_identifier(String::from("EFIS_L_ND_RANGE"));
    assert_eq!(a, a_again);
    assert_ne!(a, b);
    assert_eq!(ctx.names.len(), 2);
}

#[test]
fn two_sides_share_one_registry() {
    let mut ctx = InitContext::new();
    let left = NavigationDisplay::new(&mut ctx, "L", 1);
    let right = NavigationDisplay::new(&mut ctx, "R", 2);
    assert_eq!(ctx.names.len(), 8);
    assert_ne!(left.range_knob_id, right.range_knob_id);
    assert_eq!(ctx.name_of(&right.range_knob_id).as_str(), "EFIS_R_ND_RANGE");
    assert_eq!(ctx.name_of(&right.potentiometer_id).as_str(), "LIGHT POTENTIOMETER:2");
}

#[test]
fn potentiometer_channel_rendered_in_decimal() {
    let mut ctx = InitContext::new();
    let nd = NavigationDisplay::new(&mut ctx, "R", 87);
    assert_eq!(ctx.name_of(&nd.potentiometer_id).as_str(), "LIGHT POTENTIOMETER:87");
    let mut ctx0 = InitContext::new();
    let nd0 = NavigationDisplay::new(&mut ctx0, "L", 0);
    assert_eq!(ctx0.name_of(&nd0.potentiometer_id).as_str(), "LIGHT POTENTIOMETER:0");
}

#[test]
fn decimal_rendering_exact_values() {
    assert_eq!(u32_decimal(0).as_str(), "0");
    assert_eq!(u32_decimal(7).as_str(), "7");
    assert_eq!(u32_decimal(10).as_str(), "10");
    assert_eq!(u32_decimal(305).as_str(), "305");
    assert_eq!(u32_decimal(u32::MAX).as_str(), "4294967295");
}

#[test]
fn unit_accessors_round_trip() {
    assert_eq!(nm(320).get_nautical_miles(), 320);
    assert_eq!(Ratio::new_percent(55).get_percent(), 55);
}
