//! Core state of a cockpit navigation display (ND) inside a real-time
//! aircraft systems simulation.
//!
//! A `NavigationDisplay` registers the four named simulation variables it
//! depends on (range knob, mode selector, terrain pushbutton, backlight
//! potentiometer), refreshes itself from a variable reader once per
//! simulation tick, and resolves the selected knob position into a physical
//! range through a caller-supplied range table.

pub mod decimal;
pub mod laws;
pub mod navigation_display;
pub mod simulation;
pub mod units;

pub use navigation_display::NavigationDisplay;
pub use navigation_display::UpdateError;
pub use simulation::InitContext;
pub use simulation::SimulationElement;
pub use simulation::SimulatorReader;
pub use simulation::VariableIdentifier;
pub use units::Length;
pub use units::Ratio;
