//! Procedural generation of the static content of a bounded 2-D tile world.
//!
//! Given one master seed and an axis-aligned rectangle, the library derives a
//! chain of sub-seeds, classifies every cell of the rectangle into a ground
//! cover kind by sampling a coherent noise field, places object anchors by a
//! rejection-sampling point process with a minimum separation, and selects an
//! object for each anchor from a validated probability table.  Generation is
//! a pure function of the master seed and the rectangle.

pub mod conf;
pub mod cursor;
pub mod direction;
pub mod generator;
pub mod input;
pub mod location;
pub mod main_menu;
pub mod menu;
pub mod log;
pub mod messages;
pub mod rectangle;
pub mod rng;
pub mod time;
pub mod noise;
pub mod object;
pub mod poisson;
pub mod stage;
pub mod probability;

pub use cursor::{Cursor, CursorError};
pub use direction::Direction;
pub use generator::{GeneratedWorld, ObjectChoice, PlacedObject};
pub use input::{Input, Modifiers};
pub use location::Location;
pub use log::{GameLog, LogEntry};
pub use main_menu::{Choice, MainMenu, MainMenuIterator};
pub use menu::Menu;
pub use messages::{Message, Messages};
pub use object::{UnrecognizedTileName, VisibleObject};
pub use probability::{ProbabilityTable, ProbabilityTableError};
pub use rectangle::{Rectangle, RectangleIter};
pub use rng::{Prng, SeedChain};
pub use stage::StageData;
pub use time::Time;
