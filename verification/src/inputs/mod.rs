pub mod button;
pub mod configs;
pub mod cv_trigger;
pub mod gate;
pub mod panel;

pub use button::Button;
pub use configs::{CvPersistentConfig, PersistentConfig};
pub use cv_trigger::CvTrigger;
pub use gate::Gate;
pub use panel::{Buttons, Gates};
