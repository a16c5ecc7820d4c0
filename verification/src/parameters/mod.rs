pub mod configs;
pub mod cv_assignment;
pub mod cv_mapping;
pub mod discrete;
pub mod reset_next;
pub mod scale_offsets;
pub mod stereo_mode;
pub mod toggle;
pub mod trigger;

pub use configs::PersistentConfig;
pub use cv_assignment::{CvAssignment, CvAssignmentHandler};
pub use cv_mapping::Socket as CvMappingSocket;
pub use reset_next::ResetNext;
pub use scale_offsets::{ScaleOffsets, MAX_STEPS as SCALE_OFFSET_MAX_STEPS};
pub use stereo_mode::{StereoMode, StereoModeHandler};
pub use toggle::Toggle;
pub use trigger::Trigger;
pub mod selection;
pub mod scale;
