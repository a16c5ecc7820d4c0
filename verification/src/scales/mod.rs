pub mod library;
pub mod quarter_tones;
pub mod scale;
pub mod scale_note;
pub mod tonic;

pub use library::{GroupId, LibraryScale, Scale, Scales};
pub use quarter_tones::QuarterTone;
pub use scale::Scale as ProjectedScale;
pub use scale_note::ScaleNote;
pub use tonic::Tonic;
