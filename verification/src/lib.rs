//! Region references: persistable values that name a selected part of a
//! multidimensional dataset.
//!
//! The storage backend mints the bytes of a reference and does all I/O. This
//! library holds the rules around it: which selections fit a dataset and
//! what hyperslab they stand for, what the backend is asked to do, what
//! becomes of its answer, and how a reference is carried as plain bytes.
pub mod reference;
pub mod selection;
pub mod session;

pub use reference::{
    h5r_dataset_region, BackendReply, BackendVersion, Dataset, Reference, ReferenceKind,
    RegionError, RegionRequest, TypeDescriptor, REGION_REF_LEN,
};
pub use session::{Answer, RegionSession, Stage, Step};
pub use selection::{resolve_selection, AxisSelection, AxisSlab, SelectionError};
