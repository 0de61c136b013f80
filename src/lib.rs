pub mod buffer;
pub mod grid;
pub mod canonical;
pub mod normalize;
pub mod mosaic;
pub mod demosaic;
pub mod color;
pub mod fs;

pub use buffer::{BayerPattern, DataType, RawArray, Samples};
pub use canonical::bayer_to_bayer_rggb;
pub use normalize::normalize;
pub use mosaic::{bayer_rggb_to_rggb, rggb_to_bayer_rggb};
pub use demosaic::bayer_rggb_to_rgb;
pub use color::color_buffer_accepted;
pub use fs::{DirEntry, FileSystem, FileSystemError, LocalFileSystem};
