//! Verified core of a small media upload service: it names uploaded files,
//! decides how their metadata is stripped, plans the external conversions,
//! and builds the replies that the server sends back.

pub mod cfg;
pub mod exif;
pub mod exif_ffmpeg;
pub mod exif_image;
pub mod handler;
pub mod io;
pub mod metadata;
pub mod server;
pub mod text;
pub mod validation;
