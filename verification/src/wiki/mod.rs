//! Wiki persistence: publications, page lifecycle, Drive event inbox,
//! publication checkpoints and source projections.

pub mod model;
pub mod lifecycle;
pub mod stream;
pub mod projection;
pub mod event_application;
pub mod rendition;
pub mod publication;
pub mod paging;
