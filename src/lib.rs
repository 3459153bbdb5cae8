//! Bridge between the callback-driven iOS event loop and an application's
//! synchronous update/draw cycle, with the rendering context created lazily
//! on the first frame.

pub mod bridge;
pub mod display;
pub mod graphics;
pub mod payload;
pub mod slot;
