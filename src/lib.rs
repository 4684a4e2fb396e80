//! A first-person wireframe viewer's control core: the intents a viewer
//! understands, how key input resolves to them, and how they change the
//! viewer's state.
pub mod app;
pub mod camera;
pub mod input;
pub mod intent;
pub mod shapes;
