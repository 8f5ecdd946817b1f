//! Core of a small desktop shell: a pure greeting command and the decision
//! logic of the splashscreen-to-main-window transition, both verified. The
//! GUI runtime itself (event loop, window handles, plugins) lives outside
//! this crate and only carries out the actions decided here.

pub mod greeting;
pub mod surfaces;
