//! Scene light control: fixed-capacity packing of a light list into a
//! GPU-alignment-compliant wire buffer, and identity-based lookup of sibling
//! scene objects, with the per-frame update plan that ties the two together.
//!
//! Every scalar that ends up on the wire is handled as its 32-bit wire value;
//! the renderer interprets those values as IEEE-754 numbers, but nothing in
//! this library depends on that interpretation.

pub mod behavior;
pub mod light;
pub mod lookup;
pub mod pack;

pub use behavior::LightManagerComponent;
pub use light::CAPACITY;
pub use light::Light;
pub use light::RawLight;
