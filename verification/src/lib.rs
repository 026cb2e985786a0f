use vstd::prelude::*;

pub mod bindings;
pub mod keys;
pub mod mesh;
pub mod midi;
pub mod ndi;
pub mod options;
pub mod overlay;
pub mod settings;
pub mod text;

verus! {

} // verus!
