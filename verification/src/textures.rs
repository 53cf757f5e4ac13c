//! The texture registry: the GUI library's generic handle-to-resource
//! mapping, holding one shader-resource-view handle per registered
//! texture.
//!
//! The registry type comes from the outside crate; the verified core
//! reads it through the trusted wrappers below, whose contracts speak of
//! the mapping the registry holds. The host application registers and
//! removes textures through the registry's own interface between frames.

use vstd::prelude::*;

verus! {

/// Declares the GUI library's registry type to the verifier. Values of
/// it are opaque here; the wrappers below are the only way the verified
/// core reads one.
#[verifier::external_type_specification]
#[verifier::external_body]
#[verifier::reject_recursive_types(T)]
pub struct ExTextures<T>(imgui::Textures<T>);

/// The mapping a registry holds: raw texture handles to the
/// shader-resource-view handles registered under them.
pub uninterp spec fn registry_view(t: imgui::Textures<u64>) -> Map<usize, u64>;

/// Relies on imgui's `Textures::new`: a fresh registry holds nothing.
#[verifier::external_body]
pub(crate) fn registry_new() -> (reg: imgui::Textures<u64>)
    ensures
        registry_view(reg) =~= Map::empty(),
{
    imgui::Textures::new()
}

/// Relies on imgui's `Textures::get`: returns the value its map holds
/// under the handle, or nothing when the handle is absent.
#[verifier::external_body]
pub(crate) fn registry_get(t: &imgui::Textures<u64>, id: usize) -> (r: Option<u64>)
    ensures
        r == (if registry_view(*t).dom().contains(id) {
            Some(registry_view(*t)[id])
        } else {
            None::<u64>
        }),
{
    t.get(imgui::TextureId::new(id)).copied()
}

} // verus!
