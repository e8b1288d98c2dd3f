//! Renderer-resource registries and the per-pass render context.
//!
//! Registries are external collaborators: the engine consults them at
//! construction time only. A registry is authoritative for existence; lookup
//! is exact-match on the [`RendererId`] and later registrations shadow
//! earlier ones without rewiring already-built nodes.

use vstd::prelude::*;
use crate::scene::{RendererId, Resolution, ShaderParamType};

verus! {

/// A registered shader program: its declared parameter schema and fixed
/// target behaviour are resolved at registration time.
#[derive(Clone, Debug)]
pub struct ShaderHandle {
    /// The parameter schema the shader declares, in order.
    pub schema: Vec<ShaderParamType>,
}

/// A registered embedded-web-renderer instance. Resolution is intrinsic to
/// the embedded surface.
#[derive(Clone, Copy, PartialEq, Eq, Structural, Debug)]
pub struct WebRendererInstance {
    pub resolution: Resolution,
}

/// A registered still or animated image.
#[derive(Clone, Copy, PartialEq, Eq, Structural, Debug)]
pub struct ImageResource {
    pub resolution: Resolution,
}

/// First entry in `entries` whose id equals `id`, scanning from the front.
pub open spec fn spec_lookup<T>(entries: Seq<(RendererId, T)>, id: RendererId) -> Option<T>
    decreases entries.len(),
{
    if entries.len() == 0 {
        None
    } else if entries[0].0 == id {
        Some(entries[0].1)
    } else {
        spec_lookup(entries.drop_first(), id)
    }
}

/// An exact-match catalog mapping a [`RendererId`] to a resource. Later
/// registrations of the same id shadow earlier ones.
#[derive(Clone, Debug)]
pub struct Registry<T> {
    pub entries: Vec<(RendererId, T)>,
}

impl<T> Registry<T> {
    /// An empty registry.
    pub fn new() -> (r: Registry<T>)
        ensures
            r.entries@.len() == 0,
    {
        Registry { entries: Vec::new() }
    }

    /// The resource registered under `id`, if any.
    pub open spec fn spec_get(self, id: RendererId) -> Option<T> {
        spec_lookup(self.entries@, id)
    }

    /// Register `value` under `id`, shadowing any earlier registration.
    pub fn register(&mut self, id: RendererId, value: T)
        ensures
            final(self).spec_get(id) == Some(value),
            forall|other: RendererId| other != id ==> final(self).spec_get(other) == old(
                self,
            ).spec_get(other),
    {
        self.entries.insert(0, (id, value));
        proof {
            assert(self.entries@.drop_first() =~= old(self).entries@);
        }
    }

    /// Exact-match lookup.
    pub fn get(&self, id: RendererId) -> (r: Option<&T>)
        ensures
            r matches Some(v) ==> self.spec_get(id) == Some(*v),
            r is None ==> self.spec_get(id) is None,
    {
        proof {
            assert(self.entries@.subrange(0, self.entries@.len() as int) =~= self.entries@);
        }
        let mut i: usize = 0;
        while i < self.entries.len()
            invariant
                0 <= i <= self.entries@.len(),
                spec_lookup(self.entries@, id) == spec_lookup(
                    self.entries@.subrange(i as int, self.entries@.len() as int),
                    id,
                ),
            decreases self.entries@.len() - i,
        {
            let entry = &self.entries[i];
            proof {
                assert(self.entries@.subrange(i as int, self.entries@.len() as int).drop_first()
                    =~= self.entries@.subrange(i as int + 1, self.entries@.len() as int));
            }
            if entry.0.0 == id.0 {
                return Some(&entry.1);
            }
            i = i + 1;
        }
        proof {
            assert(self.entries@.subrange(i as int, self.entries@.len() as int).len() == 0);
        }
        None
    }
}

/// All renderer-resource registries, keyed by [`RendererId`]; namespaces are
/// per registry.
#[derive(Clone, Debug)]
pub struct Renderers {
    pub shaders: Registry<ShaderHandle>,
    pub web_renderers: Registry<WebRendererInstance>,
    pub images: Registry<ImageResource>,
}

/// Per-pass read-only context: registry lookups (and, in the full engine,
/// GPU device and queue access). Borrowed by every construction and render
/// call; never owned by a node.
#[derive(Clone, Debug)]
pub struct RenderCtx {
    pub renderers: Renderers,
}

} // verus!
