use vstd::prelude::*;

verus! {

/// The graphics API behind a dispatcher, with its context where it has one.
pub enum ApiContext<V> {
    Vulkan(V),
    OpenGl,
}

/// Routes GPU work to the context of whichever API is in use.
pub struct GpuContextDispatcher<V> {
    api_context: ApiContext<V>,
}

impl<V> GpuContextDispatcher<V> {
    pub closed spec fn spec_api_context(&self) -> &ApiContext<V> {
        &self.api_context
    }

    /// A dispatcher over a Vulkan context.
    pub fn vulkan(ctx: V) -> (r: Self)
        ensures
            *r.spec_api_context() == ApiContext::Vulkan(ctx),
    {
        GpuContextDispatcher { api_context: ApiContext::Vulkan(ctx) }
    }

    /// A dispatcher over OpenGL, which keeps no context of its own.
    pub fn open_gl() -> (r: Self)
        ensures
            *r.spec_api_context() == ApiContext::<V>::OpenGl,
    {
        GpuContextDispatcher { api_context: ApiContext::OpenGl }
    }

    pub fn is_vulkan(&self) -> (r: bool)
        ensures
            r <==> self.spec_api_context() is Vulkan,
    {
        match &self.api_context {
            ApiContext::Vulkan(_) => true,
            ApiContext::OpenGl => false,
        }
    }

    /// The Vulkan context, when Vulkan is in use.
    pub fn vulkan_context(&self) -> (r: Option<&V>)
        ensures
            match self.spec_api_context() {
                ApiContext::Vulkan(c) => r == Some(c),
                ApiContext::OpenGl => r is None,
            },
    {
        match &self.api_context {
            ApiContext::Vulkan(c) => Some(c),
            ApiContext::OpenGl => None,
        }
    }

    /// Gives up the Vulkan context, if any, so that it can be torn down.
    pub fn into_vulkan_context(self) -> (r: Option<V>)
        ensures
            match self.spec_api_context() {
                ApiContext::Vulkan(c) => r == Some(*c),
                ApiContext::OpenGl => r is None,
            },
    {
        match self.api_context {
            ApiContext::Vulkan(c) => Some(c),
            ApiContext::OpenGl => None,
        }
    }
}

} // verus!
