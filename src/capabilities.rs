//! What a router, or the server as a whole, declares it can do.
use vstd::prelude::*;

verus! {

#[derive(PartialEq, Eq, Structural, Debug, Clone, Copy)]
pub struct ToolsCapability {
    pub list_changed: Option<bool>,
}

#[derive(PartialEq, Eq, Structural, Debug, Clone, Copy)]
pub struct PromptsCapability {
    pub list_changed: Option<bool>,
}

#[derive(PartialEq, Eq, Structural, Debug, Clone, Copy)]
pub struct ResourcesCapability {
    pub subscribe: Option<bool>,
    pub list_changed: Option<bool>,
}

/// The capabilities of a router: absent members are not offered.
#[derive(PartialEq, Eq, Structural, Debug, Clone, Copy)]
pub struct ServerCapabilities {
    pub tools: Option<ToolsCapability>,
    pub prompts: Option<PromptsCapability>,
    pub resources: Option<ResourcesCapability>,
}

/// A simple capability descriptor for a router.
#[derive(PartialEq, Eq, Structural, Debug, Clone, Copy, Default)]
pub struct RouterCapabilities {
    pub tools_list_changed: bool,
    pub resources_subscribe: bool,
    pub resources_list_changed: bool,
    pub prompts_list_changed: bool,
}

/// Builds a `ServerCapabilities` one member at a time.
pub struct CapabilitiesBuilder {
    tools: Option<ToolsCapability>,
    prompts: Option<PromptsCapability>,
    resources: Option<ResourcesCapability>,
}

impl View for CapabilitiesBuilder {
    type V = ServerCapabilities;

    closed spec fn view(&self) -> ServerCapabilities {
        ServerCapabilities { tools: self.tools, prompts: self.prompts, resources: self.resources }
    }
}

impl CapabilitiesBuilder {
    /// A builder that offers nothing yet.
    pub fn new() -> (r: Self)
        ensures
            r@ == (ServerCapabilities { tools: None, prompts: None, resources: None }),
    {
        CapabilitiesBuilder { tools: None, prompts: None, resources: None }
    }

    /// Offers tools.
    pub fn with_tools(self, list_changed: bool) -> (r: Self)
        ensures
            r@ == (ServerCapabilities {
                tools: Some(ToolsCapability { list_changed: Some(list_changed) }),
                ..self@
            }),
    {
        CapabilitiesBuilder {
            tools: Some(ToolsCapability { list_changed: Some(list_changed) }),
            prompts: self.prompts,
            resources: self.resources,
        }
    }

    /// Offers prompts.
    pub fn with_prompts(self, list_changed: bool) -> (r: Self)
        ensures
            r@ == (ServerCapabilities {
                prompts: Some(PromptsCapability { list_changed: Some(list_changed) }),
                ..self@
            }),
    {
        CapabilitiesBuilder {
            tools: self.tools,
            prompts: Some(PromptsCapability { list_changed: Some(list_changed) }),
            resources: self.resources,
        }
    }

    /// Offers resources.
    pub fn with_resources(self, subscribe: bool, list_changed: bool) -> (r: Self)
        ensures
            r@ == (ServerCapabilities {
                resources: Some(
                    ResourcesCapability {
                        subscribe: Some(subscribe),
                        list_changed: Some(list_changed),
                    },
                ),
                ..self@
            }),
    {
        CapabilitiesBuilder {
            tools: self.tools,
            prompts: self.prompts,
            resources: Some(
                ResourcesCapability { subscribe: Some(subscribe), list_changed: Some(list_changed) },
            ),
        }
    }

    /// The capabilities configured so far.
    pub fn build(self) -> (r: ServerCapabilities)
        ensures
            r == self@,
    {
        ServerCapabilities { tools: self.tools, prompts: self.prompts, resources: self.resources }
    }
}

} // verus!
