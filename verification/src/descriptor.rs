//! Which capabilities each Plugin provides and requires.
use crate::contract::{
    ACCESS_CAPABILITY, ADMIN_CAPABILITY, AUTH_CAPABILITY, COLLABORATION_CAPABILITY,
    EXPORT_CAPABILITY, MEMBERSHIP_CAPABILITY, PROJECTS_CAPABILITY, RETENTION_CAPABILITY,
    SECRETS_CAPABILITY, TOOL_PROVIDER_CAPABILITY,
};
use vstd::prelude::*;

verus! {

/// The HTTP endpoint contract.
pub const HTTP_CAPABILITY: &'static str = "lenso.http.endpoint@1";

/// What a Plugin provides and requires.
#[derive(Clone, Debug)]
pub struct PluginDescriptor {
    pub plugin_id: &'static str,
    pub provided: Vec<&'static str>,
    pub required: Vec<&'static str>,
}

/// What the capabilities of a list are called.
pub open spec fn names(list: Seq<&'static str>) -> Seq<Seq<char>> {
    list.map_values(|name: &'static str| name@)
}

/// The Plugin that owns projects: three product roles and two governance roles.
pub fn projects_descriptor() -> (descriptor: PluginDescriptor)
    ensures
        descriptor.plugin_id@ == "lenso.projects"@,
        names(descriptor.provided@) == seq![
            PROJECTS_CAPABILITY@,
            COLLABORATION_CAPABILITY@,
            ADMIN_CAPABILITY@,
            EXPORT_CAPABILITY@,
            RETENTION_CAPABILITY@,
        ],
        names(descriptor.required@) == seq![
            SECRETS_CAPABILITY@,
            MEMBERSHIP_CAPABILITY@,
            ACCESS_CAPABILITY@,
        ],
{
    PluginDescriptor {
        plugin_id: "lenso.projects",
        provided: vec![
            PROJECTS_CAPABILITY,
            COLLABORATION_CAPABILITY,
            ADMIN_CAPABILITY,
            EXPORT_CAPABILITY,
            RETENTION_CAPABILITY,
        ],
        required: vec![SECRETS_CAPABILITY, MEMBERSHIP_CAPABILITY, ACCESS_CAPABILITY],
    }
}

/// The removable adapter that offers tools to agents.
pub fn agent_tools_descriptor() -> (descriptor: PluginDescriptor)
    ensures
        descriptor.plugin_id@ == "lenso.projects.agent-tools"@,
        names(descriptor.provided@) == seq![TOOL_PROVIDER_CAPABILITY@],
        names(descriptor.required@) == seq![PROJECTS_CAPABILITY@, COLLABORATION_CAPABILITY@],
{
    PluginDescriptor {
        plugin_id: "lenso.projects.agent-tools",
        provided: vec![TOOL_PROVIDER_CAPABILITY],
        required: vec![PROJECTS_CAPABILITY, COLLABORATION_CAPABILITY],
    }
}

/// The removable adapter that offers the tools over HTTP.
pub fn agent_web_descriptor() -> (descriptor: PluginDescriptor)
    ensures
        descriptor.plugin_id@ == "lenso.projects.agent-web"@,
        names(descriptor.provided@) == seq![HTTP_CAPABILITY@],
        names(descriptor.required@) == seq![AUTH_CAPABILITY@, TOOL_PROVIDER_CAPABILITY@],
{
    PluginDescriptor {
        plugin_id: "lenso.projects.agent-web",
        provided: vec![HTTP_CAPABILITY],
        required: vec![AUTH_CAPABILITY, TOOL_PROVIDER_CAPABILITY],
    }
}

} // verus!
