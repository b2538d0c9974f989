use vstd::prelude::*;

verus! {

/// What a runtime tells about itself.
#[derive(Debug)]
pub struct InstanceInfo {
    pub name: String,
    pub description: String,
    pub hostname: String,
    pub port: u16,
    pub secure: bool,
    pub version: String,
    pub build_date: String,
    pub git_branch: String,
    pub git_commit: String,
    pub rustc_version: String,
    pub plugin_api_version: String,
}

/// The information about the instance that the GraphQL API hands out.
#[derive(Debug)]
pub struct GraphQLInstanceInfo {
    /// The instance information.
    pub instance_info: InstanceInfo,
}

impl GraphQLInstanceInfo {
    /// The name of the instance.
    pub fn name(&self) -> (r: String)
        ensures
            r@ == self.instance_info.name@,
    {
        self.instance_info.name.clone()
    }

    /// The description of the instance.
    pub fn description(&self) -> (r: String)
        ensures
            r@ == self.instance_info.description@,
    {
        self.instance_info.description.clone()
    }

    /// The host name of the GraphQL server.
    pub fn hostname(&self) -> (r: String)
        ensures
            r@ == self.instance_info.hostname@,
    {
        self.instance_info.hostname.clone()
    }

    /// The port of the GraphQL server.
    pub fn port(&self) -> (r: u16)
        ensures
            r == self.instance_info.port,
    {
        self.instance_info.port
    }

    /// Whether the GraphQL server uses TLS.
    pub fn secure(&self) -> (r: bool)
        ensures
            r == self.instance_info.secure,
    {
        self.instance_info.secure
    }

    /// The version of the runtime.
    pub fn version(&self) -> (r: String)
        ensures
            r@ == self.instance_info.version@,
    {
        self.instance_info.version.clone()
    }

    /// The date of the build.
    pub fn build_date(&self) -> (r: String)
        ensures
            r@ == self.instance_info.build_date@,
    {
        self.instance_info.build_date.clone()
    }

    /// The git branch of the build.
    pub fn git_branch(&self) -> (r: String)
        ensures
            r@ == self.instance_info.git_branch@,
    {
        self.instance_info.git_branch.clone()
    }

    /// The git commit of the build.
    pub fn git_commit(&self) -> (r: String)
        ensures
            r@ == self.instance_info.git_commit@,
    {
        self.instance_info.git_commit.clone()
    }

    /// The version of the compiler of the build.
    pub fn rustc_version(&self) -> (r: String)
        ensures
            r@ == self.instance_info.rustc_version@,
    {
        self.instance_info.rustc_version.clone()
    }

    /// The version of the plugin API.
    pub fn plugin_api_version(&self) -> (r: String)
        ensures
            r@ == self.instance_info.plugin_api_version@,
    {
        self.instance_info.plugin_api_version.clone()
    }
}

} // verus!
