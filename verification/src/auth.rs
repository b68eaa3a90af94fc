//! Authentication settings.

use vstd::prelude::*;

verus! {

/// Authentication settings that can be configured.
pub enum AuthSetting<'a> {
    /// Username for authentication.
    Username(&'a str),
    /// Default username to use when not specified.
    DefaultUsername(&'a str),
    /// SSL server trust file path.
    SslServerTrustFile(&'a str),
    /// SSL client certificate file path.
    SslClientCertFile(&'a str),
    /// Password for SSL client certificate.
    SslClientCertPassword(&'a str),
    /// Configuration directory path.
    ConfigDir(&'a str),
    /// Server group name.
    ServerGroup(&'a str),
    /// Configuration category for servers.
    ConfigCategoryServers(&'a str),
}

impl<'a> AuthSetting<'a> {
    /// The name of the authentication parameter that a setting sets.
    pub open spec fn spec_parameter_name(self) -> Seq<char> {
        match self {
            AuthSetting::Username(_) => "username"@,
            AuthSetting::DefaultUsername(_) => "svn:auth:username"@,
            AuthSetting::SslServerTrustFile(_) => "servers:global:ssl-trust-default-ca"@,
            AuthSetting::SslClientCertFile(_) => "servers:global:ssl-client-cert-file"@,
            AuthSetting::SslClientCertPassword(_) => "servers:global:ssl-client-cert-password"@,
            AuthSetting::ConfigDir(_) => "config-dir"@,
            AuthSetting::ServerGroup(_) => "servers:group"@,
            AuthSetting::ConfigCategoryServers(_) => "config:servers"@,
        }
    }

    /// Which of the settings this is, by its position in the declaration.
    pub open spec fn spec_kind(self) -> int {
        match self {
            AuthSetting::Username(_) => 0,
            AuthSetting::DefaultUsername(_) => 1,
            AuthSetting::SslServerTrustFile(_) => 2,
            AuthSetting::SslClientCertFile(_) => 3,
            AuthSetting::SslClientCertPassword(_) => 4,
            AuthSetting::ConfigDir(_) => 5,
            AuthSetting::ServerGroup(_) => 6,
            AuthSetting::ConfigCategoryServers(_) => 7,
        }
    }

    /// The value that a setting gives its parameter.
    pub open spec fn spec_value(self) -> &'a str {
        match self {
            AuthSetting::Username(v) => v,
            AuthSetting::DefaultUsername(v) => v,
            AuthSetting::SslServerTrustFile(v) => v,
            AuthSetting::SslClientCertFile(v) => v,
            AuthSetting::SslClientCertPassword(v) => v,
            AuthSetting::ConfigDir(v) => v,
            AuthSetting::ServerGroup(v) => v,
            AuthSetting::ConfigCategoryServers(v) => v,
        }
    }

    /// The name of the authentication parameter that this setting sets.
    pub fn parameter_name(&self) -> (r: &'static str)
        ensures
            r@ == self.spec_parameter_name(),
            self is Username ==> r@ == "username"@,
            self is DefaultUsername ==> r@ == "svn:auth:username"@,
            self is SslServerTrustFile ==> r@ == "servers:global:ssl-trust-default-ca"@,
            self is SslClientCertFile ==> r@ == "servers:global:ssl-client-cert-file"@,
            self is SslClientCertPassword ==> r@ == "servers:global:ssl-client-cert-password"@,
            self is ConfigDir ==> r@ == "config-dir"@,
            self is ServerGroup ==> r@ == "servers:group"@,
            self is ConfigCategoryServers ==> r@ == "config:servers"@,
    {
        match self {
            AuthSetting::Username(_) => "username",
            AuthSetting::DefaultUsername(_) => "svn:auth:username",
            AuthSetting::SslServerTrustFile(_) => "servers:global:ssl-trust-default-ca",
            AuthSetting::SslClientCertFile(_) => "servers:global:ssl-client-cert-file",
            AuthSetting::SslClientCertPassword(_) => "servers:global:ssl-client-cert-password",
            AuthSetting::ConfigDir(_) => "config-dir",
            AuthSetting::ServerGroup(_) => "servers:group",
            AuthSetting::ConfigCategoryServers(_) => "config:servers",
        }
    }

    /// The value that this setting gives its parameter.
    pub fn value(&self) -> (r: &'a str)
        ensures
            r == self.spec_value(),
            self matches AuthSetting::Username(v) ==> r == v,
            self matches AuthSetting::DefaultUsername(v) ==> r == v,
            self matches AuthSetting::SslServerTrustFile(v) ==> r == v,
            self matches AuthSetting::SslClientCertFile(v) ==> r == v,
            self matches AuthSetting::SslClientCertPassword(v) ==> r == v,
            self matches AuthSetting::ConfigDir(v) ==> r == v,
            self matches AuthSetting::ServerGroup(v) ==> r == v,
            self matches AuthSetting::ConfigCategoryServers(v) ==> r == v,
    {
        match self {
            AuthSetting::Username(v) => v,
            AuthSetting::DefaultUsername(v) => v,
            AuthSetting::SslServerTrustFile(v) => v,
            AuthSetting::SslClientCertFile(v) => v,
            AuthSetting::SslClientCertPassword(v) => v,
            AuthSetting::ConfigDir(v) => v,
            AuthSetting::ServerGroup(v) => v,
            AuthSetting::ConfigCategoryServers(v) => v,
        }
    }
}

/// Settings of different kinds set different parameters, so that one never
/// overwrites another; settings of the same kind set the same parameter.
pub proof fn lemma_parameter_names_distinct(a: AuthSetting, b: AuthSetting)
    ensures
        a.spec_kind() == b.spec_kind() <==> a.spec_parameter_name() == b.spec_parameter_name(),
{
    reveal_strlit("username");
    reveal_strlit("svn:auth:username");
    reveal_strlit("servers:global:ssl-trust-default-ca");
    reveal_strlit("servers:global:ssl-client-cert-file");
    reveal_strlit("servers:global:ssl-client-cert-password");
    reveal_strlit("config-dir");
    reveal_strlit("servers:group");
    reveal_strlit("config:servers");
    let na = a.spec_parameter_name();
    let nb = b.spec_parameter_name();
    if a.spec_kind() != b.spec_kind() {
        if na.len() == nb.len() {
            assert(na[0] != nb[0] || na[8] != nb[8] || na[22] != nb[22]);
        }
    }
}

} // verus!
