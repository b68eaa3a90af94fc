use subversion::auth::AuthSetting;

#[test]
fn auth_settings_name_their_parameters() {
    let cases = [
        (AuthSetting::Username("u"), "username"),
        (AuthSetting::DefaultUsername("u"), "svn:auth:username"),
        (AuthSetting::SslServerTrustFile("u"), "servers:global:ssl-trust-default-ca"),
        (AuthSetting::SslClientCertFile("u"), "servers:global:ssl-client-cert-file"),
        (AuthSetting::SslClientCertPassword("u"), "servers:global:ssl-client-cert-password"),
        (AuthSetting::ConfigDir("u"), "config-dir"),
        (AuthSetting::ServerGroup("u"), "servers:group"),
        (AuthSetting::ConfigCategoryServers("u"), "config:servers"),
    ];
    for (setting, name) in cases.iter() {
        assert_eq!(setting.parameter_name(), *name);
        assert_eq!(setting.value(), "u");
    }
    assert_eq!(AuthSetting::ConfigDir("/home/me/.subversion").value(), "/home/me/.subversion");
}
