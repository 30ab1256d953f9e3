use im_deploy::errors::{
    ConfigError, ImDeployError, OpenStackError, SshError, TailscaleError, TerraformError,
};

#[test]
fn test_terraform_error_display_messages() {
    let err = TerraformError::InitFailed("connection timeout".to_string());
    assert!(err.message().contains("Terraform initialization failed"));
    assert!(err.message().contains("connection timeout"));

    let err = TerraformError::CommandFailed {
        command: "terraform apply".to_string(),
        code: Some(1),
    };
    assert!(err.message().contains("terraform apply"));
    assert!(err.message().contains("exit code: 1"));

    let err = TerraformError::CommandFailed {
        command: "terraform plan".to_string(),
        code: None,
    };
    assert!(err.message().contains("terraform plan"));
    assert!(!err.message().contains("exit code"));

    let err = TerraformError::BinaryNotFound;
    assert!(err.message().contains("Install terraform or tofu"));

    let err = TerraformError::ResourceNotFound {
        resource: "load balancer IP".to_string(),
    };
    assert!(err.message().contains("load balancer IP"));
}

#[test]
fn test_error_conversion_from_io_error() {
    let io_err = std::io::Error::new(std::io::ErrorKind::NotFound, "file not found");
    let deploy_err: ImDeployError = io_err.into();

    match deploy_err {
        ImDeployError::Io(_) => {} // Success
        _ => panic!("Expected Io error variant"),
    }
}

#[test]
fn test_error_conversion_from_anyhow() {
    let anyhow_err = anyhow::Error::msg("generic error");
    let deploy_err: ImDeployError = anyhow_err.into();

    match deploy_err {
        ImDeployError::Other(_) => {} // Success
        _ => panic!("Expected Other error variant"),
    }
}

#[test]
fn test_ssh_error_variants() {
    let err = SshError::ConnectionFailed("timeout".to_string());
    assert!(err.message().contains("SSH connection failed"));
    assert!(err.message().contains("timeout"));

    let err = SshError::NoConnectionMethod;
    assert!(err
        .message()
        .contains("Neither Tailscale nor bastion host"));

    let err = SshError::TailscaleHostnameNotFound("k3s-server-0".to_string());
    assert!(err.message().contains("Tailscale hostname not found"));
    assert!(err.message().contains("k3s-server-0"));

    let err = SshError::CommandFailed {
        command: "kubectl get nodes".to_string(),
    };
    assert!(err.message().contains("kubectl get nodes"));
}

#[test]
fn test_config_error_variants() {
    let err = ConfigError::TerraformDirNotFound;
    assert!(err.message().contains("Terraform directory not found"));

    let err = ConfigError::MissingField("tailscale_api_key".to_string());
    assert!(err.message().contains("Missing required configuration"));
    assert!(err.message().contains("tailscale_api_key"));

    let err = ConfigError::InvalidValue {
        field: "port".to_string(),
        reason: "must be between 1-65535".to_string(),
    };
    assert!(err.message().contains("Invalid configuration value"));
    assert!(err.message().contains("port"));
    assert!(err.message().contains("1-65535"));
}

#[test]
fn test_openstack_error_variants() {
    let err = OpenStackError::AuthFailed("invalid credentials".to_string());
    assert!(err.message().contains("Authentication failed"));

    let err = OpenStackError::DeleteFailed {
        resource: "load balancer".to_string(),
        id: "lb-123".to_string(),
        message: "still in use".to_string(),
    };
    assert!(err.message().contains("load balancer"));
    assert!(err.message().contains("lb-123"));
    assert!(err.message().contains("still in use"));
}

#[test]
fn test_tailscale_error_variants() {
    let err = TailscaleError::CliNotInstalled;
    assert!(err.message().contains("not installed"));

    let err = TailscaleError::NotRunning("Stopped".to_string());
    assert!(err.message().contains("not running"));
    assert!(err.message().contains("Stopped"));

    let err = TailscaleError::WrongAccount {
        expected: "org1.github".to_string(),
        actual: "org2.github".to_string(),
    };
    // Check for "Connected to wrong" instead of just "Wrong"
    assert!(err.message().contains("wrong") || err.message().contains("Expected"));
    assert!(err.message().contains("org1.github"));
    assert!(err.message().contains("org2.github"));
}
