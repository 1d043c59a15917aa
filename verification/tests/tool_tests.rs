use ops_tool::error::Error;
use ops_tool::tool::{resolve, Tool};

#[test]
fn names_round_trip() {
    assert_eq!(Tool::Kops.name(), "kops");
    assert_eq!(Tool::Kubectl.name(), "kubectl");
    assert_eq!(Tool::Terraform.name(), "terraform");
    assert!(matches!(Tool::from_str("kops"), Ok(Tool::Kops)));
    assert!(matches!(Tool::from_str("kubectl"), Ok(Tool::Kubectl)));
    assert!(matches!(Tool::from_str("terraform"), Ok(Tool::Terraform)));
}

#[test]
fn unknown_tool_is_refused() {
    assert!(matches!(Tool::from_str("helm"), Err(Error::UnknownTool)));
    assert!(matches!(resolve(""), Err(Error::UnknownTool)));
    assert!(resolve("terraform").is_ok());
}

#[test]
fn terraform_url_substitutes_twice() {
    let url = Tool::Terraform.url("1.5.0", "linux", "amd64").unwrap();
    assert_eq!(
        url,
        "https://releases.hashicorp.com/terraform/1.5.0/terraform_1.5.0_linux_amd64.zip"
    );
}

#[test]
fn kops_url_above_threshold_has_v_prefix() {
    let url = Tool::Kops.url("1.20.0", "linux", "amd64").unwrap();
    assert_eq!(
        url,
        "https://github.com/kubernetes/kops/releases/download/v1.20.0/kops-linux-amd64"
    );
}

#[test]
fn kops_url_below_threshold_has_no_prefix() {
    let url = Tool::Kops.url("1.10.0", "linux", "amd64").unwrap();
    assert_eq!(
        url,
        "https://github.com/kubernetes/kops/releases/download/1.10.0/kops-linux-amd64"
    );
}

#[test]
fn kops_url_at_threshold_has_no_prefix() {
    let url = Tool::Kops.url("1.15.0", "darwin", "amd64").unwrap();
    assert_eq!(
        url,
        "https://github.com/kubernetes/kops/releases/download/1.15.0/kops-darwin-amd64"
    );
}

#[test]
fn kubectl_url_always_has_v_prefix() {
    let url = Tool::Kubectl.url("1.2.3", "linux", "amd64").unwrap();
    assert_eq!(
        url,
        "https://storage.googleapis.com/kubernetes-release/release/v1.2.3/bin/linux/amd64/kubectl"
    );
}

#[test]
fn url_refuses_invalid_version() {
    assert!(matches!(
        Tool::Terraform.url("latest", "linux", "amd64"),
        Err(Error::InvalidVersion)
    ));
    assert!(matches!(
        Tool::Kops.url("1.2", "linux", "amd64"),
        Err(Error::InvalidVersion)
    ));
}
