use krunch::addons::{
    add_node_primary_label_if_not_exists, docker_env_arguments, enable_ingress_addon_if_needed,
    enable_minikube_ingress_addon, get_minikbe_addons, get_minikube_ip, ingress_enabled,
    status_enabled, AddonError,
};
use krunch::commands::{
    copy_as_admin_unix, copy_as_admin_windows, copy_result, join_arguments,
    should_continue_as_admin, sudo_check,
};
use krunch::config::Krunch;
use krunch::connect::{get_minikube_client, ConnectError};
use krunch::exec::CommandResult;
use krunch::install::{
    cli_install, cli_remove, create_default_config_if_needed, download_message, get_progress_bar,
    remove_binaries, Decision, InstallStep, RemoveStep,
};
use krunch::paths::{Binary, Host, PathError, TargetArch, TargetOs};
use krunch::resource::{Body, ResourceKind};
use krunch::server::{command_response, index, skaffold, skaffold_response, HttpJsonResponse};
use krunch::tls::{
    certificate_files, create_certificate_files, handle_resource_deletion_result,
    install_local_ca, minikube_host_name, remove_local_ca, tls_secret_name, DeleteReply,
    DeletionOutcome,
};

fn s(parts: &[&str]) -> Vec<String> {
    parts.iter().map(|p| p.to_string()).collect()
}

#[test]
fn tls_secret_holds_certificate_and_key_in_base64() {
    let secret = Krunch::install_tls_secret("hello", "-----BEGIN KEY-----\n");
    assert_eq!(secret.kind(), ResourceKind::Secret);
    assert_eq!(secret.api_version, "v1");
    assert_eq!(secret.metadata.name, "tls");
    assert_eq!(secret.metadata.namespace, Some("default".to_string()));
    assert_eq!(
        secret.body,
        Body::Secret {
            secret_type: "kubernetes.io/tls".to_string(),
            data: vec![
                ("tls.crt".to_string(), "aGVsbG8=".to_string()),
                ("tls.key".to_string(), "LS0tLS1CRUdJTiBLRVktLS0tLQo=".to_string()),
            ],
        }
    );
}

#[test]
fn certificate_files_are_named_after_the_host() {
    assert_eq!(minikube_host_name(), "k8s.local");
    assert_eq!(tls_secret_name(), "tls");
    assert_eq!(certificate_files(), ("k8s.local.pem".to_string(), "k8s.local-key.pem".to_string()));
    assert_eq!(install_local_ca(), s(&["--install"]));
    assert_eq!(remove_local_ca(), s(&["--uninstall"]));
    assert_eq!(create_certificate_files(), s(&["k8s.local"]));
}

#[test]
fn deletion_answers_are_classified() {
    assert_eq!(handle_resource_deletion_result(DeleteReply::Deleted), DeletionOutcome::Deleted);
    assert_eq!(
        handle_resource_deletion_result(DeleteReply::Api { reason: "NotFound".to_string(), code: 404 }),
        DeletionOutcome::NotFound
    );
    assert_eq!(
        handle_resource_deletion_result(DeleteReply::Api { reason: "Forbidden".to_string(), code: 403 }),
        DeletionOutcome::Failed("Forbidden".to_string())
    );
    assert_eq!(
        handle_resource_deletion_result(DeleteReply::Transport("down".to_string())),
        DeletionOutcome::Failed("down".to_string())
    );
    assert_eq!(DeletionOutcome::Deleted.message(), "success");
    assert_eq!(DeletionOutcome::NotFound.message(), "nothing to do");
    assert_eq!(DeletionOutcome::Failed("x".to_string()).message(), "failure");
}

#[test]
fn ingress_status_is_read_from_the_addon_list() {
    let enabled = "{\"dashboard\":{\"Profile\":\"minikube\",\"Status\":\"disabled\"},\"ingress\":{\"Profile\":\"minikube\",\"Status\":\"enabled\"}}";
    assert_eq!(ingress_enabled(enabled), Ok(true));
    assert_eq!(enable_ingress_addon_if_needed(enabled), Ok(None));
    let disabled = "{\"ingress\":{\"Profile\":\"minikube\",\"Status\":\"disabled\"}}";
    assert_eq!(ingress_enabled(disabled), Ok(false));
    assert_eq!(
        enable_ingress_addon_if_needed(disabled),
        Ok(Some(s(&["addons", "enable", "ingress"])))
    );
    assert_eq!(ingress_enabled("{}"), Ok(false));
    assert_eq!(ingress_enabled("{\"ingress\":{\"Status\":true}}"), Ok(false));
    assert_eq!(ingress_enabled("[1,2]"), Ok(false));
    assert_eq!(ingress_enabled("not json"), Err(AddonError::BadJson));
    assert_eq!(enable_ingress_addon_if_needed(""), Err(AddonError::BadJson));
    assert!(status_enabled(Some("enabled")));
    assert!(!status_enabled(Some("Enabled")));
    assert!(!status_enabled(None));
}

#[test]
fn minikube_arguments() {
    assert_eq!(get_minikbe_addons(), s(&["addons", "list", "--output", "json"]));
    assert_eq!(enable_minikube_ingress_addon(), s(&["addons", "enable", "ingress"]));
    assert_eq!(docker_env_arguments(), s(&["docker-env", "--shell", "bash"]));
    assert_eq!(get_minikube_ip(), s(&["ip"]));
}

#[test]
fn node_gets_the_primary_label_once() {
    let labels = vec![("kubernetes.io/os".to_string(), "linux".to_string())];
    assert_eq!(
        add_node_primary_label_if_not_exists(labels.clone()),
        Some(vec![
            ("kubernetes.io/os".to_string(), "linux".to_string()),
            ("minikube.k8s.io/primary".to_string(), "true".to_string()),
        ])
    );
    assert_eq!(
        add_node_primary_label_if_not_exists(vec![]),
        Some(vec![("minikube.k8s.io/primary".to_string(), "true".to_string())])
    );
    let marked = vec![("minikube.k8s.io/primary".to_string(), "false".to_string())];
    assert_eq!(add_node_primary_label_if_not_exists(marked), None);
}

#[test]
fn host_commands_are_framed_for_the_shell_of_the_system() {
    assert_eq!(Krunch::execute_host_command("minikube ip", TargetOs::Linux), s(&["sh", "-c", "minikube ip"]));
    assert_eq!(Krunch::execute_host_command("minikube ip", TargetOs::MacOs), s(&["sh", "-c", "minikube ip"]));
    assert_eq!(
        Krunch::execute_host_command("minikube ip", TargetOs::Windows),
        s(&["cmd", "/C", "minikube ip"])
    );
    let h = Host {
        os: TargetOs::Linux,
        arch: TargetArch::Amd64,
        home: Some("/home/timo".to_string()),
        shell: None,
    };
    assert_eq!(
        Krunch::execute_command(Binary::Mkcert, "--install", &h),
        Ok(s(&["sh", "-c", "/home/timo/.krunch/bin/mkcert --install"]))
    );
    assert_eq!(
        Krunch::execute_command(Binary::Minikube, "docker-env", &h),
        Ok(s(&["sh", "-c", "minikube docker-env"]))
    );
    let lost = Host { os: TargetOs::Linux, arch: TargetArch::Amd64, home: None, shell: None };
    assert_eq!(Krunch::execute_command(Binary::Mkcert, "--install", &lost), Err(PathError::NoHome));
}

#[test]
fn command_lines_are_put_together() {
    assert_eq!(
        Krunch::create_command(&s(&["kubectl", "get", "pods"])),
        s(&["sh", "-c", "kubectl get pods "])
    );
    assert_eq!(Krunch::create_command(&vec![]), s(&["sh", "-c", ""]));
    assert_eq!(join_arguments("kubectl get", &s(&["pods", "-n", "dev"])), "kubectl get pods -n dev");
    assert_eq!(join_arguments("kubectl get", &vec![]), "kubectl get");
    assert_eq!(Krunch::mount_current_path("/work/app"), s(&["minikube", "mount", "/work/app:/krunch"]));
    assert_eq!(Krunch::restart_pod_command("krunch-1"), "kubectl delete po krunch-1");
    assert_eq!(Krunch::unmount(), "minikube ssh \"sudo umount /krunch && sudo rm -rf /krunch\"");
}

#[test]
fn copies_as_administrator() {
    assert_eq!(
        copy_as_admin_unix("/tmp/x", "/etc/hosts"),
        s(&["sudo", "-p", "[sudo] ", "mv", "/tmp/x", "/etc/hosts"])
    );
    assert_eq!(
        copy_as_admin_windows("C:\\tmp\\x", "C:/Windows/System32/Drivers/etc/hosts", "C:\\tmp\\krunch"),
        s(&[
            "Start-Process",
            "-FilePath",
            "powershell",
            "-WindowStyle",
            "Hidden",
            "-Wait",
            "-Verb",
            "RunAs",
            "-ArgumentList",
            "'Copy-Item -Path \"C:\\tmp\\x\" -Destination \"C:/Windows/System32/Drivers/etc/hosts\" -Force 2> \"C:\\tmp\\krunch\"'",
        ])
    );
    assert_eq!(copy_result(""), Ok(()));
    assert_eq!(copy_result("denied"), Err("copy failure: denied".to_string()));
    assert_eq!(sudo_check(), vec![s(&["sudo", "-k"]), s(&["sudo", "true"])]);
}

#[test]
fn answers_to_the_admin_question() {
    assert_eq!(should_continue_as_admin("y\n"), Some(true));
    assert_eq!(should_continue_as_admin(" Y "), Some(true));
    assert_eq!(should_continue_as_admin("n\n"), Some(false));
    assert_eq!(should_continue_as_admin("N"), Some(false));
    assert_eq!(should_continue_as_admin("\n"), Some(false));
    assert_eq!(should_continue_as_admin(""), Some(false));
    assert_eq!(should_continue_as_admin("yes"), None);
    assert_eq!(should_continue_as_admin("maybe"), None);
}

#[test]
fn only_the_minikube_context_will_do() {
    assert_eq!(get_minikube_client(Some("minikube")), Ok(()));
    assert_eq!(
        get_minikube_client(Some("production")),
        Err(ConnectError::WrongContext("production".to_string()))
    );
    assert_eq!(get_minikube_client(None), Err(ConnectError::WrongContext(String::new())));
    assert_eq!(
        ConnectError::WrongContext("production".to_string()).message(),
        "not connected to minikube, current context is production"
    );
    assert_eq!(
        ConnectError::Config("no file".to_string()).message(),
        "failed to load cluster config: no file"
    );
    assert_eq!(
        ConnectError::Unreachable.message(),
        "failed to connect to cluster, is minikube running?"
    );
}

#[test]
fn responses_have_status_and_json_body() {
    assert_eq!(
        HttpJsonResponse::ok("{\"a\":1}"),
        HttpJsonResponse {
            status: 200,
            content_type: "application/json".to_string(),
            body: "{\"a\":1}".to_string()
        }
    );
    assert_eq!(HttpJsonResponse::bad_request("\"x\"").status, 400);
    assert_eq!(HttpJsonResponse::bad_request("\"x\"").body, "{\"error\":\"x\"}");
    assert_eq!(HttpJsonResponse::invalid_token("\"x\"").status, 401);
    assert_eq!(HttpJsonResponse::invalid_token("\"x\"").body, "{\"error\":\"x\"}");
    assert_eq!(HttpJsonResponse::internal_server_error("\"x\"").status, 500);
    assert_eq!(HttpJsonResponse::internal_server_error("\"x\"").body, "{\"error\":\"x\"}");
    assert_eq!(index().body, "\"Playground API\"");
    assert_eq!(index().status, 200);
}

#[test]
fn texts_are_written_as_json_strings() {
    let plain = CommandResult { stdout: "plain".to_string(), stderr: String::new(), exit_code: 0 };
    assert_eq!(command_response(&plain), "{\"exit_status\":0,\"stderr\":\"\",\"stdout\":\"plain\"}");
    let odd =
        CommandResult { stdout: "a\"b\\c\nd\te".to_string(), stderr: "\u{1}".to_string(), exit_code: 1 };
    assert_eq!(
        command_response(&odd),
        "{\"exit_status\":1,\"stderr\":\"\\u0001\",\"stdout\":\"a\\\"b\\\\c\\nd\\te\"}"
    );
}

#[test]
fn skaffold_is_run_and_reported() {
    assert_eq!(skaffold("run -n default"), s(&["sh", "-c", "skaffold run -n default"]));
    let result =
        CommandResult { stdout: "done\n".to_string(), stderr: "w\"".to_string(), exit_code: -2 };
    assert_eq!(
        command_response(&result),
        "{\"exit_status\":-2,\"stderr\":\"w\\\"\",\"stdout\":\"done\\n\"}"
    );
    let ok = skaffold_response(Ok(result));
    assert_eq!(ok.status, 200);
    assert_eq!(ok.body, "{\"exit_status\":-2,\"stderr\":\"w\\\"\",\"stdout\":\"done\\n\"}");
    let failed = skaffold_response(Err("No such file".to_string()));
    assert_eq!(failed.status, 500);
    assert_eq!(failed.body, "{\"error\":\"No such file\"}");
}

#[test]
fn installer_skips_admin_steps_without_admin() {
    assert_eq!(
        cli_install(true),
        vec![
            (InstallStep::DownloadTools, Decision::Run),
            (InstallStep::AddToPath, Decision::Run),
            (InstallStep::PointDockerAtCluster, Decision::Run),
            (InstallStep::EnableIngress, Decision::Run),
            (InstallStep::CreateDnsEntry, Decision::Run),
            (InstallStep::CreateCaAndTls, Decision::Run),
        ]
    );
    let plan = cli_install(false);
    assert_eq!(plan[3], (InstallStep::EnableIngress, Decision::Run));
    assert_eq!(plan[4], (InstallStep::CreateDnsEntry, Decision::SkippedNotAdmin));
    assert_eq!(plan[5], (InstallStep::CreateCaAndTls, Decision::SkippedNotAdmin));
}

#[test]
fn remover_keeps_the_tools_without_admin() {
    assert_eq!(
        cli_remove(false),
        vec![
            (RemoveStep::EnvironmentEntries, Decision::Run),
            (RemoveStep::DnsEntry, Decision::SkippedNotAdmin),
            (RemoveStep::CaAndTls, Decision::SkippedNotAdmin),
            (RemoveStep::DownloadedFiles, Decision::SkippedStillNeeded),
        ]
    );
    assert_eq!(cli_remove(true).iter().filter(|p| p.1 == Decision::Run).count(), 4);
    assert_eq!(Decision::SkippedNotAdmin.message(), "skipped (not admin)");
    assert_eq!(
        Decision::SkippedStillNeeded.message(),
        "skipped (needed for previously skipped step)"
    );
    assert_eq!(Decision::Run.message(), "");
    assert_eq!(remove_binaries(false, false), "nothing to do");
    assert_eq!(remove_binaries(true, false), "success");
    assert_eq!(remove_binaries(false, true), "success");
}

#[test]
fn announcements_are_filled_to_a_common_width() {
    assert_eq!(InstallStep::DownloadTools.label(), format!("{:<35}", "downloading tools"));
    assert_eq!(InstallStep::AddToPath.label(), format!("{:<35}", "adding tools to PATH"));
    assert_eq!(
        InstallStep::PointDockerAtCluster.label(),
        format!("{:<35}", "point docker cli to minikube")
    );
    assert_eq!(InstallStep::EnableIngress.label(), format!("{:<35}", "enabling ingress addon"));
    assert_eq!(InstallStep::CreateDnsEntry.label(), format!("{:<35}", "creating DNS entry"));
    assert_eq!(InstallStep::CreateCaAndTls.label(), format!("{:<35}", "creating CA and TLS secret"));
    assert_eq!(
        RemoveStep::EnvironmentEntries.label(),
        format!("{:<35}", "deleting environment entries")
    );
    assert_eq!(RemoveStep::DnsEntry.label(), format!("{:<35}", "deleting DNS entry"));
    assert_eq!(RemoveStep::CaAndTls.label(), format!("{:<35}", "deleting CA and TLS secret"));
    assert_eq!(RemoveStep::DownloadedFiles.label(), format!("{:<35}", "deleting downloaded files"));
    assert_eq!(download_message("kubectl"), format!("{:<35}", "downloading kubectl"));
}

#[test]
fn progress_is_drawn_with_a_bar_on_wide_terminals() {
    assert_eq!(get_progress_bar(80), "\r{msg}{bytes}/{total_bytes}");
    assert_eq!(get_progress_bar(100), "\r{msg}{bytes}/{total_bytes}");
    assert_eq!(
        get_progress_bar(101),
        "\r{msg}[{bar:30.cyan/blue}] {bytes}/{total_bytes} ({bytes_per_sec})"
    );
    assert_eq!(get_progress_bar(0), "\r{msg}{bytes}/{total_bytes}");
}

#[test]
fn default_config_names_the_wanted_versions() {
    assert_eq!(create_default_config_if_needed(true), None);
    let text = create_default_config_if_needed(false).unwrap();
    let value: serde_json::Value = serde_json::from_str(&text).unwrap();
    let versions = value.get("versions").unwrap();
    assert_eq!(versions.get("kubectl").unwrap().as_str(), Some("1.23.3"));
    assert_eq!(versions.get("helm").unwrap().as_str(), Some("3.2.0"));
    assert_eq!(versions.get("mkcert").unwrap().as_str(), Some("1.4.4"));
    assert_eq!(versions.get("skaffold").unwrap().as_str(), Some("2.3.1"));
    assert_eq!(versions.get("k9s").unwrap().as_str(), Some("0.27.3"));
    assert_eq!(versions.get("docker").unwrap().as_str(), Some("23.0.4"));
    assert_eq!(versions.get("buildx").unwrap().as_str(), Some("0.10.4"));
    assert_eq!(serde_json::to_string_pretty(&value).unwrap(), text);
}

#[test]
fn steps_know_whether_they_need_an_administrator() {
    assert!(!InstallStep::DownloadTools.needs_admin());
    assert!(!InstallStep::EnableIngress.needs_admin());
    assert!(InstallStep::CreateDnsEntry.needs_admin());
    assert!(InstallStep::CreateCaAndTls.needs_admin());
    assert_eq!(InstallStep::CreateDnsEntry.decide(true), Decision::Run);
    assert_eq!(InstallStep::CreateDnsEntry.decide(false), Decision::SkippedNotAdmin);
    assert_eq!(InstallStep::AddToPath.decide(false), Decision::Run);
    assert!(!RemoveStep::EnvironmentEntries.needs_admin());
    assert!(RemoveStep::DnsEntry.needs_admin());
    assert!(RemoveStep::DownloadedFiles.needs_admin());
    assert_eq!(RemoveStep::DownloadedFiles.decide(false), Decision::SkippedStillNeeded);
    assert_eq!(RemoveStep::DownloadedFiles.decide(true), Decision::Run);
    assert_eq!(RemoveStep::EnvironmentEntries.decide(false), Decision::Run);
}
