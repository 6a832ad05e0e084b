use krunch::downloads::{
    advance_progress, archive_kind, download_file, get_actual_versions,
    get_any_version, get_buildx_url, get_docker_url, get_downloads, get_helm_url, get_k9s_url,
    get_kubectl_url, get_mkcert_url, get_necessary_downloads, get_skaffold_url, get_tool_url,
    handle_tmp_file, platform_supported, target_folder, version_from_capture, ArchiveKind,
    Download, DownloadError, DownloadUrls, FetchedFile, KrunchConfig, TargetFolder, ToolRuns, VersionError,
    Versions,
};
use krunch::host::ProcessOutput;
use krunch::paths::{Binary, Host, PathError, TargetArch, TargetOs};

fn ran(stdout: &str) -> Option<ProcessOutput> {
    Some(ProcessOutput { stdout: stdout.as_bytes().to_vec(), stderr: vec![], code: Some(0) })
}

#[test]
fn addresses_for_linux() {
    let (os, arch) = (TargetOs::Linux, TargetArch::Amd64);
    assert_eq!(
        get_docker_url(os, arch, "23.0.4"),
        "https://download.docker.com/linux/static/stable/x86_64/docker-23.0.4.tgz"
    );
    assert_eq!(get_kubectl_url(os, arch, "1.26.0"), "https://dl.k8s.io/v1.26.0/bin/linux/amd64/kubectl");
    assert_eq!(get_helm_url(os, arch, "3.2.0"), "https://get.helm.sh/helm-v3.2.0-linux-amd64.tar.gz");
    assert_eq!(
        get_mkcert_url(os, arch, "1.4.4"),
        "https://dl.filippo.io/mkcert/v1.4.4?for=linux/amd64"
    );
    assert_eq!(
        get_skaffold_url(os, arch, "2.3.1"),
        "https://storage.googleapis.com/skaffold/releases/v2.3.1/skaffold-linux-amd64"
    );
    assert_eq!(
        get_k9s_url(os, arch, "0.27.3"),
        "https://github.com/derailed/k9s/releases/download/v0.27.3/k9s_Linux_amd64.tar.gz"
    );
    assert_eq!(
        get_buildx_url(os, arch, "0.10.4"),
        "https://github.com/docker/buildx/releases/download/v0.10.4/buildx-v0.10.4.linux-amd64"
    );
}

#[test]
fn addresses_for_windows_and_mac() {
    let (os, arch) = (TargetOs::Windows, TargetArch::Amd64);
    assert_eq!(
        get_docker_url(os, arch, "23.0.4"),
        "https://download.docker.com/win/static/stable/x86_64/docker-23.0.4.zip"
    );
    assert_eq!(
        get_kubectl_url(os, arch, "1.26.0"),
        "https://dl.k8s.io/v1.26.0/bin/windows/amd64/kubectl.exe"
    );
    assert_eq!(get_helm_url(os, arch, "3.2.0"), "https://get.helm.sh/helm-v3.2.0-windows-amd64.zip");
    assert_eq!(
        get_skaffold_url(os, arch, "2.3.1"),
        "https://storage.googleapis.com/skaffold/releases/v2.3.1/skaffold-windows-amd64.exe"
    );
    assert_eq!(
        get_k9s_url(os, arch, "0.27.3"),
        "https://github.com/derailed/k9s/releases/download/v0.27.3/k9s_Windows_amd64.tar.gz"
    );
    assert_eq!(
        get_buildx_url(os, arch, "0.10.4"),
        "https://github.com/docker/buildx/releases/download/v0.10.4/buildx-v0.10.4.windows-amd64.exe"
    );
    let (os, arch) = (TargetOs::MacOs, TargetArch::Arm64);
    assert_eq!(
        get_docker_url(os, arch, "23.0.4"),
        "https://download.docker.com/mac/static/stable/aarch64/docker-23.0.4.tgz"
    );
    assert_eq!(get_kubectl_url(os, arch, "1.26.0"), "https://dl.k8s.io/v1.26.0/bin/darwin/arm64/kubectl");
    assert_eq!(get_mkcert_url(os, arch, "1.4.4"), "https://dl.filippo.io/mkcert/v1.4.4?for=darwin/arm64");
    assert_eq!(
        get_k9s_url(os, arch, "0.27.3"),
        "https://github.com/derailed/k9s/releases/download/v0.27.3/k9s_Darwin_arm64.tar.gz"
    );
    assert_eq!(get_tool_url(Binary::Helm, os, arch, "3"), get_helm_url(os, arch, "3"));
    assert_eq!(get_tool_url(Binary::Minikube, os, arch, "3"), "");
}

#[test]
fn every_tool_is_fetched_for_a_fresh_machine() {
    let list = get_downloads(TargetOs::Linux, TargetArch::Amd64).unwrap();
    let targets: Vec<&str> = list.iter().map(|d| d.target.as_str()).collect();
    assert_eq!(
        targets,
        vec!["docker", "docker-buildx", "kubectl", "helm", "mkcert", "skaffold", "k9s"]
    );
    assert_eq!(
        list[0].source,
        "https://download.docker.com/linux/static/stable/x86_64/docker-23.0.4.tgz"
    );
    assert_eq!(list[2].source, "https://dl.k8s.io/v1.26.0/bin/linux/amd64/kubectl");
    assert_eq!(
        list[6].source,
        "https://github.com/derailed/k9s/releases/download/v0.27.3/k9s_Linux_amd64.tar.gz"
    );
    let list = get_downloads(TargetOs::Windows, TargetArch::Amd64).unwrap();
    assert_eq!(list[1].target, "docker-buildx.exe");
    assert_eq!(list[4].target, "mkcert.exe");
}

#[test]
fn unsupported_platform_is_refused() {
    assert!(platform_supported(TargetOs::Windows, TargetArch::Amd64));
    assert!(platform_supported(TargetOs::MacOs, TargetArch::Amd64));
    assert!(platform_supported(TargetOs::MacOs, TargetArch::Arm64));
    assert!(platform_supported(TargetOs::Linux, TargetArch::Amd64));
    assert!(!platform_supported(TargetOs::Linux, TargetArch::Arm64));
    assert!(!platform_supported(TargetOs::Windows, TargetArch::Arm64));
    assert_eq!(
        get_downloads(TargetOs::Linux, TargetArch::Arm64),
        Err(DownloadError::UnsupportedPlatform)
    );
    assert_eq!(
        DownloadUrls::new(TargetOs::Windows, TargetArch::Arm64),
        Err(DownloadError::UnsupportedPlatform)
    );
    assert_eq!(
        get_necessary_downloads(
            TargetOs::Linux,
            TargetArch::Arm64,
            &Versions::pinned(),
            &Versions::pinned()
        ),
        Err(DownloadError::UnsupportedPlatform)
    );
}

#[test]
fn only_tools_of_another_version_are_fetched() {
    let expected = Versions::pinned();
    let mut actual = Versions::pinned();
    assert_eq!(
        get_necessary_downloads(TargetOs::Linux, TargetArch::Amd64, &expected, &actual),
        Ok(vec![])
    );
    actual.helm = Some("3.1.0".to_string());
    actual.k9s = None;
    assert_eq!(
        get_necessary_downloads(TargetOs::Linux, TargetArch::Amd64, &expected, &actual),
        Ok(vec![
            Download {
                target: "helm".to_string(),
                source: "https://get.helm.sh/helm-v3.2.0-linux-amd64.tar.gz".to_string(),
            },
            Download {
                target: "k9s".to_string(),
                source:
                    "https://github.com/derailed/k9s/releases/download/v0.27.3/k9s_Linux_amd64.tar.gz"
                        .to_string(),
            },
        ])
    );
}

#[test]
fn needed_tool_without_expected_version_is_an_error() {
    let mut expected = Versions::pinned();
    expected.kubectl = None;
    expected.skaffold = None;
    let actual = Versions::pinned();
    assert_eq!(
        get_necessary_downloads(TargetOs::Linux, TargetArch::Amd64, &expected, &actual),
        Err(DownloadError::NoVersion(Binary::Kubectl))
    );
    let mut both = Versions::pinned();
    both.kubectl = None;
    both.skaffold = None;
    assert_eq!(
        get_necessary_downloads(TargetOs::Linux, TargetArch::Amd64, &expected, &both),
        Ok(vec![])
    );
    assert_eq!(Versions::none().get(Binary::Docker), None);
    assert_eq!(Versions::pinned().get(Binary::Docker), Some("23.0.4"));
    assert_eq!(Versions::pinned().get(Binary::Minikube), None);
    let config = KrunchConfig { versions: Versions::pinned() };
    assert_eq!(config.versions.kubectl, Some("1.26.0".to_string()));
}

#[test]
fn first_installer_knows_five_addresses() {
    let urls = DownloadUrls::new(TargetOs::MacOs, TargetArch::Amd64).unwrap();
    assert_eq!(urls.docker, "https://download.docker.com/mac/static/stable/x86_64/docker-23.0.4.tgz");
    assert_eq!(urls.kubectl, "https://dl.k8s.io/v1.26.0/bin/darwin/amd64/kubectl");
    assert_eq!(urls.helm, "https://get.helm.sh/helm-v3.2.0-darwin-amd64.tar.gz");
    assert_eq!(
        urls.skaffold,
        "https://storage.googleapis.com/skaffold/releases/v2.3.1/skaffold-darwin-amd64"
    );
    assert_eq!(
        urls.k9s,
        "https://github.com/derailed/k9s/releases/download/v0.27.3/k9s_Darwin_amd64.tar.gz"
    );
}

#[test]
fn versions_are_read_from_what_the_tools_answer() {
    let kubectl = "Client Version: version.Info{Major:\"1\", Minor:\"26\", GitVersion:\"v1.26.0\", GitCommit:\"b46a3f8\"}\nKustomize Version: v4.5.7";
    assert_eq!(get_any_version(Binary::Kubectl, ran(kubectl)), Ok(Some("1.26.0".to_string())));
    let docker = "Client:\n Version:           23.0.4\n API version:       1.42\n";
    assert_eq!(get_any_version(Binary::Docker, ran(docker)), Ok(Some("23.0.4".to_string())));
    let helm = "version.BuildInfo{Version:\"v3.2.0\", GitCommit:\"e11b7ce\"}";
    assert_eq!(get_any_version(Binary::Helm, ran(helm)), Ok(Some("3.2.0".to_string())));
    assert_eq!(get_any_version(Binary::Skaffold, ran("v2.3.1\n")), Ok(Some("2.3.1".to_string())));
    assert_eq!(
        get_any_version(Binary::K9S, ran("Version:    v0.27.3\nCommit: x")),
        Ok(Some("0.27.3".to_string()))
    );
    assert_eq!(get_any_version(Binary::Mkcert, ran("v1.4.4")), Ok(Some("1.4.4".to_string())));
    assert_eq!(
        get_any_version(Binary::Buildx, ran("github.com/docker/buildx v0.10.4 c513d34")),
        Ok(Some("0.10.4".to_string()))
    );
    assert_eq!(Binary::Mkcert.version_argument(), "-version");
    assert_eq!(Binary::Helm.version_argument(), "version");
    assert_eq!(Binary::K9S.version_pattern(), r"v(\d+\.\d+\.\d+)");
    assert_eq!(Binary::Docker.version_pattern(), r"Client:\s+Version:\s+([^\s]+)");
    assert_eq!(Binary::Helm.version_pattern(), r#"Version:"v([\d\.]+)""#);
    assert_eq!(
        Binary::Kubectl.version_pattern(),
        r#"Client Version:.*GitVersion:"v([\d\.]+)""#
    );
}

#[test]
fn tool_that_does_not_answer_has_no_version() {
    assert_eq!(get_any_version(Binary::Helm, None), Ok(None));
    let failed = Some(ProcessOutput { stdout: b"v3.2.0".to_vec(), stderr: vec![], code: Some(1) });
    assert_eq!(get_any_version(Binary::Skaffold, failed), Ok(None));
    let garbled = Some(ProcessOutput { stdout: vec![0xff], stderr: vec![], code: Some(0) });
    assert_eq!(get_any_version(Binary::Skaffold, garbled), Ok(None));
}

#[test]
fn answer_without_version_is_an_error() {
    assert_eq!(
        get_any_version(Binary::Skaffold, ran("  no version here \n")),
        Err(VersionError::NotDetected("no version here".to_string()))
    );
    assert_eq!(
        version_from_capture(Binary::Helm, "raw".to_string(), None),
        Err(VersionError::BadPattern(Binary::Helm))
    );
    assert_eq!(
        version_from_capture(Binary::Helm, "raw".to_string(), Some(None)),
        Err(VersionError::NotDetected("raw".to_string()))
    );
    assert_eq!(
        version_from_capture(Binary::Helm, "raw".to_string(), Some(Some("1".to_string()))),
        Ok(Some("1".to_string()))
    );
}

#[test]
fn actual_versions_are_gathered_in_order() {
    let runs = ToolRuns {
        kubectl: None,
        helm: ran("version.BuildInfo{Version:\"v3.2.0\"}"),
        mkcert: ran("v1.4.4"),
        skaffold: None,
        k9s: ran("v0.27.3"),
        docker: ran("Client:\n Version: 23.0.4"),
        buildx: ran("buildx v0.10.4"),
    };
    assert_eq!(
        get_actual_versions(runs),
        Ok(Versions {
            kubectl: None,
            helm: Some("3.2.0".to_string()),
            mkcert: Some("1.4.4".to_string()),
            skaffold: None,
            k9s: Some("0.27.3".to_string()),
            docker: Some("23.0.4".to_string()),
            buildx: Some("0.10.4".to_string()),
        })
    );
    let runs = ToolRuns {
        kubectl: None,
        helm: ran("nothing"),
        mkcert: ran("also nothing"),
        skaffold: None,
        k9s: None,
        docker: None,
        buildx: None,
    };
    assert_eq!(get_actual_versions(runs), Err(VersionError::NotDetected("nothing".to_string())));
}

#[test]
fn fetched_files_are_unpacked_by_their_names() {
    assert_eq!(archive_kind("/tmp/x/docker-23.0.4.tgz"), ArchiveKind::TarGz);
    assert_eq!(archive_kind("helm-v3.2.0-linux-amd64.tar.gz"), ArchiveKind::TarGz);
    assert_eq!(archive_kind("docker-23.0.4.zip"), ArchiveKind::Zip);
    assert_eq!(archive_kind("kubectl"), ArchiveKind::Plain);
    assert_eq!(archive_kind("kubectl.exe"), ArchiveKind::Plain);
    assert_eq!(archive_kind(".zip"), ArchiveKind::Zip);
    assert_eq!(archive_kind("zip"), ArchiveKind::Plain);
    assert_eq!(target_folder("docker-buildx"), TargetFolder::Buildx);
    assert_eq!(target_folder("docker-buildx.exe"), TargetFolder::Buildx);
    assert_eq!(target_folder("docker"), TargetFolder::Bin);
    assert_eq!(target_folder("k9s"), TargetFolder::Bin);
}

#[test]
fn file_name_is_the_last_segment_of_the_address() {
    assert_eq!(
        download_file("https://get.helm.sh/helm-v3.2.0-linux-amd64.tar.gz"),
        Some(FetchedFile {
            name: "helm-v3.2.0-linux-amd64.tar.gz".to_string(),
            kind: ArchiveKind::TarGz
        })
    );
    assert_eq!(
        download_file("https://dl.filippo.io/mkcert/v1.4.4?for=linux/amd64"),
        Some(FetchedFile { name: "v1.4.4".to_string(), kind: ArchiveKind::Plain })
    );
    assert_eq!(
        download_file("https://download.docker.com/win/static/stable/x86_64/docker-23.0.4.zip"),
        Some(FetchedFile { name: "docker-23.0.4.zip".to_string(), kind: ArchiveKind::Zip })
    );
    assert_eq!(
        download_file("https://dl.k8s.io/v1.26.0/bin/linux/amd64/kubectl"),
        Some(FetchedFile { name: "kubectl".to_string(), kind: ArchiveKind::Plain })
    );
    assert_eq!(download_file("not an address"), None);
    assert_eq!(download_file("data:text/plain,Hello"), None);
}

#[test]
fn tools_are_kept_in_their_folders() {
    let h = Host {
        os: TargetOs::Linux,
        arch: TargetArch::Amd64,
        home: Some("/home/timo".to_string()),
        shell: None,
    };
    assert_eq!(
        handle_tmp_file("kubectl", &h),
        Ok(("/home/timo/.krunch/bin".to_string(), "/home/timo/.krunch/bin/kubectl".to_string()))
    );
    assert_eq!(
        handle_tmp_file("docker-buildx", &h),
        Ok((
            "/home/timo/.docker/cli-plugins".to_string(),
            "/home/timo/.docker/cli-plugins/docker-buildx".to_string()
        ))
    );
    let lost = Host { os: TargetOs::Linux, arch: TargetArch::Amd64, home: None, shell: None };
    assert_eq!(handle_tmp_file("kubectl", &lost), Err(PathError::NoHome));
}

#[test]
fn progress_never_passes_the_whole() {
    assert_eq!(advance_progress(0, 10, 100), 10);
    assert_eq!(advance_progress(95, 10, 100), 100);
    assert_eq!(advance_progress(90, 10, 100), 100);
    assert_eq!(advance_progress(100, 0, 100), 100);
    assert_eq!(advance_progress(200, 5, 100), 100);
    assert_eq!(advance_progress(u64::MAX - 1, 5, u64::MAX), u64::MAX);
    assert_eq!(advance_progress(0, 0, 0), 0);
}
