use krunch::host::parse_env_string;

#[test]
fn commands_test_parse_env_string() {
    let env_string = "export DOCKER_TLS_VERIFY=\"1\"\nexport DOCKER_HOST=\"tcp://192.168.59.101:2376\"\nexport DOCKER_CERT_PATH=\"/home/timo/.minikube/certs\"\nexport MINIKUBE_ACTIVE_DOCKERD=\"minikube\"\n\n# To point your shell to minikube's docker-daemon, run:\n# eval $(minikube -p minikube docker-env)";
    let (docker_tls_verify, docker_host, docker_cert_path, minikube_active_dockerd) =
        parse_env_string(env_string);

    assert_eq!(docker_tls_verify, "1");
    assert_eq!(docker_host, "tcp://192.168.59.101:2376");
    assert_eq!(docker_cert_path, "/home/timo/.minikube/certs");
    assert_eq!(minikube_active_dockerd, "minikube");
}

#[test]
fn docker_to_minikube_test_parse_env_string() {
    let env_string = "export DOCKER_TLS_VERIFY=\"1\"\nexport DOCKER_HOST=\"tcp://192.168.59.101:2376\"\nexport DOCKER_CERT_PATH=\"/home/timo/.minikube/certs\"\nexport MINIKUBE_ACTIVE_DOCKERD=\"minikube\"\n\n# To point your shell to minikube's docker-daemon, run:\n# eval $(minikube -p minikube docker-env)";
    let (docker_tls_verify, docker_host, docker_cert_path, minikube_active_dockerd) =
        parse_env_string(env_string);

    assert_eq!(docker_tls_verify, "1");
    assert_eq!(docker_host, "tcp://192.168.59.101:2376");
    assert_eq!(docker_cert_path, "/home/timo/.minikube/certs");
    assert_eq!(minikube_active_dockerd, "minikube");
}

#[test]
fn env_string_last_assignment_wins_and_odd_lines_are_skipped() {
    let text = "export DOCKER_HOST=\"a\"\r\nexport DOCKER_HOST=b=c\nexport DOCKER_HOST=\"second\"\nDOCKER_HOST=x\n";
    let (tls, host, cert, active) = parse_env_string(text);
    assert_eq!(tls, "");
    assert_eq!(host, "second");
    assert_eq!(cert, "");
    assert_eq!(active, "");
}

#[test]
fn env_string_empty_gives_empty_values() {
    let (tls, host, cert, active) = parse_env_string("");
    assert_eq!((tls.as_str(), host.as_str(), cert.as_str(), active.as_str()), ("", "", "", ""));
}
