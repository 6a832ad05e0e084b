use krunch::bomb::{BombError, BombState, PodCommand};
use krunch::config::Krunch;

#[test]
fn test_get_namespace() {
    let s = "-n hello world";
    assert_eq!(Krunch::get_namespace(s).as_deref(), Some("hello"));

    let s = "--namespace hello world";
    assert_eq!(Krunch::get_namespace(s).as_deref(), Some("hello"));

    let s = "hello world -n";
    assert_eq!(Krunch::get_namespace(s).as_deref(), None);
}

#[test]
fn namespace_is_the_word_behind_the_first_flag() {
    assert_eq!(Krunch::get_namespace("get pods -n a --namespace b").as_deref(), Some("a"));
    assert_eq!(Krunch::get_namespace("get pods").as_deref(), None);
    assert_eq!(Krunch::get_namespace("").as_deref(), None);
    assert_eq!(Krunch::get_namespace("-n -n").as_deref(), Some("-n"));
    assert_eq!(Krunch::get_namespace("x -nn y --namespace\tz").as_deref(), Some("z"));
}

#[test]
fn protected_namespaces_are_not_cleared() {
    assert_eq!(
        Krunch::bomb("-n kube-system"),
        Err(BombError::NotAllowed("kube-system".to_string()))
    );
    assert_eq!(
        Krunch::bomb("x --namespace ingress-nginx"),
        Err(BombError::NotAllowed("ingress-nginx".to_string()))
    );
    assert_eq!(Krunch::bomb("-n krunch"), Err(BombError::NotAllowed("krunch".to_string())));
    assert_eq!(Krunch::bomb("-n krunchy"), Err(BombError::NotAllowed("krunchy".to_string())));
    assert!(Krunch::bomb("-n kube").is_ok());
}

#[test]
fn clearing_the_default_namespace() {
    let (state, first) = Krunch::bomb("").unwrap();
    assert_eq!(state, BombState::ListingReleases("default".to_string()));
    assert_eq!(
        first,
        PodCommand {
            command: "helm ls -n default --all --short".to_string(),
            print_to_stdout: false,
            print_to_stderr: false,
        }
    );
    let (state, next) = Krunch::bomb_step(state, "release-a\nrelease-b\n");
    assert_eq!(state, BombState::DeletingReleases("default".to_string()));
    assert_eq!(
        next,
        Some(PodCommand {
            command: "helm ls -n default --all --short | xargs -L1 helm -n default delete"
                .to_string(),
            print_to_stdout: true,
            print_to_stderr: true,
        })
    );
    let (state, next) = Krunch::bomb_step(state, "");
    assert_eq!(state, BombState::ListingResources("default".to_string()));
    assert_eq!(
        next,
        Some(PodCommand {
            command: "kubectl get all -n default | grep -v -e \"service/kubernetes\" -e \"NAME\" -e \"^[[:blank:]]*$\" | awk '{print $1}'".to_string(),
            print_to_stdout: false,
            print_to_stderr: false,
        })
    );
    let (state, next) = Krunch::bomb_step(state, "pod/a\npod/b\n");
    assert_eq!(state, BombState::DeletingResources);
    assert_eq!(
        next,
        Some(PodCommand {
            command: "echo 'pod/a\npod/b\n' | xargs kubectl delete -n default".to_string(),
            print_to_stdout: true,
            print_to_stderr: false,
        })
    );
    let (state, next) = Krunch::bomb_step(state, "deleted");
    assert_eq!(state, BombState::Done);
    assert_eq!(next, None);
    assert_eq!(Krunch::bomb_step(state, ""), (BombState::Done, None));
}

#[test]
fn clearing_another_namespace_without_releases() {
    let (state, first) = Krunch::bomb("delete all -n dev").unwrap();
    assert_eq!(first.command, "helm ls -n dev --all --short");
    let (state, next) = Krunch::bomb_step(state, "");
    assert_eq!(state, BombState::ListingResources("dev".to_string()));
    assert_eq!(
        next.unwrap().command,
        "kubectl get all -n dev | grep -v -e \"service/kubernetes\" -e \"NAME\" -e \"^[[:blank:]]*$\" | awk '{print $1}'"
    );
    let (state, next) = Krunch::bomb_step(state, "pod/a\n");
    assert_eq!(state, BombState::DeletingResources);
    assert_eq!(
        next,
        Some(PodCommand {
            command: "kubectl get all -n dev | grep -v -e \"NAME\" -e \"^[[:blank:]]*$\" | awk '{print $1}' dev | xargs kubectl delete -n dev".to_string(),
            print_to_stdout: true,
            print_to_stderr: false,
        })
    );
}
