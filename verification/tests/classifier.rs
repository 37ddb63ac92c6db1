use portkiller::classify::detect_framework;

#[test]
fn node_label_from_command() {
    let (fw, docker) = detect_framework("node", "node server.js");
    assert_eq!(fw.as_deref(), Some("Node.js"));
    assert!(!docker);
}

#[test]
fn node_wins_over_java_either_order() {
    let (fw, _) = detect_framework("x", "java -jar app.jar && node watch.js");
    assert_eq!(fw.as_deref(), Some("Node.js"));
    let (fw, _) = detect_framework("x", "node bridge.js --exec java");
    assert_eq!(fw.as_deref(), Some("Node.js"));
}

#[test]
fn matching_is_case_insensitive() {
    let (fw, _) = detect_framework("x", "NODE Server");
    assert_eq!(fw.as_deref(), Some("Node.js"));
    let (fw, _) = detect_framework("x", "JAVA -VERSION");
    assert_eq!(fw.as_deref(), Some("Java"));
    let (_, docker) = detect_framework("DOCKERD", "");
    assert!(docker);
}

#[test]
fn npm_and_yarn_are_node() {
    let (fw, _) = detect_framework("x", "npm run dev");
    assert_eq!(fw.as_deref(), Some("Node.js"));
    let (fw, _) = detect_framework("x", "yarn start");
    assert_eq!(fw.as_deref(), Some("Node.js"));
}

#[test]
fn java_python_php_labels() {
    let (fw, _) = detect_framework("x", "java -jar service.jar");
    assert_eq!(fw.as_deref(), Some("Java"));
    let (fw, _) = detect_framework("x", "python manage.py runserver");
    assert_eq!(fw.as_deref(), Some("Python"));
    let (fw, _) = detect_framework("x", "pip install -e .");
    assert_eq!(fw.as_deref(), Some("Python"));
    let (fw, _) = detect_framework("x", "php -S localhost:8000");
    assert_eq!(fw.as_deref(), Some("PHP"));
}

#[test]
fn dotnet_matches_name_as_fallback() {
    let (fw, _) = detect_framework("dotnet", "some-host --urls http://0.0.0.0:5000");
    assert_eq!(fw.as_deref(), Some(".NET"));
}

#[test]
fn go_probes() {
    let (fw, _) = detect_framework("x", "go run ./cmd/server");
    assert_eq!(fw.as_deref(), Some("Go"));
    let (fw, _) = detect_framework("go-build1234/b001/exe/server", "");
    assert_eq!(fw.as_deref(), Some("Go"));
    // "cargo run" contains the substring "go " and is therefore labelled Go.
    let (fw, _) = detect_framework("x", "cargo run");
    assert_eq!(fw.as_deref(), Some("Go"));
}

#[test]
fn docker_signal_is_independent_of_label() {
    // A dockerised node process keeps the Node.js label and the docker flag.
    let (fw, docker) = detect_framework("x", "docker run node:20");
    assert_eq!(fw.as_deref(), Some("Node.js"));
    assert!(docker);
}

#[test]
fn docker_label_only_as_last_resort() {
    let (fw, docker) = detect_framework("docker-proxy", "docker-proxy -container-ip 172.17.0.2");
    assert_eq!(fw.as_deref(), Some("Docker Container"));
    assert!(docker);
}

#[test]
fn no_signal_no_label() {
    let (fw, docker) = detect_framework("bash", "bash -l");
    assert_eq!(fw, None);
    assert!(!docker);
}
