//! Framework classification: a pure heuristic from a process's name and
//! command text to an optional runtime label and an independent docker
//! flag. Matching is case-insensitive; the cascade is ordered and
//! first-match-wins, so exactly one label is ever produced.

use vstd::prelude::*;

use crate::envelope::ProcessInfo;
use crate::text::{contains_ci, contains_seq, lower_seq};

verus! {

/// A process entry is consistent with the classifier: its docker flag and
/// framework label are the classifier's verdict on its own name and
/// command text.
pub open spec fn classified(p: ProcessInfo) -> bool {
    &&& p.is_docker == docker_signal(p.name@, p.command@)
    &&& (p.framework is Some <==> framework_label(p.name@, p.command@) is Some)
    &&& (p.framework matches Some(f) ==> framework_label(p.name@, p.command@) == Some(f@))
}

/// The docker signal: either text mentions docker, case-insensitively.
/// It is independent of the label cascade and returned alongside it.
pub open spec fn docker_signal(name: Seq<char>, command: Seq<char>) -> bool {
    contains_seq(lower_seq(command), "docker"@) || contains_seq(lower_seq(name), "docker"@)
}

/// The ordered, first-match-wins cascade over the lowercased command text,
/// falling back to the name only for the dotnet and go-build probes, and to
/// the docker signal when nothing else matched.
pub open spec fn framework_label(name: Seq<char>, command: Seq<char>) -> Option<Seq<char>> {
    let c = lower_seq(command);
    let n = lower_seq(name);
    if contains_seq(c, "node"@) || contains_seq(c, "npm"@) || contains_seq(c, "yarn"@) {
        Some("Node.js"@)
    } else if contains_seq(c, "java"@) || contains_seq(c, "jar"@) {
        Some("Java"@)
    } else if contains_seq(c, "python"@) || contains_seq(c, "pip"@) {
        Some("Python"@)
    } else if contains_seq(c, "dotnet"@) || contains_seq(n, "dotnet"@) {
        Some(".NET"@)
    } else if contains_seq(c, "go "@) || contains_seq(n, "go-build"@) {
        Some("Go"@)
    } else if contains_seq(c, "php"@) {
        Some("PHP"@)
    } else if docker_signal(name, command) {
        Some("Docker Container"@)
    } else {
        None
    }
}

/// Classifies a process by its name and command text: the framework label
/// of the cascade, and the docker flag.
pub fn detect_framework(name: &str, command: &str) -> (r: (Option<String>, bool))
    ensures
        r.1 == docker_signal(name@, command@),
        r.0 is Some <==> framework_label(name@, command@) is Some,
        r.0 matches Some(s) ==> framework_label(name@, command@) == Some(s@),
{
    let is_docker = contains_ci(command, "docker") || contains_ci(name, "docker");
    let framework: Option<String> = if contains_ci(command, "node") || contains_ci(command, "npm")
        || contains_ci(command, "yarn") {
        Some(String::from_str("Node.js"))
    } else if contains_ci(command, "java") || contains_ci(command, "jar") {
        Some(String::from_str("Java"))
    } else if contains_ci(command, "python") || contains_ci(command, "pip") {
        Some(String::from_str("Python"))
    } else if contains_ci(command, "dotnet") || contains_ci(name, "dotnet") {
        Some(String::from_str(".NET"))
    } else if contains_ci(command, "go ") || contains_ci(name, "go-build") {
        Some(String::from_str("Go"))
    } else if contains_ci(command, "php") {
        Some(String::from_str("PHP"))
    } else if is_docker {
        Some(String::from_str("Docker Container"))
    } else {
        None
    };
    (framework, is_docker)
}

/// Cascade order is decisive: a command whose lowercased text contains
/// "node" is labelled Node.js wherever the substring sits and whatever
/// else — "java" included — the text also contains.
pub proof fn lemma_node_precedes_java(name: Seq<char>, command: Seq<char>)
    requires
        contains_seq(lower_seq(command), "node"@),
    ensures
        framework_label(name, command) == Some("Node.js"@),
{
}

} // verus!
