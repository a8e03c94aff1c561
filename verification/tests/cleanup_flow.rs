use std::cell::RefCell;
use podtest::cleanup::{Cleanup, CleanupAction, CleanupError};
use podtest::command::{Command, Outcome};

fn ran(stdout: &str) -> Outcome {
    Outcome::Ran { success: true, stdout: stdout.to_string(), stderr: String::new() }
}

fn joined(c: &Command) -> String {
    format!("{} {}", c.program, c.args.join(" "))
}

/// Drives a cleanup, answering each command with `answer`; returns the
/// commands run, the rendered lines and the result.
fn drive(
    image_id: &str,
    container: &str,
    image: &str,
    answer: &dyn Fn(&str) -> Outcome,
) -> (Vec<String>, Vec<String>, Result<(), CleanupError>) {
    let (mut c, lines, mut a) = Cleanup::start(image_id.to_string(), container.to_string(), image.to_string());
    let mut out: Vec<String> = lines.iter().map(|l| l.render()).collect();
    let mut commands = Vec::new();
    loop {
        match a {
            CleanupAction::Run(cmd) => {
                let text = joined(&cmd);
                let o = answer(&text);
                commands.push(text);
                let (lines, next) = c.step(o);
                out.extend(lines.iter().map(|l| l.render()));
                a = next;
            }
            CleanupAction::Done(r) => return (commands, out, r),
        }
        assert!(commands.len() < 100);
    }
}

#[test]
fn clean_host_cleanup_succeeds() {
    let (commands, lines, r) = drive("sha256:abc", "docker-test_latest", "docker-test:latest", &|cmd| {
        if cmd.starts_with("docker images -q sha256:abc") || cmd == "docker ps -a -q --filter name=docker-test_latest" {
            ran("x\n")
        } else {
            ran("")
        }
    });
    assert!(r.is_ok());
    assert_eq!(
        commands,
        vec![
            "docker info",
            "docker ps -a -q --filter ancestor=moby/buildkit:buildx-stable-1 --filter name=buildx_buildkit_",
            "docker ps -a -q --filter name=docker-test_latest",
            "docker stop docker-test_latest",
            "docker rm -f docker-test_latest",
            "docker images -q sha256:abc",
            "docker rmi -f sha256:abc",
            "docker images -q docker-test:latest",
            "docker rmi -f docker-test:latest",
            "docker images -f dangling=true -q",
            "docker image prune -f",
            "docker ps -a -q",
            "docker images -q docker-test:latest",
            "docker images -q docker-test:latest",
            "docker images -f dangling=true -q",
        ]
    );
    assert!(lines[0].ends_with(
        " container_name=\"docker-test_latest\", image_name=\"docker-test:latest\", image_id=\"sha256:abc\""
    ));
    assert!(lines.last().unwrap().contains("Cleanup completed successfully"));
}

#[test]
fn buildkit_containers_are_stopped_and_removed_in_order() {
    let (commands, lines, r) = drive("", "", "", &|cmd| {
        if cmd.starts_with("docker ps -a -q --filter ancestor") {
            ran("  b1\nb\"2\r\n\n")
        } else if cmd == "docker stop b1" {
            Outcome::Ran { success: false, stdout: String::new(), stderr: "no such".to_string() }
        } else {
            ran("")
        }
    });
    assert!(r.is_ok());
    assert_eq!(&commands[2..6], &["docker stop b1", "docker rm -f b1", "docker stop b\"2", "docker rm -f b\"2"]);
    assert!(lines.iter().any(|l| l.ends_with(" [\"b1\", \"b\\\"2\"]")));
    assert!(lines.iter().any(|l| l.contains("Found BuildKit containers:")));
    assert!(lines.iter().any(|l| l.ends_with(" b1: no such")));
    // Without a container or image name, the cleanup goes straight to the dangling images.
    assert_eq!(commands[6], "docker images -f dangling=true -q");
}

#[test]
fn daemon_unreachable_ends_the_cleanup() {
    let (commands, _, r) = drive("", "c", "i", &|_| Outcome::NotRun { error: "no docker".to_string() });
    assert_eq!(commands, vec!["docker info"]);
    let e = r.unwrap_err();
    assert!(matches!(e, CleanupError::DaemonInaccessible(_)));
    assert_eq!(e.message(), "Docker daemon inaccessible: no docker");
}

#[test]
fn daemon_error_ends_the_cleanup() {
    let (_, lines, r) = drive("", "c", "i", &|_| Outcome::Ran {
        success: false,
        stdout: String::new(),
        stderr: "permission denied".to_string(),
    });
    assert_eq!(r.unwrap_err().message(), "Docker daemon error");
    assert!(lines.last().unwrap().ends_with(" permission denied"));
}

#[test]
fn command_that_cannot_start_aborts_with_context() {
    let (_, _, r) = drive("", "c", "i", &|cmd| {
        if cmd == "docker stop c" {
            Outcome::NotRun { error: "spawn failed".to_string() }
        } else if cmd.starts_with("docker ps -a -q --filter name=") {
            ran("id\n")
        } else {
            ran("")
        }
    });
    let e = r.unwrap_err();
    assert_eq!(e.message(), "Failed to stop container");
    match e {
        CleanupError::Context { cause, .. } => assert_eq!(cause, "spawn failed"),
        _ => panic!("expected a context error"),
    }
}

#[test]
fn leftovers_fail_the_cleanup_and_are_listed() {
    let (commands, lines, r) = drive("", "", "img", &|cmd| {
        if cmd == "docker ps -a -q" || cmd == "docker images -f dangling=true -q" {
            ran("left\n")
        } else if cmd == "docker ps -a" {
            ran("CONTAINER ID\n")
        } else {
            ran("")
        }
    });
    let e = r.unwrap_err();
    assert_eq!(e.message(), "Failed to clean up: containers=true, images=false, default_image=false, dangling=true");
    assert_eq!(&commands[commands.len() - 2..], &["docker ps -a", "docker images"]);
    assert!(lines.iter().any(|l| l.ends_with(
        " containers_exist=true, image_exists=false, default_image_exists=false, dangling_exists=true"
    )));
    assert!(commands.contains(&"docker rmi -f left".to_string()));
}

#[test]
fn second_cleanup_after_a_successful_one_succeeds() {
    // A small model of Docker: named containers and images, and dangling images.
    let containers = RefCell::new(vec!["docker-test_latest".to_string()]);
    let images = RefCell::new(vec!["docker-test:latest".to_string(), "sha256:abc".to_string()]);
    let dangling = RefCell::new(vec!["d1".to_string(), "d2".to_string()]);
    let answer = |cmd: &str| -> Outcome {
        let words: Vec<&str> = cmd.split(' ').collect();
        match &words[1..] {
            ["ps", "-a", "-q", "--filter", f] if f.starts_with("name=") => {
                let name = &f[5..];
                ran(if containers.borrow().iter().any(|c| c == name) { "c1\n" } else { "" })
            }
            ["ps", "-a", "-q"] => ran(&containers.borrow().join("\n")),
            ["rm", "-f", name] => {
                containers.borrow_mut().retain(|c| c != name);
                ran("")
            }
            ["images", "-q", name] => ran(if images.borrow().iter().any(|i| i == name) { "i1\n" } else { "" }),
            ["images", "-f", "dangling=true", "-q"] => ran(&dangling.borrow().join("\n")),
            ["rmi", "-f", rest @ ..] => {
                for r in rest {
                    images.borrow_mut().retain(|i| i != r);
                    dangling.borrow_mut().retain(|d| d != r);
                }
                ran("")
            }
            _ => ran(""),
        }
    };
    let (first, _, r1) = drive("sha256:abc", "docker-test_latest", "docker-test:latest", &answer);
    assert!(r1.is_ok());
    assert!(first.contains(&"docker rmi -f d1 d2".to_string()));
    let (second, _, r2) = drive("sha256:abc", "docker-test_latest", "docker-test:latest", &answer);
    assert!(r2.is_ok());
    assert!(!second.iter().any(|c| c.starts_with("docker stop")));
}
