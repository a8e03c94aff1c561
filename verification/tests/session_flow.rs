use podtest::command::Outcome;
use podtest::health::{HttpStatus, Probe};
use podtest::session::{Action, BuildEnd, Event, Failure, Session, Settings};

fn settings(hot_fix: bool, image: &str) -> Settings {
    Settings {
        dockerfile_path: "./deployments/Dockerfile".to_string(),
        build_timeout: 1200,
        hot_fix,
        health_check_path: "/up".to_string(),
        port: 8000,
        health_check_timeout: 10,
        health_check_interval: 3,
        image_name: image.to_string(),
    }
}

fn ran(stdout: &str) -> Outcome {
    Outcome::Ran { success: true, stdout: stdout.to_string(), stderr: String::new() }
}

/// A host where everything works; `health` answers the probes in turn.
struct Host {
    health: Vec<u16>,
    probes: usize,
    build: fn() -> BuildEnd,
    dockerfile: bool,
    log: Vec<String>,
    lines: Vec<String>,
}

impl Host {
    fn new(health: Vec<u16>) -> Host {
        Host {
            health,
            probes: 0,
            build: || BuildEnd::Exited { success: true, status: "exit status: 0".to_string() },
            dockerfile: true,
            log: Vec::new(),
            lines: Vec::new(),
        }
    }

    fn answer(&mut self, a: &Action) -> Event {
        match a {
            Action::CheckResources => Event::ResourcesChecked,
            Action::Run(c) => {
                let text = format!("{} {}", c.program, c.args.join(" "));
                self.log.push(text.clone());
                if text.starts_with("docker images --no-trunc") {
                    Event::Ran(ran("sha256:feed\n"))
                } else if text.starts_with("docker run") {
                    Event::Ran(ran("c0ffee\n"))
                } else {
                    Event::Ran(ran(""))
                }
            }
            Action::CheckFile(p) => {
                self.log.push(format!("exists {}", p));
                Event::Exists(if p.ends_with("Dockerfile") { self.dockerfile } else { false })
            }
            Action::ReadFile(p) => Event::Read(Ok(format!("contents of {}", p))),
            Action::Build { command, timeout_secs } => {
                self.log.push(format!("build {} ({}s)", command.args.join(" "), timeout_secs));
                Event::Built((self.build)())
            }
            Action::Sleep(s) => {
                self.log.push(format!("sleep {}", s));
                Event::Slept
            }
            Action::Probe { url, .. } => {
                self.log.push(format!("probe {}", url));
                let code = self.health[self.probes];
                self.probes += 1;
                Event::Probed(Probe::Answered { status: HttpStatus::new(code).unwrap(), body: Ok("{}".to_string()) })
            }
            Action::Exit(_) => panic!("no event after exit"),
        }
    }

    fn run(&mut self, s: Settings) -> Result<(), Failure> {
        let (mut session, lines, mut a) = Session::start(s);
        self.lines.extend(lines.iter().map(|l| l.render()));
        loop {
            if let Action::Exit(r) = a {
                return r;
            }
            let e = self.answer(&a);
            assert!(session.awaits(&e));
            let (lines, next) = session.step(e);
            self.lines.extend(lines.iter().map(|l| l.render()));
            a = next;
            assert!(self.log.len() < 200);
        }
    }
}

#[test]
fn full_run_succeeds() {
    let mut host = Host::new(vec![500, 200]);
    let r = host.run(settings(false, "docker-test:latest"));
    assert!(r.is_ok());
    assert_eq!(host.probes, 2);
    assert_eq!(host.log[0], "docker version");
    assert_eq!(host.log[1], "docker info");
    assert_eq!(host.log[2], "exists ./deployments/Dockerfile");
    assert_eq!(host.log[3], "exists ./deployments/.dockerignore");
    assert_eq!(host.log[4], "build build -t docker-test:latest -f ./deployments/Dockerfile ./deployments (1200s)");
    assert_eq!(host.log[5], "docker images --no-trunc --format {{.ID}} docker-test:latest");
    assert_eq!(host.log[6], "netstat -tuln");
    assert_eq!(host.log[7], "docker rm -f docker-test_latest");
    assert_eq!(
        host.log[8],
        "docker run -d --log-driver json-file --log-opt max-size=10m -e PYTHONUNBUFFERED=1 -e PYTHONIOENCODING=utf8 --name docker-test_latest -p 3000:8000 docker-test:latest"
    );
    assert_eq!(host.log[9], "sleep 10");
    assert_eq!(host.log[10], "probe http://localhost:3000/up");
    assert_eq!(host.log[11], "sleep 1");
    assert_eq!(host.log[13], "docker info");
    assert!(host.log.contains(&"docker images -q sha256:feed".to_string()));
    assert!(host.lines.last().unwrap().contains("Container started successfully and /up endpoint returned 200 OK"));
    assert!(host.lines.contains(
        &"\u{1b}[33mWarning: .dockerignore not found at:\u{1b}[0m ./deployments/.dockerignore".to_string()
    ));
}

#[test]
fn hot_fix_only_builds() {
    let mut host = Host::new(vec![]);
    let r = host.run(settings(true, "app:1"));
    assert!(r.is_ok());
    assert_eq!(
        host.log,
        vec![
            "docker version",
            "docker info",
            "build build -t app:1 -f ./deployments/Dockerfile ./deployments (1200s)",
            "docker images --no-trunc --format {{.ID}} app:1",
        ]
    );
    assert!(host.lines.iter().any(|l| l.contains("Hot-fix mode: Building image only, skipping tests...")));
    assert!(host.lines.last().unwrap().contains("Image app:1 built successfully in hot-fix mode"));
}

#[test]
fn hot_fix_build_failure_ends_without_cleanup() {
    let mut host = Host::new(vec![]);
    host.build = || BuildEnd::TimedOut;
    let r = host.run(settings(true, "app:1"));
    assert_eq!(r.unwrap_err().message(), "Docker build timed out after 1200 seconds");
    assert_eq!(host.log.len(), 3);
}

#[test]
fn failed_health_check_fetches_logs_and_cleans_up() {
    let mut host = Host::new(vec![500, 500, 404]);
    let r = host.run(settings(false, "docker-test:latest"));
    let f = r.unwrap_err();
    assert_eq!(
        f.message(),
        "Failed to start container docker-test_latest: Health check failed with status 404 Not Found"
    );
    assert_eq!(host.probes, 3);
    assert!(host.log.contains(&"docker logs --tail 100 docker-test_latest".to_string()));
    // The cleanup after a failure does not know the image id.
    assert!(host.log.contains(&"docker images -q ".to_string()));
    assert!(host.lines.iter().any(|l| l.contains(
        "Container failed to start (\"/up did not return 200OK\"): Health check failed with status 404 Not Found"
    )));
}

#[test]
fn missing_dockerfile_is_a_test_failure() {
    let mut host = Host::new(vec![]);
    host.dockerfile = false;
    let r = host.run(settings(false, "docker-test:latest"));
    assert_eq!(
        r.unwrap_err().message(),
        "Failed to start container docker-test_latest: Dockerfile not found at ./deployments/Dockerfile"
    );
    assert!(!host.log.iter().any(|c| c.starts_with("build")));
    assert!(host.log.contains(&"docker info".to_string()));
}

#[test]
fn build_failure_is_reported_with_status() {
    let mut host = Host::new(vec![]);
    host.build = || BuildEnd::Exited { success: false, status: "exit status: 1".to_string() };
    let r = host.run(settings(false, "img"));
    assert_eq!(
        r.unwrap_err().message(),
        "Failed to start container img: Docker build failed with status: exit status: 1"
    );
}

#[test]
fn empty_image_name_skips_logs() {
    let mut host = Host::new(vec![]);
    host.build = || BuildEnd::NotStarted("no docker".to_string());
    let r = host.run(settings(false, ""));
    let f = r.unwrap_err();
    assert_eq!(f.message(), "Failed to start container : Failed to start docker build");
    assert!(!host.log.iter().any(|c| c.starts_with("docker logs")));
}

#[test]
fn invalid_dockerfile_path_stops_before_building() {
    let mut host = Host::new(vec![]);
    let mut s = settings(false, "img");
    s.dockerfile_path = String::new();
    let r = host.run(s);
    assert_eq!(r.unwrap_err().message(), "Invalid Dockerfile path: ");
    assert_eq!(host.log, vec!["docker version", "docker info"]);
}

#[test]
fn bare_dockerfile_name_builds_in_the_empty_context() {
    let mut host = Host::new(vec![]);
    let mut s = settings(true, "img");
    s.dockerfile_path = "Dockerfile".to_string();
    assert!(host.run(s).is_ok());
    assert_eq!(host.log[2], "build build -t img -f Dockerfile  (1200s)");
}

#[test]
fn root_dockerfile_path_is_invalid() {
    let mut host = Host::new(vec![]);
    let mut s = settings(false, "img");
    s.dockerfile_path = "/".to_string();
    assert_eq!(host.run(s).unwrap_err().message(), "Invalid Dockerfile path: /");
}

#[test]
fn docker_version_failure_has_context() {
    let (mut session, _, _) = Session::start(settings(false, "img"));
    session.step(Event::ResourcesChecked);
    let (_, a) = session.step(Event::Ran(Outcome::NotRun { error: "not found".to_string() }));
    match a {
        Action::Exit(Err(f)) => {
            assert_eq!(f.message(), "Failed to run docker version");
            assert_eq!(f.cause(), Some("not found".to_string()));
        }
        _ => panic!("expected the run to end"),
    }
    assert!(session.is_finished());
}

#[test]
fn failure_messages() {
    assert_eq!(Failure::PortInUse(3000).message(), "Port 3000 is already in use");
    assert_eq!(Failure::NoContainerId.message(), "Failed to start container: no container ID returned");
    assert_eq!(Failure::ImageIdMissing.message(), "Failed to get image ID");
    assert_eq!(Failure::BuildTimedOut(5).message(), "Docker build timed out after 5 seconds");
    assert_eq!(Failure::Io("boom".to_string()).message(), "boom");
    assert_eq!(Failure::DockerfileNotFound("x".to_string()).message(), "Dockerfile not found at x");
}
