use podtest::health::HttpStatus;
use podtest::plan::{container_name, dockerignore_path, health_url, image_name_or_default, port_in_use};
use podtest::report::{header, Hue, Line};
use podtest::resources::{disk_warning, memory_warning, used_space};
use podtest::text::{center, contains, decimal_string, split_lines, take_chars, trim};

#[test]
fn trim_removes_surrounding_white_space() {
    assert_eq!(trim("  abc \n\t"), "abc");
    assert_eq!(trim("\u{3000}x y\u{a0}"), "x y");
    assert_eq!(trim(" \n "), "");
    assert_eq!(trim(""), "");
}

#[test]
fn split_lines_follows_str_lines() {
    let cases = ["", "a", "a\n", "a\nb", "a\r\nb\r\n", "a\n\nb", "\n", "a\r", "x\r\r\n"];
    for case in cases {
        let expected: Vec<String> = case.lines().map(|l| l.to_string()).collect();
        assert_eq!(split_lines(case), expected, "input {:?}", case);
    }
}

#[test]
fn contains_finds_substrings() {
    assert!(contains("tcp 0 0 0.0.0.0:3000 LISTEN", ":3000"));
    assert!(contains("tcp 0 0 :::30001 LISTEN", ":3000"));
    assert!(!contains("tcp 0 0 0.0.0.0:8080 LISTEN", ":3000"));
    assert!(contains("abc", ""));
    assert!(!contains("ab", "abc"));
}

#[test]
fn port_check_sees_the_host_port() {
    assert!(port_in_use("udp 0 0 127.0.0.1:3000 0.0.0.0:*"));
    assert!(!port_in_use("udp 0 0 127.0.0.1:300 0.0.0.0:*"));
}

#[test]
fn decimal_renders_numbers() {
    assert_eq!(decimal_string(0), "0");
    assert_eq!(decimal_string(7), "7");
    assert_eq!(decimal_string(1200), "1200");
    assert_eq!(decimal_string(u64::MAX), u64::MAX.to_string());
}

#[test]
fn center_matches_format_alignment() {
    for (text, width) in [("abc", 10), ("abcd", 9), ("", 3), ("toolong", 3), ("é", 4)] {
        assert_eq!(center(text, width), format!("{:^w$}", text, w = width));
    }
}

#[test]
fn take_chars_counts_characters() {
    assert_eq!(take_chars("héllo", 2), "hé");
    assert_eq!(take_chars("hi", 100), "hi");
    let long: String = std::iter::repeat('x').take(150).collect();
    assert_eq!(take_chars(&long, 100).chars().count(), 100);
}

#[test]
fn container_names_replace_separators() {
    assert_eq!(container_name("docker-test:latest"), "docker-test_latest");
    assert_eq!(container_name("ghcr.io/org/app:1.0"), "ghcr.io_org_app_1.0");
    assert_eq!(container_name(""), "");
    let once = container_name("a/b:c");
    assert_eq!(container_name(&once), once);
}

#[test]
fn urls_and_paths() {
    assert_eq!(health_url("/health"), "http://localhost:3000/health");
    assert_eq!(dockerignore_path("./deployments"), "./deployments/.dockerignore");
    assert_eq!(image_name_or_default(None), "docker-test:latest");
    assert_eq!(image_name_or_default(Some("app:1".to_string())), "app:1");
}

#[test]
fn banner_is_framed_and_yellow() {
    let expected_text = format!(
        "######################################################\n#                                                    #\n#{:^50}#\n#                                                    #\n######################################################",
        "BUILD IMAGE"
    );
    assert_eq!(header("build image"), format!("\u{1b}[33m{}\u{1b}[0m", expected_text));
}

#[test]
fn banner_upper_cases_with_unicode_mapping() {
    let text = header("straße");
    assert!(text.contains(&format!("#{:^50}#", "STRASSE")));
}

#[test]
fn lines_render_with_colour_codes() {
    let l = Line { hue: Some(Hue::Red), label: "Failed:".to_string(), detail: Some("x".to_string()), to_stderr: false };
    assert_eq!(l.render(), "\u{1b}[31mFailed:\u{1b}[0m x");
    let g = Line { hue: Some(Hue::Green), label: "ok".to_string(), detail: None, to_stderr: false };
    assert_eq!(g.render(), "\u{1b}[32mok\u{1b}[0m");
    let y = Line { hue: Some(Hue::Yellow), label: "w".to_string(), detail: None, to_stderr: false };
    assert_eq!(y.render(), "\u{1b}[33mw\u{1b}[0m");
    let p = Line { hue: None, label: "plain".to_string(), detail: None, to_stderr: true };
    assert_eq!(p.render(), "plain");
}

#[test]
fn status_codes_display_like_reqwest() {
    let ok = HttpStatus::new(200).unwrap();
    assert_eq!(ok.text(), "200 OK");
    assert!(ok.is_success());
    let nf = HttpStatus::new(404).unwrap();
    assert_eq!(nf.text(), "404 Not Found");
    assert!(!nf.is_success());
    assert_eq!(HttpStatus::new(599).unwrap().text(), "599 <unknown status code>");
    assert!(HttpStatus::new(299).unwrap().is_success());
    assert!(!HttpStatus::new(300).unwrap().is_success());
    assert!(HttpStatus::new(99).is_none());
    assert!(HttpStatus::new(1000).is_none());
    assert_eq!(HttpStatus::new(503).unwrap().code(), 503);
}

#[test]
fn resource_warnings_follow_thresholds() {
    let gib: u64 = 1 << 30;
    assert!(disk_warning(gib - 1).is_some());
    assert!(disk_warning(gib).is_none());
    assert_eq!(disk_warning(0).unwrap().label, "Warning: Low disk space (<1 GB free)");
    assert_eq!(disk_warning(0).unwrap().render(), "\u{1b}[33mWarning: Low disk space (<1 GB free)\u{1b}[0m");
    assert_eq!(memory_warning(0).unwrap().hue, Some(Hue::Yellow));
    let low = 500u64 * 1024 * 1024;
    assert!(memory_warning(low - 1).is_some());
    assert!(memory_warning(low).is_none());
    assert_eq!(memory_warning(5).unwrap().label, "Warning: Low memory (<500 MB available)");
    assert_eq!(used_space(10, 4), 6);
}

#[test]
fn thresholds_agree_with_float_comparisons() {
    let gib: u64 = 1 << 30;
    for bytes in [0u64, gib - 1, gib, gib + 1, u64::MAX] {
        let free = bytes as f64 / 1024.0 / 1024.0 / 1024.0;
        assert_eq!(disk_warning(bytes).is_some(), free < 1.0);
        let mb = bytes as f64 / 1024.0 / 1024.0;
        assert_eq!(memory_warning(bytes).is_some(), mb < 500.0);
    }
}
