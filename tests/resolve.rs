use manhttp::reply::{Reply, Status};
use manhttp::resolve::{
    find, find_next, is_section_token_str, page_location_of, probe_path_of, probe_section,
    split_section, FindStep, PROBE_COUNT,
};

fn redirect(location: &str) -> FindStep {
    FindStep::Done(Reply::Redirect { location: location.to_string(), modified: None })
}

/// Runs the resolver, answering each probe from `exists`; returns the probed
/// paths and the reply.
fn run(name: &str, exists: &[&str]) -> (Vec<String>, Reply) {
    let mut probed = Vec::new();
    let mut step = find(name);
    loop {
        match step {
            FindStep::Probe { index, path } => {
                let found = exists.contains(&path.as_str());
                probed.push(path);
                step = find_next(name, index, found);
            }
            FindStep::Done(r) => return (probed, r),
        }
    }
}

#[test]
fn explicit_section_redirects_without_probing() {
    assert_eq!(find("ls.1"), redirect("/1/ls.1.html"));
    let (probed, reply) = run("ls.1", &[]);
    assert!(probed.is_empty());
    assert_eq!(reply.status_code(), 307);
}

#[test]
fn explicit_section_n_and_digit_prefixed() {
    assert_eq!(find("tclsh.n"), redirect("/n/tclsh.n.html"));
    assert_eq!(find("printf.3p"), redirect("/3p/printf.3p.html"));
    assert_eq!(find("a.b.3ssl"), redirect("/3ssl/a.b.3ssl.html"));
}

#[test]
fn non_section_suffix_is_probed_whole() {
    assert_eq!(
        find("foo.bar"),
        FindStep::Probe { index: 0, path: "/usr/share/man/man1/foo.bar.1.gz".to_string() }
    );
    assert_eq!(
        find("x.nn"),
        FindStep::Probe { index: 0, path: "/usr/share/man/man1/x.nn.1.gz".to_string() }
    );
    assert_eq!(
        find("dot."),
        FindStep::Probe { index: 0, path: "/usr/share/man/man1/dot..1.gz".to_string() }
    );
}

#[test]
fn bare_name_probes_in_priority_order() {
    let (probed, reply) = run("ls", &["/usr/share/man/man2/ls.2.gz", "/usr/share/man/man3/ls.3.gz"]);
    assert_eq!(
        probed,
        vec![
            "/usr/share/man/man1/ls.1.gz",
            "/usr/share/man/man8/ls.8.gz",
            "/usr/share/man/man6/ls.6.gz",
            "/usr/share/man/man2/ls.2.gz",
        ]
    );
    assert_eq!(reply, Reply::Redirect { location: "/2/ls.2.html".to_string(), modified: None });
}

#[test]
fn bare_name_first_candidate_wins() {
    let (probed, reply) = run("ls", &["/usr/share/man/man1/ls.1.gz", "/usr/share/man/man8/ls.8.gz"]);
    assert_eq!(probed.len(), 1);
    assert_eq!(reply, Reply::Redirect { location: "/1/ls.1.html".to_string(), modified: None });
}

#[test]
fn bare_name_last_candidate() {
    let (probed, reply) = run("printf", &["/usr/share/man/man3p/printf.3p.gz"]);
    assert_eq!(probed.len(), 10);
    assert_eq!(reply, Reply::Redirect { location: "/3p/printf.3p.html".to_string(), modified: None });
}

#[test]
fn bare_name_not_found_after_all_candidates() {
    let (probed, reply) = run("nosuch", &[]);
    let sections: Vec<String> =
        ["1", "8", "6", "2", "3", "5", "7", "4", "9", "3p"].iter().map(|s| s.to_string()).collect();
    let expected: Vec<String> =
        sections.iter().map(|s| format!("/usr/share/man/man{s}/nosuch.{s}.gz")).collect();
    assert_eq!(probed, expected);
    assert_eq!(reply, Reply::Failed(Status::NotFound));
    assert_eq!(reply.status_code(), 404);
}

#[test]
fn probe_order_constant() {
    let order: Vec<&str> = (0..PROBE_COUNT).map(probe_section).collect();
    assert_eq!(order, vec!["1", "8", "6", "2", "3", "5", "7", "4", "9", "3p"]);
}

#[test]
fn section_tokens() {
    assert!(is_section_token_str("n"));
    assert!(is_section_token_str("1"));
    assert!(is_section_token_str("3pm"));
    assert!(!is_section_token_str(""));
    assert!(!is_section_token_str("nn"));
    assert!(!is_section_token_str("x1"));
}

#[test]
fn split_section_uses_last_dot() {
    assert_eq!(split_section("ls.1"), Some(("ls".to_string(), "1".to_string())));
    assert_eq!(split_section("a.b.8"), Some(("a.b".to_string(), "8".to_string())));
    assert_eq!(split_section("a.1.b"), None);
    assert_eq!(split_section("ls"), None);
}

#[test]
fn builds_locations_and_paths() {
    assert_eq!(page_location_of("1", "ls"), "/1/ls.1.html");
    assert_eq!(probe_path_of("3p", "printf"), "/usr/share/man/man3p/printf.3p.gz");
}
