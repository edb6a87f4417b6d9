use myvid::engine::sandbox::{confine, policy, verdict, Confinement, Outcome, READ_FILE, WRITE_FILE};

const READ_ONLY: u64 = 0b1101;
const READ_WRITE: u64 = 0xffff;

#[test]
fn confinement_says_how_well_it_went() {
    assert_eq!(Confinement::Enforced.describe(), "landlock: enforced");
    assert_eq!(
        confine(Outcome::PartiallyEnforced).describe(),
        "landlock: partial (kernel supports only some restrictions)"
    );
    assert_eq!(
        confine(Outcome::NotEnforced).describe(),
        "landlock: unavailable (kernel refused the ruleset)"
    );
    assert_eq!(
        confine(Outcome::Unsupported).describe(),
        "landlock: unavailable (only implemented for Linux)"
    );
    assert_eq!(
        confine(Outcome::Failed("why".to_owned())),
        Confinement::Unavailable("why".to_owned())
    );
    assert_eq!(confine(Outcome::FullyEnforced), Confinement::Enforced);
}

#[test]
fn a_film_is_the_only_file_of_the_users_that_is_granted() {
    let policy = policy(
        Some("/home/me/granted.mkv".to_owned()),
        Some("/run/user/1000".to_owned()),
    );
    assert_eq!(policy.handled, READ_WRITE);
    let rules: Vec<(&str, u64)> =
        policy.rules.iter().map(|r| (r.path.as_str(), r.access)).collect();
    assert_eq!(
        rules,
        [
            ("/usr", READ_ONLY),
            ("/lib", READ_ONLY),
            ("/lib64", READ_ONLY),
            ("/bin", READ_ONLY),
            ("/sbin", READ_ONLY),
            ("/etc", READ_ONLY),
            ("/proc", READ_ONLY),
            ("/sys", READ_ONLY),
            ("/dev/dri", READ_WRITE),
            ("/dev/null", READ_WRITE),
            ("/dev/zero", READ_WRITE),
            ("/dev/urandom", READ_WRITE),
            ("/dev/random", READ_WRITE),
            ("/dev/shm", READ_WRITE),
            ("/run/user/1000", READ_WRITE),
            ("/home/me/granted.mkv", READ_ONLY),
        ]
    );
}

#[test]
fn a_network_source_needs_no_file() {
    let policy = policy(None, None);
    assert_eq!(policy.rules.len(), 14);
    assert!(policy.rules.iter().all(|r| r.access & READ_FILE != 0));
    let writable = policy.rules.iter().filter(|r| r.access & WRITE_FILE != 0);
    assert!(writable.clone().all(|r| r.path.starts_with("/dev/")));
    assert_eq!(writable.count(), 6);
}

#[test]
fn a_verdict_is_a_word_and_a_status() {
    assert_eq!(verdict(true), ("allowed", 0));
    assert_eq!(verdict(false), ("denied", 1));
}
