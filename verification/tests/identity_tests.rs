use antennabench_desktop::build_context::{build_channel, compiled, source_state, BuildChannel, SourceState};
use antennabench_desktop::identity::{resolve_source_identity, ResolvedSourceIdentity};

#[test]
fn development_builds_preserve_actual_dirty_source_identity() {
    assert_eq!(
        resolve_source_identity(
            "debug",
            None,
            None,
            None,
            Some("0123456789abcdef0123456789abcdef01234567".into()),
            Some(true),
        ),
        ResolvedSourceIdentity {
            channel: "development".into(),
            commit: Some("0123456789abcdef0123456789abcdef01234567".into()),
            state: "dirty".into(),
        }
    );
}

#[test]
fn unavailable_git_is_explicitly_unknown_without_fabricated_commit() {
    assert_eq!(
        resolve_source_identity("release", None, None, None, None, None),
        ResolvedSourceIdentity {
            channel: "local".into(),
            commit: None,
            state: "unknown".into(),
        }
    );
}

#[test]
fn authoritative_release_inputs_override_local_probe_values() {
    assert_eq!(
        resolve_source_identity(
            "release",
            Some("official_release".into()),
            Some("fedcba9876543210fedcba9876543210fedcba98".into()),
            Some("clean".into()),
            None,
            None,
        ),
        ResolvedSourceIdentity {
            channel: "official_release".into(),
            commit: Some("fedcba9876543210fedcba9876543210fedcba98".into()),
            state: "clean".into(),
        }
    );
}

#[test]
fn clean_probe_is_recorded_as_clean() {
    assert_eq!(resolve_source_identity("release", None, None, None, None, Some(false)).state, "clean");
}

#[test]
fn empty_compiled_values_are_absent() {
    assert_eq!(compiled(""), None);
    assert_eq!(compiled("1.2.3"), Some("1.2.3".to_string()));
}

#[test]
fn compiled_source_state_and_channel_are_classified() {
    assert_eq!(source_state("clean"), SourceState::Clean);
    assert_eq!(source_state("dirty"), SourceState::Dirty);
    assert_eq!(source_state("modified"), SourceState::Unknown);
    assert_eq!(build_channel("official_release"), BuildChannel::OfficialRelease);
    assert_eq!(build_channel("development"), BuildChannel::Development);
    assert_eq!(build_channel("local"), BuildChannel::Local);
    assert_eq!(build_channel("nightly"), BuildChannel::Unknown);
}
