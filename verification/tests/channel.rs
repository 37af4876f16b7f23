use sqlbatch::channel::{take_pending_update, DownloadEvent, DownloadTracker, Error, ReleaseChannel};

#[test]
fn beta_name_selects_beta() {
    assert_eq!(ReleaseChannel::from_str("beta"), ReleaseChannel::Beta);
}

#[test]
fn channel_name_is_case_insensitive() {
    // Would fail if the lowercasing handed its argument back unchanged.
    assert_eq!(ReleaseChannel::from_str("BETA"), ReleaseChannel::Beta);
    assert_eq!(ReleaseChannel::from_str("BeTa"), ReleaseChannel::Beta);
}

#[test]
fn unknown_names_fall_back_to_stable() {
    assert_eq!(ReleaseChannel::from_str("stable"), ReleaseChannel::Stable);
    assert_eq!(ReleaseChannel::from_str("nightly"), ReleaseChannel::Stable);
    assert_eq!(ReleaseChannel::from_str(""), ReleaseChannel::Stable);
}

#[test]
fn canonical_names() {
    assert_eq!(ReleaseChannel::Stable.to_str(), "stable");
    assert_eq!(ReleaseChannel::Beta.to_str(), "beta");
}

#[test]
fn name_round_trip() {
    for c in [ReleaseChannel::Stable, ReleaseChannel::Beta] {
        assert_eq!(ReleaseChannel::from_str(c.to_str()), c);
    }
}

#[test]
fn beta_overrides_the_endpoint() {
    assert_eq!(ReleaseChannel::Stable.endpoint_override(), None);
    assert_eq!(
        ReleaseChannel::Beta.endpoint_override(),
        Some("https://github.com/yorphos/invariant/releases/download/latest-beta/latest.json")
    );
}

#[test]
fn updater_error_messages() {
    assert_eq!(
        Error::Updater("timed out".to_string()).message(),
        "updater error: timed out"
    );
    assert_eq!(
        Error::NoPendingUpdate.message(),
        "there is no pending update"
    );
}

#[test]
fn install_takes_the_pending_update() {
    let mut pending = Some("an update".to_string());
    assert_eq!(
        take_pending_update(&mut pending),
        Ok("an update".to_string())
    );
    assert_eq!(pending, None);
    match take_pending_update(&mut pending) {
        Err(e) => assert_eq!(e.message(), "there is no pending update"),
        Ok(u) => panic!("nothing was pending, got {}", u),
    }
}

#[test]
fn download_start_is_reported_once() {
    let mut tracker = DownloadTracker::new();
    let first = tracker.on_chunk(100, Some(1000));
    assert_eq!(
        first,
        vec![
            DownloadEvent::Started {
                content_length: Some(1000)
            },
            DownloadEvent::Progress { chunk_length: 100 },
        ]
    );
    let second = tracker.on_chunk(50, Some(1000));
    assert_eq!(second, vec![DownloadEvent::Progress { chunk_length: 50 }]);
    assert_eq!(tracker.on_finished(), DownloadEvent::Finished);
}
