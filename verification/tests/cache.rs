use jdtls_bootstrap::cache::{
    accepts_status, agent_file, agent_jar, agent_source, needs_download, plan_server,
    server_archive, server_directory, server_executable, server_file, server_source,
    ArtifactLocation, CachePlan, Presence,
};

#[test]
fn server_archive_location() {
    assert_eq!(
        server_archive(),
        ArtifactLocation {
            url: "https://download.eclipse.org/jdtls/snapshots/jdt-language-server-latest.tar.gz"
                .to_string(),
            file_name: "jdt-language-server-latest.tar.gz".to_string(),
            directory: Some("jdt-language-server-latest".to_string()),
        }
    );
    assert_eq!(server_source(), server_archive().url);
    assert_eq!(server_file(), server_archive().file_name);
    assert_eq!(Some(server_directory()), server_archive().directory);
}

#[test]
fn agent_jar_location() {
    assert_eq!(
        agent_jar(),
        ArtifactLocation {
            url: "https://projectlombok.org/downloads/lombok.jar".to_string(),
            file_name: "lombok.jar".to_string(),
            directory: None,
        }
    );
    assert_eq!(agent_source(), agent_jar().url);
    assert_eq!(agent_file(), agent_jar().file_name);
}

#[test]
fn server_executable_lies_below_the_directory() {
    assert_eq!(server_executable(), "jdt-language-server-latest/bin/jdtls");
}

#[test]
fn directory_on_disk_calls_for_nothing() {
    assert_eq!(plan_server(Presence { directory: true, archive: false }), CachePlan::Reuse);
    assert_eq!(plan_server(Presence { directory: true, archive: true }), CachePlan::Reuse);
}

#[test]
fn archive_alone_calls_for_extraction() {
    assert_eq!(plan_server(Presence { directory: false, archive: true }), CachePlan::Extract);
}

#[test]
fn cold_disk_downloads_and_extracts() {
    assert_eq!(
        plan_server(Presence { directory: false, archive: false }),
        CachePlan::DownloadAndExtract
    );
}

#[test]
fn second_run_reuses_what_the_first_left() {
    for directory in [false, true] {
        for archive in [false, true] {
            let first = plan_server(Presence { directory, archive });
            let left = Presence {
                directory: true,
                archive: archive || first == CachePlan::DownloadAndExtract,
            };
            assert_eq!(plan_server(left), CachePlan::Reuse);
        }
    }
}

#[test]
fn single_file_is_fetched_only_where_absent() {
    assert!(needs_download(false));
    assert!(!needs_download(true));
}

#[test]
fn only_success_statuses_are_accepted() {
    for status in [200u16, 201, 204, 206, 299] {
        assert!(accepts_status(status));
    }
    for status in [0u16, 100, 199, 300, 301, 304, 400, 404, 500, 503, u16::MAX] {
        assert!(!accepts_status(status));
    }
}
