use autolinux::error::http_error_message;
use autolinux::error::transport_error_message;
use autolinux::error::InstallError;
use autolinux::progress::download_percent;
use autolinux::progress::status_message;
use autolinux::progress::ProgressState;

#[test]
fn status_lines_per_phase() {
    assert_eq!(status_message(&ProgressState::Starting), "Initializing...");
    assert_eq!(
        status_message(&ProgressState::Downloading(45)),
        "Downloading Rootfs... 45%"
    );
    assert_eq!(
        status_message(&ProgressState::Extracting),
        "Extracting Archive (This takes CPU)..."
    );
    assert_eq!(
        status_message(&ProgressState::Configuring),
        "Configuring Environment..."
    );
    assert_eq!(
        status_message(&ProgressState::Finished("/data/local/start-x.sh".to_string())),
        "Success! Run: sh /data/local/start-x.sh"
    );
    assert_eq!(
        status_message(&ProgressState::Error("boom".to_string())),
        "ERROR: boom"
    );
}

#[test]
fn percentages_are_integer_and_capped() {
    assert_eq!(download_percent(0, 100), 0);
    assert_eq!(download_percent(50, 100), 50);
    assert_eq!(download_percent(1, 3), 33);
    assert_eq!(download_percent(100, 100), 100);
    // more bytes than the announced length still reads 100
    assert_eq!(download_percent(250, 100), 100);
    assert_eq!(download_percent(u64::MAX, 1), 100);
}

#[test]
fn error_message_texts() {
    assert_eq!(
        http_error_message(404, "Not Found", "https://example.org/a.tar.gz"),
        "HTTP Error 404: Not Found - URL: https://example.org/a.tar.gz"
    );
    assert_eq!(
        transport_error_message("timed out", "https://example.org/a.tar.gz"),
        "Network Error: timed out - URL: https://example.org/a.tar.gz"
    );
}

#[test]
fn each_error_variant_carries_its_message() {
    assert_eq!(InstallError::Network("n".to_string()).message(), "n");
    assert_eq!(InstallError::Extraction("e".to_string()).message(), "e");
    assert_eq!(InstallError::ImageFormat("i".to_string()).message(), "i");
    assert_eq!(InstallError::Filesystem("f".to_string()).message(), "f");
    assert_eq!(InstallError::Configuration("c".to_string()).message(), "c");
}
