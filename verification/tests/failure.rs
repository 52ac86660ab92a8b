use clickr::failure::Failure;

#[test]
fn each_failure_has_its_own_context() {
    assert_eq!(Failure::BindAddress.context(), "Failed to bind to address");
    assert_eq!(Failure::BindSocket.context(), "Failed to bind unix socket");
    assert_eq!(Failure::OpenSocket.context(), "Failed to open unix socket");
    assert_eq!(Failure::WriteSocket.context(), "Failed to write to unix socket");
    assert_eq!(Failure::FlushSocket.context(), "Failed to flush unix socket");
    assert_eq!(Failure::ReleaseSocket.context(), "Failed to release unix socket");
    assert_eq!(Failure::Playback.context(), "Failed to execute pw-cat");
}
