use eink::driver::{driver_binary_path, install_action, InstallAction, ServiceOpen, ERROR_SERVICE_DOES_NOT_EXIST};

#[test]
fn install_actions() {
    assert_eq!(install_action(ServiceOpen::Opened), InstallAction::Start);
    assert_eq!(install_action(ServiceOpen::Failed(ERROR_SERVICE_DOES_NOT_EXIST)), InstallAction::CreateThenStart);
    assert_eq!(ERROR_SERVICE_DOES_NOT_EXIST as u32, 0x80070424);
    assert_eq!(install_action(ServiceOpen::Failed(-5)), InstallAction::Nothing);
}

#[test]
fn driver_file_beside_program() {
    assert_eq!(driver_binary_path("C:\\Program Files\\Eink\\composer.exe"), "C:\\Program Files\\Eink\\DispFilter.sys");
    assert_eq!(driver_binary_path("C:\\composer.exe"), "C:\\DispFilter.sys");
    assert_eq!(driver_binary_path("C:/composer.exe"), "C:/DispFilter.sys");
    assert_eq!(driver_binary_path("C:/x/composer.exe"), "C:/x\\DispFilter.sys");
    assert_eq!(driver_binary_path("\\composer.exe"), "\\DispFilter.sys");
    assert_eq!(driver_binary_path("dir\\a.exe"), "dir\\DispFilter.sys");
}
