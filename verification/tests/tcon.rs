use eink::tcon::{
    check_open, device_path, IteTconDevice, TconError, TconCommand, TRSP_SYSTEM_INFO_DATA, GI_MIPI_FAST_READER,
    GI_MIPI_HYBRID, GI_MIPI_READER,
};

fn opened_device(addrs: [u32; 3]) -> IteTconDevice {
    let mut dev = IteTconDevice::new().unwrap();
    dev.record_open(2, device_path(2), TRSP_SYSTEM_INFO_DATA::zeroed(), addrs);
    dev
}

fn mode(m: u32) -> Vec<TconCommand> {
    vec![TconCommand::StopLoadImg, TconCommand::SetMipiMode(m), TconCommand::RecoveryLoadImg]
}

fn refresh() -> Vec<TconCommand> {
    vec![TconCommand::StopLoadImg, TconCommand::CleanUpEInk, TconCommand::RecoveryLoadImg]
}

#[test]
fn test_get_buffer_addr_info() {
    let addrs: u32 = 0;
    let dev = opened_device([addrs, addrs, addrs]);
    let got = dev.buffer_addrs();
    println!("ITEGetBufferAddrInfoAPI: addrs: {}", got[0]);
    assert_eq!(got, [0, 0, 0]);
}

#[test]
fn buffer_addrs_are_those_reported() {
    let dev = opened_device([0x1000, 0x2000, 0x3000]);
    assert_eq!(dev.buffer_addrs(), [0x1000, 0x2000, 0x3000]);
}

#[test]
fn device_path_names_drive_letter() {
    assert_eq!(device_path(0), "\\\\.\\A:");
    assert_eq!(device_path(2), "\\\\.\\C:");
    assert_eq!(device_path(25), "\\\\.\\Z:");
}

#[test]
fn zeroed_system_info() {
    let d = TRSP_SYSTEM_INFO_DATA::zeroed();
    assert_eq!((d.uiWidth, d.uiHeight, d.uiSignature), (0, 0, 0));
    assert_eq!(d.uiFrameCount, [0; 8]);
}

#[test]
fn mode_switches() {
    let dev = opened_device([1, 2, 3]);
    assert_eq!(dev.set_speed_mode(), mode(GI_MIPI_FAST_READER));
    assert_eq!(dev.set_gybrid_mode(), mode(GI_MIPI_HYBRID));
    assert_eq!(dev.set_reader_mode(), mode(GI_MIPI_READER));
    assert_eq!(dev.refresh(), refresh());
}

#[test]
fn cover_image_without_stored_image_uses_first_slot() {
    let mut dev = opened_device([0x10, 0x20, 0x30]);
    let mut expected = mode(GI_MIPI_FAST_READER);
    expected.push(TconCommand::DisplayArea {
        x: 0, y: 0, w: 2560, h: 1600, mode: GI_MIPI_FAST_READER, mem_addr: 0x10, wait_ready: 0,
    });
    expected.extend(refresh());
    assert_eq!(dev.show_cover_image(), expected);
}

#[test]
fn cover_slots_alternate() {
    let mut dev = opened_device([0x10, 0x20, 0x30]);
    let p1 = dev.begin_cover_image();
    assert_eq!((p1.slot, p1.img_addr, p1.width, p1.height), (0, 0x10, 2560, 1600));
    assert_eq!(p1.before_load, mode(GI_MIPI_FAST_READER));
    let mut expected = vec![TconCommand::LoadImage { img_addr: 0x10, x: 0, y: 0, w: 2560, h: 1600 }];
    expected.extend(mode(GI_MIPI_HYBRID));
    assert_eq!(dev.finish_cover_image(&p1), expected);
    let p2 = dev.begin_cover_image();
    assert_eq!((p2.slot, p2.img_addr), (1, 0x20));
    dev.finish_cover_image(&p2);
    let p3 = dev.begin_cover_image();
    assert_eq!((p3.slot, p3.img_addr), (0, 0x10));
    let shown = dev.show_cover_image();
    assert!(shown.contains(&TconCommand::DisplayArea {
        x: 0, y: 0, w: 2560, h: 1600, mode: GI_MIPI_FAST_READER, mem_addr: 0x10, wait_ready: 0,
    }));
}

#[test]
fn close_device() {
    let mut dev = opened_device([0, 0, 0]);
    assert_eq!(dev.close(), vec![TconCommand::CloseDevice]);
}

#[test]
fn open_result_follows_handle() {
    assert_eq!(check_open(-1), Err(TconError::OpenFailed));
    assert_eq!(check_open(0x44), Ok(()));
    assert!(IteTconDevice::new().is_ok());
}

#[test]
fn cover_slots_over_many_calls() {
    let mut dev = opened_device([0x10, 0x20, 0x30]);
    for k in 1..=6u32 {
        let p = dev.begin_cover_image();
        assert_eq!(p.slot, (k - 1) % 2);
        dev.finish_cover_image(&p);
    }
}
