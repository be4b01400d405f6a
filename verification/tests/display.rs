use eink::display::{
    check_hresult, display_manager_result_to_string, lit_channel, D3D11Renderer, DisplayError,
    DisplayManagerResult, PresentCycle, PresentStep, RenderStep, ShaderMacro, is_eink_target,
    is_sixty_hz, first_sixty_hz_mode, needs_specialization, target_acquired, MonitorUsageKind,
};

#[test]
fn colour_channels_take_turns() {
    assert_eq!(lit_channel(0), 0);
    assert_eq!(lit_channel(29), 0);
    assert_eq!(lit_channel(30), 1);
    assert_eq!(lit_channel(60), 2);
    assert_eq!(lit_channel(90), 0);
    assert_eq!(lit_channel(u64::MAX), ((u64::MAX / 30) % 3) as usize);
}

#[test]
fn every_status_is_accepted() {
    assert!(check_hresult(0).is_ok());
    assert!(check_hresult(-2147467259).is_ok());
}

#[test]
fn buffers_alternate_on_present() {
    let mut c = PresentCycle::new();
    assert_eq!(c.render_target_index(), 0);
    assert_eq!(c.pre_present(true), Some(0));
    assert_eq!(c.present(), PresentStep { fence_value: 1, scanout_index: 0 });
    assert_eq!(c.render_target_index(), 1);
    assert_eq!(c.pre_present(false), None);
    assert_eq!(c.present(), PresentStep { fence_value: 2, scanout_index: 1 });
    assert_eq!(c.render_target_index(), 0);
    assert_eq!(c.frame_count, 2);
}

#[test]
fn renderer_needs_two_surfaces() {
    let mut r: D3D11Renderer<u8> = D3D11Renderer::new();
    assert!(r.init_layers().is_ok());
    assert_eq!(r.open_surfaces(vec![1]), Err(DisplayError::MissingSurface));
    assert_eq!(r.open_surfaces(vec![1, 2, 3]), Ok(()));
    assert_eq!(*r.surface(0), 1);
    assert_eq!(*r.surface(1), 2);
}

#[test]
fn rendering_counts_frames_and_fences() {
    let mut r: D3D11Renderer<u8> = D3D11Renderer::new();
    r.open_surfaces(vec![5, 6]).unwrap();
    assert_eq!(r.render_and_get_fence_value(0), RenderStep { fence_value: 1, lit_channel: 0 });
    for _ in 0..28 {
        r.render_and_get_fence_value(1);
    }
    assert_eq!(r.render_and_get_fence_value(1), RenderStep { fence_value: 30, lit_channel: 1 });
}

#[test]
fn shader_macro_c_strings() {
    let name = "USE_GAMMA";
    let def = "1";
    let m = ShaderMacro::new(&name, &def);
    assert_eq!(m.name, "USE_GAMMA");
    let (n, d) = m.to_c_strings();
    assert_eq!(n, b"USE_GAMMA\0".to_vec());
    assert_eq!(d, b"1\0".to_vec());
    let e = ShaderMacro::new(&"é", &"");
    assert_eq!(e.to_c_strings(), (vec![0xC3, 0xA9, 0], vec![0]));
}

#[test]
fn display_manager_result_names() {
    assert_eq!(display_manager_result_to_string(DisplayManagerResult::Success), "Success");
    assert_eq!(display_manager_result_to_string(DisplayManagerResult::TargetStale), "TargetStale");
    assert_eq!(
        display_manager_result_to_string(DisplayManagerResult::RemoteSessionNotSupported),
        "RemoteSessionNotSupported"
    );
    assert_eq!(display_manager_result_to_string(DisplayManagerResult::UnknownFailure), "UnknownFailure");
    assert_eq!(
        display_manager_result_to_string(DisplayManagerResult::TargetAccessDenied),
        "TargetAccessDenied"
    );
}

#[test]
fn eink_target_and_modes() {
    assert!(is_eink_target("GBR01560_21_07E3_EF"));
    assert!(!is_eink_target("MS_00011_00_07D2_D6"));
    assert!(!is_eink_target("GBR01560_21_07E3_E"));
    assert!(is_sixty_hz(60000, 1000));
    assert!(is_sixty_hz(121, 2));
    assert!(!is_sixty_hz(59940, 1000));
    assert_eq!(first_sixty_hz_mode(&vec![(120, 1), (60000, 1001), (60, 1), (60, 1)]), Some(2));
    assert_eq!(first_sixty_hz_mode(&vec![(30, 1)]), None);
    assert_eq!(first_sixty_hz_mode(&vec![(60, 1), (5, 0)]), Some(0));
    assert!(needs_specialization(MonitorUsageKind::Standard));
    assert!(!needs_specialization(MonitorUsageKind::SpecialPurpose));
    assert!(!target_acquired(DisplayManagerResult::TargetAccessDenied));
    assert!(target_acquired(DisplayManagerResult::Success));
}

#[test]
fn many_presents_and_renders() {
    let mut c = PresentCycle::new();
    for n in 1..=9u64 {
        c.pre_present(false);
        let s = c.present();
        assert_eq!(s, PresentStep { fence_value: n, scanout_index: ((n - 1) % 2) as usize });
    }
    assert_eq!((c.fence_value, c.surface_index), (9, 1));
    let mut r: D3D11Renderer<u8> = D3D11Renderer::new();
    r.open_surfaces(vec![0, 1]).unwrap();
    for n in 1..=7u64 {
        assert_eq!(r.render_and_get_fence_value(0).fence_value, n);
    }
}
