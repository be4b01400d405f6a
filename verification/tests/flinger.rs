use eink::composer::{SurfaceComposerRequest, SurfaceComposerResponse};
use eink::flinger::{
    first_event, new_surface_name, on_listener_request, poll_verdict, surface_name, test_layer_geometry,
    ClientAction, Compositor, CopyRegion, LayerGeometry, ListenerAction, PollOutcome, PollVerdict,
    TEST_LAYER_PID,
};

fn geometry(x: i32) -> LayerGeometry {
    LayerGeometry::new(x, 0, 100, 100, 2560, 1600)
}

#[test]
fn texture_covers_content_and_display() {
    let g = LayerGeometry::new(10, 20, 100, 50, 2560, 1600);
    assert_eq!((g.tex_width, g.tex_height), (2560, 1600));
    let big = LayerGeometry::new(0, 0, 3000, 2000, 2560, 1600);
    assert_eq!((big.tex_width, big.tex_height), (3000, 2000));
    assert!(big.tex_width >= big.width && big.tex_width >= big.display_width);
}

#[test]
fn set_bounds_keeps_texture() {
    let mut g = LayerGeometry::new(10, 20, 100, 50, 2560, 1600);
    g.set_bounds(1, 2, 3000, 4);
    assert_eq!((g.x, g.y, g.width, g.height), (1, 2, 3000, 4));
    assert_eq!((g.tex_width, g.tex_height, g.display_width, g.display_height), (2560, 1600, 2560, 1600));
}

#[test]
fn copy_region_is_clipped_to_panel() {
    let g = LayerGeometry::new(5, 6, 3000, 100, 2560, 1600);
    assert_eq!(
        g.copy_region(),
        CopyRegion { dst_x: 5, dst_y: 6, left: 0, top: 0, front: 0, right: 2560, bottom: 100, back: 1 }
    );
    let n = LayerGeometry::new(-1, 0, 10, 2000, 2560, 1600);
    let r = n.copy_region();
    assert_eq!(r.dst_x, u32::MAX);
    assert_eq!((r.right, r.bottom), (10, 1600));
}

#[test]
fn surface_names_carry_the_uuid() {
    assert_eq!(
        new_surface_name([0u8; 16]),
        "Surface-00000000-0000-4000-8000-000000000000"
    );
    let bytes: [u8; 16] = [0xff; 16];
    assert_eq!(new_surface_name(bytes), "Surface-ffffffff-ffff-4fff-bfff-ffffffffffff");
    let b: [u8; 16] = [0x12, 0x34, 0x56, 0x78, 0x9a, 0xbc, 0xde, 0xf0, 0x11, 0x22, 0x33, 0x44, 0x55, 0x66, 0x77, 0x88];
    assert_eq!(new_surface_name(b), "Surface-12345678-9abc-4ef0-9122-334455667788");
    assert_eq!(surface_name("abc"), "Surface-abc");
}

#[test]
fn fresh_random_surface_names_differ() {
    let a = new_surface_name(uuid::Uuid::new_v4().into_bytes());
    let b = new_surface_name(uuid::Uuid::new_v4().into_bytes());
    assert_eq!(a.len(), 44);
    assert_ne!(a, b);
}

#[test]
fn poll_verdicts() {
    assert_eq!(poll_verdict(PollOutcome::Received), PollVerdict::Deliver);
    assert_eq!(poll_verdict(PollOutcome::PendingAlive), PollVerdict::Skip);
    assert_eq!(poll_verdict(PollOutcome::PendingExited), PollVerdict::Close);
    assert_eq!(poll_verdict(PollOutcome::Failed), PollVerdict::Close);
}

#[test]
fn listener_accepts_only_greetings() {
    match on_listener_request(SurfaceComposerRequest::NewConnection { pid: 9, url: "ipc://pid/9".to_string() }) {
        ListenerAction::Accept { pid, url } => {
            assert_eq!(pid, 9);
            assert_eq!(url, "ipc://pid/9");
        }
        ListenerAction::Ignore => panic!("greeting ignored"),
    }
    assert!(matches!(
        on_listener_request(SurfaceComposerRequest::MoveSurfaceRequest { x: 0, y: 0, width: 1, height: 1 }),
        ListenerAction::Ignore
    ));
}

#[test]
fn reconnecting_client_is_registered_once() {
    let mut c: Compositor<u8, u32> = Compositor::new();
    c.register_connection(7, 70);
    c.register_connection(8, 80);
    c.register_connection(7, 71);
    let mut ids = c.connection_ids();
    ids.sort();
    assert_eq!(ids, vec![7, 8]);
    assert_eq!(c.channel(7), Some(&71));
    assert_eq!(c.channel(9), None);
    assert!(c.is_connected(8));
    assert!(!c.is_connected(9));
}

#[test]
fn forgotten_client_leaves_nothing() {
    let mut c: Compositor<u8, u32> = Compositor::new();
    c.register_connection(1, 10);
    c.register_connection(2, 20);
    c.add_layer(1, geometry(0), 10);
    c.add_layer(2, geometry(1), 20);
    c.add_layer(1, geometry(2), 11);
    c.drop_client(1);
    assert_eq!(c.connection_ids(), vec![2]);
    assert!(!c.is_connected(1));
    let layers = c.layer_list();
    assert_eq!(layers.len(), 1);
    assert_eq!(layers[0].pid, 2);
    assert_eq!(layers[0].resources, 20);
}

#[test]
fn move_touches_first_layer_of_client() {
    let mut c: Compositor<u8, u32> = Compositor::new();
    c.add_layer(3, geometry(0), 1);
    c.add_layer(4, geometry(1), 2);
    c.add_layer(4, geometry(2), 3);
    assert!(c.move_layer(4, 50, 60, 70, 80));
    let l = c.layer_list();
    assert_eq!((l[1].geometry.x, l[1].geometry.y, l[1].geometry.width, l[1].geometry.height), (50, 60, 70, 80));
    assert_eq!(l[1].geometry.tex_width, 2560);
    assert_eq!(l[2].geometry.x, 2);
    assert_eq!(l[0].geometry.x, 0);
    assert!(!c.move_layer(5, 0, 0, 0, 0));
}

#[test]
fn client_requests() {
    let mut c: Compositor<u8, u32> = Compositor::new();
    c.register_connection(6, 60);
    match c.on_client_request(6, SurfaceComposerRequest::CreateSurfaceRequest { x: 1, y: 2, width: 3, height: 4 }) {
        ClientAction::CreateLayer { x, y, width, height } => assert_eq!((x, y, width, height), (1, 2, 3, 4)),
        _ => panic!("expected a layer creation"),
    }
    assert!(c.layer_list().is_empty());
    let rep = c.layer_created(6, LayerGeometry::new(1, 2, 3, 4, 2560, 1600), 0, "Surface-x".to_string());
    match rep {
        SurfaceComposerResponse::CreateSurfaceResponse { texture_name } => assert_eq!(texture_name, "Surface-x"),
        _ => panic!("expected a creation reply"),
    }
    assert_eq!(c.layer_list().len(), 1);
    let a = c.on_client_request(6, SurfaceComposerRequest::MoveSurfaceRequest { x: 9, y: 9, width: 9, height: 9 });
    assert!(matches!(a, ClientAction::Reply(SurfaceComposerResponse::MoveSurfaceResponse)));
    assert_eq!(c.layer_list()[0].geometry.x, 9);
    let n = c.on_client_request(6, SurfaceComposerRequest::NewConnection { pid: 6, url: String::new() });
    assert!(matches!(n, ClientAction::Nothing));
}

#[test]
fn test_layer_setup() {
    let g = test_layer_geometry();
    assert_eq!((g.x, g.y, g.width, g.height, g.display_width, g.display_height), (0, 0, 2941, 1600, 2941, 1600));
    let c: Compositor<u8, u32> = Compositor::with_test_layer(5);
    let l = c.layer_list();
    assert_eq!(l.len(), 1);
    assert_eq!((l[0].pid, l[0].resources), (TEST_LAYER_PID, 5));
    assert_eq!(l[0].geometry, g);
    assert!(c.connection_ids().is_empty());
}

#[test]
fn first_event_takes_first_channel_not_skipped() {
    let polls = vec![
        (3, PollOutcome::PendingAlive),
        (5, PollOutcome::PendingExited),
        (7, PollOutcome::Received),
    ];
    assert_eq!(first_event(&polls), Some(1));
    assert_eq!(first_event(&vec![(1, PollOutcome::PendingAlive)]), None);
    assert_eq!(first_event(&vec![(1, PollOutcome::PendingAlive), (2, PollOutcome::Received)]), Some(1));
    assert_eq!(first_event(&vec![]), None);
}
