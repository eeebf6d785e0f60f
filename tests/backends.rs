use screenshooter::capture::Capture;
use screenshooter::dda::{
    is_device_lost, DdaAction, DdaHandles, DDA, DXGI_ERROR_ACCESS_LOST, DXGI_ERROR_INVALID_CALL,
    DXGI_ERROR_WAIT_TIMEOUT, DXGI_ERROR_WAS_STILL_DRAWING,
};
use screenshooter::gdi::{BlitRequest, GDI};
use screenshooter::setup::{Resource, ResourceKind, Setup};
use screenshooter::{CaptureMethod, Cords, ScreenShooter};

const HANDLES: DdaHandles = DdaHandles { device: 1, context: 2, out_dup: 3, cpu_texture: 4 };

fn dda() -> DDA {
    DDA::new(HANDLES, Cords::new(800, 600, 1920, 1080))
}

#[test]
fn result_codes_match_the_platform() {
    assert_eq!(DXGI_ERROR_INVALID_CALL, 0x887A0001u32 as i32);
    assert_eq!(DXGI_ERROR_WAS_STILL_DRAWING, 0x887A000Au32 as i32);
    assert_eq!(DXGI_ERROR_ACCESS_LOST, 0x887A0026u32 as i32);
    assert_eq!(DXGI_ERROR_WAIT_TIMEOUT, 0x887A0027u32 as i32);
    assert!(is_device_lost(DXGI_ERROR_ACCESS_LOST));
    assert!(is_device_lost(DXGI_ERROR_INVALID_CALL));
    assert!(!is_device_lost(DXGI_ERROR_WAIT_TIMEOUT));
}

#[test]
fn plain_capture_acquires_copies_maps_and_delivers() {
    let mut d = dda();
    assert_eq!(d.begin_capture(), DdaAction::AcquireFrame);
    assert_eq!(d.advance(0), DdaAction::CopyFrame);
    assert!(d.frame_lock);
    assert_eq!(d.advance(0), DdaAction::MapStaging);
    assert_eq!(d.advance(0), DdaAction::Deliver);
    assert_eq!(d.frame_len(), 800 * 600 * 4);
}

#[test]
fn next_capture_releases_the_held_frame_first() {
    let mut d = dda();
    d.begin_capture();
    d.advance(0);
    d.advance(0);
    d.advance(0);
    assert_eq!(d.begin_capture(), DdaAction::ReleaseFrame);
    assert_eq!(d.advance(0), DdaAction::AcquireFrame);
    assert!(!d.frame_lock);
}

#[test]
fn acquisition_timeout_is_retried() {
    let mut d = dda();
    d.begin_capture();
    for _ in 0..5 {
        assert_eq!(d.advance(DXGI_ERROR_WAIT_TIMEOUT), DdaAction::AcquireFrame);
    }
    assert_eq!(d.advance(0), DdaAction::CopyFrame);
}

#[test]
fn device_loss_on_acquire_rebuilds_and_delivers() {
    let mut d = dda();
    d.begin_capture();
    assert_eq!(d.advance(DXGI_ERROR_ACCESS_LOST), DdaAction::Rebuild);
    let fresh = DdaHandles { device: 11, context: 12, out_dup: 13, cpu_texture: 14 };
    d.replace_handles(fresh);
    assert_eq!(d.advance(0), DdaAction::AcquireFrame);
    assert_eq!(d.handles, fresh);
    assert_eq!(d.advance(0), DdaAction::CopyFrame);
    assert_eq!(d.advance(0), DdaAction::MapStaging);
    assert_eq!(d.advance(0), DdaAction::Deliver);
}

#[test]
fn device_loss_on_map_restarts_acquisition() {
    let mut d = dda();
    d.begin_capture();
    d.advance(0);
    d.advance(0);
    assert_eq!(d.advance(DXGI_ERROR_INVALID_CALL), DdaAction::Rebuild);
    d.replace_handles(HANDLES);
    assert!(!d.frame_lock);
    assert_eq!(d.advance(0), DdaAction::AcquireFrame);
}

#[test]
fn still_drawing_map_is_retried() {
    let mut d = dda();
    d.begin_capture();
    d.advance(0);
    d.advance(0);
    let mut maps = 1;
    for _ in 0..3 {
        assert_eq!(d.advance(DXGI_ERROR_WAS_STILL_DRAWING), DdaAction::MapStaging);
        maps += 1;
    }
    assert_eq!(maps, 4);
    assert_eq!(d.advance(0), DdaAction::Deliver);
}

#[test]
fn other_failures_end_the_capture() {
    let mut d = dda();
    d.begin_capture();
    assert_eq!(d.advance(-7), DdaAction::Fail { hresult: -7 });
    let mut d = dda();
    d.begin_capture();
    d.advance(0);
    assert_eq!(d.advance(-8), DdaAction::Fail { hresult: -8 });
    let mut d = dda();
    d.begin_capture();
    d.advance(DXGI_ERROR_ACCESS_LOST);
    assert_eq!(d.advance(-9), DdaAction::Fail { hresult: -9 });
}

#[test]
fn blit_capture_buffer_has_frame_size_every_time() {
    let g = GDI::new(1, 2, 3, Cords::new(800, 600, 1920, 1080));
    for _ in 0..2 {
        let buf = g.frame_buffer();
        assert_eq!(buf.len(), 800 * 600 * 4);
        assert!(buf.iter().all(|b| *b == 0));
    }
}

#[test]
fn blit_request_copies_the_crop_box() {
    let g = GDI::new(1, 2, 3, Cords::new(800, 600, 1920, 1080));
    assert_eq!(
        g.blit_request(),
        BlitRequest { dest_x: 0, dest_y: 0, width: 800, height: 600, src_x: 560, src_y: 240 }
    );
}

#[test]
fn readback_header_is_top_down_bgra() {
    let g = GDI::new(1, 2, 3, Cords::new(800, 600, 1920, 1080));
    let h = g.dib_header();
    assert_eq!((h.width, h.height), (800, -600));
    assert_eq!((h.planes, h.bit_count, h.compression), (1, 32, 0));
    assert_eq!(h.size_image, 1_920_000);
}

fn res(kind: ResourceKind, handle: usize) -> Resource {
    Resource { kind, handle }
}

#[test]
fn blit_setup_builds_backend() {
    let cords = Cords::new(800, 600, 1920, 1080);
    let mut s = Capture::new(CaptureMethod::GDI, cords);
    assert_eq!(s.next_resource(), Some(ResourceKind::ScreenDc));
    s.acquired(10);
    assert_eq!(s.next_resource(), Some(ResourceKind::MemoryDc));
    s.acquired(20);
    assert_eq!(s.next_resource(), Some(ResourceKind::Bitmap));
    s.acquired(30);
    assert_eq!(s.next_resource(), None);
    let (cap, transient) = Capture::from_setup(s);
    assert!(transient.is_empty());
    assert_eq!(
        cap.release_list(),
        vec![
            res(ResourceKind::Bitmap, 30),
            res(ResourceKind::MemoryDc, 20),
            res(ResourceKind::ScreenDc, 10)
        ]
    );
}

#[test]
fn duplication_setup_releases_transients() {
    let cords = Cords::new(800, 600, 1920, 1080);
    let mut s = Setup::new(CaptureMethod::DDA, cords);
    let mut h = 100;
    while s.next_resource().is_some() {
        s.acquired(h);
        h += 1;
    }
    let (cap, transient) = Capture::from_setup(s);
    assert_eq!(
        transient,
        vec![
            res(ResourceKind::Output1, 105),
            res(ResourceKind::Output, 104),
            res(ResourceKind::Adapter, 103),
            res(ResourceKind::DxgiDevice, 102)
        ]
    );
    assert_eq!(
        cap.release_list(),
        vec![
            res(ResourceKind::StagingTexture, 107),
            res(ResourceKind::Duplication, 106),
            res(ResourceKind::Context, 101),
            res(ResourceKind::Device, 100)
        ]
    );
}

#[test]
fn failed_setup_releases_everything_acquired() {
    let cords = Cords::new(800, 600, 1920, 1080);
    let mut s = Setup::new(CaptureMethod::DDA, cords);
    s.acquired(1);
    s.acquired(2);
    s.acquired(3);
    assert_eq!(s.next_resource(), Some(ResourceKind::Adapter));
    assert_eq!(
        s.abandon(),
        vec![
            res(ResourceKind::DxgiDevice, 3),
            res(ResourceKind::Context, 2),
            res(ResourceKind::Device, 1)
        ]
    );
}

#[test]
fn failed_first_step_releases_nothing() {
    let s = Setup::new(CaptureMethod::GDI, Cords::new(8, 6, 16, 12));
    assert!(s.abandon().is_empty());
}

#[test]
fn shooter_counts_frames() {
    let mut s = Setup::new(CaptureMethod::GDI, Cords::new(8, 6, 16, 12));
    s.acquired(1);
    s.acquired(2);
    s.acquired(3);
    let (cap, _) = Capture::from_setup(s);
    let mut shooter = ScreenShooter::new(cap);
    assert_eq!(shooter.frame_count(), 0);
    shooter.record_frame();
    shooter.record_frame();
    assert_eq!(shooter.frame_count(), 2);
    assert!(matches!(shooter.capture(), Capture::GDI { .. }));
    assert!(matches!(shooter.capture_mut(), Capture::GDI { .. }));
}
