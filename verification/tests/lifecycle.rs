use twoyi_bootstrap::coordinator::{BootstrapPlan, Coordinator, Directive, HostNotification,
    RenderWorkerPlan};
use twoyi_bootstrap::geometry::{clamp_fps, full_extent, SubWindowPlacement, WindowInfo,
    FPS_CEILING};
use twoyi_bootstrap::launch::{resolve_launch, LaunchDescriptor, LaunchOutcome, PermissionPlan,
    DEVICE_NODE_MODE};

fn surface(handle: usize, width: i32, height: i32, fps: i32) -> HostNotification {
    HostNotification::SurfaceAvailable {
        window: Some(WindowInfo { handle, width, height }),
        xdpi: 320,
        ydpi: 320,
        fps,
    }
}

#[test]
fn clamp_above_ceiling() {
    assert_eq!(clamp_fps(60), 30);
    assert_eq!(clamp_fps(31), 30);
    assert_eq!(clamp_fps(i32::MAX), 30);
}

#[test]
fn clamp_at_or_below_ceiling_passes_through() {
    assert_eq!(clamp_fps(30), 30);
    assert_eq!(clamp_fps(24), 24);
    assert_eq!(clamp_fps(0), 0);
    assert_eq!(clamp_fps(-5), -5);
    assert_eq!(FPS_CEILING, 30);
}

#[test]
fn first_surface_bootstraps_with_clamped_fps() {
    let mut c = Coordinator::new();
    let d = c.handle(surface(0x51, 1080, 1920, 60));
    let expected = Directive::Bootstrap(BootstrapPlan {
        input_width: 1080,
        input_height: 1920,
        worker: RenderWorkerPlan {
            window: 0x51,
            width: 1080,
            height: 1920,
            xdpi: 320,
            ydpi: 320,
            fps: 30,
        },
    });
    assert_eq!(d, expected);
}

#[test]
fn second_surface_reregisters_full_extent() {
    let mut c = Coordinator::new();
    let _ = c.handle(surface(0x51, 1080, 1920, 60));
    let d = c.handle(surface(0x52, 720, 1280, 60));
    assert_eq!(d, Directive::Reregister(SubWindowPlacement {
        window: 0x52,
        x: 0,
        y: 0,
        width: 720,
        height: 1280,
        orig_width: 720,
        orig_height: 1280,
    }));
}

#[test]
fn repeated_surfaces_reregister_every_time_and_never_bootstrap_again() {
    let mut c = Coordinator::new();
    let first = c.handle(surface(1, 100, 200, 10));
    assert!(matches!(first, Directive::Bootstrap(_)));
    let mut reregistrations: usize = 0;
    let mut k: usize = 0;
    while k < 5 {
        let d = c.handle(surface(2 + k, 320 + k as i32, 480, 10));
        match d {
            Directive::Reregister(p) => {
                assert_eq!(p.x, 0);
                assert_eq!(p.y, 0);
                assert_eq!(p.window, 2 + k);
                assert_eq!(p.width, 320 + k as i32);
                assert_eq!(p.height, 480);
                reregistrations += 1;
            },
            _ => panic!("a later surface must only re-register"),
        }
        k += 1;
    }
    assert_eq!(reregistrations, 5);
}

#[test]
fn null_resolution_aborts_and_leaves_no_trace() {
    let mut c = Coordinator::new();
    let failed = c.handle(HostNotification::SurfaceAvailable {
        window: None,
        xdpi: 160,
        ydpi: 160,
        fps: 60,
    });
    assert_eq!(failed, Directive::Abort);
    // The next call behaves exactly as a first call: it still bootstraps.
    let d = c.handle(surface(0x51, 1080, 1920, 60));
    assert!(matches!(d, Directive::Bootstrap(_)));
}

#[test]
fn null_resolution_after_start_aborts_without_side_effects() {
    let mut c = Coordinator::new();
    let _ = c.handle(surface(1, 100, 200, 10));
    let failed = c.handle(HostNotification::SurfaceAvailable {
        window: None,
        xdpi: 160,
        ydpi: 160,
        fps: 60,
    });
    assert_eq!(failed, Directive::Abort);
    let d = c.handle(surface(2, 100, 200, 10));
    assert!(matches!(d, Directive::Reregister(_)));
}

#[test]
fn touch_with_null_backing_is_dropped() {
    let mut c = Coordinator::new();
    assert_eq!(c.handle(HostNotification::Touch { backing: None }), Directive::Ignore);
    assert_eq!(c.handle(HostNotification::Touch { backing: Some(0) }), Directive::Ignore);
}

#[test]
fn touch_with_live_backing_forwards_same_payload() {
    let mut c = Coordinator::new();
    let d = c.handle(HostNotification::Touch { backing: Some(0x7f00aa) });
    assert_eq!(d, Directive::ForwardTouch(0x7f00aa));
}

#[test]
fn key_codes_forward_unconditionally() {
    let mut c = Coordinator::new();
    assert_eq!(c.handle(HostNotification::Key { code: 24 }), Directive::ForwardKey(24));
    assert_eq!(c.handle(HostNotification::Key { code: -1 }), Directive::ForwardKey(-1));
}

#[test]
fn reset_window_ignores_requested_offset() {
    let mut c = Coordinator::new();
    let d = c.handle(HostNotification::ResetWindow {
        handle: Some(0x33),
        top: 17,
        left: 23,
        width: 800,
        height: 600,
    });
    assert_eq!(d, Directive::ResizeSub(SubWindowPlacement {
        window: 0x33,
        x: 0,
        y: 0,
        width: 800,
        height: 600,
        orig_width: 800,
        orig_height: 600,
    }));
}

#[test]
fn remove_window_passes_the_handle_through() {
    let mut c = Coordinator::new();
    assert_eq!(c.handle(HostNotification::RemoveWindow { handle: Some(0x44) }),
        Directive::RemoveSub(0x44));
}

#[test]
fn null_resolution_on_reset_aborts_without_a_renderer_call() {
    let mut c = Coordinator::new();
    let d = c.handle(HostNotification::ResetWindow {
        handle: None,
        top: 0,
        left: 0,
        width: 800,
        height: 600,
    });
    assert_eq!(d, Directive::Abort);
}

#[test]
fn null_resolution_on_remove_aborts_without_a_renderer_call() {
    let mut c = Coordinator::new();
    assert_eq!(c.handle(HostNotification::RemoveWindow { handle: None }), Directive::Abort);
}

#[test]
fn full_extent_placement_shape() {
    let p = full_extent(9, 640, 480);
    assert_eq!(p.x, 0);
    assert_eq!(p.y, 0);
    assert_eq!(p.width, 640);
    assert_eq!(p.height, 480);
    assert_eq!(p.orig_width, 640);
    assert_eq!(p.orig_height, 480);
    assert_eq!(p.window, 9);
}

#[test]
fn launch_descriptor_carries_the_fixed_policy() {
    let d = LaunchDescriptor::new(String::from("/data/app/loader.so"));
    assert_eq!(d.program.as_str(), "nice");
    assert_eq!(d.priority_flag.as_str(), "-n");
    assert_eq!(d.priority_level.as_str(), "5");
    assert_eq!(d.guest_init.as_str(), "./init");
    assert_eq!(d.working_dir.as_str(), "/data/data/io.twoyi/rootfs");
    assert_eq!(d.env_key.as_str(), "TYLOADER");
    assert_eq!(d.env_value.as_str(), "/data/app/loader.so");
    assert_eq!(d.log_path.as_str(), "/data/data/io.twoyi/log.txt");
}

#[test]
fn permission_plan_names_the_device_directory() {
    let p = PermissionPlan::new();
    assert_eq!(p.dir.as_str(), "/data/data/io.twoyi/rootfs/dev/input");
    assert_eq!(p.mode, 0o777);
    assert_eq!(DEVICE_NODE_MODE, 0o777);
}

#[test]
fn any_failed_launch_step_abandons_the_launch_silently() {
    assert_eq!(resolve_launch(true, true, true), LaunchOutcome::Spawned);
    assert_eq!(resolve_launch(false, false, false), LaunchOutcome::Abandoned);
    assert_eq!(resolve_launch(true, false, false), LaunchOutcome::Abandoned);
    assert_eq!(resolve_launch(true, true, false), LaunchOutcome::Abandoned);
}

#[test]
fn failed_log_creation_does_not_undo_the_worker_dispatch() {
    // The worker plan is part of the bootstrap directive and is fixed before
    // the launch step ever looks at the log file.
    let mut c = Coordinator::new();
    let d = c.handle(surface(0x51, 1080, 1920, 60));
    let plan = match d {
        Directive::Bootstrap(p) => p,
        _ => panic!("first resolved surface must bootstrap"),
    };
    assert_eq!(resolve_launch(true, false, false), LaunchOutcome::Abandoned);
    assert_eq!(plan.worker.window, 0x51);
    assert_eq!(plan.worker.fps, 30);
    // And a later surface still only re-registers: the flag did not move.
    let again = c.handle(surface(0x52, 1080, 1920, 60));
    assert!(matches!(again, Directive::Reregister(_)));
}

#[test]
fn end_to_end_scenario() {
    let mut c = Coordinator::new();

    // First call: surface S1, 1080x1920, fps 60.
    let d1 = c.handle(surface(0x51, 1080, 1920, 60));
    let plan = match d1 {
        Directive::Bootstrap(p) => p,
        _ => panic!("first call must bootstrap"),
    };
    assert_eq!(plan.input_width, 1080);
    assert_eq!(plan.input_height, 1920);
    assert_eq!(plan.worker.fps, 30);
    let perms = PermissionPlan::new();
    assert_eq!(perms.dir.as_str(), "/data/data/io.twoyi/rootfs/dev/input");
    let launch = LaunchDescriptor::new(String::from("/system/loader"));
    assert_eq!(launch.env_key.as_str(), "TYLOADER");
    assert_eq!(launch.env_value.as_str(), "/system/loader");
    assert_eq!(launch.working_dir.as_str(), "/data/data/io.twoyi/rootfs");

    // Second call: surface S2, different dimensions.
    let d2 = c.handle(surface(0x52, 720, 1280, 60));
    assert_eq!(d2, Directive::Reregister(SubWindowPlacement {
        window: 0x52,
        x: 0,
        y: 0,
        width: 720,
        height: 1280,
        orig_width: 720,
        orig_height: 1280,
    }));
}
