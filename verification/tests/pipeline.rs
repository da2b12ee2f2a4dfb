use capture_pipeline::backpressure::BufferState;
use capture_pipeline::builder::{build, BackendCaps, ConstructionError, GraphBuilder};
use capture_pipeline::graph::{Link, Node};
use capture_pipeline::lifecycle::{
    LifecycleController, PipelineSlot, PipelineState, RuntimeEvent,
};
use capture_pipeline::probe::{forward_decision, Disposition, FrameSample, FrameTally};
use capture_pipeline::target::{
    collect_windows, is_alt_tab_eligible, normalize_title, resolve, wide_prefix_before_nul,
    CaptureTargetDescriptor, PopupLink, Window, WindowReport,
};
use capture_pipeline::text::contains_ci_str;
use capture_pipeline::graph::PixelFormat;

fn window(title: &str, handle: u64) -> Window {
    Window {
        title: title.to_owned(),
        minimized: false,
        window_handle: handle,
        focused: false,
        process_id: 7,
        process_path: None,
    }
}

fn full_caps() -> BackendCaps {
    BackendCaps {
        capture: true,
        rate_limit: true,
        fan_out: true,
        bounded_buffer: true,
        convert: true,
        scale: true,
        encode: true,
        mux: true,
        file_sink: true,
        frame_sink: true,
        fan_out_ports: 8,
    }
}

#[test]
fn contains_ci_finds_substring_case_insensitively() {
    assert!(contains_ci_str("Mozilla Firefox", "firefox"));
    assert!(contains_ci_str("Mozilla Firefox", "FIREFOX"));
    assert!(!contains_ci_str("Mozilla Firefox", "chrome"));
    assert!(contains_ci_str("anything", ""));
}

#[test]
fn resolve_picks_first_match() {
    let ws = vec![
        window("Terminal", 1),
        window("Mozilla Firefox", 2),
        window("Firefox - downloads", 3),
    ];
    let d = resolve(&ws, "firefox").unwrap();
    assert_eq!(d.window_handle, 2);
    assert_eq!(d.title, "Mozilla Firefox");
}

#[test]
fn resolve_unknown_title_is_not_found() {
    let ws = vec![window("Terminal", 1)];
    assert!(resolve(&ws, "nonexistent-window-xyz").is_err());
}

#[test]
fn normalize_title_trims_and_rejects_blank() {
    assert_eq!(normalize_title("  Mozilla Firefox \t"), Some("Mozilla Firefox".to_owned()));
    assert_eq!(normalize_title("   \t\r\n"), None);
}

#[test]
fn wide_prefix_stops_at_nul() {
    assert_eq!(wide_prefix_before_nul(&[72, 105, 0, 33]), vec![72, 105]);
    assert_eq!(wide_prefix_before_nul(&[72, 105]), vec![72, 105]);
}

#[test]
fn builder_rejects_unsupported_stage() {
    let mut caps = full_caps();
    caps.encode = false;
    let mut b = GraphBuilder::new(caps);
    let r = b.add_node(Node::Encode {
        width: 640,
        height: 480,
        profile: "video/x-h264".to_owned(),
    });
    assert_eq!(r, Err(ConstructionError::NodeCreation));
}

#[test]
fn builder_links_and_exhausts_fanout_ports() {
    let mut caps = full_caps();
    caps.fan_out_ports = 1;
    let mut b = GraphBuilder::new(caps);
    let src = b.add_node(Node::Capture { window_handle: 5 }).unwrap();
    let tee = b.add_node(Node::FanOut).unwrap();
    let q1 = b.add_node(Node::BoundedBuffer { capacity: 200 }).unwrap();
    let q2 = b.add_node(Node::BoundedBuffer { capacity: 200 }).unwrap();
    assert!(b.link(src, tee).is_ok());
    assert!(b.link(tee, q1).is_ok());
    assert_eq!(b.link(tee, q2), Err(ConstructionError::PortExhaustion));
}

#[test]
fn builder_rejects_incompatible_formats() {
    let mut b = GraphBuilder::new(full_caps());
    let cap = b.add_node(Node::Capture { window_handle: 5 }).unwrap();
    let sink = b.add_node(Node::FileSink { location: "out.mp4".to_owned() }).unwrap();
    assert_eq!(b.link(cap, sink), Err(ConstructionError::LinkFailed));
}

#[test]
fn build_assembles_the_fixed_topology() {
    let target = CaptureTargetDescriptor {
        window_handle: 42,
        title: "Mozilla Firefox".to_owned(),
        process_id: 7,
    };
    let g = build(&full_caps(), &target, "test.mp4").unwrap();
    assert_eq!(g.nodes.len(), 13);
    assert_eq!(g.links.len(), 12);
    // one source: only node 0 has no incoming link, and it is the capture
    for i in 1..13 {
        assert!(g.links.iter().any(|l| l.to == i));
    }
    assert!(g.links.iter().all(|l| l.to != 0));
    assert!(matches!(g.nodes[0], Node::Capture { window_handle: 42 }));
    // one fan-out with exactly two outgoing branch links
    assert!(matches!(g.nodes[2], Node::FanOut));
    let fanout_out: Vec<&Link> = g.links.iter().filter(|l| l.from == 2).collect();
    assert_eq!(fanout_out.len(), 2);
    // two sinks: the file sink and the frame-delivery sink
    assert!(g.links.iter().all(|l| l.from != 7 && l.from != 12));
    assert!(matches!(g.nodes[12], Node::FileSink { .. }));
    assert!(matches!(g.nodes[7], Node::FrameSink { .. }));
    if let Node::FileSink { location } = &g.nodes[12] {
        assert_eq!(location, "test.mp4");
    }
}

#[test]
fn build_fails_without_a_stage_kind() {
    let target = CaptureTargetDescriptor {
        window_handle: 42,
        title: "Mozilla Firefox".to_owned(),
        process_id: 7,
    };
    let mut caps = full_caps();
    caps.encode = false;
    assert_eq!(build(&caps, &target, "test.mp4").unwrap_err(), ConstructionError::NodeCreation);
}

#[test]
fn build_fails_without_two_fanout_ports() {
    let target = CaptureTargetDescriptor {
        window_handle: 42,
        title: "Mozilla Firefox".to_owned(),
        process_id: 7,
    };
    let mut caps = full_caps();
    caps.fan_out_ports = 1;
    assert_eq!(
        build(&caps, &target, "test.mp4").unwrap_err(),
        ConstructionError::PortExhaustion,
    );
}

#[test]
fn buffer_signals_exactly_once_per_saturation_episode() {
    let mut b = BufferState::new(9, 2);
    let mut c = LifecycleController::new(build(
        &full_caps(),
        &CaptureTargetDescriptor {
            window_handle: 1,
            title: "w".to_owned(),
            process_id: 1,
        },
        "test.mp4",
    ).unwrap());
    c.start();
    let a1 = b.arrive();
    assert!(a1.accepted && a1.overrun.is_none());
    let a2 = b.arrive();
    assert!(a2.accepted);
    assert_eq!(a2.overrun.unwrap().buffer_id, 9);
    // at capacity: the upstream blocks, and no second signal fires
    let a3 = b.arrive();
    assert!(!a3.accepted && a3.overrun.is_none());
    // overrun is observational: the pipeline state is untouched
    assert_eq!(c.state, PipelineState::Playing);
    // consumption resumes: data flows again, and a fresh episode signals
    assert!(b.depart());
    let a4 = b.arrive();
    assert!(a4.accepted);
    assert_eq!(a4.overrun.unwrap().buffer_id, 9);
}

#[test]
fn probes_forward_only_when_all_continue() {
    let all = vec![Disposition::Continue, Disposition::Continue];
    assert_eq!(forward_decision(&all), Disposition::Continue);
    let one_drop = vec![Disposition::Continue, Disposition::Drop, Disposition::Continue];
    assert_eq!(forward_decision(&one_drop), Disposition::Drop);
    assert_eq!(forward_decision(&vec![]), Disposition::Continue);
}

#[test]
fn frame_tally_counts_deliveries() {
    let mut t = FrameTally::new();
    let s = FrameSample { width: 192, height: 192, format: PixelFormat::Rgb };
    assert_eq!(t.note_sample(&s), Disposition::Continue);
    assert_eq!(t.note_sample(&s), Disposition::Continue);
    assert_eq!(t.delivered, 2);
}

#[test]
fn eligibility_walk_follows_popup_links() {
    // window 5 is visible and its root-owner walk closes on itself
    let table = vec![
        PopupLink { handle: 5, visible: true, last_active_popup: 5 },
        PopupLink { handle: 6, visible: false, last_active_popup: 5 },
    ];
    assert!(is_alt_tab_eligible(&table, 5, 5));
    // window 6 is invisible: never eligible
    assert!(!is_alt_tab_eligible(&table, 6, 6));
    // a visible window whose walk ends elsewhere is not eligible
    let owned = vec![
        PopupLink { handle: 7, visible: true, last_active_popup: 8 },
        PopupLink { handle: 8, visible: true, last_active_popup: 8 },
    ];
    assert!(!is_alt_tab_eligible(&owned, 7, 8));
}

#[test]
fn collect_windows_keeps_eligible_titled_windows_in_order() {
    let reports = vec![
        WindowReport {
            raw_title: "  Mozilla Firefox ".to_owned(),
            alt_tab_eligible: true,
            window_handle: 1,
            minimized: false,
            focused: true,
            process_id: 10,
            process_path: Some("firefox.exe".to_owned()),
        },
        WindowReport {
            raw_title: "   ".to_owned(),
            alt_tab_eligible: true,
            window_handle: 2,
            minimized: false,
            focused: false,
            process_id: 11,
            process_path: None,
        },
        WindowReport {
            raw_title: "Terminal".to_owned(),
            alt_tab_eligible: false,
            window_handle: 3,
            minimized: false,
            focused: false,
            process_id: 12,
            process_path: None,
        },
        WindowReport {
            raw_title: "Notepad".to_owned(),
            alt_tab_eligible: true,
            window_handle: 4,
            minimized: true,
            focused: false,
            process_id: 13,
            process_path: None,
        },
    ];
    let ws = collect_windows(&reports);
    assert_eq!(ws.len(), 2);
    assert_eq!(ws[0].title, "Mozilla Firefox");
    assert_eq!(ws[0].window_handle, 1);
    assert_eq!(ws[0].process_path.as_deref(), Some("firefox.exe"));
    assert_eq!(ws[1].title, "Notepad");
    assert_eq!(ws[1].window_handle, 4);
}

#[test]
fn drive_runs_to_the_first_terminal_event() {
    let target = CaptureTargetDescriptor {
        window_handle: 42,
        title: "Mozilla Firefox".to_owned(),
        process_id: 7,
    };
    let mut c = LifecycleController::new(build(&full_caps(), &target, "test.mp4").unwrap());
    c.start();
    // scenario: shutdown requested, then drained data ends the stream
    assert!(c.request_shutdown());
    assert_eq!(c.state, PipelineState::Draining);
    let events = vec![
        RuntimeEvent::StateChanged,
        RuntimeEvent::EndOfStream,
        RuntimeEvent::Error { node_path: "late".to_owned(), message: "late".to_owned() },
    ];
    let out = c.drive(&events);
    assert!(matches!(out, Some(Ok(()))));
    assert_eq!(c.state, PipelineState::Terminated);
}

#[test]
fn end_of_stream_terminates_with_success() {
    let mut b = GraphBuilder::new(full_caps());
    b.add_node(Node::Capture { window_handle: 1 }).unwrap();
    let mut c = LifecycleController::new(b.finish());
    c.start();
    assert_eq!(c.state, PipelineState::Playing);
    let out = c.on_event(&RuntimeEvent::StateChanged);
    assert!(out.is_none());
    assert_eq!(c.state, PipelineState::Playing);
    let out = c.on_event(&RuntimeEvent::EndOfStream);
    assert!(matches!(out, Some(Ok(()))));
    assert_eq!(c.state, PipelineState::Terminated);
}

#[test]
fn error_terminates_with_path_and_message() {
    let mut b = GraphBuilder::new(full_caps());
    b.add_node(Node::Capture { window_handle: 1 }).unwrap();
    let mut c = LifecycleController::new(b.finish());
    c.start();
    let out = c.on_event(&RuntimeEvent::Error {
        node_path: "encoder-0".to_owned(),
        message: "unsupported profile".to_owned(),
    });
    let err = out.unwrap().unwrap_err();
    assert_eq!(err.node_path, "encoder-0");
    assert_eq!(err.message, "unsupported profile");
    assert_eq!(c.state, PipelineState::Terminated);
}

#[test]
fn terminated_is_absorbing() {
    let mut b = GraphBuilder::new(full_caps());
    b.add_node(Node::Capture { window_handle: 1 }).unwrap();
    let mut c = LifecycleController::new(b.finish());
    c.start();
    c.on_event(&RuntimeEvent::EndOfStream);
    assert_eq!(c.state, PipelineState::Terminated);
    let out = c.on_event(&RuntimeEvent::Error {
        node_path: "encoder-0".to_owned(),
        message: "late".to_owned(),
    });
    assert!(out.is_none());
    assert_eq!(c.state, PipelineState::Terminated);
    assert!(!c.request_shutdown());
}

#[test]
fn shutdown_on_destroyed_graph_is_noop() {
    let mut b = GraphBuilder::new(full_caps());
    b.add_node(Node::Capture { window_handle: 1 }).unwrap();
    let mut slot = PipelineSlot { inner: Some(LifecycleController::new(b.finish())) };
    slot.destroy();
    assert!(!slot.request_shutdown());
    assert!(slot.inner.is_none());
}

#[test]
fn shutdown_on_playing_graph_drains() {
    let mut b = GraphBuilder::new(full_caps());
    b.add_node(Node::Capture { window_handle: 1 }).unwrap();
    let mut c = LifecycleController::new(b.finish());
    c.start();
    let mut slot = PipelineSlot { inner: Some(c) };
    assert!(slot.request_shutdown());
    let c = slot.inner.as_ref().unwrap();
    assert_eq!(c.state, PipelineState::Draining);
}

#[test]
fn capture_session_runs_from_resolve_to_clean_shutdown() {
    let ws = vec![window("Mozilla Firefox", 42)];
    let d = resolve(&ws, "firefox").unwrap();
    assert_eq!(d.window_handle, 42);
    let g = build(&full_caps(), &d, "test.mp4").unwrap();
    let mut c = LifecycleController::new(g);
    c.start();
    // a raw frame reaches the frame-delivery hook
    let mut tally = FrameTally::new();
    let s = FrameSample { width: 192, height: 192, format: PixelFormat::Rgb };
    assert_eq!(tally.note_sample(&s), Disposition::Continue);
    assert!(tally.delivered >= 1);
    // out-of-band shutdown drains, and the end of stream closes cleanly
    assert!(c.request_shutdown());
    let out = c.drive(&vec![RuntimeEvent::EndOfStream]);
    assert!(matches!(out, Some(Ok(()))));
    assert_eq!(c.state, PipelineState::Terminated);
}
