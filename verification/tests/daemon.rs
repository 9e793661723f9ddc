use maprender::batch::BatchRun;
use maprender::codec::{encode_png, Raster};
use maprender::dispatch::{dispatch, finish_render, respond_result, DispatchStep};
use maprender::protocol::{check_protocol_version, decode_failure_response, Command, Status,
    ViewParams};
use maprender::renderer::{Renderer, StyleTarget};

fn view(lon: f64, lat: f64, zoom: f64) -> ViewParams {
    ViewParams {
        lon_bits: lon.to_bits(),
        lat_bits: lat.to_bits(),
        zoom_bits: zoom.to_bits(),
        bearing_bits: 0f64.to_bits(),
        pitch_bits: 0f64.to_bits(),
        has_geojson: false,
    }
}

fn gray_raster(width: u32, height: u32, level: u8) -> Raster {
    Raster { width, height, pixels: vec![level; (4 * width * height) as usize] }
}

#[test]
fn scenario_init_render_quit() {
    let mut r = Renderer::new(42, String::from("/tmp/"));
    let style = String::from("{\"version\":8,\"sources\":{},\"layers\":[]}");
    let step = dispatch(
        &mut r,
        Command::Init {
            width: 256,
            height: 256,
            style,
            pixel_ratio_bits: 1f64.to_bits(),
            protocol_version: None,
        },
    );
    let action = match step {
        DispatchStep::EngineInit { action } => action,
        _ => panic!("an inline init must yield engine work"),
    };
    match &action.target {
        StyleTarget::TempFile { path, content } => {
            assert_eq!(path, "/tmp/mlnative_style_42_0.json");
            assert!(content.starts_with('{'));
        }
        _ => panic!("an inline style must be materialized to a temp file"),
    }
    assert_eq!(r.temp_files.len(), 1);

    let resp = respond_result(r.complete_init(&action, Ok(())));
    assert!(matches!(resp.status, Status::Success));
    assert!(resp.png.is_none());
    assert!(resp.error.is_none());
    assert!(r.initialized);
    assert_eq!(r.width, 256);
    assert_eq!(r.height, 256);

    let v = view(0.0, 0.0, 2.0);
    let act = r.begin_render(&v).expect("render after init is allowed");
    assert_eq!(act.lat_bits, v.lat_bits);
    assert_eq!(act.lon_bits, v.lon_bits);

    let resp = finish_render(Ok(gray_raster(256, 256, 127)));
    assert!(matches!(resp.status, Status::Success));
    let payload = resp.png.expect("a successful render carries the payload");
    let bytes = base64::Engine::decode(
        &base64::engine::general_purpose::STANDARD,
        payload.as_bytes(),
    )
    .expect("payload is valid base64");
    assert_eq!(&bytes[..8], &[0x89, b'P', b'N', b'G', 0x0D, 0x0A, 0x1A, 0x0A]);
    let img = image::load_from_memory(&bytes).expect("payload decodes to a valid image");
    assert_eq!(image::GenericImageView::dimensions(&img), (256, 256));

    let step = dispatch(&mut r, Command::Quit);
    match step {
        DispatchStep::Quit { temp_paths } => {
            assert_eq!(temp_paths, vec![String::from("/tmp/mlnative_style_42_0.json")]);
        }
        _ => panic!("quit must hand back the tracked temp files"),
    }
    assert_eq!(r.temp_files.len(), 0);
}

#[test]
fn scenario_render_before_init() {
    let mut r = Renderer::new(1, String::from("/tmp/"));
    let step = dispatch(&mut r, Command::Render { view: view(0.0, 0.0, 2.0) });
    match step {
        DispatchStep::Respond { response } => {
            assert!(matches!(response.status, Status::Error));
            assert!(response.png.is_none());
            let msg = response.error.expect("an error response carries a message");
            assert!(msg.contains("not initialized"));
            assert_eq!(msg, "Render failed: renderer not initialized");
        }
        _ => panic!("render before init must be answered outright"),
    }
}

#[test]
fn render_before_init_for_any_view() {
    let r = Renderer::new(1, String::from("/tmp/"));
    for (lon, lat, zoom) in [(0.0, 0.0, 0.0), (-180.0, 85.0, 22.0), (13.4, 52.5, 11.5)] {
        let e = r.begin_render(&view(lon, lat, zoom)).unwrap_err();
        assert_eq!(e.message(), "Render failed: renderer not initialized");
    }
}

#[test]
fn reload_before_init_is_refused() {
    let mut r = Renderer::new(1, String::from("/tmp/"));
    let step = dispatch(&mut r, Command::ReloadStyle { style: String::from("{}") });
    match step {
        DispatchStep::Respond { response } => {
            assert_eq!(
                response.error.expect("message"),
                "Reload style failed: renderer not initialized"
            );
        }
        _ => panic!("reload before init must be answered outright"),
    }
    assert_eq!(r.temp_files.len(), 0, "no temp file may be created for a refused reload");
}

#[test]
fn init_rejects_zero_dimensions() {
    let mut r = Renderer::new(1, String::from("/tmp/"));
    let e = r
        .begin_init(0, 256, String::from("{}"), 1f64.to_bits())
        .unwrap_err();
    assert_eq!(e.message(), "Init failed: width must be non-zero");
    let e = r
        .begin_init(256, 0, String::from("{}"), 1f64.to_bits())
        .unwrap_err();
    assert_eq!(e.message(), "Init failed: height must be non-zero");
    assert!(!r.initialized);
    assert_eq!(r.temp_files.len(), 0);
}

#[test]
fn failed_init_does_not_install_renderer() {
    let mut r = Renderer::new(3, String::from("/tmp/"));
    let a = r
        .begin_init(64, 64, String::from("http://example.com/style.json"), 1f64.to_bits())
        .expect("valid dimensions begin an init");
    match &a.target {
        StyleTarget::Url { url } => assert_eq!(url, "http://example.com/style.json"),
        _ => panic!("an http style goes to the URL loader"),
    }
    let e = r
        .complete_init(&a, Err(String::from("Invalid style URL")))
        .unwrap_err();
    let resp = respond_result(Err(e));
    assert_eq!(resp.error.expect("message"), "Init failed: Invalid style URL");
    assert!(!r.initialized, "a failed init never installs a broken renderer");
    assert!(r.begin_render(&view(0.0, 0.0, 2.0)).is_err());
}

#[test]
fn successful_init_makes_render_possible() {
    let mut r = Renderer::new(3, String::from("/tmp/"));
    let a = r
        .begin_init(64, 64, String::from("local-style.json"), 1f64.to_bits())
        .expect("valid dimensions begin an init");
    match &a.target {
        StyleTarget::LocalPath { path } => assert_eq!(path, "local-style.json"),
        _ => panic!("a plain name goes to the path loader"),
    }
    r.complete_init(&a, Ok(())).expect("engine success completes the init");
    assert!(r.initialized);
    let act = r.begin_render(&view(10.0, 20.0, 3.0)).expect("render is now allowed");
    assert_eq!(act.lat_bits, 20f64.to_bits(), "latitude is the first engine argument");
    assert_eq!(act.lon_bits, 10f64.to_bits(), "longitude is the second engine argument");
}

#[test]
fn protocol_version_mismatch_is_a_no_op() {
    let mut r = Renderer::new(5, String::from("/tmp/"));
    let step = dispatch(
        &mut r,
        Command::Init {
            width: 256,
            height: 256,
            style: String::from("{}"),
            pixel_ratio_bits: 1f64.to_bits(),
            protocol_version: Some(String::from("2.0")),
        },
    );
    match step {
        DispatchStep::Respond { response } => {
            assert_eq!(
                response.error.expect("message"),
                "Protocol version mismatch: client=2.0, daemon=1.0"
            );
        }
        _ => panic!("a version mismatch must be answered outright"),
    }
    assert!(!r.initialized);
    assert_eq!(r.temp_files.len(), 0, "a version mismatch leaves the state untouched");

    assert!(check_protocol_version(&None).is_ok());
    assert!(check_protocol_version(&Some(String::from("1.0"))).is_ok());
    assert!(check_protocol_version(&Some(String::from("0.9"))).is_err());
}

#[test]
fn decode_failure_keeps_uniform_shape() {
    let resp = decode_failure_response(String::from("expected value at line 1 column 2"));
    assert!(matches!(resp.status, Status::Error));
    assert!(resp.png.is_none());
    assert_eq!(
        resp.error.expect("message"),
        "Invalid command: expected value at line 1 column 2"
    );
}

#[test]
fn geojson_update_hook_is_a_no_op() {
    let mut r = Renderer::new(5, String::from("/tmp/"));
    assert!(r.update_geojson_sources().is_ok());
    assert!(!r.initialized);
    assert_eq!(r.temp_files.len(), 0);
}

#[test]
fn batch_all_success_joins_in_order() {
    let e1 = encode_png(&gray_raster(2, 2, 10)).expect("encodable");
    let e2 = encode_png(&gray_raster(3, 1, 200)).expect("encodable");
    let mut run = BatchRun::new();
    assert!(run.step(Ok(gray_raster(2, 2, 10))));
    assert!(run.step(Ok(gray_raster(3, 1, 200))));
    let resp = run.finish();
    assert!(matches!(resp.status, Status::Success));
    let payload = resp.png.expect("payload");
    assert_eq!(payload, format!("{},{}", e1, e2));
    assert_eq!(payload.split(',').count(), 2);
}

#[test]
fn batch_failure_discards_partial_results() {
    let mut run = BatchRun::new();
    assert!(run.step(Ok(gray_raster(2, 2, 10))));
    assert!(!run.step(Err(String::from("tile fetch failed"))));
    let resp = run.finish();
    assert!(matches!(resp.status, Status::Error));
    assert!(resp.png.is_none(), "no partial payload on a batch failure");
    assert_eq!(resp.error.expect("message"), "Batch render failed: tile fetch failed");
}

#[test]
fn batch_encode_failure_aborts() {
    let mut run = BatchRun::new();
    let bad = Raster { width: 4, height: 4, pixels: vec![0u8; 7] };
    assert!(!run.step(Ok(bad)));
    let resp = run.finish();
    assert!(matches!(resp.status, Status::Error));
    assert!(resp.png.is_none());
    assert!(resp.error.expect("message").starts_with("Failed to encode PNG: "));
}

#[test]
fn batch_before_init_fails_whole_batch() {
    let mut run = BatchRun::new();
    run.abort_uninitialized();
    let resp = run.finish();
    assert!(matches!(resp.status, Status::Error));
    assert!(resp.png.is_none());
    assert_eq!(resp.error.expect("message"), "Batch render failed: renderer not initialized");
}

#[test]
fn empty_batch_succeeds_with_empty_payload() {
    let run = BatchRun::new();
    let resp = run.finish();
    assert!(matches!(resp.status, Status::Success));
    assert_eq!(resp.png.expect("payload"), "");
}

#[test]
fn batch_views_pass_through_dispatch() {
    let mut r = Renderer::new(5, String::from("/tmp/"));
    let views = vec![view(0.0, 0.0, 1.0), view(1.0, 2.0, 3.0)];
    let step = dispatch(&mut r, Command::RenderBatch { views: views.clone() });
    match step {
        DispatchStep::RunBatch { views: vs } => assert_eq!(vs.len(), 2),
        _ => panic!("a batch hands its views to the batch loop"),
    }
}

#[test]
fn render_engine_failure_is_reported() {
    let resp = finish_render(Err(String::from("could not assemble tiles")));
    assert!(matches!(resp.status, Status::Error));
    assert!(resp.png.is_none());
    assert_eq!(resp.error.expect("message"), "Render failed: could not assemble tiles");
}

#[test]
fn reload_flow_through_dispatch() {
    let mut r = Renderer::new(8, String::from("/tmp/"));
    let a = r
        .begin_init(32, 32, String::from("https://tiles.example/style.json"), 1f64.to_bits())
        .expect("valid init");
    r.complete_init(&a, Ok(())).expect("engine success");
    assert_eq!(r.temp_files.len(), 0, "a remote style creates no temp file");

    let step = dispatch(&mut r, Command::ReloadStyle { style: String::from("{\"v\":8}") });
    let action = match step {
        DispatchStep::EngineReload { action } => action,
        _ => panic!("reload after init yields engine work"),
    };
    match &action.target {
        StyleTarget::TempFile { path, .. } => assert_eq!(path, "/tmp/mlnative_style_8_0.json"),
        _ => panic!("inline reload style must be materialized"),
    }
    let resp = respond_result(r.complete_reload(Err(String::from("bad document"))));
    assert_eq!(resp.error.expect("message"), "Reload style failed: bad document");
    assert!(r.initialized, "a failed reload keeps the renderer ready");
    assert_eq!(r.width, 32, "reload never resizes");

    let resp = respond_result(r.complete_reload(Ok(())));
    assert!(matches!(resp.status, Status::Success));
}
