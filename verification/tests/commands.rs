use qr_commands::greeting::greet;
use qr_commands::paths::{
    downloads_path_from, get_downloads_path, join_downloads, launch_outcome, LaunchError,
};
use qr_commands::qr::{generate_qrcode, EncodingError};

#[test]
fn greet_ada_exact() {
    assert_eq!(greet("Ada"), "Hello, Ada! You've been greeted from Rust!");
}

#[test]
fn greet_empty_name() {
    assert_eq!(greet(""), "Hello, ! You've been greeted from Rust!");
}

#[test]
fn greet_contains_name_and_suffix() {
    let g = greet("a name with spaces");
    assert!(g.contains("a name with spaces"));
    assert!(g.ends_with("! You've been greeted from Rust!"));
    assert!(g.starts_with("Hello, "));
}

fn attr_value(svg: &str, attr: &str) -> u32 {
    let key = format!("{}=\"", attr);
    let start = svg.find(&key).expect("attribute present") + key.len();
    let rest = &svg[start..];
    let end = rest.find('"').expect("attribute closed");
    rest[..end].parse().expect("numeric attribute")
}

#[test]
fn qrcode_svg_frame_and_dimensions() {
    let svg = match generate_qrcode("https://example.com") {
        Ok(svg) => svg,
        Err(_) => panic!("a short payload must encode"),
    };
    assert!(svg.starts_with("<?xml version=\"1.0\" standalone=\"yes\"?><svg"));
    assert!(svg.ends_with("\"/></svg>"));
    assert!(svg.contains("fill=\"#000000\""));
    assert!(svg.contains("fill=\"#ffffff\""));
    assert!(attr_value(&svg, "width") >= 200);
    assert!(attr_value(&svg, "height") >= 200);
}

#[test]
fn qrcode_deterministic() {
    let payload = "https://example.com/some/long/path?q=1&r=2";
    let a = generate_qrcode(payload);
    let b = generate_qrcode(payload);
    match (a, b) {
        (Ok(a), Ok(b)) => assert_eq!(a.into_bytes(), b.into_bytes()),
        _ => panic!("a short payload must encode"),
    }
}

#[test]
fn qrcode_matches_encoder_directly() {
    let payload = "hello qr";
    let expected = qrcode::QrCode::with_error_correction_level(payload, qrcode::EcLevel::H)
        .expect("a short payload must encode")
        .render()
        .min_dimensions(200, 200)
        .dark_color(qrcode::render::svg::Color("#000000"))
        .light_color(qrcode::render::svg::Color("#ffffff"))
        .build();
    match generate_qrcode(payload) {
        Ok(svg) => assert_eq!(svg, expected),
        Err(_) => panic!("a short payload must encode"),
    }
}

#[test]
fn qrcode_payload_too_large() {
    let payload = "a".repeat(10_000);
    match generate_qrcode(&payload) {
        Ok(_) => panic!("a payload over the level-H capacity must be rejected"),
        Err(e) => assert_eq!(e, EncodingError::PayloadTooLarge),
    }
}

#[test]
fn downloads_path_with_home() {
    let p = downloads_path_from(Some("/home/u".to_string()), None);
    assert_eq!(p, "/home/u/Downloads");
}

#[test]
fn downloads_path_home_trailing_separator() {
    let p = downloads_path_from(Some("/home/u/".to_string()), None);
    assert_eq!(p, "/home/u/Downloads");
}

#[test]
fn downloads_path_home_wins_over_cwd() {
    let p = downloads_path_from(Some("/root".to_string()), Some("/tmp/wd".to_string()));
    assert_eq!(p, "/root/Downloads");
}

#[test]
fn downloads_path_falls_back_to_cwd() {
    let p = downloads_path_from(None, Some("/tmp/wd".to_string()));
    assert_eq!(p, "/tmp/wd");
}

#[test]
fn downloads_path_falls_back_to_dot() {
    let p = downloads_path_from(None, None);
    assert_eq!(p, ".");
}

#[test]
fn join_downloads_exact() {
    assert_eq!(join_downloads("/root"), "/root/Downloads");
    assert_eq!(join_downloads("/"), "/Downloads");
    assert_eq!(join_downloads(""), "/Downloads");
}

#[test]
fn get_downloads_path_matches_os() {
    let got = get_downloads_path(Some("/tmp/wd".to_string()));
    let expected = match dirs::home_dir() {
        Some(home) => home.join("Downloads").to_string_lossy().into_owned(),
        None => "/tmp/wd".to_string(),
    };
    assert_eq!(got, expected);
    assert!(!got.is_empty());
}

#[test]
fn launch_outcome_success() {
    assert!(launch_outcome(Ok(())).is_ok());
}

#[test]
fn launch_outcome_failure_carries_cause() {
    match launch_outcome(Err("No such file or directory".to_string())) {
        Ok(()) => panic!("a failed launch must be reported"),
        Err(e) => {
            let LaunchError::LaunchFailed { cause } = e;
            assert_eq!(cause, "No such file or directory");
        }
    }
}
