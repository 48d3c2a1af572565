use imgui_shell::dpi::{dpi_mode, DpiMode, DPI_FACTOR_VAR};

#[test]
fn unset_override_keeps_automatic_mode() {
    let forced: Option<Result<f64, String>> = None;
    assert_eq!(dpi_mode(forced), Ok(DpiMode::Default));
}

#[test]
fn valid_factor_locks_scale() {
    let text = "1.5";
    let forced = Some(text.parse::<f64>().map_err(|e| e.to_string()));
    assert_eq!(dpi_mode(forced), Ok(DpiMode::Locked(1.5)));
    let forced = Some("2".parse::<f64>().map_err(|e| e.to_string()));
    assert_eq!(dpi_mode(forced), Ok(DpiMode::Locked(2.0)));
}

#[test]
fn invalid_factor_is_an_error() {
    let forced = Some("large".parse::<f64>().map_err(|e| e.to_string()));
    assert!(dpi_mode(forced).is_err());
    let forced: Option<Result<f64, u8>> = Some(Err(7));
    assert_eq!(dpi_mode(forced), Err(7));
}

#[test]
fn override_variable_name() {
    assert_eq!(DPI_FACTOR_VAR, "IMGUI_EXAMPLE_FORCE_DPI_FACTOR");
}
