use pdf_folio_ui::shortcuts::ShortcutAction;
use pdf_folio_ui::zoom::{ViewerZoom, ZoomLimits};

const LIMITS: ZoomLimits = ZoomLimits { min_width: 200, max_width: 4000 };

fn zoom(width: u16, generation: u64) -> ViewerZoom<&'static str> {
    ViewerZoom { width, preset: Some("fit-width"), generation }
}

#[test]
fn zoom_in_and_out_step_by_the_requested_width_and_drop_the_preset() {
    let mut z = zoom(800, 3);
    z.apply_shortcut(ShortcutAction::ZoomToWidth(900), LIMITS);
    assert_eq!((z.width, z.preset, z.generation), (900, None, 4));
    z.apply_shortcut(ShortcutAction::ZoomToWidth(700), LIMITS);
    assert_eq!((z.width, z.preset, z.generation), (700, None, 5));
}

#[test]
fn zoom_is_clamped_to_the_limits() {
    let mut z = zoom(3950, 0);
    z.apply_shortcut(ShortcutAction::ZoomToWidth(u16::MAX), LIMITS);
    assert_eq!((z.width, z.generation), (4000, 1));
    let mut z = zoom(250, 0);
    z.apply_shortcut(ShortcutAction::ZoomToWidth(0), LIMITS);
    assert_eq!((z.width, z.generation), (200, 1));
}

#[test]
fn unchanged_width_keeps_the_generation_but_drops_the_preset() {
    let mut z = zoom(4000, 9);
    z.apply_shortcut(ShortcutAction::ZoomToWidth(4100), LIMITS);
    assert_eq!((z.width, z.preset, z.generation), (4000, None, 9));
}

#[test]
fn generation_wraps() {
    let mut z = zoom(800, u64::MAX);
    assert!(z.zoom_to_width(1000, LIMITS));
    assert_eq!(z.generation, 0);
    assert_eq!(z.preset, Some("fit-width"));
    assert!(!z.zoom_to_width(1000, LIMITS));
    assert_eq!(z.generation, 0);
}

#[test]
fn reset_goes_to_the_default_width_clamped() {
    let mut z = zoom(1500, 2);
    z.apply_shortcut(ShortcutAction::ResetZoom(800), LIMITS);
    assert_eq!((z.width, z.preset, z.generation), (800, None, 3));
    let mut z = zoom(1500, 2);
    z.apply_shortcut(ShortcutAction::ResetZoom(100), LIMITS);
    assert_eq!(z.width, 200);
}

#[test]
fn other_actions_leave_the_zoom_alone() {
    let mut z = zoom(800, 2);
    z.apply_shortcut(ShortcutAction::ToggleTheme, LIMITS);
    assert_eq!((z.width, z.preset, z.generation), (800, Some("fit-width"), 2));
}
