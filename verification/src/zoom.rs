//! The viewer's zoom: the page width, the zoom preset in force and the
//! generation that marks each change of width, and how the zoom shortcuts
//! move them.

use vstd::prelude::*;

use crate::shortcuts::{shortcut_action_spec, Shortcut, ShortcutAction, ShortcutContext};

verus! {

/// The narrowest and the widest page width the viewer renders.
#[derive(Debug, Clone, Copy)]
pub struct ZoomLimits {
    pub min_width: u16,
    pub max_width: u16,
}

/// The viewer's zoom. The preset's kind `P` is carried as it is.
#[derive(Debug)]
pub struct ViewerZoom<P> {
    /// The rendered page width.
    pub width: u16,
    /// The zoom preset in force, if any.
    pub preset: Option<P>,
    /// Counts the changes of width (wrapping), so that stale renders can be
    /// told apart.
    pub generation: u64,
}

/// `width` brought into `min..=max`.
pub open spec fn clamp_width(width: int, min: int, max: int) -> int {
    if width < min {
        min
    } else if width > max {
        max
    } else {
        width
    }
}

/// The generation after `g`, wrapping past the largest value.
pub open spec fn next_generation(g: u64) -> u64 {
    if g == u64::MAX {
        0
    } else {
        (g + 1) as u64
    }
}

/// The page width a zoom shortcut asks for, if it is one.
pub open spec fn requested_width(action: ShortcutAction) -> Option<u16> {
    match action {
        ShortcutAction::ZoomToWidth(w) => Some(w),
        ShortcutAction::ResetZoom(w) => Some(w),
        _ => None,
    }
}

impl<P> ViewerZoom<P> {
    /// Zooms to `requested`, clamped to the limits; says whether the width
    /// changed. Only a change of width counts a new generation; the preset
    /// is left as it is.
    pub fn zoom_to_width(&mut self, requested: u16, limits: ZoomLimits) -> (changed: bool)
        requires
            limits.min_width <= limits.max_width,
        ensures
            final(self).width == clamp_width(requested as int, limits.min_width as int, limits.max_width as int),
            changed == (final(self).width != old(self).width),
            final(self).generation == (if changed { next_generation(old(self).generation) } else { old(self).generation }),
            final(self).preset == old(self).preset,
    {
        let width = if requested < limits.min_width {
            limits.min_width
        } else if requested > limits.max_width {
            limits.max_width
        } else {
            requested
        };
        if width == self.width {
            return false;
        }
        self.width = width;
        self.generation = self.generation.wrapping_add(1);
        true
    }

    /// Carries out what a zoom shortcut decided: zooming in or out, or back
    /// to the default width, drops the preset and zooms to the width asked
    /// for, clamped to the limits. Any other action leaves the zoom alone.
    pub fn apply_shortcut(&mut self, action: ShortcutAction, limits: ZoomLimits)
        requires
            limits.min_width <= limits.max_width,
        ensures
            requested_width(action).is_none() ==> *final(self) == *old(self),
            requested_width(action).is_some() ==> {
                let w = clamp_width(requested_width(action).unwrap() as int, limits.min_width as int, limits.max_width as int);
                &&& final(self).width == w
                &&& final(self).preset.is_none()
                &&& final(self).generation == (if w != old(self).width {
                    next_generation(old(self).generation)
                } else {
                    old(self).generation
                })
            },
    {
        match action {
            ShortcutAction::ZoomToWidth(w) | ShortcutAction::ResetZoom(w) => {
                self.preset = None;
                self.zoom_to_width(w, limits);
            },
            _ => {},
        }
    }
}

/// From a width within the limits, the zoom-in shortcut never narrows the
/// page and the zoom-out shortcut never widens it; the reset shortcut asks
/// for the configured default width, which the viewer then clamps.
pub proof fn law_zoom_shortcuts(c: ShortcutContext, limits: ZoomLimits)
    requires
        limits.min_width <= c.zoom_width <= limits.max_width,
    ensures
        requested_width(shortcut_action_spec(Shortcut::In, c)).is_some(),
        clamp_width(requested_width(shortcut_action_spec(Shortcut::In, c)).unwrap() as int, limits.min_width as int, limits.max_width as int)
            >= c.zoom_width,
        requested_width(shortcut_action_spec(Shortcut::Out, c)).is_some(),
        clamp_width(requested_width(shortcut_action_spec(Shortcut::Out, c)).unwrap() as int, limits.min_width as int, limits.max_width as int)
            <= c.zoom_width,
        requested_width(shortcut_action_spec(Shortcut::Reset, c)) == Some(c.default_zoom_width),
{
}

} // verus!
