//! Application-wide state records: the mode, user settings, theme, and the
//! progress records of long library operations.

use vstd::prelude::*;

use crate::text::{decimal, decimal_string};

verus! {

/// Primary app mode.
#[derive(Debug, Clone, Copy, PartialEq, Eq, Structural)]
pub enum AppMode {
    /// Sync sign-in gate.
    SignedOut,
    /// Library manager view.
    Library,
    /// PDF viewer view.
    Viewer,
    /// Top-level library/vault selector.
    LibrarySwitcher,
}

/// User-configurable application settings.
#[derive(Debug)]
pub struct Settings {
    /// Default rendered page width.
    pub default_zoom_width: u16,
    /// Number of rendered pages held in the tile cache.
    pub tile_cache_pages: usize,
    /// Directories watched for PDFs.
    pub watch_directories: Vec<String>,
}

impl Default for Settings {
    /// Pages 800 pixels wide, 64 cached pages, no watched directories.
    fn default() -> (settings: Self)
        ensures
            settings.default_zoom_width == 800,
            settings.tile_cache_pages == 64,
            settings.watch_directories@.len() == 0,
    {
        Settings { default_zoom_width: 800, tile_cache_pages: 64, watch_directories: Vec::new() }
    }
}

/// The visual theme.
#[derive(Debug, Clone, Copy, PartialEq, Eq, Structural)]
pub enum AppTheme {
    Light,
    Dark,
}

impl AppTheme {
    /// The other theme.
    pub fn toggled(self) -> (other: Self)
        ensures
            other != self,
    {
        match self {
            AppTheme::Light => AppTheme::Dark,
            AppTheme::Dark => AppTheme::Light,
        }
    }
}

/// The active theme and the last style loading error.
#[derive(Debug)]
pub struct AppearanceRuntime {
    pub theme: AppTheme,
    pub style_load_error: Option<String>,
}

/// A running bulk operation over some PDFs.
#[derive(Debug)]
pub struct BulkOperationProgress {
    /// User-facing operation label.
    pub label: String,
    /// Number of PDFs included in the operation.
    pub total: usize,
    /// When the operation began, in milliseconds of a monotonic clock.
    pub started_at: u64,
}

/// A running export.
#[derive(Debug)]
pub struct LibraryExportProgress {
    pub label: String,
    pub total: usize,
    /// When the export began, in milliseconds of a monotonic clock.
    pub started_at: u64,
}

/// The outcome of a finished export.
#[derive(Debug)]
pub struct LibraryExportSummary {
    pub destination: String,
    pub exported: usize,
    pub skipped: usize,
    pub errors: Vec<String>,
}

/// The status shown when an operation on library items ends:
/// "<label> <n> item(s).", with "; <k> failed" before the period when some
/// failed.
pub open spec fn items_done_status_spec(label: Seq<char>, updated: nat, failed: nat) -> Seq<char> {
    let items = label + " "@ + decimal(updated) + (if updated == 1 { " item"@ } else { " items"@ });
    if failed == 0 {
        items + "."@
    } else {
        items + "; "@ + decimal(failed) + " failed."@
    }
}

/// The status for an ended operation on library items.
pub fn items_done_status(label: &str, updated: usize, failed: usize) -> (status: String)
    ensures
        status@ == items_done_status_spec(label@, updated as nat, failed as nat),
{
    proof {
        reveal_strlit(" ");
        reveal_strlit(" item");
        reveal_strlit(" items");
        reveal_strlit(".");
        reveal_strlit("; ");
        reveal_strlit(" failed.");
    }
    let mut status = label.to_owned();
    status.append(" ");
    let count = decimal_string(updated as u64);
    status.append(count.as_str());
    if updated == 1 {
        status.append(" item");
    } else {
        status.append(" items");
    }
    if failed == 0 {
        status.append(".");
    } else {
        status.append("; ");
        let failures = decimal_string(failed as u64);
        status.append(failures.as_str());
        status.append(" failed.");
    }
    status
}

/// The status shown when an operation on PDFs ends: "<label> <n> PDFs.",
/// with "; <k> failed" before the period when some failed.
pub open spec fn pdfs_done_status_spec(label: Seq<char>, updated: nat, failed: nat) -> Seq<char> {
    let done = label + " "@ + decimal(updated) + " PDFs"@;
    if failed == 0 {
        done + "."@
    } else {
        done + "; "@ + decimal(failed) + " failed."@
    }
}

/// The status for an ended operation on PDFs.
pub fn pdfs_done_status(label: &str, updated: usize, failed: usize) -> (status: String)
    ensures
        status@ == pdfs_done_status_spec(label@, updated as nat, failed as nat),
{
    proof {
        reveal_strlit(" ");
        reveal_strlit(" PDFs");
        reveal_strlit(".");
        reveal_strlit("; ");
        reveal_strlit(" failed.");
    }
    let mut status = label.to_owned();
    status.append(" ");
    let count = decimal_string(updated as u64);
    status.append(count.as_str());
    status.append(" PDFs");
    if failed == 0 {
        status.append(".");
    } else {
        status.append("; ");
        let failures = decimal_string(failed as u64);
        status.append(failures.as_str());
        status.append(" failed.");
    }
    status
}

/// The status shown when an export ends: "Exported <n> PDFs to <where>",
/// followed by " (<k> skipped)" when files were skipped.
pub open spec fn export_finished_status_spec(exported: nat, destination: Seq<char>, skipped: nat) -> Seq<char> {
    let done = "Exported "@ + decimal(exported) + " PDFs to "@ + destination;
    if skipped == 0 {
        done
    } else {
        done + " ("@ + decimal(skipped) + " skipped)"@
    }
}

impl LibraryExportSummary {
    /// The status for this finished export.
    pub fn status(&self) -> (status: String)
        ensures
            status@ == export_finished_status_spec(self.exported as nat, self.destination@, self.skipped as nat),
    {
        proof {
            reveal_strlit("Exported ");
            reveal_strlit(" PDFs to ");
            reveal_strlit(" (");
            reveal_strlit(" skipped)");
        }
        let mut status = "Exported ".to_owned();
        let count = decimal_string(self.exported as u64);
        status.append(count.as_str());
        status.append(" PDFs to ");
        status.append(self.destination.as_str());
        if self.skipped > 0 {
            status.append(" (");
            let skipped = decimal_string(self.skipped as u64);
            status.append(skipped.as_str());
            status.append(" skipped)");
        }
        status
    }
}

} // verus!
