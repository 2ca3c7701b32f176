//! Menu titles, tab labels, export option labels and the override table
//! that lets a style book rename any of them.

use vstd::prelude::*;

use crate::text::str_eq;

verus! {

/// Top-level application menu groups.
#[derive(Debug, Clone, Copy, PartialEq, Eq, Structural)]
pub enum AppMenu {
    File,
    Edit,
    View,
    Document,
    Library,
    Tools,
    Help,
}

/// The title shown for each menu group.
pub open spec fn app_menu_title(menu: AppMenu) -> Seq<char> {
    match menu {
        AppMenu::File => "File"@,
        AppMenu::Edit => "Edit"@,
        AppMenu::View => "View"@,
        AppMenu::Document => "Document"@,
        AppMenu::Library => "Library"@,
        AppMenu::Tools => "Tools"@,
        AppMenu::Help => "Help"@,
    }
}

impl AppMenu {
    /// User-facing menu title.
    pub fn label(self) -> (label: &'static str)
        ensures
            label@ == app_menu_title(self),
    {
        match self {
            AppMenu::File => "File",
            AppMenu::Edit => "Edit",
            AppMenu::View => "View",
            AppMenu::Document => "Document",
            AppMenu::Library => "Library",
            AppMenu::Tools => "Tools",
            AppMenu::Help => "Help",
        }
    }
}

/// Right-opening submenus nested inside the View menu.
#[derive(Debug, Clone, Copy, PartialEq, Eq, Structural)]
pub enum ViewMenuFlyout {
    Scrolling,
    Spreads,
}

/// Dropdown menus of the selection toolbar.
#[derive(Debug, Clone, Copy, PartialEq, Eq, Structural)]
pub enum SelectionMenu {
    More,
    Tags,
    Folders,
    Metadata,
    Maintenance,
}

/// Actions offered by the selection toolbar and its menus.
#[derive(Debug, Clone, Copy, PartialEq, Eq, Structural)]
pub enum SelectionToolbarAction {
    AddTag,
    RemoveTag,
    AddToFolder,
    RemoveFromFolder,
    SaveDetails,
    ResetDetails,
    SortTitles,
    RefreshMetadata,
    ResetMetadata,
    RebuildThumbnails,
    Reindex,
    DeleteMetadata,
}

/// The default label of each selection toolbar action.
pub open spec fn selection_toolbar_action_title(action: SelectionToolbarAction) -> Seq<char> {
    match action {
        SelectionToolbarAction::AddTag => "Add tag"@,
        SelectionToolbarAction::RemoveTag => "Remove tag"@,
        SelectionToolbarAction::AddToFolder => "Add to folder"@,
        SelectionToolbarAction::RemoveFromFolder => "Remove from folder"@,
        SelectionToolbarAction::SaveDetails => "Save details"@,
        SelectionToolbarAction::ResetDetails => "Reset details"@,
        SelectionToolbarAction::SortTitles => "Sort titles"@,
        SelectionToolbarAction::RefreshMetadata => "Refresh metadata"@,
        SelectionToolbarAction::ResetMetadata => "Reset metadata"@,
        SelectionToolbarAction::RebuildThumbnails => "Rebuild thumbnails"@,
        SelectionToolbarAction::Reindex => "Reindex"@,
        SelectionToolbarAction::DeleteMetadata => "Move to Trash"@,
    }
}

/// The override-table key of each selection toolbar action.
pub open spec fn selection_toolbar_action_key_spec(action: SelectionToolbarAction) -> Seq<char> {
    match action {
        SelectionToolbarAction::AddTag => "AddTag"@,
        SelectionToolbarAction::RemoveTag => "RemoveTag"@,
        SelectionToolbarAction::AddToFolder => "AddToFolder"@,
        SelectionToolbarAction::RemoveFromFolder => "RemoveFromFolder"@,
        SelectionToolbarAction::SaveDetails => "SaveDetails"@,
        SelectionToolbarAction::ResetDetails => "ResetDetails"@,
        SelectionToolbarAction::SortTitles => "SortTitles"@,
        SelectionToolbarAction::RefreshMetadata => "RefreshMetadata"@,
        SelectionToolbarAction::ResetMetadata => "ResetMetadata"@,
        SelectionToolbarAction::RebuildThumbnails => "RebuildThumbnails"@,
        SelectionToolbarAction::Reindex => "Reindex"@,
        SelectionToolbarAction::DeleteMetadata => "DeleteMetadata"@,
    }
}

impl SelectionToolbarAction {
    /// User-facing menu label.
    pub fn label(self) -> (label: &'static str)
        ensures
            label@ == selection_toolbar_action_title(self),
    {
        match self {
            SelectionToolbarAction::AddTag => "Add tag",
            SelectionToolbarAction::RemoveTag => "Remove tag",
            SelectionToolbarAction::AddToFolder => "Add to folder",
            SelectionToolbarAction::RemoveFromFolder => "Remove from folder",
            SelectionToolbarAction::SaveDetails => "Save details",
            SelectionToolbarAction::ResetDetails => "Reset details",
            SelectionToolbarAction::SortTitles => "Sort titles",
            SelectionToolbarAction::RefreshMetadata => "Refresh metadata",
            SelectionToolbarAction::ResetMetadata => "Reset metadata",
            SelectionToolbarAction::RebuildThumbnails => "Rebuild thumbnails",
            SelectionToolbarAction::Reindex => "Reindex",
            SelectionToolbarAction::DeleteMetadata => "Move to Trash",
        }
    }

    /// The text a formatter writes for this action: its label.
    pub fn to_display_string(self) -> (text: String)
        ensures
            text@ == selection_toolbar_action_title(self),
    {
        self.label().to_owned()
    }
}

/// Main navigation tabs inside the library sidebar.
#[derive(Debug, Clone, Copy, PartialEq, Eq, Structural)]
pub enum LibrarySidebarTab {
    Files,
    Tags,
}

/// The default label of each library sidebar tab.
pub open spec fn library_sidebar_tab_title(tab: LibrarySidebarTab) -> Seq<char> {
    match tab {
        LibrarySidebarTab::Files => "Files"@,
        LibrarySidebarTab::Tags => "Tags"@,
    }
}

impl LibrarySidebarTab {
    /// User-facing tab label.
    pub fn label(self) -> (label: &'static str)
        ensures
            label@ == library_sidebar_tab_title(self),
    {
        match self {
            LibrarySidebarTab::Files => "Files",
            LibrarySidebarTab::Tags => "Tags",
        }
    }
}

/// Navigation tabs inside the open-PDF viewer sidebar.
#[derive(Debug, Clone, Copy, PartialEq, Eq, Structural)]
pub enum ViewerSidebarTab {
    Contents,
    Thumbnails,
}

/// The label of each viewer sidebar tab.
pub open spec fn viewer_sidebar_tab_title(tab: ViewerSidebarTab) -> Seq<char> {
    match tab {
        ViewerSidebarTab::Contents => "Contents"@,
        ViewerSidebarTab::Thumbnails => "Thumbnails"@,
    }
}

impl ViewerSidebarTab {
    /// User-facing tab label.
    pub fn label(self) -> (label: &'static str)
        ensures
            label@ == viewer_sidebar_tab_title(self),
    {
        match self {
            ViewerSidebarTab::Contents => "Contents",
            ViewerSidebarTab::Thumbnails => "Thumbnails",
        }
    }
}

/// How exported PDFs are laid out at the destination.
#[derive(Debug, Clone, Copy, PartialEq, Eq, Structural)]
pub enum ExportMode {
    CopyFlat,
    PreserveFolders,
    Zip,
}

/// The label of each export mode.
pub open spec fn export_mode_title(mode: ExportMode) -> Seq<char> {
    match mode {
        ExportMode::CopyFlat => "Copy PDFs to folder"@,
        ExportMode::PreserveFolders => "Preserve folder structure"@,
        ExportMode::Zip => "Export as ZIP"@,
    }
}

impl ExportMode {
    /// User-facing option label.
    pub fn label(self) -> (label: &'static str)
        ensures
            label@ == export_mode_title(self),
    {
        match self {
            ExportMode::CopyFlat => "Copy PDFs to folder",
            ExportMode::PreserveFolders => "Preserve folder structure",
            ExportMode::Zip => "Export as ZIP",
        }
    }
}

/// How exported files are named.
#[derive(Debug, Clone, Copy, PartialEq, Eq, Structural)]
pub enum ExportFilenameTemplate {
    OriginalFilename,
    Title,
    AuthorTitle,
    YearAuthorTitle,
}

/// The label of each filename template.
pub open spec fn export_filename_template_title(template: ExportFilenameTemplate) -> Seq<char> {
    match template {
        ExportFilenameTemplate::OriginalFilename => "Original filename"@,
        ExportFilenameTemplate::Title => "{title}.pdf"@,
        ExportFilenameTemplate::AuthorTitle => "{author} - {title}.pdf"@,
        ExportFilenameTemplate::YearAuthorTitle => "{year} - {author} - {title}.pdf"@,
    }
}

impl ExportFilenameTemplate {
    /// User-facing option label.
    pub fn label(self) -> (label: &'static str)
        ensures
            label@ == export_filename_template_title(self),
    {
        match self {
            ExportFilenameTemplate::OriginalFilename => "Original filename",
            ExportFilenameTemplate::Title => "{title}.pdf",
            ExportFilenameTemplate::AuthorTitle => "{author} - {title}.pdf",
            ExportFilenameTemplate::YearAuthorTitle => "{year} - {author} - {title}.pdf",
        }
    }
}

/// What an export does when a file of the same name already exists.
#[derive(Debug, Clone, Copy, PartialEq, Eq, Structural)]
pub enum ExportConflictBehavior {
    Skip,
    Overwrite,
    KeepBoth,
}

/// The label of each conflict behavior.
pub open spec fn export_conflict_behavior_title(behavior: ExportConflictBehavior) -> Seq<char> {
    match behavior {
        ExportConflictBehavior::Skip => "Skip existing"@,
        ExportConflictBehavior::Overwrite => "Overwrite"@,
        ExportConflictBehavior::KeepBoth => "Keep both"@,
    }
}

impl ExportConflictBehavior {
    /// User-facing option label.
    pub fn label(self) -> (label: &'static str)
        ensures
            label@ == export_conflict_behavior_title(self),
    {
        match self {
            ExportConflictBehavior::Skip => "Skip existing",
            ExportConflictBehavior::Overwrite => "Overwrite",
            ExportConflictBehavior::KeepBoth => "Keep both",
        }
    }
}

/// The override-table key of a menu group.
pub fn app_menu_key(menu: AppMenu) -> (key: &'static str)
    ensures
        key@ == app_menu_title(menu),
{
    match menu {
        AppMenu::File => "File",
        AppMenu::Edit => "Edit",
        AppMenu::View => "View",
        AppMenu::Document => "Document",
        AppMenu::Library => "Library",
        AppMenu::Tools => "Tools",
        AppMenu::Help => "Help",
    }
}

/// The override-table key of a library sidebar tab.
pub fn library_sidebar_tab_key(tab: LibrarySidebarTab) -> (key: &'static str)
    ensures
        key@ == library_sidebar_tab_title(tab),
{
    match tab {
        LibrarySidebarTab::Files => "Files",
        LibrarySidebarTab::Tags => "Tags",
    }
}

/// The override-table key of a selection toolbar action.
pub fn selection_toolbar_action_key(action: SelectionToolbarAction) -> (key: &'static str)
    ensures
        key@ == selection_toolbar_action_key_spec(action),
{
    match action {
        SelectionToolbarAction::AddTag => "AddTag",
        SelectionToolbarAction::RemoveTag => "RemoveTag",
        SelectionToolbarAction::AddToFolder => "AddToFolder",
        SelectionToolbarAction::RemoveFromFolder => "RemoveFromFolder",
        SelectionToolbarAction::SaveDetails => "SaveDetails",
        SelectionToolbarAction::ResetDetails => "ResetDetails",
        SelectionToolbarAction::SortTitles => "SortTitles",
        SelectionToolbarAction::RefreshMetadata => "RefreshMetadata",
        SelectionToolbarAction::ResetMetadata => "ResetMetadata",
        SelectionToolbarAction::RebuildThumbnails => "RebuildThumbnails",
        SelectionToolbarAction::Reindex => "Reindex",
        SelectionToolbarAction::DeleteMetadata => "DeleteMetadata",
    }
}

/// The sections of the label override table.
#[derive(Debug, Clone, Copy, PartialEq, Eq, Structural)]
pub enum LabelSection {
    AppMenu,
    AppMenuAction,
    SelectionToolbarAction,
    LibrarySidebarTab,
    Text,
}

/// One renamed label: in `section`, the label keyed `key` reads `value`.
#[derive(Debug, Clone)]
pub struct LabelOverride {
    pub section: LabelSection,
    pub key: String,
    pub value: String,
}

/// The label overrides a style book carries.
#[derive(Debug, Clone)]
pub struct AppLabelTokens {
    pub overrides: Vec<LabelOverride>,
}

/// The label shown for `key` in `section`: the value of the first override
/// for that section and key, or `fallback` when there is none.
pub open spec fn label_lookup(
    overrides: Seq<LabelOverride>,
    section: LabelSection,
    key: Seq<char>,
    fallback: Seq<char>,
) -> Seq<char>
    decreases overrides.len(),
{
    if overrides.len() == 0 {
        fallback
    } else if overrides[0].section == section && overrides[0].key@ == key {
        overrides[0].value@
    } else {
        label_lookup(overrides.drop_first(), section, key, fallback)
    }
}

/// Whether the table holds an override for `key` in `section`.
pub open spec fn has_override(overrides: Seq<LabelOverride>, section: LabelSection, key: Seq<char>) -> bool {
    exists|i: int| 0 <= i < overrides.len() && overrides[i].section == section && (#[trigger] overrides[i]).key@ == key
}

proof fn lemma_label_lookup_split(
    overrides: Seq<LabelOverride>,
    i: int,
    section: LabelSection,
    key: Seq<char>,
    fallback: Seq<char>,
)
    requires
        0 <= i <= overrides.len(),
        forall|j: int| 0 <= j < i ==> !(overrides[j].section == section && (#[trigger] overrides[j]).key@ == key),
    ensures
        label_lookup(overrides, section, key, fallback) == label_lookup(overrides.subrange(i, overrides.len() as int), section, key, fallback),
    decreases i,
{
    if i > 0 {
        let rest = overrides.drop_first();
        assert forall|j: int| 0 <= j < i - 1 implies !(rest[j].section == section && (#[trigger] rest[j]).key@ == key) by {
            assert(rest[j] == overrides[j + 1]);
        }
        lemma_label_lookup_split(rest, i - 1, section, key, fallback);
        assert(rest.subrange(i - 1, rest.len() as int) =~= overrides.subrange(i, overrides.len() as int));
        assert(!(overrides[0].section == section && overrides[0].key@ == key));
    } else {
        assert(overrides.subrange(0, overrides.len() as int) =~= overrides);
    }
}

impl AppLabelTokens {
    /// The label for `key` in `section`, or `fallback` when no override
    /// names it.
    pub fn get<'a>(&'a self, section: LabelSection, key: &str, fallback: &'a str) -> (label: &'a str)
        ensures
            label@ == label_lookup(self.overrides@, section, key@, fallback@),
    {
        let mut i: usize = 0;
        while i < self.overrides.len()
            invariant
                0 <= i <= self.overrides@.len(),
                forall|j: int| 0 <= j < i ==> !((#[trigger] self.overrides@[j]).section == section && self.overrides@[j].key@ == key@),
            decreases self.overrides@.len() - i,
        {
            let candidate = &self.overrides[i];
            if candidate.section == section && str_eq(candidate.key.as_str(), key) {
                proof {
                    lemma_label_lookup_split(self.overrides@, i as int, section, key@, fallback@);
                }
                return candidate.value.as_str();
            }
            i = i + 1;
        }
        proof {
            lemma_label_lookup_split(self.overrides@, i as int, section, key@, fallback@);
        }
        fallback
    }
}

/// The title of a menu group, after overrides.
pub fn app_menu_label<'a>(labels: &'a AppLabelTokens, menu: AppMenu) -> (label: &'a str)
    ensures
        label@ == label_lookup(labels.overrides@, LabelSection::AppMenu, app_menu_title(menu), app_menu_title(menu)),
{
    labels.get(LabelSection::AppMenu, app_menu_key(menu), menu.label())
}

/// The label of an application menu action, after overrides.
pub fn app_menu_action_label<'a>(labels: &'a AppLabelTokens, key: &str, fallback: &'a str) -> (label: &'a str)
    ensures
        label@ == label_lookup(labels.overrides@, LabelSection::AppMenuAction, key@, fallback@),
{
    labels.get(LabelSection::AppMenuAction, key, fallback)
}

/// The label of a selection toolbar action, after overrides.
pub fn selection_toolbar_action_label<'a>(
    labels: &'a AppLabelTokens,
    action: SelectionToolbarAction,
) -> (label: &'a str)
    ensures
        label@ == label_lookup(
            labels.overrides@,
            LabelSection::SelectionToolbarAction,
            selection_toolbar_action_key_spec(action),
            selection_toolbar_action_title(action),
        ),
{
    labels.get(LabelSection::SelectionToolbarAction, selection_toolbar_action_key(action), action.label())
}

/// The label of a library sidebar tab, after overrides.
pub fn library_sidebar_tab_label<'a>(labels: &'a AppLabelTokens, tab: LibrarySidebarTab) -> (label: &'a str)
    ensures
        label@ == label_lookup(
            labels.overrides@,
            LabelSection::LibrarySidebarTab,
            library_sidebar_tab_title(tab),
            library_sidebar_tab_title(tab),
        ),
{
    labels.get(LabelSection::LibrarySidebarTab, library_sidebar_tab_key(tab), tab.label())
}

/// A free-standing interface text, after overrides.
pub fn label_text<'a>(labels: &'a AppLabelTokens, key: &str, fallback: &'a str) -> (label: &'a str)
    ensures
        label@ == label_lookup(labels.overrides@, LabelSection::Text, key@, fallback@),
{
    labels.get(LabelSection::Text, key, fallback)
}

/// An override table with no override for a key leaves its fallback
/// untouched, and the first override for a key is the one shown.
pub proof fn law_label_lookup_first_override_wins(
    overrides: Seq<LabelOverride>,
    section: LabelSection,
    key: Seq<char>,
    fallback: Seq<char>,
)
    ensures
        !has_override(overrides, section, key) ==> label_lookup(overrides, section, key, fallback) == fallback,
        has_override(overrides, section, key) ==> exists|i: int|
            0 <= i < overrides.len() && overrides[i].section == section && (#[trigger] overrides[i]).key@ == key
                && label_lookup(overrides, section, key, fallback) == overrides[i].value@
                && forall|j: int| 0 <= j < i ==> !(overrides[j].section == section && (#[trigger] overrides[j]).key@ == key),
    decreases overrides.len(),
{
    if overrides.len() > 0 {
        let rest = overrides.drop_first();
        law_label_lookup_first_override_wins(rest, section, key, fallback);
        if overrides[0].section == section && overrides[0].key@ == key {
            assert(has_override(overrides, section, key));
        } else {
            if has_override(rest, section, key) {
                let i = choose|i: int|
                    0 <= i < rest.len() && rest[i].section == section && (#[trigger] rest[i]).key@ == key
                        && label_lookup(rest, section, key, fallback) == rest[i].value@
                        && forall|j: int| 0 <= j < i ==> !(rest[j].section == section && (#[trigger] rest[j]).key@ == key);
                assert(overrides[i + 1] == rest[i]);
                assert forall|j: int| 0 <= j < i + 1 implies !(overrides[j].section == section && (#[trigger] overrides[j]).key@ == key) by {
                    if j > 0 {
                        assert(overrides[j] == rest[j - 1]);
                    }
                }
            }
            if has_override(overrides, section, key) {
                let k = choose|k: int| 0 <= k < overrides.len() && overrides[k].section == section && (#[trigger] overrides[k]).key@ == key;
                assert(k > 0);
                assert(rest[k - 1] == overrides[k]);
            }
            if !has_override(overrides, section, key) {
                assert forall|k: int| 0 <= k < rest.len() implies !(rest[k].section == section && (#[trigger] rest[k]).key@ == key) by {
                    assert(rest[k] == overrides[k + 1]);
                }
            }
        }
    }
}

} // verus!
