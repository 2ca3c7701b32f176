//! The command palette: which commands it lists for a query, how each row
//! reads, and which command Enter runs.

use vstd::prelude::*;

use crate::text::{trim, trim_spec};

verus! {

/// What a command acts on.
#[derive(Debug, Clone, Copy, PartialEq, Eq, Structural)]
pub enum CommandTarget {
    NoTarget,
    Library,
    Folder,
    Tag,
    SinglePdf,
    MultiplePdfs,
    SearchResult,
    Viewer,
    Document,
}

/// A command offered to the palette, with what the palette reads of it.
#[derive(Debug)]
pub struct PaletteCommand {
    /// The command applies to the current state.
    pub visible: bool,
    pub enabled: bool,
    /// The command matches the palette's query.
    pub matches_query: bool,
    pub destructive: bool,
    pub has_icon: bool,
    /// The label of the command's category.
    pub category_label: String,
    pub target: CommandTarget,
    pub shortcut: Option<String>,
}

/// The colour a row's label takes.
#[derive(Debug, Clone, Copy, PartialEq, Eq, Structural)]
pub enum PaletteTone {
    /// The highlighted row.
    Highlighted,
    /// A destructive command that is not highlighted.
    Destructive,
    Secondary,
}

/// One row of the palette.
#[derive(Debug)]
pub struct PaletteRow {
    /// The command's position in the list handed to the palette.
    pub command: usize,
    pub highlighted: bool,
    pub tone: PaletteTone,
    /// A dot is shown in the icon slot.
    pub icon_dot: bool,
    /// The category and target, trimmed.
    pub metadata: String,
    /// The shortcut hint, empty where the command has none.
    pub shortcut: String,
}

/// The palette's list: its rows, and whether "No commands found" shows.
#[derive(Debug)]
pub struct PaletteList {
    pub rows: Vec<PaletteRow>,
    pub shows_empty_notice: bool,
}

/// The word shown for a command's target.
pub open spec fn target_label(target: CommandTarget) -> Seq<char> {
    match target {
        CommandTarget::NoTarget => ""@,
        CommandTarget::Library => "Library"@,
        CommandTarget::Folder => "Folder"@,
        CommandTarget::Tag => "Tag"@,
        CommandTarget::SinglePdf => "PDF"@,
        CommandTarget::MultiplePdfs => "Selection"@,
        CommandTarget::SearchResult => "Visible"@,
        CommandTarget::Viewer => "Viewer"@,
        CommandTarget::Document => "Document"@,
    }
}

/// The palette lists a command that applies, is enabled and matches.
pub open spec fn listed(c: PaletteCommand) -> bool {
    c.visible && c.enabled && c.matches_query
}

/// Enter picks among the commands that apply and match, enabled or not.
pub open spec fn runnable(c: PaletteCommand) -> bool {
    c.visible && c.matches_query
}

/// The positions, in order, of the commands the palette lists.
pub open spec fn listed_positions(cmds: Seq<PaletteCommand>) -> Seq<int>
    decreases cmds.len(),
{
    if cmds.len() == 0 {
        Seq::empty()
    } else {
        let before = listed_positions(cmds.drop_last());
        if listed(cmds.last()) {
            before.push(cmds.len() - 1)
        } else {
            before
        }
    }
}

/// The positions, in order, of the commands Enter picks among.
pub open spec fn runnable_positions(cmds: Seq<PaletteCommand>) -> Seq<int>
    decreases cmds.len(),
{
    if cmds.len() == 0 {
        Seq::empty()
    } else {
        let before = runnable_positions(cmds.drop_last());
        if runnable(cmds.last()) {
            before.push(cmds.len() - 1)
        } else {
            before
        }
    }
}

/// The second line of a row: category and target, trimmed.
pub open spec fn row_metadata(c: PaletteCommand) -> Seq<char> {
    trim_spec(c.category_label@ + " "@ + target_label(c.target))
}

/// The shortcut hint of a row.
pub open spec fn row_shortcut(c: PaletteCommand) -> Seq<char> {
    match c.shortcut {
        Some(s) => s@,
        None => ""@,
    }
}

/// The tone of a row at `row` in the list while `highlighted` is highlighted.
pub open spec fn row_tone(c: PaletteCommand, row: int, highlighted: int) -> PaletteTone {
    if row == highlighted {
        PaletteTone::Highlighted
    } else if c.destructive {
        PaletteTone::Destructive
    } else {
        PaletteTone::Secondary
    }
}

/// `row` of the list is the palette's row for the command at `position`.
pub open spec fn row_matches(r: PaletteRow, cmds: Seq<PaletteCommand>, position: int, row: int, highlighted: int) -> bool {
    let c = cmds[position];
    &&& r.command == position
    &&& r.highlighted == (row == highlighted)
    &&& r.tone == row_tone(c, row, highlighted)
    &&& r.icon_dot == c.has_icon
    &&& r.metadata@ == row_metadata(c)
    &&& r.shortcut@ == row_shortcut(c)
}

fn target_text(target: CommandTarget) -> (label: &'static str)
    ensures
        label@ == target_label(target),
{
    proof {
        reveal_strlit("");
        reveal_strlit("Library");
        reveal_strlit("Folder");
        reveal_strlit("Tag");
        reveal_strlit("PDF");
        reveal_strlit("Selection");
        reveal_strlit("Visible");
        reveal_strlit("Viewer");
        reveal_strlit("Document");
    }
    match target {
        CommandTarget::NoTarget => "",
        CommandTarget::Library => "Library",
        CommandTarget::Folder => "Folder",
        CommandTarget::Tag => "Tag",
        CommandTarget::SinglePdf => "PDF",
        CommandTarget::MultiplePdfs => "Selection",
        CommandTarget::SearchResult => "Visible",
        CommandTarget::Viewer => "Viewer",
        CommandTarget::Document => "Document",
    }
}

fn palette_row(c: &PaletteCommand, position: usize, row: usize, highlighted: usize) -> (r: PaletteRow)
    ensures
        r.command == position,
        r.highlighted == (row == highlighted),
        r.tone == row_tone(*c, row as int, highlighted as int),
        r.icon_dot == c.has_icon,
        r.metadata@ == row_metadata(*c),
        r.shortcut@ == row_shortcut(*c),
{
    proof {
        reveal_strlit(" ");
        reveal_strlit("");
    }
    let tone = if row == highlighted {
        PaletteTone::Highlighted
    } else if c.destructive {
        PaletteTone::Destructive
    } else {
        PaletteTone::Secondary
    };
    let mut joined = c.category_label.clone();
    joined.append(" ");
    joined.append(target_text(c.target));
    let metadata = trim(joined.as_str());
    let shortcut = match &c.shortcut {
        Some(s) => s.clone(),
        None => String::new(),
    };
    PaletteRow { command: position, highlighted: row == highlighted, tone, icon_dot: c.has_icon, metadata, shortcut }
}

/// The palette's list for `commands`, with the row at `highlighted`
/// highlighted: one row for each command that applies, is enabled and
/// matches the query, in the order given; the empty notice shows when there
/// is none.
pub fn command_palette_list(commands: &Vec<PaletteCommand>, highlighted: usize) -> (list: PaletteList)
    ensures
        list.rows.len() == listed_positions(commands@).len(),
        forall|k: int|
            0 <= k < list.rows.len() ==> row_matches(
                #[trigger] list.rows@[k],
                commands@,
                listed_positions(commands@)[k],
                k,
                highlighted as int,
            ),
        list.shows_empty_notice == (list.rows.len() == 0),
{
    let mut rows: Vec<PaletteRow> = Vec::new();
    let mut i: usize = 0;
    while i < commands.len()
        invariant
            i <= commands.len(),
            rows.len() == listed_positions(commands@.take(i as int)).len(),
            forall|k: int|
                0 <= k < rows.len() ==> row_matches(
                    #[trigger] rows@[k],
                    commands@,
                    listed_positions(commands@.take(i as int))[k],
                    k,
                    highlighted as int,
                ),
            rows.len() <= i,
        decreases commands.len() - i,
    {
        let ghost before = commands@.take(i as int);
        let ghost after = commands@.take(i as int + 1);
        proof {
            assert(after.drop_last() =~= before);
            assert(after.last() == commands@[i as int]);
        }
        let c = &commands[i];
        if c.visible && c.enabled && c.matches_query {
            let row = palette_row(c, i, rows.len(), highlighted);
            rows.push(row);
            proof {
                assert(listed_positions(after) == listed_positions(before).push(i as int));
                assert forall|k: int| 0 <= k < rows.len() implies row_matches(
                    #[trigger] rows@[k],
                    commands@,
                    listed_positions(after)[k],
                    k,
                    highlighted as int,
                ) by {
                    if k < rows.len() - 1 {
                        assert(listed_positions(after)[k] == listed_positions(before)[k]);
                    }
                }
            }
        } else {
            proof {
                assert(listed_positions(after) == listed_positions(before));
            }
        }
        i = i + 1;
    }
    proof {
        assert(commands@.take(commands@.len() as int) =~= commands@);
    }
    let shows_empty_notice = rows.len() == 0;
    PaletteList { rows, shows_empty_notice }
}

/// The command Enter runs: the one at `highlighted` among the commands that
/// apply and match the query, enabled or not; none where the highlight is
/// past their end.
pub fn palette_command_to_run(commands: &Vec<PaletteCommand>, highlighted: usize) -> (chosen: Option<usize>)
    ensures
        highlighted < runnable_positions(commands@).len() ==> chosen == Some(runnable_positions(commands@)[highlighted as int] as usize),
        highlighted >= runnable_positions(commands@).len() ==> chosen.is_none(),
{
    let mut seen: usize = 0;
    let mut i: usize = 0;
    while i < commands.len()
        invariant
            i <= commands.len(),
            seen == runnable_positions(commands@.take(i as int)).len(),
            seen <= highlighted,
            seen <= i,
        decreases commands.len() - i,
    {
        let ghost before = commands@.take(i as int);
        let ghost after = commands@.take(i as int + 1);
        proof {
            assert(after.drop_last() =~= before);
            assert(after.last() == commands@[i as int]);
        }
        let c = &commands[i];
        if c.visible && c.matches_query {
            proof {
                assert(runnable_positions(after) == runnable_positions(before).push(i as int));
                lemma_runnable_prefix(commands@, i as int + 1);
            }
            if seen == highlighted {
                proof {
                    assert(runnable_positions(after)[highlighted as int] == i as int);
                }
                return Some(i);
            }
            seen = seen + 1;
        } else {
            proof {
                assert(runnable_positions(after) == runnable_positions(before));
            }
        }
        i = i + 1;
    }
    proof {
        assert(commands@.take(commands@.len() as int) =~= commands@);
    }
    None
}

/// The commands Enter picks among in a prefix are the first of those in the
/// whole list.
proof fn lemma_runnable_prefix(cmds: Seq<PaletteCommand>, n: int)
    requires
        0 <= n <= cmds.len(),
    ensures
        runnable_positions(cmds.take(n)).len() <= runnable_positions(cmds).len(),
        forall|k: int|
            0 <= k < runnable_positions(cmds.take(n)).len() ==> #[trigger] runnable_positions(cmds.take(n))[k]
                == runnable_positions(cmds)[k],
    decreases cmds.len() - n,
{
    if n < cmds.len() {
        lemma_runnable_prefix(cmds, n + 1);
        let a = cmds.take(n);
        let b = cmds.take(n + 1);
        assert(b.drop_last() =~= a);
        assert(runnable_positions(b) == if runnable(b.last()) {
            runnable_positions(a).push(b.len() - 1)
        } else {
            runnable_positions(a)
        });
        assert forall|k: int| 0 <= k < runnable_positions(a).len() implies #[trigger] runnable_positions(a)[k]
            == runnable_positions(cmds)[k] by {
            assert(runnable_positions(b)[k] == runnable_positions(a)[k]);
        }
    } else {
        assert(cmds.take(n) =~= cmds);
    }
}

/// Where every command that applies and matches is enabled, Enter runs the
/// command of the highlighted row, and runs nothing exactly when no row is
/// highlighted.
pub proof fn law_enter_runs_highlighted_row(cmds: Seq<PaletteCommand>, highlighted: int)
    requires
        forall|i: int| 0 <= i < cmds.len() && runnable(#[trigger] cmds[i]) ==> cmds[i].enabled,
    ensures
        (0 <= highlighted < listed_positions(cmds).len()) == (0 <= highlighted < runnable_positions(cmds).len()),
        0 <= highlighted < listed_positions(cmds).len() ==> runnable_positions(cmds)[highlighted]
            == listed_positions(cmds)[highlighted],
    decreases cmds.len(),
{
    lemma_listed_is_runnable(cmds);
}

proof fn lemma_listed_is_runnable(cmds: Seq<PaletteCommand>)
    requires
        forall|i: int| 0 <= i < cmds.len() && runnable(#[trigger] cmds[i]) ==> cmds[i].enabled,
    ensures
        listed_positions(cmds) == runnable_positions(cmds),
    decreases cmds.len(),
{
    if cmds.len() > 0 {
        let rest = cmds.drop_last();
        assert forall|i: int| 0 <= i < rest.len() && runnable(#[trigger] rest[i]) implies rest[i].enabled by {
            assert(rest[i] == cmds[i]);
        }
        lemma_listed_is_runnable(rest);
        assert(cmds.last() == cmds[cmds.len() - 1]);
    }
}

} // verus!
