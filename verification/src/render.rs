//! What one frame shows, as a pure function of the application state.
//!
//! A frame is three bordered panels: a static title, the directory listing
//! with one decorated line per entry, and a static help line. This module
//! builds that description; a device draws it. Every field of the result is
//! pinned by the contracts, so a redraw is a deterministic function of the
//! terminal area and the snapshot.

use vstd::prelude::*;
use vstd::string::StringExecFns;
use crate::layout::Rect;
use crate::layout::split;
use crate::layout::split_spec;
use crate::snapshot::DirectoryEntry;
use crate::snapshot::DirectorySnapshot;
use crate::snapshot::EntryKind;

verus! {

/// The uniform margin, in cells, around the three panels.
pub const MARGIN: u16 = 1;

/// The line shown for one entry: a folder marker and a trailing path
/// separator for a directory, a file marker for a file.
pub open spec fn entry_line_spec(e: DirectoryEntry) -> Seq<char> {
    if e.kind == EntryKind::Directory {
        "\u{1F4C1} "@ + e.name@ + "/"@
    } else {
        "\u{1F4C4} "@ + e.name@
    }
}

/// The caption of the listing panel.
pub open spec fn content_title_spec(root: Seq<char>) -> Seq<char> {
    "Contents of: "@ + root
}

/// Renders one entry as its display line.
pub fn entry_line(e: &DirectoryEntry) -> (r: String)
    ensures
        r@ == entry_line_spec(*e),
{
    match e.kind {
        EntryKind::Directory => {
            let mut s = String::from_str("\u{1F4C1} ");
            s.append(e.name.as_str());
            s.append("/");
            s
        },
        EntryKind::File => {
            let mut s = String::from_str("\u{1F4C4} ");
            s.append(e.name.as_str());
            s
        },
    }
}

/// Renders every entry of the snapshot, one line each, in the order the
/// snapshot holds them.
pub fn render_lines(snapshot: &DirectorySnapshot) -> (r: Vec<String>)
    ensures
        r@.len() == snapshot.spec_entries().len(),
        forall|i: int|
            0 <= i < r@.len() ==> #[trigger] r@[i]@ == entry_line_spec(
                snapshot.spec_entries()[i],
            ),
{
    let entries = snapshot.entries();
    let mut lines: Vec<String> = Vec::new();
    let mut i: usize = 0;
    while i < entries.len()
        invariant
            i <= entries@.len(),
            entries@ == snapshot.spec_entries(),
            lines@.len() == i,
            forall|k: int|
                0 <= k < i ==> #[trigger] lines@[k]@ == entry_line_spec(entries@[k]),
        decreases entries@.len() - i,
    {
        let line = entry_line(&entries[i]);
        lines.push(line);
        i = i + 1;
    }
    lines
}

/// The caption of the listing panel, for the given root path.
pub fn content_title(root: &str) -> (r: String)
    ensures
        r@ == content_title_spec(root@),
{
    let mut s = String::from_str("Contents of: ");
    s.append(root);
    s
}

/// The complete description of one frame: where each panel stands and what
/// it shows.
pub struct FrameContent {
    pub title_region: Rect,
    pub content_region: Rect,
    pub help_region: Rect,
    pub title: String,
    pub content_title: String,
    pub lines: Vec<String>,
    pub help: String,
}

/// `f` is exactly the frame that `area` and `snapshot` determine.
pub open spec fn frame_matches(f: FrameContent, area: Rect, snapshot: DirectorySnapshot) -> bool {
    &&& (f.title_region, f.content_region, f.help_region) == split_spec(area, MARGIN)
    &&& f.title@ == "Directory Lister"@
    &&& f.content_title@ == content_title_spec(snapshot.spec_root())
    &&& f.lines@.len() == snapshot.spec_entries().len()
    &&& forall|i: int|
        0 <= i < f.lines@.len() ==> #[trigger] f.lines@[i]@ == entry_line_spec(
            snapshot.spec_entries()[i],
        )
    &&& f.help@ == "Press 'q' or 'Esc' to quit"@
}

/// Builds the frame for the given terminal area and snapshot. Identical
/// inputs give an identical frame: a redraw is a deterministic function of
/// the current state.
pub fn build_frame(area: Rect, snapshot: &DirectorySnapshot) -> (f: FrameContent)
    requires
        area.wf(),
    ensures
        frame_matches(f, area, *snapshot),
{
    let (title_region, content_region, help_region) = split(area, MARGIN);
    let lines = render_lines(snapshot);
    let caption = content_title(snapshot.root_path().as_str());
    FrameContent {
        title_region,
        content_region,
        help_region,
        title: String::from_str("Directory Lister"),
        content_title: caption,
        lines,
        help: String::from_str("Press 'q' or 'Esc' to quit"),
    }
}

} // verus!
