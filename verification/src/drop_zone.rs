//! A drop zone: an area that shows whether files are being dragged over it,
//! where the drag is, and the files that were dropped on it.

use crate::external_paths::texts;
use crate::file_drop::FileDropEvent;
use crate::geometry::{Pixels, Point};
use vstd::prelude::*;

verus! {

/// What a drop zone holds, as mathematical values.
pub struct DropZoneModel {
    /// The paths of the files that were dropped, in order.
    pub dropped_files: Seq<Seq<char>>,
    /// Whether a drag is over the zone.
    pub is_drag_over: bool,
    /// Where the drag was last seen, if anywhere.
    pub drag_position: Option<Point<Pixels>>,
    /// The paths that the drag over the zone carries, kept from its entry
    /// until it is dropped or leaves.
    pub drag_paths: Seq<Seq<char>>,
}

/// The zone with files `dropped_files` and no drag over it.
pub open spec fn idle_zone(dropped_files: Seq<Seq<char>>) -> DropZoneModel {
    DropZoneModel { dropped_files, is_drag_over: false, drag_position: None, drag_paths: Seq::empty() }
}

/// The zone `m` after it has received `event`.
pub open spec fn zone_after_event(m: DropZoneModel, event: FileDropEvent) -> DropZoneModel {
    match event {
        FileDropEvent::Entered { position, paths } => DropZoneModel {
            is_drag_over: true,
            drag_position: Some(position),
            drag_paths: texts(paths@),
            ..m
        },
        FileDropEvent::Pending { position } => DropZoneModel { drag_position: Some(position), ..m },
        FileDropEvent::Submit { position } => DropZoneModel {
            dropped_files: m.dropped_files + m.drag_paths,
            drag_position: Some(position),
            drag_paths: Seq::empty(),
            ..m
        },
        FileDropEvent::Exited => idle_zone(m.dropped_files),
    }
}

/// The zone `m` after it has received `events`, first to last.
pub open spec fn zone_after_events(m: DropZoneModel, events: Seq<FileDropEvent>) -> DropZoneModel
    decreases events.len(),
{
    if events.len() == 0 {
        m
    } else {
        zone_after_event(zone_after_events(m, events.drop_last()), events.last())
    }
}

/// The colours of the demo palette that the zone is drawn with.
#[derive(Clone, Copy, Debug, PartialEq, Eq, Structural)]
pub enum ColorRole {
    Overlay,
    Subtext,
    Surface,
    Teal,
}

/// How the drop area is filled.
#[derive(Clone, Copy, Debug, PartialEq, Eq, Structural)]
pub enum Fill {
    /// A palette colour.
    Solid(ColorRole),
    /// The translucent teal shown while a drag is over the zone
    /// (hue 180 degrees, saturation 0.5, lightness 0.2, alpha 0.5).
    DragHighlight,
}

/// The line of text under the drop area's marker.
#[derive(Clone, Copy, Debug, PartialEq, Eq)]
pub enum StatusText {
    /// "Drag files here from Files app": no drag is over the zone.
    Prompt,
    /// "Dragging...": a drag is over the zone at no known position.
    Dragging,
    /// "Dragging at (x, y)", with the coordinates rounded to whole pixels.
    DraggingAt(Point<Pixels>),
}

/// What the zone draws that depends on its state. The rest of the layout
/// (titles, instructions, spacing) is fixed.
pub struct DropZoneView {
    /// Border of the drop area.
    pub border_color: ColorRole,
    /// Fill of the drop area.
    pub zone_fill: Fill,
    /// Colour of the "+" marker in the drop area.
    pub marker_color: ColorRole,
    /// The status line.
    pub status: StatusText,
    /// Colour of the status line.
    pub status_color: ColorRole,
    /// The number in the "Dropped Files (n)" heading.
    pub file_count: usize,
    /// One label per dropped file, in order: its file name, or its whole
    /// path where it has none.
    pub file_names: Vec<String>,
}

/// The border and marker colour of a zone.
pub open spec fn accent_color(m: DropZoneModel) -> ColorRole {
    if m.is_drag_over { ColorRole::Teal } else { ColorRole::Overlay }
}

/// The fill of a zone's drop area.
pub open spec fn zone_fill(m: DropZoneModel) -> Fill {
    if m.is_drag_over { Fill::DragHighlight } else { Fill::Solid(ColorRole::Surface) }
}

/// The status line of a zone.
pub open spec fn zone_status(m: DropZoneModel) -> StatusText {
    if m.is_drag_over {
        match m.drag_position {
            Some(p) => StatusText::DraggingAt(p),
            None => StatusText::Dragging,
        }
    } else {
        StatusText::Prompt
    }
}

/// The colour of a zone's status line.
pub open spec fn status_color(m: DropZoneModel) -> ColorRole {
    if m.is_drag_over { ColorRole::Teal } else { ColorRole::Subtext }
}

/// The text of a status line that names no position; `None` for a line that
/// names one, whose coordinates the platform rounds and formats.
pub fn fixed_status_text(status: &StatusText) -> (text: Option<String>)
    ensures
        match *status {
            StatusText::Prompt => (text matches Some(t) && t@ == "Drag files here from Files app"@),
            StatusText::Dragging => (text matches Some(t) && t@ == "Dragging..."@),
            StatusText::DraggingAt(_) => text is None,
        },
{
    match status {
        StatusText::Prompt => Some(String::from_str("Drag files here from Files app")),
        StatusText::Dragging => Some(String::from_str("Dragging...")),
        StatusText::DraggingAt(_) => None,
    }
}

/// The character of the decimal digit `d`.
pub open spec fn digit_char(d: nat) -> char {
    (d + 48) as char
}

/// The decimal numeral of `n`, without leading zeros.
pub open spec fn decimal_of(n: nat) -> Seq<char>
    decreases n,
{
    if n < 10 {
        seq![digit_char(n)]
    } else {
        decimal_of(n / 10).push(digit_char(n % 10))
    }
}

/// Formats `n` with `{}`, which for an unsigned integer writes its decimal
/// numeral without sign or leading zeros; the contract claims just that.
#[verifier::external_body]
fn decimal_text(n: usize) -> (text: String)
    ensures
        text@ == decimal_of(n as nat),
{
    format!("{}", n)
}

/// The heading of the list of dropped files: "Dropped Files (n)".
pub fn file_list_heading(count: usize) -> (heading: String)
    ensures
        heading@ == "Dropped Files ("@ + decimal_of(count as nat) + ")"@,
{
    let mut heading = String::from_str("Dropped Files (");
    let digits = decimal_text(count);
    heading.append(digits.as_str());
    heading.append(")");
    heading
}

/// `part` occurs in `whole` as a run of consecutive characters.
pub open spec fn occurs_in(part: Seq<char>, whole: Seq<char>) -> bool {
    exists|i: int| 0 <= i && i + part.len() <= whole.len() && #[trigger] whole.subrange(i, i + part.len()) == part
}

/// What a label for the file at `path` may be: the whole path, or a
/// non-empty run of its characters.
pub open spec fn is_label_of(label: Seq<char>, path: Seq<char>) -> bool {
    ||| label == path
    ||| (label.len() > 0 && occurs_in(label, path))
}

/// The characters of `path` after its last `/`.
pub open spec fn last_segment(path: Seq<char>) -> Seq<char>
    decreases path.len(),
{
    if path.len() == 0 || path.last() == '/' {
        Seq::empty()
    } else {
        last_segment(path.drop_last()).push(path.last())
    }
}

/// The file name of `path` under the `/`-separated rule: the last
/// component, once empty components and `.` components after the first are
/// left out; none where that component is the root, `.` or `..`, or where
/// there is no component.
pub open spec fn file_name_of(path: Seq<char>) -> Option<Seq<char>>
    decreases path.len(),
{
    if path.len() == 0 {
        None
    } else if path.last() == '/' {
        file_name_of(path.drop_last())
    } else if path == seq!['.'] {
        None
    } else if path.len() >= 2 && path.last() == '.' && path[path.len() - 2] == '/' {
        file_name_of(path.drop_last())
    } else if last_segment(path) == seq!['.', '.'] {
        None
    } else {
        Some(last_segment(path))
    }
}

/// Whether `c` is an ASCII letter.
pub open spec fn is_ascii_letter(c: char) -> bool {
    ('a' <= c && c <= 'z') || ('A' <= c && c <= 'Z')
}

/// `path` holds none of the syntax that some platforms read differently
/// from `/`-separated paths: no `\`, no leading `//`, and no drive prefix
/// (a letter and `:` at the start).
pub open spec fn portable_path(path: Seq<char>) -> bool {
    &&& !path.contains('\\')
    &&& !(path.len() >= 2 && path[0] == '/' && path[1] == '/')
    &&& !(path.len() >= 2 && is_ascii_letter(path[0]) && path[1] == ':')
}

/// The label of the file at `path`: its file name, or the whole path where
/// it has none.
pub open spec fn file_label_of(path: Seq<char>) -> Seq<char> {
    match file_name_of(path) {
        Some(n) => n,
        None => path,
    }
}

/// Calls `std::path::Path::file_name` on `path`, and converts the name to a
/// `String`. The contract claims the `/`-separated rule of `file_name_of`
/// for paths without syntax that Windows reads otherwise (`\`, a leading
/// `//`, a drive prefix); for every path, that a name is non-empty and a
/// run of characters of `path` (a component is a slice of the path, and
/// the conversion of text that came from a `&str` is lossless); and for
/// paths without `\`, that a name holds no `/`. Which run the name is for
/// the other paths is left unsaid: it depends on the platform (on Windows
/// the verbatim path `\\?\C:\a/b` has the name `a/b`, and `C:a` has `a`).
#[verifier::external_body]
fn path_file_name(path: &str) -> (name: Option<String>)
    ensures
        name matches Some(n) ==> n@.len() > 0 && occurs_in(n@, path@),
        !path@.contains('\\') ==> (name matches Some(n) ==> !n@.contains('/')),
        portable_path(path@) ==> match name {
            Some(n) => file_name_of(path@) == Some(n@),
            None => file_name_of(path@) is None,
        },
{
    match std::path::Path::new(path).file_name() {
        Some(n) => Some(n.to_string_lossy().into_owned()),
        None => None,
    }
}

/// The label of the file at `path`, given the file name that the path has,
/// if any: the file name, or else the whole path.
pub fn file_label(path: &String, file_name: Option<String>) -> (label: String)
    ensures
        label@ == match file_name {
            Some(n) => n@,
            None => path@,
        },
{
    match file_name {
        Some(n) => n,
        None => path.clone(),
    }
}

/// The label shown for the file at `path`: its file name, or the whole path
/// where it has none.
pub fn display_name(path: &String) -> (label: String)
    ensures
        is_label_of(label@, path@),
        portable_path(path@) ==> label@ == file_label_of(path@),
{
    let name = path_file_name(path.as_str());
    file_label(path, name)
}

/// State for tracking dropped files and drag state.
pub struct DropZone {
    /// Files that have been dropped
    dropped_files: Vec<String>,
    /// Whether a drag is currently over the drop zone
    is_drag_over: bool,
    /// Current drag position
    drag_position: Option<Point<Pixels>>,
    /// Paths carried by the drag over the zone
    drag_paths: Vec<String>,
}

impl View for DropZone {
    type V = DropZoneModel;

    closed spec fn view(&self) -> DropZoneModel {
        DropZoneModel {
            dropped_files: texts(self.dropped_files@),
            is_drag_over: self.is_drag_over,
            drag_position: self.drag_position,
            drag_paths: texts(self.drag_paths@),
        }
    }
}

impl DropZone {
    /// An empty zone with no drag over it.
    pub fn new() -> (zone: DropZone)
        ensures
            zone@ == idle_zone(Seq::empty()),
    {
        let zone = DropZone {
            dropped_files: Vec::new(),
            is_drag_over: false,
            drag_position: None,
            drag_paths: Vec::new(),
        };
        proof {
            assert(zone@.dropped_files =~= Seq::<Seq<char>>::empty());
            assert(zone@.drag_paths =~= Seq::<Seq<char>>::empty());
        }
        zone
    }

    /// Updates the zone for one step of a drag.
    ///
    /// A drag that enters marks the zone as dragged over and keeps the paths
    /// it carries; every event that carries a position records it; a drop
    /// adds the kept paths, in order, to the dropped files; a drag that
    /// leaves clears the flag, the position and the kept paths.
    pub fn handle_file_drop(&mut self, event: FileDropEvent)
        ensures
            final(self)@ == zone_after_event(old(self)@, event),
    {
        match event {
            FileDropEvent::Entered { position, paths } => {
                self.is_drag_over = true;
                self.drag_position = Some(position);
                self.drag_paths = paths.into_vec();
            },
            FileDropEvent::Pending { position } => {
                self.drag_position = Some(position);
            },
            FileDropEvent::Submit { position } => {
                self.drag_position = Some(position);
                self.dropped_files.append(&mut self.drag_paths);
                proof {
                    assert(texts(self.dropped_files@) =~= texts(old(self).dropped_files@) + texts(old(self).drag_paths@));
                    assert(texts(self.drag_paths@) =~= Seq::<Seq<char>>::empty());
                }
            },
            FileDropEvent::Exited => {
                self.is_drag_over = false;
                self.drag_position = None;
                self.drag_paths = Vec::new();
                proof {
                    assert(texts(self.drag_paths@) =~= Seq::<Seq<char>>::empty());
                }
            },
        }
    }

    /// What the zone draws for its current state.
    pub fn render_with_back_button(&self) -> (view: DropZoneView)
        ensures
            view.border_color == accent_color(self@),
            view.zone_fill == zone_fill(self@),
            view.marker_color == accent_color(self@),
            view.status == zone_status(self@),
            view.status_color == status_color(self@),
            view.file_count == self@.dropped_files.len(),
            view.file_names@.len() == self@.dropped_files.len(),
            forall|i: int|
                0 <= i < view.file_names@.len() ==> is_label_of(
                    #[trigger] view.file_names@[i]@,
                    self@.dropped_files[i],
                ),
            forall|i: int|
                0 <= i < view.file_names@.len() && portable_path(self@.dropped_files[i])
                    ==> #[trigger] view.file_names@[i]@ == file_label_of(self@.dropped_files[i]),
    {
        let accent = if self.is_drag_over { ColorRole::Teal } else { ColorRole::Overlay };
        let fill = if self.is_drag_over { Fill::DragHighlight } else { Fill::Solid(ColorRole::Surface) };
        let status = if self.is_drag_over {
            match self.drag_position {
                Some(p) => StatusText::DraggingAt(p),
                None => StatusText::Dragging,
            }
        } else {
            StatusText::Prompt
        };
        let status_color = if self.is_drag_over { ColorRole::Teal } else { ColorRole::Subtext };
        let mut file_names: Vec<String> = Vec::new();
        let n = self.dropped_files.len();
        for i in 0..n
            invariant
                n == self.dropped_files@.len(),
                file_names@.len() == i,
                forall|j: int|
                    0 <= j < i ==> is_label_of(
                        #[trigger] file_names@[j]@,
                        self.dropped_files@[j]@,
                    ),
                forall|j: int|
                    0 <= j < i && portable_path(self.dropped_files@[j]@)
                        ==> #[trigger] file_names@[j]@ == file_label_of(self.dropped_files@[j]@),
        {
            file_names.push(display_name(&self.dropped_files[i]));
        }
        DropZoneView {
            border_color: accent,
            zone_fill: fill,
            marker_color: accent,
            status,
            status_color,
            file_count: n,
            file_names,
        }
    }

    /// The paths of the files that were dropped, in order.
    pub fn dropped_files(&self) -> (files: Vec<String>)
        ensures
            texts(files@) == self@.dropped_files,
    {
        self.dropped_files.clone()
    }

    /// Whether a drag is over the zone.
    pub fn is_drag_over(&self) -> (over: bool)
        ensures
            over == self@.is_drag_over,
    {
        self.is_drag_over
    }

    /// Where the drag was last seen, if anywhere.
    pub fn drag_position(&self) -> (position: Option<Point<Pixels>>)
        ensures
            position == self@.drag_position,
    {
        self.drag_position
    }
}

} // verus!
