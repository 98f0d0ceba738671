//! The editing session: pointer gestures that add data rectangles or replace
//! the search rectangle, undo of the last addition, and the set of data
//! rectangles that the search rectangle hits.

use vstd::prelude::*;
use std::collections::HashSet;
use crate::Coord;
use crate::rect::Rect;
use crate::case::{hits, hits_of, TestCase};
use crate::color::{ColorRGB, BEGIN_EDIT_COLOR, DATA_COLOR, DEFAULT_COLOR, FOUND_COLOR, SEARCH_COLOR};
use crate::painter::{paint_filled, paint_hollow, paint_indexed, paint_rects, paint_scene, Painter};

verus! {

broadcast use vstd::std_specs::hash::group_hash_axioms;

/// The width of the editing canvas in pixels.
pub const WIDTH: usize = 800;

/// The height of the editing canvas in pixels.
pub const HEIGHT: usize = 600;

/// The menu entry that saves the scene.
pub const SAVE_ID: usize = 0;

/// The menu entry that takes back the last step.
pub const UNDO_ID: usize = 1;

/// The side of the marker painted where a gesture began.
pub const MARKER_SIZE: Coord = 5;

/// What the gesture in progress will produce.
#[derive(Debug, Clone, Copy, PartialEq, Eq, Structural)]
pub enum EditMode {
    Data,
    Search,
}

/// A command chosen from the menu.
#[derive(Debug, Clone, Copy, PartialEq, Eq, Structural)]
pub enum Command {
    Save,
    Undo,
}

/// Why a scene could not be saved.
#[derive(Debug, Clone, Copy, PartialEq, Eq, Structural)]
pub enum SaveError {
    /// No search rectangle was drawn yet.
    NoSearchRect,
}

impl SaveError {
    /// What to tell the user.
    pub fn message(&self) -> (text: &'static str)
        ensures
            text@ == "Search area is mandatory"@,
    {
        "Search area is mandatory"
    }
}

/// The square painted at the anchor of a gesture.
pub open spec fn marker(x: Coord, y: Coord) -> Rect {
    Rect { top: y, left: x, bottom: (y + 5) as Coord, right: (x + 5) as Coord }
}

/// One step of editing.
pub enum Edit {
    /// A data rectangle is added.
    Add(Rect),
    /// The search rectangle is replaced.
    Search(Rect),
    /// The last step is taken back.
    Undo,
    /// One tick of input: the pointer, the primary and the secondary button.
    Input(Option<(Coord, Coord)>, bool, bool),
}

/// The state of a session as contracts speak of it.
pub struct Session {
    /// The data rectangles, in the order in which they were added.
    pub rects: Seq<Rect>,
    /// The search rectangle, once one was drawn.
    pub search: Option<Rect>,
    /// The positions of the data rectangles that the search rectangle hits.
    pub found: Set<usize>,
    /// The anchor of the gesture in progress.
    pub pending: Option<(Coord, Coord)>,
    /// What the gesture in progress will produce.
    pub mode: EditMode,
    /// A button is held since it was last seen going down.
    pub active: bool,
    /// The frame buffer.
    pub canvas: Seq<ColorRGB>,
    /// The width of the canvas.
    pub width: int,
    /// The height of the canvas.
    pub height: int,
}

impl Session {
    /// `found` holds exactly the positions that the search rectangle hits,
    /// and nothing while there is no search rectangle.
    pub open spec fn is_consistent(self) -> bool {
        self.found == hits_of(self.rects, self.search)
    }

    /// `found` holds positions of the list only.
    pub open spec fn found_in_range(self) -> bool {
        forall|i: usize| self.found.contains(i) ==> i < self.rects.len()
    }

    /// The search rectangle exists and intersects `rect`.
    pub open spec fn search_hits(self, rect: Rect) -> bool {
        match self.search {
            Some(search) => rect.intersects(search),
            None => false,
        }
    }

    /// The session with the marker at `(x, y)` painted in `color`.
    pub open spec fn marked(self, color: ColorRGB, x: Coord, y: Coord) -> Session {
        Session { canvas: paint_filled(self.canvas, self.width, color, marker(x, y)), ..self }
    }

    /// A gesture begins at `(x, y)`: the anchor is kept and marked.
    pub open spec fn begun(self, x: Coord, y: Coord) -> Session {
        Session { pending: Some((x, y)), ..self.marked(BEGIN_EDIT_COLOR, x, y) }
    }

    /// The marker at `(x, y)` is erased and no gesture is in progress.
    pub open spec fn cleared(self, x: Coord, y: Coord) -> Session {
        Session { pending: None, ..self.marked(DEFAULT_COLOR, x, y) }
    }

    /// `rect` is added at the next index, and painted in the colour that
    /// says whether the search rectangle hits it.
    pub open spec fn added(self, rect: Rect) -> Session {
        let index = self.rects.len() as usize;
        Session {
            rects: self.rects.push(rect),
            found: if self.search_hits(rect) { self.found.insert(index) } else { self.found },
            canvas: paint_indexed(
                self.canvas,
                self.width,
                if self.search_hits(rect) { FOUND_COLOR } else { DATA_COLOR },
                rect,
                index,
            ),
            ..self
        }
    }

    /// `rect` becomes the search rectangle: the old one is erased, `found`
    /// is computed anew from all the data rectangles, each of them is
    /// painted in its new colour, and the new search rectangle last.
    pub open spec fn searched(self, rect: Rect) -> Session {
        let erased = match self.search {
            Some(old_rect) => paint_hollow(self.canvas, self.width, DEFAULT_COLOR, old_rect),
            None => self.canvas,
        };
        Session {
            search: Some(rect),
            found: hits(self.rects, rect),
            canvas: paint_scene(erased, self.width, self.rects, hits(self.rects, rect), Some(rect)),
            ..self
        }
    }

    /// The gesture ends: its marker is erased, and the rectangle between
    /// its two points is added or becomes the search rectangle.
    pub open spec fn finished(self, xs: (Coord, Coord), ys: (Coord, Coord)) -> Session {
        let rect = Rect::spanning((xs.0, ys.0), (xs.1, ys.1));
        let idle = self.cleared(xs.0, ys.0);
        let done = match self.mode {
            EditMode::Data => idle.added(rect),
            EditMode::Search => idle.searched(rect),
        };
        Session { mode: EditMode::Data, ..done }
    }

    /// The whole scene is painted again.
    pub open spec fn redrawn(self) -> Session {
        Session {
            canvas: paint_scene(self.canvas, self.width, self.rects, self.found, self.search),
            ..self
        }
    }

    /// The last data rectangle is erased and removed, with its index.
    pub open spec fn without_last(self) -> Session {
        let last = self.rects.len() - 1;
        Session {
            rects: self.rects.drop_last(),
            found: self.found.remove(last as usize),
            canvas: paint_indexed(self.canvas, self.width, DEFAULT_COLOR, self.rects[last], last as usize),
            ..self
        }
    }

    /// Undo: a gesture in progress is cancelled; else the last data
    /// rectangle, if there is one, is removed. The scene is painted again.
    pub open spec fn undone(self) -> Session {
        let rolled = match self.pending {
            Some((x, y)) => self.cleared(x, y),
            None => if self.rects.len() > 0 {
                self.without_last()
            } else {
                self
            },
        };
        Session { active: false, mode: EditMode::Data, ..rolled.redrawn() }
    }

    /// One tick of input: where the pointer is, and which buttons are down.
    pub open spec fn after_input(self, pointer: Option<(Coord, Coord)>, left: bool, right: bool) -> Session {
        match pointer {
            None => self,
            Some((x, y)) => if left || right {
                if self.active {
                    self
                } else {
                    match self.pending {
                        Some((bx, by)) => Session {
                            active: true,
                            mode: if right { EditMode::Search } else { self.mode },
                            ..self
                        }.finished((bx, x), (by, y)),
                        None => Session {
                            active: true,
                            mode: if right { EditMode::Search } else { EditMode::Data },
                            ..self
                        }.begun(x, y),
                    }
                }
            } else {
                match self.pending {
                    Some((bx, by)) => Session { active: false, ..self }.finished((bx, x), (by, y)),
                    None => Session { active: false, ..self },
                }
            },
        }
    }

    /// The session after one step of editing.
    pub open spec fn edited(self, edit: Edit) -> Session {
        match edit {
            Edit::Add(rect) => self.added(rect),
            Edit::Search(rect) => self.searched(rect),
            Edit::Undo => self.undone(),
            Edit::Input(pointer, left, right) => self.after_input(pointer, left, right),
        }
    }

    /// The session after the first `count` of the given steps.
    pub open spec fn replayed(self, edits: Seq<Edit>, count: int) -> Session
        decreases count,
    {
        if count <= 0 {
            self
        } else {
            self.replayed(edits, count - 1).edited(edits[count - 1])
        }
    }
}

/// Adding a rectangle keeps `found` exact.
pub proof fn add_keeps_found_exact(s: Session, rect: Rect)
    requires
        s.is_consistent(),
        s.rects.len() < usize::MAX,
    ensures
        s.added(rect).is_consistent(),
{
    let t = s.added(rect);
    assert(t.found =~= hits_of(t.rects, t.search));
}

/// Undo keeps `found` exact, whether it cancels a gesture, removes the last
/// rectangle or finds nothing to do.
pub proof fn undo_keeps_found_exact(s: Session)
    requires
        s.is_consistent(),
        s.rects.len() <= usize::MAX,
    ensures
        s.undone().is_consistent(),
{
    let t = s.undone();
    if s.pending.is_none() && s.rects.len() > 0 {
        let shorter = s.rects.drop_last();
        assert forall|i: usize| t.found.contains(i) == hits_of(shorter, s.search).contains(i) by {
            if i < shorter.len() {
                assert(shorter[i as int] == s.rects[i as int]);
            }
        }
    }
    assert(t.found =~= hits_of(t.rects, t.search));
}

/// After the search rectangle was replaced, `found` is what a scan of all
/// the data rectangles gives, whatever it held before.
pub proof fn search_recomputes_found(s: Session, rect: Rect)
    ensures
        s.searched(rect).is_consistent(),
        s.searched(rect).found == hits(s.rects, rect),
        s.searched(rect).rects == s.rects,
        forall|i: usize|
            s.searched(rect).found.contains(i) <==> i < s.rects.len() && s.rects[i as int].intersects(rect),
{
}

/// A tick of input keeps `found` exact, whether it begins a gesture, ends
/// one or changes nothing.
pub proof fn input_keeps_found_exact(s: Session, pointer: Option<(Coord, Coord)>, left: bool, right: bool)
    requires
        s.is_consistent(),
        s.rects.len() < usize::MAX,
    ensures
        s.after_input(pointer, left, right).is_consistent(),
        s.after_input(pointer, left, right).rects.len() <= s.rects.len() + 1,
{
    let t = s.after_input(pointer, left, right);
    assert(t.found =~= hits_of(t.rects, t.search));
}

/// An exact `found` holds positions of the list only.
pub proof fn exact_found_is_in_range(s: Session)
    requires
        s.is_consistent(),
    ensures
        s.found_in_range(),
{
}

/// Whatever steps are taken, in whatever order, `found` stays exact: the
/// positions that the search rectangle hits, and nothing while there is no
/// search rectangle.
pub proof fn edits_keep_found_exact(s: Session, edits: Seq<Edit>, count: int)
    requires
        s.is_consistent(),
        0 <= count <= edits.len(),
        s.rects.len() + count <= usize::MAX,
    ensures
        s.replayed(edits, count).is_consistent(),
        s.replayed(edits, count).rects.len() <= s.rects.len() + count,
    decreases count,
{
    if count > 0 {
        edits_keep_found_exact(s, edits, count - 1);
        let before = s.replayed(edits, count - 1);
        match edits[count - 1] {
            Edit::Add(rect) => add_keeps_found_exact(before, rect),
            Edit::Search(rect) => search_recomputes_found(before, rect),
            Edit::Undo => undo_keeps_found_exact(before),
            Edit::Input(pointer, left, right) => input_keeps_found_exact(before, pointer, left, right),
        }
    }
}

/// Undo with no gesture in progress removes the last rectangle and nothing
/// else: the others keep their positions, and no index of `found` is at or
/// beyond the new length.
pub proof fn undo_removes_the_last(s: Session)
    requires
        s.pending.is_none(),
        0 < s.rects.len() <= usize::MAX,
        s.found_in_range(),
    ensures
        s.undone().rects == s.rects.take(s.rects.len() - 1),
        forall|i: int| 0 <= i < s.rects.len() - 1 ==> s.undone().rects[i] == s.rects[i],
        forall|i: usize| s.undone().found.contains(i) ==> i < s.rects.len() - 1 && s.found.contains(i),
        s.undone().search == s.search,
        s.undone().found_in_range(),
{
    assert(s.rects.drop_last() =~= s.rects.take(s.rects.len() - 1));
}

/// Adding a rectangle and taking it back leaves the rectangles, the search
/// rectangle and `found` as they were.
pub proof fn undo_reverts_add(s: Session, rect: Rect)
    requires
        s.pending.is_none(),
        s.found_in_range(),
        s.rects.len() < usize::MAX,
    ensures
        s.added(rect).undone().rects == s.rects,
        s.added(rect).undone().search == s.search,
        s.added(rect).undone().found == s.found,
{
    let t = s.added(rect).undone();
    assert(t.rects =~= s.rects);
    assert(t.found =~= s.found);
}

/// Copies a set of indices with `HashSet::clone`, which returns a set that
/// holds the same elements.
#[verifier::external_body]
fn copy_of(indices: &HashSet<usize>) -> (copy: HashSet<usize>)
    ensures
        copy@ == indices@,
{
    indices.clone()
}

/// An editing session and the canvas that shows it.
pub struct App {
    pub painter: Painter,
    pub data_rects: Vec<Rect>,
    pub search_rect: Option<Rect>,
    pub founded: HashSet<usize>,
    pub begin_coords: Option<(Coord, Coord)>,
    pub is_edit: bool,
    pub edit_mode: EditMode,
}

impl App {
    /// The state of the session.
    pub open spec fn view(&self) -> Session {
        Session {
            rects: self.data_rects@,
            search: self.search_rect,
            found: self.founded@,
            pending: self.begin_coords,
            mode: self.edit_mode,
            active: self.is_edit,
            canvas: self.painter@,
            width: self.painter.canvas_width(),
            height: self.painter.canvas_height(),
        }
    }

    /// The marker of a gesture that begins at `(x, y)` lies inside the canvas.
    pub open spec fn marker_fits(&self, x: Coord, y: Coord) -> bool {
        &&& 0 <= x && x + 5 <= self.painter.canvas_width()
        &&& 0 <= y && y + 5 <= self.painter.canvas_height()
    }

    /// What a gesture in `mode` from `(xs.0, ys.0)` to `(xs.1, ys.1)` paints
    /// lies inside the canvas: its marker, and the rectangle it gives, with
    /// its index where it is a data rectangle.
    pub open spec fn finish_fits(&self, xs: (Coord, Coord), ys: (Coord, Coord), mode: EditMode) -> bool {
        let rect = Rect::spanning((xs.0, ys.0), (xs.1, ys.1));
        &&& self.marker_fits(xs.0, ys.0)
        &&& match mode {
            EditMode::Data => self.painter.indexed_rect_fits(rect, self.data_rects@.len() as usize),
            EditMode::Search => self.painter.hollow_fits(rect),
        }
    }

    /// What this tick of input paints lies inside the canvas.
    pub open spec fn input_fits(&self, pointer: Option<(Coord, Coord)>, left: bool, right: bool) -> bool {
        match pointer {
            None => true,
            Some((x, y)) => if left || right {
                self.is_edit || match self.begin_coords {
                    Some((bx, by)) => self.finish_fits(
                        (bx, x),
                        (by, y),
                        if right { EditMode::Search } else { self.edit_mode },
                    ),
                    None => self.marker_fits(x, y),
                }
            } else {
                match self.begin_coords {
                    Some((bx, by)) => self.finish_fits((bx, x), (by, y), self.edit_mode),
                    None => true,
                }
            },
        }
    }

    /// Everything that the session shows can be painted on its canvas.
    pub open spec fn wf(&self) -> bool {
        &&& self.painter.wf()
        &&& self.painter.rects_fit(self.data_rects@)
        &&& match self.search_rect {
            Some(rect) => self.painter.hollow_fits(rect),
            None => true,
        }
        &&& match self.begin_coords {
            Some((x, y)) => self.marker_fits(x, y),
            None => true,
        }
    }

    /// A session on the given canvas: with the stored scene if there is
    /// one, empty if not. The scene is painted.
    pub fn new(painter: Painter, case: Option<TestCase>) -> (app: App)
        requires
            painter.wf(),
            match case {
                Some(stored) => painter.rects_fit(stored.data_rects@) && painter.hollow_fits(stored.search_rect),
                None => true,
            },
        ensures
            app.wf(),
            app@ == (Session {
                rects: match case {
                    Some(stored) => stored.data_rects@,
                    None => Seq::empty(),
                },
                search: match case {
                    Some(stored) => Some(stored.search_rect),
                    None => None,
                },
                found: match case {
                    Some(stored) => stored.founded@,
                    None => Set::empty(),
                },
                pending: None,
                mode: EditMode::Data,
                active: false,
                canvas: painter@,
                width: painter.canvas_width(),
                height: painter.canvas_height(),
            }).redrawn(),
    {
        let data_rects;
        let search_rect;
        let founded;

        match case {
            Some(test_case) => {
                data_rects = test_case.data_rects;
                search_rect = Some(test_case.search_rect);
                founded = test_case.founded;
            },
            None => {
                data_rects = Vec::new();
                search_rect = None;
                founded = HashSet::new();
            },
        }

        let mut app = App {
            painter,
            data_rects,
            search_rect,
            founded,
            begin_coords: None,
            is_edit: false,
            edit_mode: EditMode::Data,
        };

        app.redraw();

        app
    }

    /// The command that a menu entry stands for.
    pub fn menu_command(id: usize) -> (command: Option<Command>)
        ensures
            command == if id == SAVE_ID {
                Some(Command::Save)
            } else if id == UNDO_ID {
                Some(Command::Undo)
            } else {
                None::<Command>
            },
    {
        if id == SAVE_ID {
            Some(Command::Save)
        } else if id == UNDO_ID {
            Some(Command::Undo)
        } else {
            None
        }
    }

    /// Whether `handle_input` can paint what this tick of input asks for.
    pub fn can_handle_input(&self, pointer: Option<(Coord, Coord)>, left: bool, right: bool) -> (fits: bool)
        requires
            self.painter.wf(),
        ensures
            fits == self.input_fits(pointer, left, right),
    {
        match pointer {
            None => true,
            Some((x, y)) => {
                if left || right {
                    if self.is_edit {
                        true
                    } else {
                        match self.begin_coords {
                            Some((bx, by)) => {
                                let mode = if right { EditMode::Search } else { self.edit_mode };
                                self.can_finish_edit((bx, x), (by, y), mode)
                            },
                            None => self.can_mark(x, y),
                        }
                    }
                } else {
                    match self.begin_coords {
                        Some((bx, by)) => self.can_finish_edit((bx, x), (by, y), self.edit_mode),
                        None => true,
                    }
                }
            },
        }
    }

    /// Whether the marker of a gesture at `(x, y)` lies inside the canvas.
    pub fn can_mark(&self, x: Coord, y: Coord) -> (fits: bool)
        requires
            self.painter.wf(),
        ensures
            fits == self.marker_fits(x, y),
    {
        proof {
            if self.marker_fits(x, y) {
                self.painter.sides_are_coords();
            }
        }
        x >= 0 && x <= i64::MAX - MARKER_SIZE && ((x + MARKER_SIZE) as u64) <= (self.painter.width() as u64)
            && y >= 0 && y <= i64::MAX - MARKER_SIZE
            && ((y + MARKER_SIZE) as u64) <= (self.painter.height() as u64)
    }

    /// Whether `finish_edit` can paint what the gesture gives.
    pub fn can_finish_edit(&self, xs: (Coord, Coord), ys: (Coord, Coord), mode: EditMode) -> (fits: bool)
        requires
            self.painter.wf(),
        ensures
            fits == self.finish_fits(xs, ys, mode),
    {
        let rect = Self::make_rect(xs, ys);
        self.can_mark(xs.0, ys.0) && match mode {
            EditMode::Data => self.painter.can_draw_indexed_rect(&rect, self.data_rects.len()),
            EditMode::Search => self.painter.can_draw_hollow_rect(&rect),
        }
    }

    /// One tick of input: a button that goes down begins a gesture, a
    /// button that stays down changes nothing, and the release ends the
    /// gesture and gives its rectangle.
    pub fn handle_input(&mut self, pointer: Option<(Coord, Coord)>, left: bool, right: bool)
        requires
            old(self).wf(),
            old(self).input_fits(pointer, left, right),
        ensures
            final(self).wf(),
            final(self)@ == old(self)@.after_input(pointer, left, right),
    {
        match pointer {
            None => {},
            Some((x, y)) => {
                if left || right {
                    if self.is_edit {
                        return;
                    }
                    self.is_edit = true;
                    match self.begin_coords {
                        Some((bx, by)) => {
                            if right {
                                self.edit_mode = EditMode::Search;
                            }
                            self.finish_edit((bx, x), (by, y));
                        },
                        None => {
                            self.edit_mode = if right { EditMode::Search } else { EditMode::Data };
                            self.begin_edit(x, y);
                        },
                    }
                } else {
                    self.is_edit = false;
                    match self.begin_coords {
                        Some((bx, by)) => self.finish_edit((bx, x), (by, y)),
                        None => {},
                    }
                }
            },
        }
    }

    /// The scene to store: the rectangles, the search rectangle and the
    /// found indices as they are. There is none before a search rectangle
    /// was drawn.
    pub fn save(&self) -> (outcome: Result<TestCase, SaveError>)
        ensures
            self.search_rect.is_none() <==> outcome == Err::<TestCase, SaveError>(SaveError::NoSearchRect),
            self.search_rect.is_some() <==> outcome.is_ok(),
            outcome.is_ok() ==> {
                &&& outcome.unwrap().data_rects@ == self.data_rects@
                &&& Some(outcome.unwrap().search_rect) == self.search_rect
                &&& outcome.unwrap().founded@ == self.founded@
            },
    {
        match self.search_rect {
            None => Err(SaveError::NoSearchRect),
            Some(search_rect) => {
                let mut data_rects: Vec<Rect> = Vec::new();
                let mut i: usize = 0;
                while i < self.data_rects.len()
                    invariant
                        i <= self.data_rects.len(),
                        data_rects@ =~= self.data_rects@.take(i as int),
                    decreases self.data_rects.len() - i,
                {
                    data_rects.push(self.data_rects[i]);
                    i += 1;
                }
                assert(self.data_rects@.take(i as int) =~= self.data_rects@);
                Ok(TestCase { data_rects, search_rect, founded: copy_of(&self.founded) })
            },
        }
    }

    /// Begins a gesture at `(x, y)`: marks the anchor and keeps it.
    pub fn begin_edit(&mut self, x: Coord, y: Coord)
        requires
            old(self).wf(),
            old(self).marker_fits(x, y),
        ensures
            final(self).wf(),
            final(self)@ == old(self)@.begun(x, y),
    {
        self.draw_edit_signal_rect(BEGIN_EDIT_COLOR, x, y);
        self.begin_coords = Some((x, y))
    }

    /// Ends the gesture that began at `(xs.0, ys.0)` at `(xs.1, ys.1)`.
    pub fn finish_edit(&mut self, xs: (Coord, Coord), ys: (Coord, Coord))
        requires
            old(self).wf(),
            old(self).finish_fits(xs, ys, old(self).edit_mode),
        ensures
            final(self).wf(),
            final(self)@ == old(self)@.finished(xs, ys),
    {
        self.clear_begin_edit(xs.0, ys.0);

        match self.edit_mode {
            EditMode::Data => self.add_new_rect(xs, ys),
            EditMode::Search => self.set_search_rect(xs, ys),
        }
        self.edit_mode = EditMode::Data;
    }

    /// Erases the marker at `(x, y)` and forgets the anchor.
    pub fn clear_begin_edit(&mut self, x: Coord, y: Coord)
        requires
            old(self).wf(),
            old(self).marker_fits(x, y),
        ensures
            final(self).wf(),
            final(self)@ == old(self)@.cleared(x, y),
    {
        let finish_color = Painter::clear_color();

        self.draw_edit_signal_rect(finish_color, x, y);
        self.begin_coords = None;
    }

    /// Cancels the gesture in progress, or else removes the data rectangle
    /// that was added last; then paints the scene again.
    pub fn undo(&mut self)
        requires
            old(self).wf(),
        ensures
            final(self).wf(),
            final(self)@ == old(self)@.undone(),
    {
        match self.begin_coords {
            Some((x, y)) => self.clear_begin_edit(x, y),
            None => if !self.data_rects.is_empty() {
                let index = self.data_rects.len() - 1;
                self.draw_rect_by_index(Painter::clear_color(), index);
                self.data_rects.pop();
                self.founded.remove(&index);
                assert(self.data_rects@ =~= old(self).data_rects@.drop_last());
            },
        }

        self.redraw();

        self.is_edit = false;
        self.edit_mode = EditMode::Data;
    }

    /// Replaces the search rectangle by the one between the two points.
    pub fn set_search_rect(&mut self, xs: (Coord, Coord), ys: (Coord, Coord))
        requires
            old(self).wf(),
            old(self).painter.hollow_fits(Rect::spanning((xs.0, ys.0), (xs.1, ys.1))),
        ensures
            final(self).wf(),
            final(self)@ == old(self)@.searched(Rect::spanning((xs.0, ys.0), (xs.1, ys.1))),
    {
        if let Some(src_rect) = self.search_rect {
            self.painter.draw_hollow_rect(Painter::clear_color(), &src_rect);
        }
        let ghost erased = self.painter@;
        let ghost w = self.painter.canvas_width();

        let rect = Self::make_rect(xs, ys);

        self.founded.clear();
        let mut i: usize = 0;
        assert(self.founded@ =~= hits(self.data_rects@.take(0), rect));
        while i < self.data_rects.len()
            invariant
                i <= self.data_rects.len(),
                self.wf(),
                self.painter.hollow_fits(rect),
                self.painter.repainted(
                    &old(self).painter,
                    paint_rects(erased, w, self.data_rects@, hits(self.data_rects@, rect), i as int),
                ),
                w == self.painter.canvas_width(),
                self.founded@ == hits(self.data_rects@.take(i as int), rect),
                self.data_rects@ == old(self).data_rects@,
                self.search_rect == old(self).search_rect,
                self.begin_coords == old(self).begin_coords,
                self.is_edit == old(self).is_edit,
                self.edit_mode == old(self).edit_mode,
            decreases self.data_rects.len() - i,
        {
            if self.data_rects[i].intersects_with(&rect) {
                self.founded.insert(i);
                self.draw_rect_by_index(FOUND_COLOR, i);
            } else {
                self.draw_rect_by_index(DATA_COLOR, i);
            }
            assert(self.founded@ =~= hits(self.data_rects@.take(i + 1), rect));
            i += 1;
        }
        assert(self.data_rects@.take(i as int) =~= self.data_rects@);

        self.painter.draw_hollow_rect(SEARCH_COLOR, &rect);
        self.search_rect = Some(rect);
    }

    /// Paints every data rectangle in the colour that `founded` gives it,
    /// then the search rectangle.
    pub fn redraw(&mut self)
        requires
            old(self).wf(),
        ensures
            final(self).wf(),
            final(self)@ == old(self)@.redrawn(),
    {
        let ghost before = self.painter@;
        let ghost w = self.painter.canvas_width();
        let mut i: usize = 0;
        while i < self.data_rects.len()
            invariant
                i <= self.data_rects.len(),
                self.wf(),
                self.painter.repainted(
                    &old(self).painter,
                    paint_rects(before, w, self.data_rects@, self.founded@, i as int),
                ),
                w == self.painter.canvas_width(),
                self.founded@ == old(self).founded@,
                self.data_rects@ == old(self).data_rects@,
                self.search_rect == old(self).search_rect,
                self.begin_coords == old(self).begin_coords,
                self.is_edit == old(self).is_edit,
                self.edit_mode == old(self).edit_mode,
            decreases self.data_rects.len() - i,
        {
            let color;

            if self.founded.contains(&i) {
                color = FOUND_COLOR;
            } else {
                color = DATA_COLOR;
            }

            self.draw_rect_by_index(color, i);
            i += 1;
        }

        if let Some(search_rect) = self.search_rect {
            self.painter.draw_hollow_rect(SEARCH_COLOR, &search_rect);
        }
    }

    /// Paints the marker of a gesture at `(x, y)` in `color`.
    pub fn draw_edit_signal_rect(&mut self, color: ColorRGB, x: Coord, y: Coord)
        requires
            old(self).wf(),
            old(self).marker_fits(x, y),
        ensures
            final(self).wf(),
            final(self)@ == old(self)@.marked(color, x, y),
    {
        proof {
            self.painter.sides_are_coords();
        }
        let begin_size = MARKER_SIZE;
        self.painter.draw_filled_rect(
            color,
            &Rect { top: y, bottom: y + begin_size, left: x, right: x + begin_size },
        );
    }

    /// Adds the rectangle between the two points as the next data rectangle.
    pub fn add_new_rect(&mut self, xs: (Coord, Coord), ys: (Coord, Coord))
        requires
            old(self).wf(),
            old(self).painter.indexed_rect_fits(
                Rect::spanning((xs.0, ys.0), (xs.1, ys.1)),
                old(self).data_rects@.len() as usize,
            ),
        ensures
            final(self).wf(),
            final(self)@ == old(self)@.added(Rect::spanning((xs.0, ys.0), (xs.1, ys.1))),
    {
        let rect = Self::make_rect(xs, ys);
        let index = self.data_rects.len();

        let hit = match self.search_rect {
            Some(search_rect) => rect.intersects_with(&search_rect),
            None => false,
        };
        let color = if hit {
            self.founded.insert(index);

            FOUND_COLOR
        } else {
            DATA_COLOR
        };

        self.data_rects.push(rect);
        self.draw_rect_by_index(color, index);
    }

    /// The rectangle between the point `(xs.0, ys.0)` and the point
    /// `(xs.1, ys.1)`, with sorted edges.
    pub fn make_rect(xs: (Coord, Coord), ys: (Coord, Coord)) -> (rect: Rect)
        ensures
            rect == Rect::spanning((xs.0, ys.0), (xs.1, ys.1)),
            rect.is_ordered(),
    {
        Rect::normalize((xs.0, ys.0), (xs.1, ys.1))
    }

    /// Paints the data rectangle at `index`, with its index, in `color`.
    pub fn draw_rect_by_index(&mut self, color: ColorRGB, index: usize)
        requires
            old(self).wf(),
            index < old(self).data_rects@.len(),
        ensures
            final(self).wf(),
            final(self)@ == (Session {
                canvas: paint_indexed(
                    old(self)@.canvas,
                    old(self)@.width,
                    color,
                    old(self).data_rects@[index as int],
                    index,
                ),
                ..old(self)@
            }),
    {
        let rect = self.data_rects[index];
        self.painter.draw_indexed_rect(&rect, color, index);
    }
}

} // verus!
