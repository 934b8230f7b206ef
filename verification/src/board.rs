use vstd::prelude::*;

use crate::event::{TabletButton, TabletEvent};

verus! {

/// An 8-bit RGBA colour.
#[derive(Clone, Copy, Debug, PartialEq, Eq, Structural)]
pub struct Color {
    pub r: u8,
    pub g: u8,
    pub b: u8,
    pub a: u8,
}

impl Color {
    /// The opaque colour of the given red, green and blue.
    pub open spec fn rgb(r: u8, g: u8, b: u8) -> Color {
        Color { r, g, b, a: 255 }
    }

    /// Makes the opaque colour of the given red, green and blue.
    pub fn from_rgb(r: u8, g: u8, b: u8) -> (c: Color)
        ensures
            c == Color::rgb(r, g, b),
    {
        Color { r, g, b, a: 255 }
    }
}

/// The pen colours, in the order the colour key cycles through them:
/// neon cyan, neon pink, neon green, yellow and white.
pub open spec fn palette() -> Seq<Color> {
    seq![
        Color::rgb(0, 240, 255),
        Color::rgb(255, 0, 127),
        Color::rgb(0, 255, 127),
        Color::rgb(255, 230, 0),
        Color::rgb(255, 255, 255),
    ]
}

/// The number of pen colours.
pub const PALETTE_LEN: usize = 5;

/// The pen colours, as [`palette`] lists them.
pub fn palette_colors() -> (v: Vec<Color>)
    ensures
        v@ == palette(),
{
    let v = vec![
        Color::from_rgb(0, 240, 255),
        Color::from_rgb(255, 0, 127),
        Color::from_rgb(0, 255, 127),
        Color::from_rgb(255, 230, 0),
        Color::from_rgb(255, 255, 255),
    ];
    assert(v@ =~= palette());
    v
}

/// The position that follows `found` in a cycle of `len` entries: the next
/// one, wrapping round, or the first when there is no current position.
pub open spec fn cycle_successor(found: Option<usize>, len: usize) -> usize {
    match found {
        Some(i) => ((i + 1) % (len as int)) as usize,
        None => 0,
    }
}

/// The position that follows `found` in a cycle of `len` entries.
pub fn next_in_cycle(found: Option<usize>, len: usize) -> (next: usize)
    requires
        0 < len,
        found matches Some(i) ==> i < len,
    ensures
        next == cycle_successor(found, len),
        next < len,
{
    match found {
        Some(i) => (i + 1) % len,
        None => 0,
    }
}

/// The first position of `c` in `colors`, if any.
pub open spec fn first_position(colors: Seq<Color>, c: Color) -> Option<usize>
    decreases colors.len(),
{
    if colors.len() == 0 {
        None
    } else if colors.last() == c && first_position(colors.drop_last(), c) is None {
        Some((colors.len() - 1) as usize)
    } else {
        first_position(colors.drop_last(), c)
    }
}

/// The colour after `c` in the palette; any colour outside it is followed by the first.
pub open spec fn next_color(c: Color) -> Color {
    palette()[cycle_successor(first_position(palette(), c), PALETTE_LEN) as int]
}

/// Finds the first position of `c` in `colors`.
fn position_of(colors: &Vec<Color>, c: Color) -> (r: Option<usize>)
    ensures
        r == first_position(colors@, c),
        r matches Some(i) ==> i < colors@.len() && colors@[i as int] == c,
{
    let mut i: usize = 0;
    while i < colors.len()
        invariant
            i <= colors@.len(),
            first_position(colors@.take(i as int), c) is None,
        decreases colors@.len() - i,
    {
        assert(colors@.take(i + 1).drop_last() =~= colors@.take(i as int));
        if colors[i] == c {
            proof {
                lemma_first_position_prefix(colors@, c, i + 1);
            }
            return Some(i);
        }
        i = i + 1;
    }
    assert(colors@.take(colors@.len() as int) =~= colors@);
    None
}

/// A prefix that already holds a colour decides its first position.
proof fn lemma_first_position_prefix(colors: Seq<Color>, c: Color, n: int)
    requires
        0 < n <= colors.len(),
        first_position(colors.take(n), c) is Some,
    ensures
        first_position(colors, c) == first_position(colors.take(n), c),
    decreases colors.len(),
{
    if n < colors.len() {
        assert(colors.drop_last().take(n) =~= colors.take(n));
        lemma_first_position_prefix(colors.drop_last(), c, n);
    } else {
        assert(colors.take(n) =~= colors);
    }
}

/// The colour after `c` in the palette; any colour outside it is followed by the first.
pub fn cycle_color(c: Color) -> (next: Color)
    ensures
        next == next_color(c),
{
    let colors = palette_colors();
    let pos = position_of(&colors, c);
    let i = next_in_cycle(pos, colors.len());
    colors[i]
}

/// The points of a stroke and its colour.
pub struct StrokeView<P> {
    pub points: Seq<P>,
    pub color: Color,
}

/// A line drawn with the pen or the mouse: its points, in order, and its colour.
pub struct Stroke<P> {
    pub points: Vec<P>,
    pub color: Color,
}

impl<P> View for Stroke<P> {
    type V = StrokeView<P>;

    open spec fn view(&self) -> StrokeView<P> {
        StrokeView { points: self.points@, color: self.color }
    }
}

/// The views of a sequence of strokes.
pub open spec fn stroke_views<P>(strokes: Seq<Stroke<P>>) -> Seq<StrokeView<P>> {
    strokes.map_values(|s: Stroke<P>| s@)
}

/// The view of a stroke that may be absent.
pub open spec fn optional_view<P>(s: Option<Stroke<P>>) -> Option<StrokeView<P>> {
    match s {
        Some(st) => Some(st@),
        None => None,
    }
}

/// The state of a drawing board, as the contracts speak of it.
pub struct BoardState<P> {
    /// The finished strokes, oldest first.
    pub strokes: Seq<StrokeView<P>>,
    /// The stroke being drawn, if any.
    pub current: Option<StrokeView<P>>,
    /// The colour of new strokes.
    pub color: Color,
    /// Pen input erases instead of drawing.
    pub eraser_mode: bool,
    /// The window lets clicks through to the desktop.
    pub passthrough: bool,
    /// The pen is within the tablet's range.
    pub pen_in_range: bool,
}

/// What a drawing input did.
#[derive(Clone, Copy, Debug, PartialEq, Eq, Structural)]
pub enum StrokeOutcome {
    /// The board is in eraser mode: the caller erases the strokes under the point.
    EraseRequested,
    /// The point was added to the current stroke.
    PointAdded,
    /// The point was too close to the last one and was left out.
    PointSkipped,
    /// A new stroke was started at the point.
    StrokeStarted,
    /// The input stopped pressing and the current stroke was finished.
    StrokeFinished,
    /// Nothing was pressed and nothing was being drawn.
    Idle,
}

/// What the caller has to do after a tablet event.
#[derive(Clone, Copy, Debug, PartialEq, Eq, Structural)]
pub enum EventResponse {
    /// Nothing more.
    Nothing,
    /// Feed the pen's position as a drawing input, pressing when `touching`.
    PenSample { touching: bool },
    /// Make the window let clicks through (`true`) or take them (`false`).
    SetPassthrough(bool),
    /// Move the brush to its next size.
    CycleBrushSize,
}

/// `i` is marked in `hits`; positions past its end are not.
pub open spec fn is_hit(hits: Seq<bool>, i: int) -> bool {
    0 <= i < hits.len() && hits[i]
}

/// The strokes not marked in `hits`, in order.
pub open spec fn unhit<P>(strokes: Seq<StrokeView<P>>, hits: Seq<bool>) -> Seq<StrokeView<P>>
    decreases strokes.len(),
{
    if strokes.len() == 0 {
        Seq::empty()
    } else {
        let rest = unhit(strokes.drop_last(), hits);
        if is_hit(hits, strokes.len() - 1) {
            rest
        } else {
            rest.push(strokes.last())
        }
    }
}

impl<P> BoardState<P> {
    /// An empty board drawing in neon cyan, pen mode, taking clicks, pen out of range.
    pub open spec fn initial() -> BoardState<P> {
        BoardState {
            strokes: Seq::empty(),
            current: None,
            color: palette()[0],
            eraser_mode: false,
            passthrough: false,
            pen_in_range: false,
        }
    }

    /// Every stroke, finished or being drawn, has at least one point.
    pub open spec fn strokes_have_points(self) -> bool {
        &&& forall|i: int| 0 <= i < self.strokes.len() ==> (#[trigger] self.strokes[i]).points.len() > 0
        &&& self.current matches Some(c) ==> c.points.len() > 0
    }

    /// The board without its most recent finished stroke.
    pub open spec fn undone(self) -> BoardState<P> {
        if self.strokes.len() > 0 {
            BoardState { strokes: self.strokes.drop_last(), ..self }
        } else {
            self
        }
    }

    /// The board with no stroke at all.
    pub open spec fn cleared(self) -> BoardState<P> {
        BoardState { strokes: Seq::empty(), current: None, ..self }
    }

    /// The board with the current stroke, if any, moved to the finished ones.
    pub open spec fn finished(self) -> BoardState<P> {
        match self.current {
            Some(c) => BoardState { strokes: self.strokes.push(c), current: None, ..self },
            None => self,
        }
    }

    /// The board after a drawing input at `point`, pressing or not; `far`
    /// says whether `point` is far enough from the last point of the current
    /// stroke to be added.
    pub open spec fn after_input(self, pressing: bool, point: P, far: bool) -> BoardState<P> {
        if !pressing {
            self.finished()
        } else if self.eraser_mode {
            self
        } else {
            match self.current {
                Some(c) => if c.points.len() == 0 || far {
                    BoardState {
                        current: Some(StrokeView { points: c.points.push(point), color: c.color }),
                        ..self
                    }
                } else {
                    self
                },
                None => BoardState {
                    current: Some(StrokeView { points: seq![point], color: self.color }),
                    ..self
                },
            }
        }
    }

    /// What a drawing input did.
    pub open spec fn input_outcome(self, pressing: bool, far: bool) -> StrokeOutcome {
        if !pressing {
            if self.current is Some {
                StrokeOutcome::StrokeFinished
            } else {
                StrokeOutcome::Idle
            }
        } else if self.eraser_mode {
            StrokeOutcome::EraseRequested
        } else {
            match self.current {
                Some(c) => if c.points.len() == 0 || far {
                    StrokeOutcome::PointAdded
                } else {
                    StrokeOutcome::PointSkipped
                },
                None => StrokeOutcome::StrokeStarted,
            }
        }
    }

    /// The board without the finished strokes marked in `hits`.
    pub open spec fn erased(self, hits: Seq<bool>) -> BoardState<P> {
        BoardState { strokes: unhit(self.strokes, hits), ..self }
    }

    /// The board drawing in colour `c`, in pen mode.
    pub open spec fn with_color(self, c: Color) -> BoardState<P> {
        BoardState { color: c, eraser_mode: false, ..self }
    }

    /// The board after a tablet event.
    pub open spec fn after_event(self, ev: TabletEvent) -> BoardState<P> {
        match ev {
            TabletEvent::Proximity { in_range } => {
                let s = BoardState { pen_in_range: in_range, ..self };
                if in_range {
                    s
                } else {
                    s.finished()
                }
            },
            TabletEvent::PenMotion { .. } => self,
            TabletEvent::PenTouch { touching } => if touching {
                self
            } else {
                self.finished()
            },
            TabletEvent::Button { button, pressed } => if !pressed {
                self
            } else {
                match button {
                    TabletButton::Express1 => BoardState { eraser_mode: !self.eraser_mode, ..self },
                    TabletButton::Express2 => self.undone(),
                    TabletButton::Express3 => self.cleared(),
                    TabletButton::Express4 => BoardState { passthrough: !self.passthrough, ..self },
                    TabletButton::Express5 => BoardState { color: next_color(self.color), ..self },
                    _ => self,
                }
            },
        }
    }

    /// What the caller has to do after a tablet event.
    pub open spec fn event_response(self, ev: TabletEvent) -> EventResponse {
        match ev {
            TabletEvent::PenMotion { pressure, .. } => EventResponse::PenSample { touching: pressure > 0 },
            TabletEvent::Button { button: TabletButton::Express4, pressed: true } => EventResponse::SetPassthrough(!self.passthrough),
            TabletEvent::Button { button: TabletButton::Express6, pressed: true } => EventResponse::CycleBrushSize,
            _ => EventResponse::Nothing,
        }
    }
}

/// The drawing overlay's board: finished strokes, the stroke being drawn,
/// the pen colour and the modes.
pub struct Board<P> {
    strokes: Vec<Stroke<P>>,
    current_stroke: Option<Stroke<P>>,
    selected_color: Color,
    eraser_mode: bool,
    passthrough: bool,
    pen_in_range: bool,
}

impl<P> View for Board<P> {
    type V = BoardState<P>;

    closed spec fn view(&self) -> BoardState<P> {
        BoardState {
            strokes: stroke_views(self.strokes@),
            current: optional_view(self.current_stroke),
            color: self.selected_color,
            eraser_mode: self.eraser_mode,
            passthrough: self.passthrough,
            pen_in_range: self.pen_in_range,
        }
    }
}

impl<P> Board<P> {
    /// An empty board drawing in neon cyan.
    pub fn new() -> (b: Board<P>)
        ensures
            b@ == BoardState::<P>::initial(),
    {
        let b = Board {
            strokes: Vec::new(),
            current_stroke: None,
            selected_color: Color::from_rgb(0, 240, 255),
            eraser_mode: false,
            passthrough: false,
            pen_in_range: false,
        };
        assert(stroke_views(b.strokes@) =~= Seq::<StrokeView<P>>::empty());
        b
    }

    /// The finished strokes, oldest first.
    pub fn strokes(&self) -> (r: &Vec<Stroke<P>>)
        ensures
            stroke_views(r@) == self@.strokes,
    {
        &self.strokes
    }

    /// The stroke being drawn, if any.
    pub fn current_stroke(&self) -> (r: &Option<Stroke<P>>)
        ensures
            optional_view(*r) == self@.current,
    {
        &self.current_stroke
    }

    /// The colour of new strokes.
    pub fn selected_color(&self) -> (c: Color)
        ensures
            c == self@.color,
    {
        self.selected_color
    }

    /// Whether pen input erases.
    pub fn eraser_mode(&self) -> (r: bool)
        ensures
            r == self@.eraser_mode,
    {
        self.eraser_mode
    }

    /// Whether the window lets clicks through.
    pub fn passthrough(&self) -> (r: bool)
        ensures
            r == self@.passthrough,
    {
        self.passthrough
    }

    /// Whether the pen is within range.
    pub fn pen_in_range(&self) -> (r: bool)
        ensures
            r == self@.pen_in_range,
    {
        self.pen_in_range
    }

    /// The last point of the stroke being drawn, if any.
    pub fn last_point(&self) -> (r: Option<&P>)
        ensures
            r matches Some(p) ==> (self@.current matches Some(c) && c.points.len() > 0 && *p
                == c.points.last()),
            r is None ==> (self@.current is None || self@.current->0.points.len() == 0),
    {
        match &self.current_stroke {
            Some(st) => if st.points.len() > 0 {
                Some(&st.points[st.points.len() - 1])
            } else {
                None
            },
            None => None,
        }
    }

    /// Removes the most recent finished stroke.
    pub fn undo(&mut self)
        ensures
            final(self)@ == old(self)@.undone(),
    {
        let _ = self.strokes.pop();
        assert(stroke_views(self.strokes@) =~= old(self)@.undone().strokes);
    }

    /// Removes every stroke, the one being drawn included.
    pub fn clear_canvas(&mut self)
        ensures
            final(self)@ == old(self)@.cleared(),
    {
        self.strokes.clear();
        self.current_stroke = None;
        assert(stroke_views(self.strokes@) =~= Seq::<StrokeView<P>>::empty());
    }

    /// Moves the stroke being drawn, if any, to the finished ones.
    pub fn finish_stroke(&mut self)
        ensures
            final(self)@ == old(self)@.finished(),
    {
        let ghost old_strokes = self.strokes@;
        if let Some(st) = self.current_stroke.take() {
            self.strokes.push(st);
            assert(stroke_views(self.strokes@) =~= stroke_views(old_strokes).push(st@));
        }
    }

    /// A drawing input at `point`: while pressing, erase (in eraser mode),
    /// extend the current stroke when `far` says `point` is far enough from
    /// its last point, or start a new stroke in the selected colour; when
    /// not pressing, finish the current stroke.
    pub fn stroke_input(&mut self, pressing: bool, point: P, far: bool) -> (outcome: StrokeOutcome)
        ensures
            final(self)@ == old(self)@.after_input(pressing, point, far),
            outcome == old(self)@.input_outcome(pressing, far),
    {
        if !pressing {
            let had = self.current_stroke.is_some();
            self.finish_stroke();
            return if had {
                StrokeOutcome::StrokeFinished
            } else {
                StrokeOutcome::Idle
            };
        }
        if self.eraser_mode {
            return StrokeOutcome::EraseRequested;
        }
        match self.current_stroke.take() {
            Some(mut st) => {
                let outcome = if st.points.len() == 0 || far {
                    st.points.push(point);
                    StrokeOutcome::PointAdded
                } else {
                    StrokeOutcome::PointSkipped
                };
                self.current_stroke = Some(st);
                outcome
            },
            None => {
                let points = vec![point];
                assert(points@ =~= seq![point]);
                self.current_stroke = Some(Stroke { points, color: self.selected_color });
                StrokeOutcome::StrokeStarted
            },
        }
    }

    /// Removes the finished strokes that `hits` marks, keeping the others in
    /// order; positions past the end of `hits` count as not marked.
    pub fn erase(&mut self, hits: &Vec<bool>)
        ensures
            final(self)@ == old(self)@.erased(hits@),
    {
        let ghost orig = self.strokes@;
        let ghost before = old(self)@;
        let mut i: usize = self.strokes.len();
        // From the back, so that the positions still to visit do not move.
        while i > 0
            invariant
                i <= orig.len(),
                stroke_views(self.strokes@) == stroke_views(orig.take(i as int)) + unhit_from(
                    stroke_views(orig),
                    hits@,
                    i as int,
                ),
                self.strokes@.len() >= i,
                forall|k: int| 0 <= k < i ==> self.strokes@[k] == orig[k],
                self@ == (BoardState { strokes: stroke_views(self.strokes@), ..before }),
            decreases i,
        {
            let ghost pre = self.strokes@;
            let ghost a = stroke_views(orig.take(i as int));
            let ghost b = unhit_from(stroke_views(orig), hits@, i as int);
            i = i - 1;
            proof {
                lemma_unhit_from_step(stroke_views(orig), hits@, i as int);
                assert(a =~= stroke_views(orig.take(i as int)).push(orig[i as int]@));
            }
            if i < hits.len() && hits[i] {
                let _ = self.strokes.remove(i);
                proof {
                    assert(pre.remove(i as int) =~= pre.take(i as int) + pre.skip(i + 1));
                    assert(stroke_views(pre) =~= stroke_views(pre.take(i as int)) + seq![pre[i as int]@] + stroke_views(pre.skip(i + 1)));
                    assert(stroke_views(pre.take(i as int)) =~= stroke_views(orig.take(i as int)));
                    assert(a.len() == i + 1);
                    assert(stroke_views(pre).skip(i + 1) =~= b);
                    assert(stroke_views(pre.skip(i + 1)) =~= stroke_views(pre).skip(i + 1));
                    assert(stroke_views(self.strokes@) =~= stroke_views(pre.take(i as int)) + stroke_views(pre.skip(i + 1)));
                }
            } else {
                proof {
                    assert(stroke_views(self.strokes@) =~= stroke_views(orig.take(i as int)) + (seq![orig[i as int]@] + b));
                }
            }
        }
        proof {
            lemma_unhit_from_start(stroke_views(orig), hits@);
            assert(stroke_views(orig.take(0)) =~= Seq::<StrokeView<P>>::empty());
            assert(stroke_views(self.strokes@) =~= unhit(stroke_views(orig), hits@));
        }
    }

    /// Draws in colour `c`, leaving eraser mode.
    pub fn select_color(&mut self, c: Color)
        ensures
            final(self)@ == old(self)@.with_color(c),
    {
        self.selected_color = c;
        self.eraser_mode = false;
    }

    /// Lets clicks through to the desktop.
    pub fn enable_passthrough(&mut self)
        ensures
            final(self)@ == (BoardState { passthrough: true, ..old(self)@ }),
    {
        self.passthrough = true;
    }

    /// Moves to the next pen colour of the palette.
    pub fn cycle_colors(&mut self)
        ensures
            final(self)@ == (BoardState { color: next_color(old(self)@.color), ..old(self)@ }),
    {
        self.selected_color = cycle_color(self.selected_color);
    }

    /// Applies a tablet event: proximity and tip changes finish the stroke
    /// when the pen leaves; first presses of the express keys toggle eraser
    /// mode (1), undo (2), clear (3), toggle click-through (4), change colour
    /// (5) or ask for the next brush size (6); a motion asks the caller to
    /// feed the pen position as a drawing input.
    pub fn apply_event(&mut self, ev: TabletEvent) -> (r: EventResponse)
        ensures
            final(self)@ == old(self)@.after_event(ev),
            r == old(self)@.event_response(ev),
    {
        match ev {
            TabletEvent::Proximity { in_range } => {
                self.pen_in_range = in_range;
                if !in_range {
                    // The pen left: finish the stroke.
                    self.finish_stroke();
                }
                EventResponse::Nothing
            },
            TabletEvent::PenMotion { pressure, .. } => EventResponse::PenSample { touching: pressure > 0 },
            TabletEvent::PenTouch { touching } => {
                if !touching {
                    self.finish_stroke();
                }
                EventResponse::Nothing
            },
            TabletEvent::Button { button, pressed } => {
                if !pressed {
                    return EventResponse::Nothing;
                }
                match button {
                    TabletButton::Express1 => {
                        self.eraser_mode = !self.eraser_mode;
                        EventResponse::Nothing
                    },
                    TabletButton::Express2 => {
                        self.undo();
                        EventResponse::Nothing
                    },
                    TabletButton::Express3 => {
                        self.clear_canvas();
                        EventResponse::Nothing
                    },
                    TabletButton::Express4 => {
                        self.passthrough = !self.passthrough;
                        EventResponse::SetPassthrough(self.passthrough)
                    },
                    TabletButton::Express5 => {
                        self.cycle_colors();
                        EventResponse::Nothing
                    },
                    TabletButton::Express6 => EventResponse::CycleBrushSize,
                    _ => EventResponse::Nothing,
                }
            },
        }
    }
}

/// The strokes from position `i` on that `hits` does not mark, in order.
pub open spec fn unhit_from<P>(strokes: Seq<StrokeView<P>>, hits: Seq<bool>, i: int) -> Seq<StrokeView<P>>
    decreases strokes.len() - i,
{
    if i >= strokes.len() {
        Seq::empty()
    } else if is_hit(hits, i) {
        unhit_from(strokes, hits, i + 1)
    } else {
        seq![strokes[i]] + unhit_from(strokes, hits, i + 1)
    }
}

proof fn lemma_unhit_from_step<P>(strokes: Seq<StrokeView<P>>, hits: Seq<bool>, i: int)
    requires
        0 <= i < strokes.len(),
    ensures
        unhit_from(strokes, hits, i) == if is_hit(hits, i) {
            unhit_from(strokes, hits, i + 1)
        } else {
            seq![strokes[i]] + unhit_from(strokes, hits, i + 1)
        },
{
}

/// Filtering from the front and from the back keep the same strokes.
proof fn lemma_unhit_from_start<P>(strokes: Seq<StrokeView<P>>, hits: Seq<bool>)
    ensures
        unhit_from(strokes, hits, 0) == unhit(strokes, hits),
    decreases strokes.len(),
{
    if strokes.len() > 0 {
        let pre = strokes.drop_last();
        lemma_unhit_from_start(pre, hits);
        lemma_unhit_from_split(strokes, hits, 0);
    }
}

/// Dropping the last stroke removes it, or nothing, from the end of the filtered strokes.
proof fn lemma_unhit_from_split<P>(strokes: Seq<StrokeView<P>>, hits: Seq<bool>, i: int)
    requires
        strokes.len() > 0,
        0 <= i <= strokes.len() - 1,
    ensures
        unhit_from(strokes, hits, i) == if is_hit(hits, strokes.len() - 1) {
            unhit_from(strokes.drop_last(), hits, i)
        } else {
            unhit_from(strokes.drop_last(), hits, i).push(strokes.last())
        },
    decreases strokes.len() - i,
{
    if i < strokes.len() - 1 {
        lemma_unhit_from_split(strokes, hits, i + 1);
        assert(strokes.drop_last()[i] == strokes[i]);
        if !is_hit(hits, i) {
            let tail = unhit_from(strokes.drop_last(), hits, i + 1);
            assert(seq![strokes[i]] + tail.push(strokes.last()) =~= (seq![strokes[i]] + tail).push(
                strokes.last(),
            ));
        }
    } else {
        assert(unhit_from(strokes.drop_last(), hits, i) =~= Seq::<StrokeView<P>>::empty());
        assert(unhit_from(strokes, hits, i + 1) =~= Seq::<StrokeView<P>>::empty());
        assert(seq![strokes[i]] + Seq::<StrokeView<P>>::empty() =~= Seq::<StrokeView<P>>::empty().push(
            strokes.last(),
        ));
    }
}

/// Every stroke kept by erasing was a stroke of the board before.
proof fn lemma_unhit_subset<P>(strokes: Seq<StrokeView<P>>, hits: Seq<bool>)
    ensures
        unhit(strokes, hits).len() <= strokes.len(),
        forall|i: int|
            0 <= i < unhit(strokes, hits).len() ==> strokes.contains(#[trigger] unhit(strokes, hits)[i]),
    decreases strokes.len(),
{
    if strokes.len() > 0 {
        let pre = strokes.drop_last();
        lemma_unhit_subset(pre, hits);
        let rest = unhit(pre, hits);
        assert forall|i: int| 0 <= i < unhit(strokes, hits).len() implies strokes.contains(
            #[trigger] unhit(strokes, hits)[i],
        ) by {
            if i < rest.len() {
                assert(unhit(strokes, hits)[i] == rest[i]);
                let j = choose|j: int| 0 <= j < pre.len() && pre[j] == rest[i];
                assert(strokes[j] == pre[j]);
            } else {
                assert(unhit(strokes, hits)[i] == strokes.last());
                assert(strokes[strokes.len() - 1] == strokes.last());
            }
        }
    }
}

/// Every stroke on the board, finished or being drawn, keeps at least one
/// point through every operation: strokes start with a point, only gain
/// points, and are only ever moved, kept or removed whole.
pub proof fn lemma_strokes_keep_points<P>(
    s: BoardState<P>,
    pressing: bool,
    point: P,
    far: bool,
    hits: Seq<bool>,
    c: Color,
    ev: TabletEvent,
)
    requires
        s.strokes_have_points(),
    ensures
        s.undone().strokes_have_points(),
        s.cleared().strokes_have_points(),
        s.finished().strokes_have_points(),
        s.after_input(pressing, point, far).strokes_have_points(),
        s.erased(hits).strokes_have_points(),
        s.with_color(c).strokes_have_points(),
        s.after_event(ev).strokes_have_points(),
        (BoardState { color: next_color(s.color), ..s }).strokes_have_points(),
        (BoardState { passthrough: true, ..s }).strokes_have_points(),
{
    assert(s.undone().strokes_have_points()) by {
        if s.strokes.len() > 0 {
            assert forall|i: int| 0 <= i < s.undone().strokes.len() implies (#[trigger] s.undone().strokes[i]).points.len() > 0 by {
                assert(s.undone().strokes[i] == s.strokes[i]);
            }
        }
    }
    assert(s.finished().strokes_have_points()) by {
        if let Some(cur) = s.current {
            assert forall|i: int| 0 <= i < s.finished().strokes.len() implies (#[trigger] s.finished().strokes[i]).points.len() > 0 by {
                if i < s.strokes.len() {
                    assert(s.finished().strokes[i] == s.strokes[i]);
                }
            }
        }
    }
    assert(s.erased(hits).strokes_have_points()) by {
        lemma_unhit_subset(s.strokes, hits);
        assert forall|i: int| 0 <= i < s.erased(hits).strokes.len() implies (#[trigger] s.erased(hits).strokes[i]).points.len() > 0 by {
            let j = choose|j: int| 0 <= j < s.strokes.len() && s.strokes[j] == s.erased(hits).strokes[i];
        }
    }
    let p = BoardState { pen_in_range: false, ..s };
    assert(p.finished().strokes_have_points()) by {
        if let Some(cur) = p.current {
            assert forall|i: int| 0 <= i < p.finished().strokes.len() implies (#[trigger] p.finished().strokes[i]).points.len() > 0 by {
                if i < p.strokes.len() {
                    assert(p.finished().strokes[i] == p.strokes[i]);
                }
            }
        }
    }
}

/// Finishing a stroke and then undoing removes exactly that stroke: the
/// finished strokes are back to what they were, and nothing is being drawn.
pub proof fn lemma_undo_removes_stroke_just_drawn<P>(s: BoardState<P>)
    requires
        s.current is Some,
    ensures
        s.finished().undone().strokes == s.strokes,
        s.finished().undone().current is None,
{
    assert(s.finished().undone().strokes =~= s.strokes);
}

/// Once the pen leaves the range, nothing is being drawn, and the stroke
/// that was being drawn is kept as the newest finished stroke.
pub proof fn lemma_leaving_range_finishes_stroke<P>(s: BoardState<P>)
    ensures
        s.after_event(TabletEvent::Proximity { in_range: false }).current is None,
        !s.after_event(TabletEvent::Proximity { in_range: false }).pen_in_range,
        s.current matches Some(c) ==> s.after_event(
            TabletEvent::Proximity { in_range: false },
        ).strokes == s.strokes.push(c),
        s.current is None ==> s.after_event(TabletEvent::Proximity { in_range: false }).strokes
            == s.strokes,
{
}

/// Releasing a button changes nothing and asks for nothing.
pub proof fn lemma_releases_change_nothing<P>(s: BoardState<P>, button: TabletButton)
    ensures
        s.after_event(TabletEvent::Button { button, pressed: false }) == s,
        s.event_response(TabletEvent::Button { button, pressed: false }) == EventResponse::Nothing,
{
}

/// Pressing the eraser key (express key 1) twice leaves the mode as it was;
/// so does pressing the click-through key (express key 4) twice, and the
/// window is told the new setting each time.
pub proof fn lemma_toggle_keys_undo_themselves<P>(s: BoardState<P>)
    ensures
        ({
            let press1 = TabletEvent::Button { button: TabletButton::Express1, pressed: true };
            s.after_event(press1).after_event(press1) == s && s.after_event(press1).eraser_mode
                == !s.eraser_mode
        }),
        ({
            let press4 = TabletEvent::Button { button: TabletButton::Express4, pressed: true };
            &&& s.after_event(press4).after_event(press4) == s
            &&& s.event_response(press4) == EventResponse::SetPassthrough(!s.passthrough)
            &&& s.after_event(press4).event_response(press4) == EventResponse::SetPassthrough(s.passthrough)
        }),
{
}

/// `c` after `k` turns of the colour key.
pub open spec fn color_after(c: Color, k: nat) -> Color
    decreases k,
{
    if k == 0 {
        c
    } else {
        next_color(color_after(c, (k - 1) as nat))
    }
}

/// The colour key goes through the whole palette and back: from a palette
/// colour, five turns give the same colour back, and a colour outside the
/// palette goes to the first palette colour.
pub proof fn lemma_color_cycle(c: Color)
    ensures
        palette().contains(c) ==> color_after(c, PALETTE_LEN as nat) == c,
        !palette().contains(c) ==> next_color(c) == palette()[0],
{
    let p = palette();
    reveal_with_fuel(color_after, 6);
    reveal_with_fuel(first_position, 6);
    assert(p.drop_last().drop_last().drop_last().drop_last().drop_last() =~= Seq::<Color>::empty());
    if palette().contains(c) {
        let i = choose|i: int| 0 <= i < p.len() && p[i] == c;
        assert(p[i] == c);
    } else {
        assert(p[0] != c && p[1] != c && p[2] != c && p[3] != c && p[4] != c) by {
            if p[0] == c { assert(p.contains(c)); }
            if p[1] == c { assert(p.contains(c)); }
            if p[2] == c { assert(p.contains(c)); }
            if p[3] == c { assert(p.contains(c)); }
            if p[4] == c { assert(p.contains(c)); }
        }
    }
}

/// `found` moved `k` steps round a cycle of `len` entries.
pub open spec fn cycle_after(found: Option<usize>, len: usize, k: nat) -> usize
    decreases k,
{
    if k == 0 {
        match found {
            Some(i) => i,
            None => 0,
        }
    } else {
        cycle_successor(Some(cycle_after(found, len, (k - 1) as nat)), len)
    }
}

/// Moving round a cycle visits the entries in order: `k` steps from entry
/// `i` lead to entry `(i + k) % len`, so `len` steps lead back to `i`.
pub proof fn lemma_cycle_steps(i: usize, len: usize, k: nat)
    requires
        i < len,
    ensures
        cycle_after(Some(i), len, k) == (i + k) % (len as int),
        cycle_after(Some(i), len, len as nat) == i,
{
    lemma_cycle_len(i, len, k);
    lemma_cycle_len(i, len, len as nat);
    assert((i + len) % (len as int) == i) by (nonlinear_arith)
        requires
            i < len,
    ;
}

proof fn lemma_cycle_len(i: usize, len: usize, k: nat)
    requires
        i < len,
    ensures
        cycle_after(Some(i), len, k) == (i + k) % (len as int),
    decreases k,
{
    if k == 0 {
        assert((i as int) % (len as int) == i) by (nonlinear_arith)
            requires
                i < len,
        ;
    } else {
        lemma_cycle_len(i, len, (k - 1) as nat);
        let prev = cycle_after(Some(i), len, (k - 1) as nat);
        assert(0 <= (i + k - 1) % (len as int) < len) by (nonlinear_arith)
            requires
                len > 0,
                i + k >= 1,
        ;
        assert(((i + k - 1) % (len as int) + 1) % (len as int) == (i + k) % (len as int)) by (nonlinear_arith)
            requires
                len > 0,
                i + k >= 1,
        ;
        assert(cycle_after(Some(i), len, k) == ((prev + 1) % (len as int)) as usize);
    }
}

/// While pressing in pen mode, a point far enough from the last one is
/// always added to the stroke being drawn, however many points it has, in
/// the stroke's colour; a point too close to a non-empty stroke leaves the
/// board unchanged. Nothing but the current stroke changes.
pub proof fn lemma_far_points_extend_stroke<P>(s: BoardState<P>, p: P, far: bool)
    requires
        !s.eraser_mode,
        (s.current is Some),
    ensures
        far ==> s.after_input(true, p, far).current == Some(
            (StrokeView { points: s.current->0.points.push(p), color: s.current->0.color }),
        ),
        far ==> s.input_outcome(true, far) == StrokeOutcome::PointAdded,
        far ==> s.after_input(true, p, far).current->0.points.len() == s.current->0.points.len() + 1,
        !far && s.current->0.points.len() > 0 ==> s.after_input(true, p, far) == s,
        !far && s.current->0.points.len() > 0 ==> s.input_outcome(true, far) == StrokeOutcome::PointSkipped,
        s.after_input(true, p, far).strokes == s.strokes,
        s.after_input(true, p, far).color == s.color,
{
}

/// A pen motion asks for a pressing sample exactly when its pressure is
/// above zero, whatever mode the board is in, and changes nothing on the
/// board; in eraser mode that pressing sample then asks for erasing.
pub proof fn lemma_motion_response_follows_pressure<P>(
    s: BoardState<P>,
    m: TabletEvent,
    p: P,
    far: bool,
)
    requires
        (m is PenMotion),
    ensures
        s.event_response(m) == (EventResponse::PenSample { touching: m->pressure > 0 }),
        s.after_event(m) == s,
        s.eraser_mode && m->pressure > 0 ==> s.input_outcome(true, far) == StrokeOutcome::EraseRequested,
        s.eraser_mode && m->pressure > 0 ==> s.after_input(true, p, far) == s,
{
}

/// Undo removes the last finished stroke whenever there is one, whether or
/// not a stroke is being drawn, and keeps the stroke being drawn and every
/// setting; with no finished stroke it changes nothing.
pub proof fn lemma_undo_pops_last_finished<P>(s: BoardState<P>)
    ensures
        s.strokes.len() > 0 ==> s.undone().strokes == s.strokes.take(s.strokes.len() - 1),
        s.strokes.len() > 0 ==> s.undone().strokes.len() == s.strokes.len() - 1,
        s.undone().current == s.current,
        s.undone().color == s.color,
        s.undone().eraser_mode == s.eraser_mode,
        s.undone().passthrough == s.passthrough,
        s.undone().pen_in_range == s.pen_in_range,
        s.strokes.len() == 0 ==> s.undone() == s,
{
}

} // verus!
