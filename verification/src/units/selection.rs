//! Drag-selection: while the primary button is held, a translucent green box
//! is stretched from where the drag began to the cursor.

use vstd::prelude::*;

use crate::color::Srgba8;
use crate::geometry::{spec_rect_between, rect_between, ScreenPos, ScreenRect};

verus! {

/// Whether a drag-selection is under way.
#[derive(Debug, Hash, Eq, PartialEq, Clone, Copy, Structural)]
pub enum SelectionState {
    Idle,
    Selecting,
}

impl Default for SelectionState {
    fn default() -> (r: Self)
        ensures
            r == SelectionState::Idle,
    {
        SelectionState::Idle
    }
}

/// The drag-selection box: where the drag began, in screen coordinates.
#[derive(Debug, Clone, Copy, PartialEq, Eq, Structural)]
pub struct SelectionBox {
    pub origin: ScreenPos,
}

/// What the engine spawns for the selection box: the box component, its
/// screen rectangle, and its translucent green fill.
#[derive(Debug, Clone, Copy, PartialEq, Eq, Structural)]
pub struct SelectionBoxSpawn {
    pub selection_box: SelectionBox,
    pub node: ScreenRect,
    pub color: Srgba8,
}

/// A drag began: spawn the selection box, empty, at the cursor.  With the
/// cursor outside the window nothing is spawned.
pub fn create_selection_box(cursor: Option<ScreenPos>) -> (r: Option<SelectionBoxSpawn>)
    ensures
        cursor is None ==> r is None,
        cursor matches Option::Some(p) ==> r == Option::Some(
            SelectionBoxSpawn {
                selection_box: SelectionBox { origin: p },
                node: ScreenRect { left: p.x, top: p.y, width: 0, height: 0 },
                color: Srgba8 { red: 0, green: 200, blue: 0, alpha: 50 },
            },
        ),
{
    match cursor {
        Option::Some(p) => Option::Some(
            SelectionBoxSpawn {
                selection_box: SelectionBox { origin: p },
                node: ScreenRect { left: p.x, top: p.y, width: 0, height: 0 },
                color: Srgba8 { red: 0, green: 200, blue: 0, alpha: 50 },
            },
        ),
        Option::None => Option::None,
    }
}

/// The primary button drives the drag: holding it selects, letting it go
/// ends the drag and despawns the box — which asks for exactly one box, and
/// with any other number the box list is left alone.
pub fn mouse_click(pressed_left: bool, just_released_left: bool, boxes: &Vec<u64>) -> (r: (
    Option<SelectionState>,
    Option<u64>,
))
    ensures
        r.0 == if just_released_left {
            Option::Some(SelectionState::Idle)
        } else if pressed_left {
            Option::Some(SelectionState::Selecting)
        } else {
            Option::<SelectionState>::None
        },
        r.1 == if just_released_left && boxes@.len() == 1 {
            Option::Some(boxes@[0])
        } else {
            Option::<u64>::None
        },
{
    let mut next: Option<SelectionState> = Option::None;
    let mut despawn: Option<u64> = Option::None;
    if pressed_left {
        next = Option::Some(SelectionState::Selecting);
    }
    if just_released_left {
        next = Option::Some(SelectionState::Idle);
        if boxes.len() == 1 {
            despawn = Option::Some(boxes[0]);
        }
    }
    (next, despawn)
}

/// The drag moved: the box becomes the bounding rectangle of its origin and
/// the cursor.  With the cursor outside the window the box is left alone.
pub fn update_selection_box(origin: ScreenPos, cursor: Option<ScreenPos>) -> (r: Option<
    ScreenRect,
>)
    requires
        origin.in_bounds(),
        cursor matches Option::Some(m) ==> m.in_bounds(),
    ensures
        cursor is None ==> r is None,
        cursor matches Option::Some(m) ==> r == Option::Some(spec_rect_between(origin, m)),
{
    match cursor {
        Option::Some(m) => Option::Some(rect_between(origin, m)),
        Option::None => Option::None,
    }
}

/// The drag-selection slice of the engine world: the drag state, the spawned
/// selection boxes, and the id the next spawned box gets.
#[derive(Debug, Clone, PartialEq, Eq)]
pub struct SelectionBoxWorld {
    pub state: SelectionState,
    pub boxes: Vec<u64>,
    pub next_entity: u64,
}

/// The mathematical shadow of a [`SelectionBoxWorld`].
#[verifier::ext_equal]
pub struct SelectionBoxView {
    pub state: SelectionState,
    pub boxes: Seq<u64>,
    pub next_entity: u64,
}

impl View for SelectionBoxWorld {
    type V = SelectionBoxView;

    open spec fn view(&self) -> SelectionBoxView {
        SelectionBoxView { state: self.state, boxes: self.boxes@, next_entity: self.next_entity }
    }
}

/// The drag-selection machine as one mathematical step: the click decision,
/// then the despawn it asked for, then the state change, then the box spawn
/// on entering a drag with the cursor in the window.
pub open spec fn spec_selection_step(
    v: SelectionBoxView,
    cursor: Option<ScreenPos>,
    pressed_left: bool,
    just_released_left: bool,
) -> SelectionBoxView {
    let after_despawn = if just_released_left && v.boxes.len() == 1 {
        SelectionBoxView { boxes: Seq::<u64>::empty(), ..v }
    } else {
        v
    };
    if just_released_left {
        SelectionBoxView { state: SelectionState::Idle, ..after_despawn }
    } else if pressed_left {
        if v.state != SelectionState::Selecting && cursor is Some {
            SelectionBoxView {
                state: SelectionState::Selecting,
                boxes: after_despawn.boxes.push(v.next_entity),
                next_entity: (v.next_entity + 1) as u64,
                ..after_despawn
            }
        } else {
            SelectionBoxView { state: SelectionState::Selecting, ..after_despawn }
        }
    } else {
        after_despawn
    }
}

/// The drag-selection invariant: at most one box exists, and none while no
/// drag is under way.
pub open spec fn box_inv(v: SelectionBoxView) -> bool {
    &&& v.boxes.len() <= 1
    &&& v.state == SelectionState::Idle ==> v.boxes.len() == 0
}

/// Drive one frame of input through the drag-selection systems: the click
/// decision, then the despawn it asked for, then — as the engine does when
/// the state changes — the box spawn on entering a drag.
///
/// The box invariant is preserved: at most one selection box ever exists,
/// and none outside a drag.
pub fn selection_step(
    w: &mut SelectionBoxWorld,
    cursor: Option<ScreenPos>,
    pressed_left: bool,
    just_released_left: bool,
)
    requires
        box_inv(old(w)@),
        old(w).next_entity < u64::MAX,
    ensures
        box_inv(final(w)@),
        final(w)@ == spec_selection_step(old(w)@, cursor, pressed_left, just_released_left),
{
    let (next, despawn) = mouse_click(pressed_left, just_released_left, &w.boxes);
    if let Option::Some(_doomed) = despawn {
        w.boxes = Vec::new();
    }
    if let Option::Some(s) = next {
        let entering = s != w.state;
        w.state = s;
        if entering && s == SelectionState::Selecting {
            if let Option::Some(_spawn) = create_selection_box(cursor) {
                let id = w.next_entity;
                w.boxes.push(id);
                w.next_entity = w.next_entity + 1;
            }
        }
    }
}

} // verus!
