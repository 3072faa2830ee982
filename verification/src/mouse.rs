//! The per-frame mouse state tracker.
//!
//! A [`MouseContext`] owns three groups of state:
//!
//! - a position tracker: the most recent absolute pointer sample and the two
//!   motion deltas (the latest sample-to-sample displacement, and the
//!   displacement accumulated by the host since the last frame reset);
//! - a button edge tracker: two button-membership snapshots, `cur` for the
//!   latest processed events and `prev` for the state committed at the last
//!   frame advance, from which just-pressed / just-released edges are
//!   derived by set difference;
//! - a mirror of the cursor properties the platform window owns (icon, grab
//!   state, hidden state), so that queries never need a platform round-trip.
//!
//! The host event loop records events as they arrive, and calls
//! [`MouseContext::save_mouse_state`] and [`MouseContext::reset_delta`]
//! exactly once per frame, after its update and draw logic has run.
//! Platform calls themselves (grabbing the cursor, warping it) happen
//! outside this library; the operations that mirror them take the
//! platform's answer as a plain value and say exactly how the tracker and
//! the returned result relate to it.

use crate::error::GameError;
use crate::error::GameResult;
use vstd::prelude::*;

verus! {

/// A 2D coordinate or displacement in window-local pixel space.
#[derive(Clone, Copy, Debug, PartialEq, Eq, Structural)]
pub struct Point2 {
    pub x: i64,
    pub y: i64,
}

impl Point2 {
    /// The all-zero point: the value of every position and delta in a
    /// freshly constructed tracker, and of a cleared frame delta.
    pub open spec fn origin() -> Point2 {
        Point2 { x: 0, y: 0 }
    }
}

/// A mouse button identifier: a small closed vocabulary plus a numbered
/// escape hatch for extra hardware buttons. No ordering is implied; the
/// tracker only ever tests set membership.
#[derive(Clone, Copy, Debug, PartialEq, Eq, Structural)]
pub enum MouseButton {
    Left,
    Right,
    Middle,
    Back,
    Forward,
    Other(u16),
}

/// The shape the platform draws the cursor with: a small closed enumeration.
#[derive(Clone, Copy, Debug, PartialEq, Eq, Structural)]
pub enum CursorIcon {
    Default,
    Crosshair,
    Pointer,
    Move,
    Text,
    Wait,
    Help,
    Progress,
    NotAllowed,
    Grab,
    Grabbing,
}

/// The abstract state of a [`MouseContext`]; every contract in this module
/// speaks in terms of it.
///
/// `cur` and `prev` are the two button-membership snapshots that edge
/// detection compares: `cur` reflects the latest processed events, `prev`
/// is `cur` as it was captured at the last frame advance.
#[verifier::ext_equal]
pub struct MouseView {
    pub pos: Point2,
    pub sample_delta: Point2,
    pub frame_delta: Point2,
    pub cur: Set<MouseButton>,
    pub prev: Set<MouseButton>,
    pub icon: CursorIcon,
    pub grabbed: bool,
    pub hidden: bool,
}

/// Membership snapshot `s` after recording one button event: `b` joins the
/// snapshot when pressed and leaves it when released.
pub open spec fn with_button(s: Set<MouseButton>, b: MouseButton, pressed: bool) -> Set<
    MouseButton,
> {
    if pressed {
        s.insert(b)
    } else {
        s.remove(b)
    }
}

/// Tracker state after recording one button event: only the current
/// snapshot changes.
pub open spec fn after_button(v: MouseView, b: MouseButton, pressed: bool) -> MouseView {
    MouseView { cur: with_button(v.cur, b, pressed), ..v }
}

/// Tracker state after a frame advance: the current snapshot is committed
/// as the new previous snapshot and nothing else changes.
pub open spec fn advanced(v: MouseView) -> MouseView {
    MouseView { prev: v.cur, ..v }
}

/// `b` was pressed this frame: down now, up at the last frame advance.
pub open spec fn just_pressed(v: MouseView, b: MouseButton) -> bool {
    v.cur.contains(b) && !v.prev.contains(b)
}

/// `b` was released this frame: up now, down at the last frame advance.
pub open spec fn just_released(v: MouseView, b: MouseButton) -> bool {
    !v.cur.contains(b) && v.prev.contains(b)
}

/// Stores state information for the mouse.
#[derive(Debug)]
pub struct MouseContext {
    last_position: Point2,
    last_delta: Point2,
    delta: Point2,
    buttons_pressed: Vec<MouseButton>,
    cursor_type: CursorIcon,
    cursor_grabbed: bool,
    cursor_hidden: bool,
    previous_buttons_pressed: Vec<MouseButton>,
}

impl View for MouseContext {
    type V = MouseView;

    closed spec fn view(&self) -> MouseView {
        MouseView {
            pos: self.last_position,
            sample_delta: self.last_delta,
            frame_delta: self.delta,
            cur: self.buttons_pressed@.to_set(),
            prev: self.previous_buttons_pressed@.to_set(),
            icon: self.cursor_type,
            grabbed: self.cursor_grabbed,
            hidden: self.cursor_hidden,
        }
    }
}

/// Looks for `b` in `v` and reports the index of an occurrence.
fn find_button(v: &Vec<MouseButton>, b: MouseButton) -> (r: Option<usize>)
    ensures
        match r {
            Some(i) => i < v@.len() && v@[i as int] == b,
            None => !v@.contains(b),
        },
{
    let mut i: usize = 0;
    while i < v.len()
        invariant
            i <= v@.len(),
            forall|j: int| 0 <= j < i ==> v@[j] != b,
        decreases v@.len() - i,
    {
        if v[i] == b {
            return Some(i);
        }
        i = i + 1;
    }
    None
}

/// Membership test phrased over the snapshot the view derives from `v`.
fn contains_button(v: &Vec<MouseButton>, b: MouseButton) -> (r: bool)
    ensures
        r == v@.to_set().contains(b),
{
    let found = find_button(v, b);
    proof {
        match found {
            Some(i) => {
                assert(v@[i as int] == b);
                assert(v@.contains(b));
            },
            None => {},
        }
    }
    found.is_some()
}

/// Element-for-element copy, so a snapshot can be committed without
/// touching the original.
fn copy_buttons(v: &Vec<MouseButton>) -> (r: Vec<MouseButton>)
    ensures
        r@ == v@,
{
    let mut r: Vec<MouseButton> = Vec::new();
    let mut i: usize = 0;
    while i < v.len()
        invariant
            i <= v@.len(),
            r@ == v@.subrange(0, i as int),
        decreases v@.len() - i,
    {
        r.push(v[i]);
        proof {
            assert(v@.subrange(0, i + 1 as int) =~= v@.subrange(0, i as int).push(v@[i as int]));
        }
        i = i + 1;
    }
    proof {
        assert(v@.subrange(0, v@.len() as int) =~= v@);
    }
    r
}

/// Removing the only occurrence of an element from a duplicate-free
/// sequence removes exactly that element from the derived membership set,
/// and keeps the sequence duplicate-free.
proof fn lemma_remove_to_set(s: Seq<MouseButton>, i: int)
    requires
        0 <= i < s.len(),
        s.no_duplicates(),
    ensures
        s.remove(i).to_set() =~= s.to_set().remove(s[i]),
        s.remove(i).no_duplicates(),
{
    s.remove_ensures(i);
    let t = s.remove(i);
    assert forall|p: int, q: int|
        0 <= p < t.len() && 0 <= q < t.len() && p != q implies t[p] != t[q] by {
        let sp: int = if p < i {
            p
        } else {
            p + 1
        };
        let sq: int = if q < i {
            q
        } else {
            q + 1
        };
        assert(t[p] == s[sp]);
        assert(t[q] == s[sq]);
    }
    assert forall|x: MouseButton| t.contains(x) implies s.contains(x) && x != s[i] by {
        let j = choose|j: int| 0 <= j < t.len() && t[j] == x;
        let sj: int = if j < i {
            j
        } else {
            j + 1
        };
        assert(s[sj] == x);
        assert(sj != i);
    }
    assert forall|x: MouseButton| s.contains(x) && x != s[i] implies t.contains(x) by {
        let j = choose|j: int| 0 <= j < s.len() && s[j] == x;
        if j < i {
            assert(t[j] == x);
        } else {
            assert(t[j - 1] == x);
        }
    }
}

/// Pushing an element that is absent from a duplicate-free sequence keeps
/// it duplicate-free.
proof fn lemma_push_fresh_no_duplicates(s: Seq<MouseButton>, b: MouseButton)
    requires
        s.no_duplicates(),
        !s.contains(b),
    ensures
        s.push(b).no_duplicates(),
{
    let t = s.push(b);
    assert forall|p: int, q: int|
        0 <= p < t.len() && 0 <= q < t.len() && p != q implies t[p] != t[q] by {
        if p < s.len() && q < s.len() {
        } else if q == s.len() {
            if t[p] == b {
                assert(s[p] == b);
                assert(s.contains(b));
            }
        } else {
            if t[q] == b {
                assert(s[q] == b);
                assert(s.contains(b));
            }
        }
    }
}

impl MouseContext {
    /// The button vectors hold each member at most once, so that removing a
    /// button's single occurrence removes it from the membership snapshot.
    #[verifier::type_invariant]
    closed spec fn distinct_buttons(&self) -> bool {
        &&& self.buttons_pressed@.no_duplicates()
        &&& self.previous_buttons_pressed@.no_duplicates()
    }

    /// The abstract state every freshly constructed tracker starts in: no
    /// buttons in either snapshot, all positions and deltas zero, the
    /// default cursor shape, neither grabbed nor hidden.
    pub open spec fn initial_view() -> MouseView {
        MouseView {
            pos: Point2::origin(),
            sample_delta: Point2::origin(),
            frame_delta: Point2::origin(),
            cur: Set::<MouseButton>::empty(),
            prev: Set::<MouseButton>::empty(),
            icon: CursorIcon::Default,
            grabbed: false,
            hidden: false,
        }
    }

    /// Creates a tracker in the initial state.
    pub fn new() -> (r: MouseContext)
        ensures
            r@ == MouseContext::initial_view(),
    {
        let r = MouseContext {
            last_position: Point2 { x: 0, y: 0 },
            last_delta: Point2 { x: 0, y: 0 },
            delta: Point2 { x: 0, y: 0 },
            buttons_pressed: Vec::new(),
            cursor_type: CursorIcon::Default,
            cursor_grabbed: false,
            cursor_hidden: false,
            previous_buttons_pressed: Vec::new(),
        };
        proof {
            assert(r@ =~= MouseContext::initial_view());
        }
        r
    }

    /// Records the most recent absolute pointer sample, in window-local
    /// pixel coordinates. Any value is accepted; only the mirror changes.
    pub fn set_last_position(&mut self, p: Point2)
        ensures
            final(self)@ == (MouseView { pos: p, ..old(self)@ }),
    {
        proof {
            use_type_invariant(&*self);
        }
        self.last_position = p;
    }

    /// Records the platform-reported displacement of the most recent motion
    /// sample. The host supplies the value; the tracker keeps only the
    /// latest one, never a sum.
    pub fn set_last_delta(&mut self, p: Point2)
        ensures
            final(self)@ == (MouseView { sample_delta: p, ..old(self)@ }),
    {
        proof {
            use_type_invariant(&*self);
        }
        self.last_delta = p;
    }

    /// Resets the value returned by [`MouseContext::delta`] to zero. The
    /// host must call this exactly once per frame, right at the end, after
    /// `draw` and `update` have consumed the frame delta; the latest
    /// sample delta is untouched.
    pub fn reset_delta(&mut self)
        ensures
            final(self)@ == (MouseView { frame_delta: Point2::origin(), ..old(self)@ }),
    {
        proof {
            use_type_invariant(&*self);
        }
        self.delta = Point2 { x: 0, y: 0 };
    }

    /// Stores the cumulative displacement since the last frame reset. The
    /// tracker stores the latest value it is handed rather than summing, so
    /// the host must pass an already-accumulated running sum.
    pub fn set_delta(&mut self, p: Point2)
        ensures
            final(self)@ == (MouseView { frame_delta: p, ..old(self)@ }),
    {
        proof {
            use_type_invariant(&*self);
        }
        self.delta = p;
    }

    /// Records a button event: `button` joins the current snapshot when
    /// pressed and leaves it when released. Within one frame the net effect
    /// of several calls for one button is last-write-wins, and repeating a
    /// state is idempotent; the previous snapshot never changes here.
    pub fn set_button(&mut self, button: MouseButton, pressed: bool)
        ensures
            final(self)@ == after_button(old(self)@, button, pressed),
    {
        proof {
            use_type_invariant(&*self);
        }
        let found = find_button(&self.buttons_pressed, button);
        if pressed {
            if found.is_none() {
                let mut buttons: Vec<MouseButton> = Vec::new();
                core::mem::swap(&mut buttons, &mut self.buttons_pressed);
                let ghost s = buttons@;
                buttons.push(button);
                proof {
                    lemma_push_fresh_no_duplicates(s, button);
                    s.lemma_push_to_set_commute(button);
                }
                self.buttons_pressed = buttons;
                proof {
                    assert(self@ =~= after_button(old(self)@, button, pressed));
                }
            } else {
                proof {
                    assert(old(self)@.cur.contains(button));
                    assert(self@.cur =~= old(self)@.cur.insert(button));
                    assert(self@ =~= after_button(old(self)@, button, pressed));
                }
            }
        } else {
            match found {
                Some(i) => {
                    let mut buttons: Vec<MouseButton> = Vec::new();
                    core::mem::swap(&mut buttons, &mut self.buttons_pressed);
                    let ghost s = buttons@;
                    let _ = buttons.remove(i);
                    proof {
                        lemma_remove_to_set(s, i as int);
                    }
                    self.buttons_pressed = buttons;
                    proof {
                        assert(self@ =~= after_button(old(self)@, button, pressed));
                    }
                },
                None => {
                    proof {
                        assert(!old(self)@.cur.contains(button));
                        assert(self@.cur =~= old(self)@.cur.remove(button));
                        assert(self@ =~= after_button(old(self)@, button, pressed));
                    }
                },
            }
        }
    }

    /// Returns whether or not the given mouse button has been pressed this
    /// frame: down now, up at the last frame advance.
    pub fn button_just_pressed(&self, button: MouseButton) -> (r: bool)
        ensures
            r == just_pressed(self@, button),
    {
        contains_button(&self.buttons_pressed, button) && !contains_button(
            &self.previous_buttons_pressed,
            button,
        )
    }

    /// Returns whether or not the given mouse button has been released this
    /// frame: up now, down at the last frame advance.
    pub fn button_just_released(&self, button: MouseButton) -> (r: bool)
        ensures
            r == just_released(self@, button),
    {
        !contains_button(&self.buttons_pressed, button) && contains_button(
            &self.previous_buttons_pressed,
            button,
        )
    }

    /// Copies the current state of the mouse buttons into the previous
    /// snapshot. A host running its own event loop must call this exactly
    /// once at the end of every update, after all edge queries for the
    /// frame; it is the single synchronization point that makes
    /// just-pressed and just-released well-defined.
    pub fn save_mouse_state(&mut self)
        ensures
            final(self)@ == advanced(old(self)@),
    {
        proof {
            use_type_invariant(&*self);
        }
        self.previous_buttons_pressed = copy_buttons(&self.buttons_pressed);
        proof {
            assert(self@ =~= advanced(old(self)@));
        }
    }

    /// Returns whether or not the given mouse button is pressed.
    pub fn button_pressed(&self, button: MouseButton) -> (r: bool)
        ensures
            r == self@.cur.contains(button),
    {
        contains_button(&self.buttons_pressed, button)
    }

    /// Returns the current mouse cursor type of the window, as mirrored by
    /// the last call to [`MouseContext::set_cursor_type`].
    pub fn cursor_type(&self) -> (r: CursorIcon)
        ensures
            r == self@.icon,
    {
        self.cursor_type
    }

    /// Records the mouse cursor type of the window. The platform call that
    /// applies the icon cannot fail, so the mirror is updated
    /// unconditionally; the caller forwards the same icon to the window.
    pub fn set_cursor_type(&mut self, cursor_type: CursorIcon)
        ensures
            final(self)@ == (MouseView { icon: cursor_type, ..old(self)@ }),
    {
        proof {
            use_type_invariant(&*self);
        }
        self.cursor_type = cursor_type;
    }

    /// Get whether or not the mouse is grabbed (confined to the window).
    pub fn cursor_grabbed(&self) -> (r: bool)
        ensures
            r == self@.grabbed,
    {
        self.cursor_grabbed
    }

    /// Records whether or not the mouse is grabbed (confined to the
    /// window). `platform` is the platform's answer to the grab request the
    /// caller made; a platform refusal is surfaced as
    /// [`GameError::WindowError`] carrying the platform's message, while
    /// the mirror reflects the requested state even on failure, a
    /// deliberate, caller-visible choice this tracker keeps consistently.
    pub fn set_cursor_grabbed(&mut self, grabbed: bool, platform: Result<(), String>) -> (r:
        GameResult<()>)
        ensures
            final(self)@ == (MouseView { grabbed: grabbed, ..old(self)@ }),
            r is Ok <==> platform is Ok,
            platform matches Err(m) ==> r == Err::<(), GameError>(GameError::WindowError(m)),
    {
        proof {
            use_type_invariant(&*self);
        }
        self.cursor_grabbed = grabbed;
        match platform {
            Ok(()) => Ok(()),
            Err(m) => Err(GameError::WindowError(m)),
        }
    }

    /// Get whether or not the mouse is hidden (invisible).
    pub fn cursor_hidden(&self) -> (r: bool)
        ensures
            r == self@.hidden,
    {
        self.cursor_hidden
    }

    /// Records whether or not the mouse is hidden (invisible). Visibility
    /// changes are treated as infallible by this layer, so the mirror is
    /// updated unconditionally; the caller forwards the change to the
    /// window.
    pub fn set_cursor_hidden(&mut self, hidden: bool)
        ensures
            final(self)@ == (MouseView { hidden: hidden, ..old(self)@ }),
    {
        proof {
            use_type_invariant(&*self);
        }
        self.cursor_hidden = hidden;
    }

    /// Get the current position of the mouse cursor, in pixels.
    /// Complement to [`MouseContext::set_position`]. Uses strictly
    /// window-only coordinates.
    pub fn position(&self) -> (r: Point2)
        ensures
            r == self@.pos,
    {
        self.last_position
    }

    /// Records the current position of the mouse cursor, in pixels, using
    /// strictly window-only coordinates. `platform_ok` is whether the
    /// platform accepted the caller's request to warp the cursor there; on
    /// refusal a [`GameError::WindowError`] is returned while the mirror
    /// keeps the requested position, consistently with
    /// [`MouseContext::set_cursor_grabbed`].
    pub fn set_position(&mut self, point: Point2, platform_ok: bool) -> (r: GameResult<()>)
        ensures
            final(self)@ == (MouseView { pos: point, ..old(self)@ }),
            r is Ok <==> platform_ok,
            !platform_ok ==> (r matches Err(e) && e.text()
                == "Couldn't set mouse cursor position!"@),
    {
        proof {
            use_type_invariant(&*self);
        }
        self.last_position = point;
        if platform_ok {
            Ok(())
        } else {
            Err(GameError::WindowError("Couldn't set mouse cursor position!".to_owned()))
        }
    }

    /// Get the distance the cursor was moved during the current frame, in
    /// pixels: the value the host accumulated since the last
    /// [`MouseContext::reset_delta`].
    pub fn delta(&self) -> (r: Point2)
        ensures
            r == self@.frame_delta,
    {
        self.delta
    }

    /// Get the distance the cursor was moved between the latest two motion
    /// samples.
    pub fn last_delta(&self) -> (r: Point2)
        ensures
            r == self@.sample_delta,
    {
        self.last_delta
    }
}

impl Default for MouseContext {
    /// Same initial state as [`MouseContext::new`].
    fn default() -> (r: MouseContext)
        ensures
            r@ == MouseContext::initial_view(),
    {
        MouseContext::new()
    }
}

/// A press recorded while the previous snapshot is still empty — that is,
/// before any frame advance has run — reads as a just-pressed edge and not
/// as a just-released one.
pub proof fn lemma_press_reads_as_edge(v: MouseView, b: MouseButton)
    requires
        v.prev == Set::<MouseButton>::empty(),
    ensures
        just_pressed(after_button(v, b, true), b),
        !just_released(after_button(v, b, true), b),
{
}

/// One frame advance after a just-pressed edge clears the edge while the
/// button stays pressed: held, not edge. More generally, immediately after
/// a frame advance no button shows either edge.
pub proof fn lemma_advance_clears_edges(v: MouseView, b: MouseButton)
    requires
        just_pressed(v, b),
    ensures
        !just_pressed(advanced(v), b),
        !just_released(advanced(v), b),
        advanced(v).cur.contains(b),
{
}

/// Recording the same button state twice in one frame has the same effect
/// on the tracker state as recording it once.
pub proof fn lemma_set_button_idempotent(v: MouseView, b: MouseButton, pressed: bool)
    ensures
        after_button(after_button(v, b, pressed), b, pressed) == after_button(v, b, pressed),
{
    assert(after_button(after_button(v, b, pressed), b, pressed) =~= after_button(
        v,
        b,
        pressed,
    ));
}

/// A press and release within the same frame, before any frame advance,
/// leaves the button unpressed; and once the next frame advance commits
/// that state, neither a just-pressed nor a just-released edge is
/// observable: same-frame flicker never shows up as an edge.
pub proof fn lemma_same_frame_flicker_not_observable(v: MouseView, b: MouseButton)
    ensures
        !after_button(after_button(v, b, true), b, false).cur.contains(b),
        !just_pressed(advanced(after_button(after_button(v, b, true), b, false)), b),
        !just_released(advanced(after_button(after_button(v, b, true), b, false)), b),
{
}

} // verus!
