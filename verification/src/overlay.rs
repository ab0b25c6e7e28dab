use vstd::prelude::*;

verus! {

/// Smallest panel width or height the hit test accepts.
pub const PANEL_MIN: u32 = 100;
/// Largest panel width or height the hit test accepts.
pub const PANEL_MAX: u32 = 4000;

/// `v` brought into `[PANEL_MIN, PANEL_MAX]`, as `v.clamp(100, 4000)` does.
pub open spec fn clamp_panel(v: u32) -> u32 {
    if v < PANEL_MIN {
        PANEL_MIN
    } else if v > PANEL_MAX {
        PANEL_MAX
    } else {
        v
    }
}

/// Hit-test rectangle of the overlay panel, in physical pixels: clicks
/// inside it are captured by the overlay, clicks outside pass through to
/// the game. Its width and height always lie in `[PANEL_MIN, PANEL_MAX]`.
pub struct PanelHitRect {
    width: u32,
    height: u32,
}

impl View for PanelHitRect {
    type V = (u32, u32);

    closed spec fn view(&self) -> (u32, u32) {
        (self.width, self.height)
    }
}

impl PanelHitRect {
    #[verifier::type_invariant]
    spec fn within_bounds(self) -> bool {
        &&& PANEL_MIN <= self.width <= PANEL_MAX
        &&& PANEL_MIN <= self.height <= PANEL_MAX
    }

    /// The starting panel: 320 × 400.
    pub fn new() -> (r: PanelHitRect)
        ensures
            r@ == (320u32, 400u32),
    {
        PanelHitRect { width: 320, height: 400 }
    }
}

fn clamp_to_panel(v: u32) -> (r: u32)
    ensures
        r == clamp_panel(v),
{
    if v < PANEL_MIN {
        PANEL_MIN
    } else if v > PANEL_MAX {
        PANEL_MAX
    } else {
        v
    }
}

/// Updates the hit-test rectangle, as the frontend does when the panel
/// size changes; each dimension is clamped to `[100, 4000]`.
pub fn set_panel_size(rect: &mut PanelHitRect, width: u32, height: u32)
    ensures
        final(rect)@ == (clamp_panel(width), clamp_panel(height)),
{
    let clamped_w = clamp_to_panel(width);
    let clamped_h = clamp_to_panel(height);
    *rect = PanelHitRect { width: clamped_w, height: clamped_h };
}

/// Current hit-test rectangle size, `(width, height)`.
pub fn get_panel_size(rect: &PanelHitRect) -> (r: (u32, u32))
    ensures
        r == rect@,
        PANEL_MIN <= r.0 <= PANEL_MAX,
        PANEL_MIN <= r.1 <= PANEL_MAX,
{
    proof { use_type_invariant(rect); }
    (rect.width, rect.height)
}

/// The size read back after a resize is the requested size clamped to
/// `[100, 4000]`; every size read lies in that range, and resizing to a size
/// already in range keeps it.
pub proof fn lemma_panel_size_roundtrip(width: u32, height: u32)
    ensures
        PANEL_MIN <= clamp_panel(width) <= PANEL_MAX,
        PANEL_MIN <= clamp_panel(height) <= PANEL_MAX,
        clamp_panel(clamp_panel(width)) == clamp_panel(width),
        PANEL_MIN <= width <= PANEL_MAX ==> clamp_panel(width) == width,
{
}

/// The cursor lies inside the panel placed at the overlay window's position
/// (positions and sizes taken as integers).
pub open spec fn cursor_over_panel(panel: (u32, u32), cursor: (i32, i32), window: (i32, i32)) -> bool {
    &&& cursor.0 >= window.0
    &&& cursor.0 < window.0 + panel.0
    &&& cursor.1 >= window.1
    &&& cursor.1 < window.1 + panel.1
}

/// One hit-test poll from passthrough state `ignoring`: the new state, which
/// is passthrough exactly when the cursor is outside the panel, and the call
/// `set_ignore_cursor_events(ignore)` to make, `Some(ignore)`, exactly when
/// the state changes.
pub open spec fn spec_hit_step(
    ignoring: bool,
    panel: (u32, u32),
    cursor: (i32, i32),
    window: (i32, i32),
) -> (bool, Option<bool>) {
    let should_ignore = !cursor_over_panel(panel, cursor, window);
    if should_ignore != ignoring {
        (should_ignore, Some(should_ignore))
    } else {
        (ignoring, None)
    }
}

/// State of the cursor hit-test loop: whether the overlay currently lets
/// cursor events pass through to the game.
pub struct HitTest {
    pub ignoring: bool,
}

impl HitTest {
    /// The overlay starts in passthrough mode.
    pub fn new() -> (r: HitTest)
        ensures
            r.ignoring,
    {
        HitTest { ignoring: true }
    }

    /// One poll of the hit-test loop, with the cursor and the overlay window
    /// at the given screen positions: cursor events should pass through
    /// exactly when the cursor is outside the panel. Answers `Some(ignore)`
    /// when `set_ignore_cursor_events(ignore)` must be called, which is
    /// exactly when that differs from the current state, and `None` otherwise.
    pub fn step(&mut self, rect: &PanelHitRect, cursor: (i32, i32), window: (i32, i32)) -> (r: Option<bool>)
        ensures
            (final(self).ignoring, r) == spec_hit_step(old(self).ignoring, rect@, cursor, window),
    {
        let (pw, ph) = get_panel_size(rect);
        let right: i64 = window.0 as i64 + pw as i64;
        let bottom: i64 = window.1 as i64 + ph as i64;
        let over_panel = cursor.0 >= window.0 && (cursor.0 as i64) < right && cursor.1 >= window.1
            && (cursor.1 as i64) < bottom;
        let should_ignore = !over_panel;
        if should_ignore != self.ignoring {
            self.ignoring = should_ignore;
            Some(should_ignore)
        } else {
            None
        }
    }
}


/// After a poll the overlay lets the cursor through exactly when it is
/// outside the panel, and polling again with the cursor, window and panel
/// unchanged changes nothing and calls nothing.
pub proof fn lemma_hit_step_settles(
    ignoring: bool,
    panel: (u32, u32),
    cursor: (i32, i32),
    window: (i32, i32),
)
    ensures
        spec_hit_step(ignoring, panel, cursor, window).0 == !cursor_over_panel(panel, cursor, window),
        ({
            let after = spec_hit_step(ignoring, panel, cursor, window).0;
            spec_hit_step(after, panel, cursor, window) == (after, None::<bool>)
        }),
{
}


/// The panel spans from the window's position, `width` pixels to the right
/// and `height` down, left and top edges included, right and bottom edges
/// excluded: after a poll the overlay lets clicks through exactly when the
/// cursor is left of, right of, above or below that area, and it asks for a
/// change of the passthrough setting exactly when that differs from before.
pub proof fn lemma_hit_step_by_coordinates(
    ignoring: bool,
    width: u32,
    height: u32,
    cx: i32,
    cy: i32,
    wx: i32,
    wy: i32,
)
    ensures
        ({
            let inside = wx <= cx && (cx as int) < (wx as int) + (width as int) && wy <= cy && (cy as int) < (wy as int)
                + (height as int);
            let (after, call) = spec_hit_step(ignoring, (width, height), (cx, cy), (wx, wy));
            &&& cursor_over_panel((width, height), (cx, cy), (wx, wy)) == inside
            &&& after == !inside
            &&& call == (if !inside != ignoring { Some(!inside) } else { None::<bool> })
        }),
{
}

/// A resize keeps each requested dimension that lies in `[100, 4000]`,
/// raises a smaller one to 100 and lowers a larger one to 4000.
pub proof fn lemma_clamp_by_value(v: u32)
    ensures
        v < 100 ==> clamp_panel(v) == 100u32,
        v > 4000 ==> clamp_panel(v) == 4000u32,
        100 <= v <= 4000 ==> clamp_panel(v) == v,
{
}
} // verus!
