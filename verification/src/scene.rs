//! The frame logic: what a key press changes, where the parts of the scene
//! go on a terminal of a given size, and what one frame paints.

use crate::fire::{draws_cover, fire_commands, stepped, FireGrid};
use crate::generics::Vec2;
use crate::graphics::{measured, Graphics};
use crate::term::{
    bubble_drawing, clear_commands, drawing_commands, text_commands, Color, CommandView, Term,
};
use crate::text::{decimal, push_decimal};
use crate::ttc::{broken_down, seconds_until, Moment, TimeToChristmas};
use vstd::prelude::*;
use vstd::std_specs::ops::{DivSpec, MulSpec, SubSpec};
use vstd::string::StringExecFns;

verus! {

/// The highest number of frames per second.
pub const FPS_CAP: u64 = 18;

/// The time that one frame may take at `FPS_CAP`, in milliseconds.
pub const FRAME_BUDGET_MS: u64 = 1000 / FPS_CAP;

/// How many logs lie under the fire, side by side.
pub const LOG_COUNT: u16 = 3;

/// The number of columns of the fire.
pub const FIRE_WIDTH: usize = 50;

/// The number of rows of the fire.
pub const FIRE_HEIGHT: usize = 20;

/// How long to pause after a frame whose work took `worked_ms`, so that the
/// frame fills its budget: what is left of `budget_ms`, and nothing where the
/// work took longer.
pub fn frame_pause(budget_ms: u64, worked_ms: u64) -> (pause_ms: u64)
    ensures
        pause_ms == if worked_ms >= budget_ms {
            0
        } else {
            budget_ms - worked_ms
        },
{
    budget_ms.saturating_sub(worked_ms)
}

/// A key press that stands for a character.
#[derive(Debug, Copy, Clone, PartialEq, Eq, Structural)]
pub struct Key {
    pub code: char,
    /// Whether Control was held, and no other modifier.
    pub control: bool,
}

/// What the driver of the frame loop does after a tick.
#[derive(Debug, Copy, Clone, PartialEq, Eq, Structural)]
pub enum Flow {
    /// A frame was painted: show it, pause, and go on.
    Continue,
    /// The last frame was painted: show it, pause, and leave.
    Finish,
    /// Leave at once; nothing was painted.
    Abort,
}

/// What the user has switched on and off.
#[derive(Debug, Copy, Clone, PartialEq, Eq, Structural)]
pub struct Toggles {
    /// Cleared by `q`; the frame in which that happens is the last.
    pub running: bool,
    /// Flipped by `i`: the frame rate and the terminal's size in the top left
    /// corner.
    pub show_stats: bool,
    /// Flipped by `s`: the seconds in the countdown.
    pub show_seconds: bool,
    /// Flipped by `t`: the tree.
    pub show_tree: bool,
}

/// Whether a key press leaves the loop at once: Control and `c`.
pub open spec fn aborts(key: Key) -> bool {
    key.code == 'c' && key.control
}

/// The toggles after a key press. Keys that mean nothing change nothing.
pub open spec fn pressed(toggles: Toggles, key: Key) -> Toggles {
    if key.code == 'q' {
        Toggles { running: false, ..toggles }
    } else if aborts(key) {
        toggles
    } else if key.code == 'i' {
        Toggles { show_stats: !toggles.show_stats, ..toggles }
    } else if key.code == 's' {
        Toggles { show_seconds: !toggles.show_seconds, ..toggles }
    } else if key.code == 't' {
        Toggles { show_tree: !toggles.show_tree, ..toggles }
    } else {
        toggles
    }
}

impl Toggles {
    /// The toggles at the start: running, with the tree, without statistics
    /// and seconds.
    pub fn new() -> (toggles: Toggles)
        ensures
            toggles == (Toggles {
                running: true,
                show_stats: false,
                show_seconds: false,
                show_tree: true,
            }),
    {
        Toggles { running: true, show_stats: false, show_seconds: false, show_tree: true }
    }

    /// Applies a key press and says whether it asks to leave at once.
    pub fn press(&mut self, key: Key) -> (abort: bool)
        ensures
            *final(self) == pressed(*old(self), key),
            abort == aborts(key),
    {
        if key.code == 'q' {
            self.running = false;
        } else if key.code == 'c' && key.control {
        } else if key.code == 'i' {
            self.show_stats = !self.show_stats;
        } else if key.code == 's' {
            self.show_seconds = !self.show_seconds;
        } else if key.code == 't' {
            self.show_tree = !self.show_tree;
        }
        key.code == 'c' && key.control
    }
}

/// Where the leftmost log goes on a terminal of the given size: from the
/// bottom right corner, half the terminal's width to the left, and then left
/// and up by half a log's extent for each of the logs. `None` where the
/// terminal has no room for that.
pub open spec fn log_anchor_of(term_size: Vec2, log_size: Vec2) -> Option<Vec2> {
    let half = Vec2 { x: term_size.x / 2, y: 0 };
    let right = term_size.sub_spec(half);
    let step = log_size.div_spec(2);
    if step.can_scale(LOG_COUNT) && right.can_sub(step.mul_spec(LOG_COUNT)) {
        Some(right.sub_spec(step.mul_spec(LOG_COUNT)))
    } else {
        None
    }
}

/// See `log_anchor_of`.
pub fn log_anchor(term_size: Vec2, log_size: Vec2) -> (at: Option<Vec2>)
    ensures
        at == log_anchor_of(term_size, log_size),
{
    let right = term_size - term_size.x() / 2;
    match (log_size / 2).checked_mul(LOG_COUNT) {
        Some(pile) => right.checked_sub(pile),
        None => None,
    }
}

/// Where the fire's top left cell goes, given the leftmost log's place: a
/// third of a log's width to the right of it, and as far above it as the fire
/// is high, so that the fire stands on the logs. `None` where the terminal has
/// no room for that.
pub open spec fn fire_anchor_of(log_at: Vec2, log_size: Vec2, fire_height: nat) -> Option<Vec2> {
    if log_at.x + log_size.x / 3 <= u16::MAX && fire_height <= log_at.y {
        Some(Vec2 { x: (log_at.x + log_size.x / 3) as u16, y: (log_at.y - fire_height) as u16 })
    } else {
        None
    }
}

/// See `fire_anchor_of`.
pub fn fire_anchor(log_at: Vec2, log_size: Vec2, fire_height: usize) -> (at: Option<Vec2>)
    ensures
        at == fire_anchor_of(log_at, log_size, fire_height as nat),
{
    if fire_height > log_at.y as usize {
        return None;
    }
    match log_at.x.checked_add(log_size.x / 3) {
        Some(x) => Some(Vec2::new(x, log_at.y - fire_height as u16)),
        None => None,
    }
}

/// Where the tree goes on a terminal of the given size: 32 columns left of
/// the bottom right corner, and half the terminal's height and ten rows above
/// it. `None` where the terminal has no room for that.
pub open spec fn tree_anchor_of(term_size: Vec2) -> Option<Vec2> {
    let offset = Vec2 { x: 32, y: (term_size.y / 2 + 10) as u16 };
    if term_size.can_sub(offset) {
        Some(term_size.sub_spec(offset))
    } else {
        None
    }
}

/// See `tree_anchor_of`.
pub fn tree_anchor(term_size: Vec2) -> (at: Option<Vec2>)
    ensures
        at == tree_anchor_of(term_size),
{
    term_size.checked_sub(Vec2::new(32, term_size.y / 2 + 10))
}

/// Where log number `i` goes: `i` log widths to the right of the leftmost
/// log. `None` where that is beyond the last addressable column.
pub open spec fn log_place_of(log_at: Vec2, log_size: Vec2, i: u16) -> Option<Vec2> {
    if log_at.x + log_size.x * i <= u16::MAX {
        Some(Vec2 { x: (log_at.x + log_size.x * i) as u16, y: log_at.y })
    } else {
        None
    }
}

/// See `log_place_of`.
pub fn log_place(log_at: Vec2, log_size: Vec2, i: u16) -> (at: Option<Vec2>)
    ensures
        at == log_place_of(log_at, log_size, i),
{
    match log_size.x().checked_mul(i) {
        Some(offset) => log_at.checked_add(offset),
        None => None,
    }
}

/// The line that says how big the terminal is.
pub open spec fn size_text_of(term_size: Vec2) -> Seq<char> {
    "Size: Vec2 { x: "@ + decimal(term_size.x as int) + ", y: "@ + decimal(term_size.y as int)
        + " }"@
}

/// See `size_text_of`.
pub fn size_text(term_size: Vec2) -> (text: String)
    ensures
        text@ == size_text_of(term_size),
{
    let mut text = "Size: Vec2 { x: ".to_owned();
    push_decimal(&mut text, term_size.x as i64);
    text.append(", y: ");
    push_decimal(&mut text, term_size.y as i64);
    text.append(" }");
    text
}

/// The countdown's line: the days, hours and minutes that are left, and the
/// seconds too where they are asked for.
pub open spec fn countdown_text_of(left: (int, int, int, int), show_seconds: bool) -> Seq<char> {
    let minutes = "🎄 "@ + decimal(left.0) + " days "@ + decimal(left.1) + " hours "@ + decimal(
        left.2,
    ) + " minutes"@;
    if show_seconds {
        minutes + " "@ + decimal(left.3) + " seconds"@
    } else {
        minutes
    }
}

/// See `countdown_text_of`.
pub fn countdown_text(left: (i64, i64, i64, i64), show_seconds: bool) -> (text: String)
    ensures
        text@ == countdown_text_of(
            (left.0 as int, left.1 as int, left.2 as int, left.3 as int),
            show_seconds,
        ),
{
    let mut text = "🎄 ".to_owned();
    push_decimal(&mut text, left.0);
    text.append(" days ");
    push_decimal(&mut text, left.1);
    text.append(" hours ");
    push_decimal(&mut text, left.2);
    text.append(" minutes");
    if show_seconds {
        text.append(" ");
        push_decimal(&mut text, left.3);
        text.append(" seconds");
    }
    text
}

/// The colour of the tree.
pub open spec fn tree_color() -> Color {
    Color::AnsiValue(22)
}

/// The colour of the logs.
pub open spec fn log_color() -> Color {
    Color::AnsiValue(94)
}

/// What is written on the target day instead of a countdown.
pub open spec fn greeting() -> Seq<char> {
    "🎄 It's christmas! 🎅"@
}

/// The statistics in the top left corner, where they are switched on: the
/// frame rate as the caller words it, and under it the terminal's size.
pub open spec fn stats_commands(show: bool, fps_text: Seq<char>, term_size: Vec2) -> Seq<
    CommandView,
> {
    if show {
        text_commands(Vec2 { x: 0, y: 0 }, fps_text) + text_commands(
            Vec2 { x: 0, y: 1 },
            size_text_of(term_size),
        )
    } else {
        Seq::empty()
    }
}

/// The bubble: the greeting on the target day, and the countdown on every
/// other day.
pub open spec fn banner_commands(target: int, now: Moment, show_seconds: bool) -> Seq<CommandView> {
    if now.day == target {
        bubble_drawing(Vec2 { x: 0, y: 2 }, greeting())
    } else {
        bubble_drawing(
            Vec2 { x: 4, y: 4 },
            countdown_text_of(broken_down(seconds_until(target, now)), show_seconds),
        )
    }
}

/// The tree, where it is switched on and the terminal has room for it.
pub open spec fn tree_commands(show: bool, term_size: Vec2, tree: Seq<char>) -> Seq<CommandView> {
    match tree_anchor_of(term_size) {
        Some(at) if show => drawing_commands(at, tree, tree_color()),
        _ => Seq::empty(),
    }
}

/// The first `n` logs, from the left; a log that would start beyond the last
/// addressable column is left out.
pub open spec fn logs_commands(log_at: Vec2, log: Seq<char>, n: int) -> Seq<CommandView>
    decreases n,
{
    if n <= 0 {
        Seq::empty()
    } else {
        logs_commands(log_at, log, n - 1) + match log_place_of(
            log_at,
            measured(log),
            (n - 1) as u16,
        ) {
            Some(at) => drawing_commands(at, log, log_color()),
            None => Seq::empty(),
        }
    }
}

/// The logs and, on top of them, the fire, where the terminal has room for
/// the logs; the fire only where it has room for the fire as well.
pub open spec fn hearth_commands(term_size: Vec2, log: Seq<char>, fire: Seq<Seq<u8>>) -> Seq<
    CommandView,
> {
    match log_anchor_of(term_size, measured(log)) {
        Some(log_at) => logs_commands(log_at, log, LOG_COUNT as int) + match fire_anchor_of(
            log_at,
            measured(log),
            fire.len(),
        ) {
            Some(at) => fire_commands(at, fire),
            None => Seq::empty(),
        },
        None => Seq::empty(),
    }
}

/// Everything there is to see.
pub struct Scene {
    pub toggles: Toggles,
    pub fire: FireGrid,
    pub ttc: TimeToChristmas,
    pub graphics: Graphics,
}

/// What one frame emits: clear the screen, then, each in front of what came
/// before, the statistics, the bubble, the tree, the logs and the fire.
pub open spec fn frame_commands(
    scene: Scene,
    term_size: Vec2,
    fps_text: Seq<char>,
    now: Moment,
) -> Seq<CommandView> {
    clear_commands() + stats_commands(scene.toggles.show_stats, fps_text, term_size)
        + banner_commands(scene.ttc.spec_day(), now, scene.toggles.show_seconds) + tree_commands(
        scene.toggles.show_tree,
        term_size,
        scene.graphics.tree@,
    ) + hearth_commands(term_size, scene.graphics.log@, scene.fire@)
}

impl Scene {
    /// The scene at the start: a cold fire of `FIRE_WIDTH` by `FIRE_HEIGHT`
    /// cells and the toggles as `Toggles::new` sets them.
    pub fn new(ttc: TimeToChristmas, graphics: Graphics) -> (scene: Scene)
        ensures
            scene.toggles == (Toggles {
                running: true,
                show_stats: false,
                show_seconds: false,
                show_tree: true,
            }),
            scene.fire@ == Seq::new(
                FIRE_HEIGHT as nat,
                |y: int| Seq::new(FIRE_WIDTH as nat, |x: int| 0u8),
            ),
            scene.ttc == ttc,
            scene.graphics == graphics,
    {
        Scene { toggles: Toggles::new(), fire: FireGrid::new(FIRE_WIDTH, FIRE_HEIGHT), ttc, graphics }
    }

    /// Paints the statistics, where they are switched on.
    pub fn paint_stats(&self, term: &mut Term, term_size: Vec2, fps_text: &str)
        ensures
            final(term)@ == old(term)@ + stats_commands(
                self.toggles.show_stats,
                fps_text@,
                term_size,
            ),
    {
        if self.toggles.show_stats {
            term.write_text(Vec2::new(0, 0), fps_text);
            let size = size_text(term_size);
            term.write_text(Vec2::new(0, 1), size.as_str());
        }
    }

    /// Paints the bubble with the greeting or the countdown.
    pub fn paint_banner(&self, term: &mut Term, now: Moment)
        ensures
            final(term)@ == old(term)@ + banner_commands(
                self.ttc.spec_day(),
                now,
                self.toggles.show_seconds,
            ),
    {
        if self.ttc.is_christmas(now) {
            term.draw_text_bubble(Vec2::new(0, 2), "🎄 It's christmas! 🎅");
        } else {
            let left = self.ttc.time_until_christmas(now);
            let text = countdown_text(left, self.toggles.show_seconds);
            term.draw_text_bubble(Vec2::new(4, 4), text.as_str());
        }
    }

    /// Paints the tree, where it is switched on and fits.
    pub fn paint_tree(&self, term: &mut Term, term_size: Vec2)
        ensures
            final(term)@ == old(term)@ + tree_commands(
                self.toggles.show_tree,
                term_size,
                self.graphics.tree@,
            ),
    {
        if self.toggles.show_tree {
            if let Some(at) = tree_anchor(term_size) {
                term.draw_graphic(at, &self.graphics.tree, Color::AnsiValue(22));
            }
        }
    }

    /// Paints the logs and the fire on them, as far as they fit.
    pub fn paint_hearth(&self, term: &mut Term, term_size: Vec2)
        ensures
            final(term)@ == old(term)@ + hearth_commands(
                term_size,
                self.graphics.log@,
                self.fire@,
            ),
    {
        let log_size = self.graphics.log.size();
        if let Some(log_at) = log_anchor(term_size, log_size) {
            let mut i: u16 = 0;
            while i < LOG_COUNT
                invariant
                    i <= LOG_COUNT,
                    log_size == measured(self.graphics.log@),
                    term@ == old(term)@ + logs_commands(log_at, self.graphics.log@, i as int),
                decreases LOG_COUNT - i,
            {
                if let Some(at) = log_place(log_at, log_size, i) {
                    term.draw_graphic(at, &self.graphics.log, Color::AnsiValue(94));
                }
                i += 1;
            }
            if let Some(at) = fire_anchor(log_at, log_size, self.fire.height()) {
                self.fire.paint(term, at);
            }
        }
    }

    /// Paints one frame of the scene as it is, for a terminal of the given
    /// size and the clock reading `now`. `fps_text` is the line that reports
    /// the frame rate.
    pub fn paint(&self, term: &mut Term, term_size: Vec2, fps_text: &str, now: Moment)
        ensures
            final(term)@ == old(term)@ + frame_commands(*self, term_size, fps_text@, now),
    {
        term.clear_all();
        self.paint_stats(term, term_size, fps_text);
        self.paint_banner(term, now);
        self.paint_tree(term, term_size);
        self.paint_hearth(term, term_size);
    }

    /// One turn of the frame loop. The key press, if there was one, is applied
    /// first. Where it asks to leave at once, that is all. Otherwise the fire
    /// advances by one step and the frame is painted; the answer is `Finish`
    /// where `q` has been pressed, now or before, and `Continue` where not.
    pub fn tick(
        &mut self,
        term: &mut Term,
        key: Option<Key>,
        term_size: Vec2,
        fps_text: &str,
        now: Moment,
    ) -> (flow: Flow)
        ensures
            final(self).toggles == match key {
                Some(k) => pressed(old(self).toggles, k),
                None => old(self).toggles,
            },
            final(self).ttc == old(self).ttc,
            final(self).graphics == old(self).graphics,
            match key {
                Some(k) if aborts(k) => {
                    &&& flow == Flow::Abort
                    &&& final(self).fire == old(self).fire
                    &&& final(term)@ == old(term)@
                },
                _ => {
                    &&& flow == if final(self).toggles.running {
                        Flow::Continue
                    } else {
                        Flow::Finish
                    }
                    &&& exists|draws: Seq<Seq<u32>>|
                        draws_cover(draws, old(self).fire@) && final(self).fire@
                            == #[trigger] stepped(old(self).fire@, draws)
                    &&& final(term)@ == old(term)@ + frame_commands(
                        *final(self),
                        term_size,
                        fps_text@,
                        now,
                    )
                },
            },
    {
        if let Some(k) = key {
            if self.toggles.press(k) {
                return Flow::Abort;
            }
        }
        self.fire.step();
        self.paint(term, term_size, fps_text, now);
        if self.toggles.running {
            Flow::Continue
        } else {
            Flow::Finish
        }
    }
}

} // verus!
