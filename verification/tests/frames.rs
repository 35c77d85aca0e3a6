use yuletide::fire::FireGrid;
use yuletide::generics::Vec2;
use yuletide::graphics::Graphics;
use yuletide::scene::{
    countdown_text, fire_anchor, frame_pause, log_anchor, log_place, size_text, tree_anchor, Flow,
    Key, Scene, Toggles, FIRE_HEIGHT, FIRE_WIDTH, FPS_CAP, FRAME_BUDGET_MS, LOG_COUNT,
};
use yuletide::term::{Color, Command, Term};
use yuletide::ttc::{Moment, TimeToChristmas};

const LOG: &str = " ______ \n(______)";
const TREE: &str = " * \n***\n | ";

fn plain(code: char) -> Key {
    Key { code, control: false }
}

fn scene() -> Scene {
    Scene::new(TimeToChristmas::on_day(1000), Graphics::new(LOG, TREE))
}

fn eve() -> Moment {
    Moment { day: 999, second: 82_800, nano: 0 }
}

fn fresh() -> Term {
    let mut term = Term::new();
    term.take_commands();
    term
}

fn printed(term: &Term) -> Vec<String> {
    term.commands()
        .iter()
        .filter_map(|c| match c {
            Command::Print(text) => Some(text.clone()),
            _ => None,
        })
        .collect()
}

#[test]
fn frame_budget_follows_the_cap() {
    assert_eq!(FPS_CAP, 18);
    assert_eq!(FRAME_BUDGET_MS, 55);
    assert_eq!(LOG_COUNT, 3);
    assert_eq!((FIRE_WIDTH, FIRE_HEIGHT), (50, 20));
}

#[test]
fn pause_is_what_the_work_left_of_the_budget() {
    assert_eq!(frame_pause(55, 0), 55);
    assert_eq!(frame_pause(55, 20), 35);
    assert_eq!(frame_pause(55, 55), 0);
    assert_eq!(frame_pause(55, 300), 0);
}

#[test]
fn toggles_start_running_with_the_tree() {
    assert_eq!(
        Toggles::new(),
        Toggles { running: true, show_stats: false, show_seconds: false, show_tree: true }
    );
}

#[test]
fn q_stops_the_loop() {
    let mut toggles = Toggles::new();
    assert!(!toggles.press(plain('q')));
    assert_eq!(toggles, Toggles { running: false, ..Toggles::new() });
    assert!(!toggles.press(Key { code: 'q', control: true }));
    assert!(!toggles.running);
}

#[test]
fn control_c_aborts_and_changes_nothing() {
    let mut toggles = Toggles::new();
    assert!(toggles.press(Key { code: 'c', control: true }));
    assert_eq!(toggles, Toggles::new());
    assert!(!toggles.press(plain('c')));
    assert_eq!(toggles, Toggles::new());
}

#[test]
fn i_s_and_t_flip_their_toggles() {
    let mut toggles = Toggles::new();
    assert!(!toggles.press(plain('i')));
    assert_eq!(toggles, Toggles { show_stats: true, ..Toggles::new() });
    toggles.press(plain('s'));
    assert_eq!(toggles, Toggles { show_stats: true, show_seconds: true, ..Toggles::new() });
    toggles.press(plain('t'));
    assert_eq!(
        toggles,
        Toggles { running: true, show_stats: true, show_seconds: true, show_tree: false }
    );
    toggles.press(plain('i'));
    toggles.press(Key { code: 's', control: true });
    toggles.press(plain('t'));
    assert_eq!(toggles, Toggles::new());
}

#[test]
fn other_keys_are_ignored() {
    let mut toggles = Toggles::new();
    for code in ['x', 'Q', 'I', ' ', '\n', '🎄'] {
        assert!(!toggles.press(plain(code)));
        assert!(!toggles.press(Key { code, control: true }));
    }
    assert_eq!(toggles, Toggles::new());
}

#[test]
fn logs_go_left_of_the_middle_of_the_bottom() {
    assert_eq!(log_anchor(Vec2::new(80, 24), Vec2::new(12, 3)), Some(Vec2::new(22, 21)));
    assert_eq!(log_anchor(Vec2::new(81, 24), Vec2::new(13, 2)), Some(Vec2::new(23, 21)));
    assert_eq!(log_anchor(Vec2::new(36, 3), Vec2::new(12, 3)), Some(Vec2::new(0, 0)));
}

#[test]
fn logs_need_room() {
    assert_eq!(log_anchor(Vec2::new(0, 0), Vec2::new(12, 3)), None);
    assert_eq!(log_anchor(Vec2::new(34, 24), Vec2::new(12, 3)), None);
    assert_eq!(log_anchor(Vec2::new(80, 2), Vec2::new(12, 3)), None);
    assert_eq!(log_anchor(Vec2::new(65535, 65535), Vec2::new(50000, 2)), None);
    assert_eq!(log_anchor(Vec2::new(0, 0), Vec2::new(1, 1)), Some(Vec2::new(0, 0)));
}

#[test]
fn fire_stands_on_the_logs() {
    assert_eq!(fire_anchor(Vec2::new(22, 21), Vec2::new(12, 3), 20), Some(Vec2::new(26, 1)));
    assert_eq!(fire_anchor(Vec2::new(22, 20), Vec2::new(12, 3), 20), Some(Vec2::new(26, 0)));
}

#[test]
fn fire_needs_room() {
    assert_eq!(fire_anchor(Vec2::new(22, 19), Vec2::new(12, 3), 20), None);
    assert_eq!(fire_anchor(Vec2::new(65535, 30), Vec2::new(3, 3), 20), None);
    assert_eq!(fire_anchor(Vec2::new(0, 65535), Vec2::new(3, 3), 65536), None);
}

#[test]
fn tree_goes_right_and_above_the_middle() {
    assert_eq!(tree_anchor(Vec2::new(80, 24)), Some(Vec2::new(48, 2)));
    assert_eq!(tree_anchor(Vec2::new(32, 20)), Some(Vec2::new(0, 0)));
}

#[test]
fn tree_needs_room() {
    assert_eq!(tree_anchor(Vec2::new(31, 24)), None);
    assert_eq!(tree_anchor(Vec2::new(80, 18)), None);
    assert_eq!(tree_anchor(Vec2::new(0, 0)), None);
}

#[test]
fn logs_lie_side_by_side() {
    let at = Vec2::new(22, 21);
    let size = Vec2::new(12, 3);
    assert_eq!(log_place(at, size, 0), Some(Vec2::new(22, 21)));
    assert_eq!(log_place(at, size, 1), Some(Vec2::new(34, 21)));
    assert_eq!(log_place(at, size, 2), Some(Vec2::new(46, 21)));
    assert_eq!(log_place(Vec2::new(65530, 0), size, 1), None);
    assert_eq!(log_place(Vec2::new(0, 0), Vec2::new(40000, 1), 2), None);
}

#[test]
fn size_line_names_both_components() {
    assert_eq!(size_text(Vec2::new(80, 24)), "Size: Vec2 { x: 80, y: 24 }");
    assert_eq!(size_text(Vec2::new(0, 65535)), "Size: Vec2 { x: 0, y: 65535 }");
    assert_eq!(size_text(Vec2::new(80, 24)), format!("Size: {:?}", Vec2::new(80, 24)));
}

#[test]
fn countdown_line_with_and_without_seconds() {
    assert_eq!(countdown_text((10, 3, 4, 6), false), "🎄 10 days 3 hours 4 minutes");
    assert_eq!(countdown_text((10, 3, 4, 6), true), "🎄 10 days 3 hours 4 minutes 6 seconds");
    assert_eq!(countdown_text((-2, -1, 0, -3), true), "🎄 -2 days -1 hours 0 minutes -3 seconds");
}

#[test]
fn new_scene_has_a_cold_fire() {
    let scene = scene();
    assert_eq!(scene.toggles, Toggles::new());
    assert_eq!(scene.fire.width(), 50);
    assert_eq!(scene.fire.height(), 20);
    assert_eq!(scene.fire.heat_at(19, 0), Some(0));
    assert_eq!(scene.ttc.day(), 1000);
    assert_eq!(scene.graphics.log.sprite(), LOG);
}

#[test]
fn frame_on_a_terminal_without_size_is_the_bubble_alone() {
    let scene = scene();
    let mut term = fresh();
    scene.paint(&mut term, Vec2::new(0, 0), "FPS: 18.00", eve());
    let mut expected = fresh();
    expected.clear_all();
    expected.draw_text_bubble(Vec2::new(4, 4), "🎄 0 days 1 hours 0 minutes");
    assert_eq!(term.commands(), expected.commands());
}

#[test]
fn frame_paints_back_to_front() {
    let mut scene = scene();
    scene.toggles.show_stats = true;
    scene.toggles.show_seconds = true;
    assert!(scene.fire.step_with(&vec![vec![1; 50]; 20]));
    let size = Vec2::new(120, 40);
    let mut term = fresh();
    scene.paint(&mut term, size, "FPS: 17.50", eve());

    let mut expected = fresh();
    expected.clear_all();
    expected.write_text(Vec2::new(0, 0), "FPS: 17.50");
    expected.write_text(Vec2::new(0, 1), "Size: Vec2 { x: 120, y: 40 }");
    expected.draw_text_bubble(Vec2::new(4, 4), "🎄 0 days 1 hours 0 minutes 0 seconds");
    expected.draw(Vec2::new(88, 10), TREE, Color::AnsiValue(22));
    // a log is 8 by 2: the pile is (12, 3) from (60, 40)
    expected.draw(Vec2::new(48, 37), LOG, Color::AnsiValue(94));
    expected.draw(Vec2::new(56, 37), LOG, Color::AnsiValue(94));
    expected.draw(Vec2::new(64, 37), LOG, Color::AnsiValue(94));
    scene.fire.paint(&mut expected, Vec2::new(50, 17));
    assert_eq!(term.commands(), expected.commands());
    assert!(term.commands().contains(&Command::SetBackground(Color::Yellow)));
}

#[test]
fn frame_greets_on_the_day() {
    let scene = scene();
    let mut term = fresh();
    scene.paint(&mut term, Vec2::new(0, 0), "", Moment { day: 1000, second: 5, nano: 0 });
    let mut expected = fresh();
    expected.clear_all();
    expected.draw_text_bubble(Vec2::new(0, 2), "🎄 It's christmas! 🎅");
    assert_eq!(term.commands(), expected.commands());
    assert!(printed(&term).contains(&"🎄 It's christmas! 🎅".to_string()));
}

#[test]
fn frame_without_the_tree_leaves_it_out() {
    let mut with = scene();
    let mut without = scene();
    without.toggles.show_tree = false;
    let size = Vec2::new(120, 40);
    let mut a = fresh();
    with.paint(&mut a, size, "", eve());
    let mut b = fresh();
    without.paint(&mut b, size, "", eve());
    let mut tree = fresh();
    tree.draw(Vec2::new(88, 10), TREE, Color::AnsiValue(22));
    assert_eq!(a.commands().len(), b.commands().len() + tree.commands().len());
    with.toggles.show_tree = false;
    let mut c = fresh();
    with.paint(&mut c, size, "", eve());
    assert_eq!(b.commands(), c.commands());
}

#[test]
fn frame_leaves_the_fire_out_where_only_the_logs_fit() {
    let mut scene = scene();
    assert!(scene.fire.step_with(&vec![vec![1; 50]; 20]));
    let mut term = fresh();
    scene.paint(&mut term, Vec2::new(120, 22), "", eve());
    assert!(printed(&term).contains(&"(".to_string()));
    assert!(!term.commands().iter().any(|c| matches!(c, Command::SetBackground(_))));
}

#[test]
fn tick_paints_a_frame_and_goes_on() {
    let mut scene = scene();
    let mut term = fresh();
    let flow = scene.tick(&mut term, None, Vec2::new(120, 40), "FPS: 1.00", eve());
    assert_eq!(flow, Flow::Continue);
    assert_eq!(scene.toggles, Toggles::new());
    for x in 0..50 {
        assert_eq!(scene.fire.heat_at(19, x), Some(30));
    }
    let mut expected = fresh();
    scene.paint(&mut expected, Vec2::new(120, 40), "FPS: 1.00", eve());
    assert_eq!(term.commands(), expected.commands());
    assert_eq!(term.commands()[0], Command::ClearAll);
}

#[test]
fn tick_applies_the_key_before_it_paints() {
    let mut scene = scene();
    let mut term = fresh();
    let flow = scene.tick(&mut term, Some(plain('i')), Vec2::new(120, 40), "FPS: 9.99", eve());
    assert_eq!(flow, Flow::Continue);
    assert!(scene.toggles.show_stats);
    assert_eq!(printed(&term)[0], "FPS: 9.99");
    assert_eq!(printed(&term)[1], "Size: Vec2 { x: 120, y: 40 }");
}

#[test]
fn tick_after_q_paints_the_last_frame() {
    let mut scene = scene();
    let mut term = fresh();
    let flow = scene.tick(&mut term, Some(plain('q')), Vec2::new(120, 40), "", eve());
    assert_eq!(flow, Flow::Finish);
    assert!(!scene.toggles.running);
    assert!(!term.commands().is_empty());
    assert_eq!(scene.fire.heat_at(19, 0), Some(30));
    let again = scene.tick(&mut term, None, Vec2::new(120, 40), "", eve());
    assert_eq!(again, Flow::Finish);
}

#[test]
fn tick_on_control_c_does_nothing_else() {
    let mut scene = scene();
    let mut term = fresh();
    let flow =
        scene.tick(&mut term, Some(Key { code: 'c', control: true }), Vec2::new(120, 40), "", eve());
    assert_eq!(flow, Flow::Abort);
    assert!(term.commands().is_empty());
    assert_eq!(scene.toggles, Toggles::new());
    assert_eq!(scene.fire.heat_at(19, 0), Some(0));
}

#[test]
fn fire_grid_of_the_scene_steps_like_any_other() {
    let mut scene = scene();
    let mut other = FireGrid::new(FIRE_WIDTH, FIRE_HEIGHT);
    let draws = vec![vec![4; FIRE_WIDTH]; FIRE_HEIGHT];
    assert!(scene.fire.step_with(&draws));
    assert!(other.step_with(&draws));
    for y in 0..FIRE_HEIGHT {
        assert_eq!(scene.fire.heat_at(y, 7), other.heat_at(y, 7));
    }
    assert_eq!(scene.fire.heat_at(0, 7), Some(0));
    assert_eq!(scene.fire.heat_at(13, 7), Some(6));
}
