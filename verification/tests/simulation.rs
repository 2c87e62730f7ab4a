use subpixel_life::game_of_life::GameOfLife;
use subpixel_life::panel::Layout;
use subpixel_life::simulation::{
    sleep_time, Command, Event, IdlePlan, KeyPress, Simulation, BORDER, HEIGHT, INDICATOR,
    LIFE_DENSITY_DEFAULT, LIFE_DENSITY_MAX, LIFE_DENSITY_MIN, LIFE_DENSITY_STEP, MIN_SIZE,
    SPEED_DEFAULT, SPEED_LEVELS, SUBPIXELS, WIDTH,
};

const BLACK: [u8; 4] = [0, 0, 0, 255];
const WHITE: [u8; 4] = [255, 255, 255, 255];
const CYAN: [u8; 4] = [0, 255, 255, 255];
const MAGENTA: [u8; 4] = [255, 0, 255, 255];

fn small() -> Simulation {
    Simulation::with_layout(false, Layout::new(10, 4, 2, 1).unwrap()).unwrap()
}

fn stepped(game: &GameOfLife) -> Vec<bool> {
    let mut copy = GameOfLife::from_cells(
        game.subpixels(),
        if game.subpixels() { game.width() / 3 } else { game.width() },
        game.height(),
        game.cells().clone(),
    )
    .unwrap();
    copy.update();
    copy.cells().clone()
}

#[test]
fn standard_simulation_starts_stopped_at_the_defaults() {
    let simulation = Simulation::new();
    assert_eq!(
        simulation.layout(),
        Layout { game_width: WIDTH, game_height: HEIGHT, border: BORDER, indicator: INDICATOR }
    );
    assert!(WIDTH >= MIN_SIZE && HEIGHT >= MIN_SIZE);
    assert_eq!(simulation.window_size(), (210, 222));
    assert_eq!(simulation.life_density(), LIFE_DENSITY_DEFAULT);
    assert_eq!(simulation.life_density(), 8);
    assert_eq!(simulation.speed(), SPEED_DEFAULT);
    assert!(!simulation.is_running());
    assert!(simulation.redraw_requested());
    assert!(!simulation.close_requested());
    assert_eq!(simulation.game().subpixels(), SUBPIXELS);
    assert_eq!(simulation.game().width(), 150);
    assert_eq!(simulation.game().height(), 50);
}

#[test]
fn standard_simulation_starts_with_a_random_board() {
    let simulation = Simulation::new();
    let alive = simulation.game().cells().iter().filter(|c| **c).count();
    // 7500 cells at 8%: 600 on average.
    assert!(alive > 400 && alive < 800);
}

#[test]
fn simulation_on_a_surface_of_its_own() {
    let simulation = small();
    assert_eq!(simulation.window_size(), (14, 12));
    assert_eq!(simulation.game().width(), 10);
    assert_eq!(simulation.game().height(), 4);
    assert!(!simulation.game().subpixels());
    let simulation =
        Simulation::with_layout(true, Layout::new(10, 4, 2, 1).unwrap()).unwrap();
    assert_eq!(simulation.game().width(), 30);
}

#[test]
fn simulation_refuses_an_unsound_layout() {
    let empty = Layout { game_width: 0, game_height: 4, border: 2, indicator: 1 };
    assert!(Simulation::with_layout(false, empty).is_none());
    let wide = Layout { game_width: u32::MAX, game_height: 4, border: 2, indicator: 1 };
    assert!(Simulation::with_layout(false, wide).is_none());
}

#[test]
fn density_goes_up_by_steps_and_stops_at_the_top() {
    let mut simulation = small();
    let mut expected = LIFE_DENSITY_DEFAULT;
    while expected < LIFE_DENSITY_MAX {
        simulation.handle(Command::DensityUp);
        expected += LIFE_DENSITY_STEP;
        assert_eq!(simulation.life_density(), expected);
    }
    assert_eq!(simulation.life_density(), 50);
    simulation.about_to_wait();
    simulation.handle(Command::DensityUp);
    assert_eq!(simulation.life_density(), 50);
    assert!(!simulation.redraw_requested());
}

#[test]
fn density_goes_down_by_steps_and_stops_at_the_bottom() {
    let mut simulation = small();
    simulation.handle(Command::DensityDown);
    assert_eq!(simulation.life_density(), 6);
    simulation.handle(Command::DensityDown);
    assert_eq!(simulation.life_density(), 4);
    simulation.handle(Command::DensityDown);
    assert_eq!(simulation.life_density(), LIFE_DENSITY_MIN);
    assert_eq!(simulation.life_density(), 2);
    simulation.about_to_wait();
    simulation.handle(Command::DensityDown);
    assert_eq!(simulation.life_density(), 2);
    assert!(!simulation.redraw_requested());
}

#[test]
fn changing_the_density_asks_for_a_redraw() {
    let mut simulation = small();
    simulation.about_to_wait();
    assert!(!simulation.redraw_requested());
    simulation.handle(Command::DensityUp);
    assert!(simulation.redraw_requested());
    simulation.about_to_wait();
    simulation.handle(Command::DensityDown);
    assert!(simulation.redraw_requested());
}

#[test]
fn speed_goes_up_to_the_last_level_and_down_to_the_first() {
    let mut simulation = small();
    simulation.handle(Command::SpeedDown);
    assert_eq!(simulation.speed(), 0);
    for level in 1..SPEED_LEVELS {
        simulation.handle(Command::SpeedUp);
        assert_eq!(simulation.speed(), level);
    }
    simulation.handle(Command::SpeedUp);
    assert_eq!(simulation.speed(), 6);
    for level in (0..6).rev() {
        simulation.handle(Command::SpeedDown);
        assert_eq!(simulation.speed(), level);
    }
}

#[test]
fn speed_change_asks_for_a_redraw_only_while_stopped() {
    let mut simulation = small();
    simulation.about_to_wait();
    simulation.handle(Command::SpeedUp);
    assert!(simulation.redraw_requested());
    simulation.about_to_wait();
    simulation.handle(Command::SpeedUp);
    simulation.about_to_wait();
    simulation.handle(Command::ToggleRun);
    simulation.handle(Command::SpeedUp);
    assert_eq!(simulation.speed(), 3);
    assert!(!simulation.redraw_requested());
    simulation.handle(Command::SpeedDown);
    assert_eq!(simulation.speed(), 2);
    assert!(!simulation.redraw_requested());
}

#[test]
fn speed_at_its_limit_asks_for_nothing() {
    let mut simulation = small();
    simulation.about_to_wait();
    simulation.handle(Command::SpeedDown);
    assert!(!simulation.redraw_requested());
}

#[test]
fn toggle_run_starts_and_stops() {
    let mut simulation = small();
    simulation.handle(Command::ToggleRun);
    assert!(simulation.is_running());
    simulation.handle(Command::ToggleRun);
    assert!(!simulation.is_running());
}

#[test]
fn step_advances_one_generation_while_stopped() {
    let mut simulation = small();
    simulation.about_to_wait();
    let expected = stepped(simulation.game());
    simulation.handle(Command::Step);
    assert_eq!(simulation.game().cells(), &expected);
    assert!(simulation.redraw_requested());
}

#[test]
fn step_is_ignored_while_running() {
    let mut simulation = small();
    simulation.about_to_wait();
    simulation.handle(Command::ToggleRun);
    let before = simulation.game().cells().clone();
    simulation.handle(Command::Step);
    assert_eq!(simulation.game().cells(), &before);
    assert!(!simulation.redraw_requested());
}

#[test]
fn randomize_keeps_the_settings_and_asks_for_a_redraw() {
    let mut simulation = Simulation::new();
    simulation.about_to_wait();
    simulation.handle(Command::Randomize);
    assert!(simulation.redraw_requested());
    assert_eq!(simulation.life_density(), 8);
    assert_eq!(simulation.speed(), 0);
    assert!(!simulation.is_running());
    assert_eq!(simulation.game().cells().len(), 7500);
}

#[test]
fn randomize_draws_at_the_density_that_is_set() {
    let mut simulation =
        Simulation::with_layout(false, Layout::new(200, 200, 0, 0).unwrap()).unwrap();
    while simulation.life_density() < LIFE_DENSITY_MAX {
        simulation.handle(Command::DensityUp);
    }
    simulation.handle(Command::Randomize);
    let alive = simulation.game().cells().iter().filter(|c| **c).count() as f64;
    assert!((alive / 40_000.0 - 0.5).abs() < 0.03);
}

#[test]
fn exit_asks_to_close() {
    let mut simulation = small();
    simulation.handle(Command::Exit);
    assert!(simulation.close_requested());
    assert!(!simulation.is_running());
    assert_eq!(simulation.life_density(), 8);
}

#[test]
fn sleep_times_shorten_with_the_speed() {
    let times: Vec<u64> = (0..SPEED_LEVELS).map(sleep_time).collect();
    assert_eq!(times, vec![500, 300, 150, 80, 50, 25, 0]);
}

#[test]
fn stopped_simulation_redraws_once_when_something_changed() {
    let mut simulation = small();
    let plan = simulation.about_to_wait();
    assert_eq!(plan, IdlePlan { sleep: None, redraw: true, poll: false, exit: false });
    assert!(!simulation.redraw_requested());
    let plan = simulation.about_to_wait();
    assert_eq!(plan, IdlePlan { sleep: None, redraw: false, poll: false, exit: false });
}

#[test]
fn running_simulation_sleeps_and_redraws() {
    let mut simulation = small();
    simulation.about_to_wait();
    simulation.handle(Command::ToggleRun);
    let plan = simulation.about_to_wait();
    assert_eq!(plan, IdlePlan { sleep: Some(500), redraw: true, poll: true, exit: false });
    simulation.handle(Command::SpeedUp);
    simulation.handle(Command::SpeedUp);
    let plan = simulation.about_to_wait();
    assert_eq!(plan, IdlePlan { sleep: Some(150), redraw: true, poll: true, exit: false });
    for _ in 0..4 {
        simulation.handle(Command::SpeedUp);
    }
    let plan = simulation.about_to_wait();
    assert_eq!(plan, IdlePlan { sleep: Some(0), redraw: true, poll: true, exit: false });
}

#[test]
fn running_simulation_keeps_a_due_redraw_for_later() {
    let mut simulation = small();
    simulation.handle(Command::ToggleRun);
    assert!(simulation.redraw_requested());
    simulation.about_to_wait();
    assert!(simulation.redraw_requested());
}

#[test]
fn simulation_asked_to_close_leaves_without_sleeping() {
    let mut simulation = small();
    simulation.handle(Command::ToggleRun);
    simulation.handle(Command::Exit);
    let plan = simulation.about_to_wait();
    assert_eq!(plan, IdlePlan { sleep: None, redraw: false, poll: true, exit: true });
    let mut simulation = small();
    simulation.handle(Command::Exit);
    let plan = simulation.about_to_wait();
    assert_eq!(plan, IdlePlan { sleep: None, redraw: true, poll: false, exit: true });
}

#[test]
fn border_and_gaps_are_black() {
    let mut simulation = Simulation::new();
    for (x, y) in [(0, 0), (79, 100), (130, 100), (209, 221), (100, 79), (100, 142)] {
        assert_eq!(simulation.window_pixel(x, y), BLACK);
    }
    for x in 80..130 {
        for y in (83..86).chain(89..92) {
            assert_eq!(simulation.window_pixel(x, y), BLACK);
        }
    }
    assert_eq!(simulation.window_pixel(1000, 1000), BLACK);
}

#[test]
fn density_gauge_shows_the_share_of_the_top_density() {
    let mut simulation = Simulation::new();
    // 8% of at most 50%, on a bar of 50 pixels: 8 pixels.
    for y in 80..83 {
        for x in 80..88 {
            assert_eq!(simulation.window_pixel(x, y), CYAN);
        }
        for x in 88..130 {
            assert_eq!(simulation.window_pixel(x, y), WHITE);
        }
    }
    simulation.handle(Command::DensityUp);
    assert_eq!(simulation.window_pixel(89, 80), CYAN);
    assert_eq!(simulation.window_pixel(90, 80), WHITE);
}

#[test]
fn density_gauge_is_full_at_the_top_density() {
    let mut simulation = Simulation::new();
    while simulation.life_density() < LIFE_DENSITY_MAX {
        simulation.handle(Command::DensityUp);
    }
    for y in 80..83 {
        for x in 80..130 {
            assert_eq!(simulation.window_pixel(x, y), CYAN);
        }
        assert_eq!(simulation.window_pixel(79, y), BLACK);
        assert_eq!(simulation.window_pixel(130, y), BLACK);
    }
}

#[test]
fn density_gauge_at_the_lowest_density() {
    let mut simulation = Simulation::new();
    while simulation.life_density() > LIFE_DENSITY_MIN {
        simulation.handle(Command::DensityDown);
    }
    assert_eq!(simulation.window_pixel(80, 80), CYAN);
    assert_eq!(simulation.window_pixel(81, 80), CYAN);
    assert_eq!(simulation.window_pixel(82, 80), WHITE);
}

#[test]
fn speed_gauge_shows_the_share_of_the_levels_reached() {
    let mut simulation = Simulation::new();
    let widths = [7, 14, 21, 28, 35, 42, 50];
    for level in 0..7 {
        assert_eq!(simulation.speed(), level);
        let filled = 80 + widths[level as usize];
        for y in 86..89 {
            for x in 80..filled {
                assert_eq!(simulation.window_pixel(x, y), MAGENTA);
            }
            for x in filled..130 {
                assert_eq!(simulation.window_pixel(x, y), WHITE);
            }
        }
        simulation.handle(Command::SpeedUp);
    }
}

#[test]
fn game_area_shows_the_game() {
    let mut simulation = Simulation::new();
    let cells = simulation.game().cells().clone();
    for y in 0..50u32 {
        for x in 0..50u32 {
            let i = (y * 150 + 3 * x) as usize;
            let expected = [
                if cells[i] { 255 } else { 0 },
                if cells[i + 1] { 255 } else { 0 },
                if cells[i + 2] { 255 } else { 0 },
                255,
            ];
            assert_eq!(simulation.window_pixel(80 + x, 92 + y), expected);
        }
    }
}

#[test]
fn plain_game_area_is_black_and_white() {
    let mut simulation = small();
    let cells = simulation.game().cells().clone();
    for y in 0..4u32 {
        for x in 0..10u32 {
            let expected = if cells[(y * 10 + x) as usize] { WHITE } else { BLACK };
            assert_eq!(simulation.window_pixel(2 + x, 2 + 4 + y), expected);
        }
    }
}

#[test]
fn frame_holds_every_pixel_row_by_row() {
    let mut simulation = small();
    let frame = simulation.frame();
    assert_eq!(frame.len(), 4 * 14 * 12);
    for (i, pixel) in frame.chunks_exact(4).enumerate() {
        let x = (i % 14) as u32;
        let y = (i / 14) as u32;
        assert_eq!(pixel, &simulation.window_pixel(x, y)[..]);
    }
}

#[test]
fn frame_of_the_standard_surface() {
    let mut simulation = Simulation::new();
    let frame = simulation.frame();
    assert_eq!(frame.len(), 4 * 210 * 222);
    assert_eq!(&frame[0..4], &BLACK[..]);
    let first_gauge_pixel = 4 * (80 * 210 + 80);
    assert_eq!(&frame[first_gauge_pixel..first_gauge_pixel + 4], &CYAN[..]);
    let first_speed_pixel = 4 * (86 * 210 + 80);
    assert_eq!(&frame[first_speed_pixel..first_speed_pixel + 4], &MAGENTA[..]);
}

#[test]
fn frame_leaves_the_simulation_alone() {
    let mut simulation = small();
    let before = simulation.game().cells().clone();
    simulation.frame();
    simulation.window_pixel(3, 7);
    assert_eq!(simulation.game().cells(), &before);
    assert!(simulation.redraw_requested());
}

#[test]
fn redraw_while_stopped_shows_the_board_as_it_is() {
    let mut simulation = small();
    let before = simulation.game().cells().clone();
    let frame = simulation.redraw();
    assert_eq!(simulation.game().cells(), &before);
    assert_eq!(frame, simulation.frame());
}

#[test]
fn redraw_while_running_advances_one_generation() {
    let mut simulation = small();
    simulation.handle(Command::ToggleRun);
    for _ in 0..3 {
        let expected = stepped(simulation.game());
        let frame = simulation.redraw();
        assert_eq!(simulation.game().cells(), &expected);
        assert_eq!(frame, simulation.frame());
    }
}

#[test]
fn keys_stand_for_commands() {
    assert_eq!(Command::for_key(KeyPress::Character('r')), Some(Command::Randomize));
    assert_eq!(Command::for_key(KeyPress::Enter), Some(Command::ToggleRun));
    assert_eq!(Command::for_key(KeyPress::Space), Some(Command::Step));
    assert_eq!(Command::for_key(KeyPress::ArrowUp), Some(Command::DensityUp));
    assert_eq!(Command::for_key(KeyPress::ArrowDown), Some(Command::DensityDown));
    assert_eq!(Command::for_key(KeyPress::ArrowRight), Some(Command::SpeedUp));
    assert_eq!(Command::for_key(KeyPress::ArrowLeft), Some(Command::SpeedDown));
    assert_eq!(Command::for_key(KeyPress::Escape), Some(Command::Exit));
}

#[test]
fn other_keys_stand_for_nothing() {
    assert_eq!(Command::for_key(KeyPress::Other), None);
    assert_eq!(Command::for_key(KeyPress::Character('R')), None);
    assert_eq!(Command::for_key(KeyPress::Character('x')), None);
    assert_eq!(Command::for_key(KeyPress::Character(' ')), None);
}

#[test]
fn pressed_key_is_carried_out() {
    let mut simulation = small();
    assert!(simulation.window_event(Event::KeyPressed(KeyPress::ArrowUp)).is_none());
    assert_eq!(simulation.life_density(), 10);
    assert!(simulation.window_event(Event::KeyPressed(KeyPress::ArrowRight)).is_none());
    assert_eq!(simulation.speed(), 1);
    assert!(simulation.window_event(Event::KeyPressed(KeyPress::Enter)).is_none());
    assert!(simulation.is_running());
    assert!(simulation.window_event(Event::KeyPressed(KeyPress::Escape)).is_none());
    assert!(simulation.close_requested());
}

#[test]
fn space_steps_by_hand() {
    let mut simulation = small();
    let expected = stepped(simulation.game());
    assert!(simulation.window_event(Event::KeyPressed(KeyPress::Space)).is_none());
    assert_eq!(simulation.game().cells(), &expected);
}

#[test]
fn unknown_key_and_other_events_change_nothing() {
    let mut simulation = small();
    simulation.about_to_wait();
    let before = simulation.game().cells().clone();
    assert!(simulation.window_event(Event::KeyPressed(KeyPress::Character('q'))).is_none());
    assert!(simulation.window_event(Event::KeyPressed(KeyPress::Other)).is_none());
    assert!(simulation.window_event(Event::Other).is_none());
    assert_eq!(simulation.game().cells(), &before);
    assert_eq!(simulation.life_density(), 8);
    assert_eq!(simulation.speed(), 0);
    assert!(!simulation.is_running());
    assert!(!simulation.redraw_requested());
    assert!(!simulation.close_requested());
}

#[test]
fn close_request_asks_to_close() {
    let mut simulation = small();
    assert!(simulation.window_event(Event::CloseRequested).is_none());
    assert!(simulation.close_requested());
}

#[test]
fn redraw_request_is_answered_with_a_frame() {
    let mut simulation = small();
    let before = simulation.game().cells().clone();
    let frame = simulation.window_event(Event::RedrawRequested).unwrap();
    assert_eq!(frame.len(), 4 * 14 * 12);
    assert_eq!(frame, simulation.frame());
    assert_eq!(simulation.game().cells(), &before);
    simulation.handle(Command::ToggleRun);
    let expected = stepped(simulation.game());
    let frame = simulation.window_event(Event::RedrawRequested).unwrap();
    assert_eq!(simulation.game().cells(), &expected);
    assert_eq!(frame, simulation.frame());
}
