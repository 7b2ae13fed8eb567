use lazy_pregen::console::Text;
use lazy_pregen::controller::PregenController;
use lazy_pregen::dimensions::Dimensions;
use lazy_pregen::generate::{Generation, Next, Outcome, Reply};
use lazy_pregen::lock::{decode_lock, encode_lock};
use lazy_pregen::state::PregenState;

const FLUSH_AND_STOP: &str = "save-all flush\nstop\n";

fn overworld() -> Dimensions {
    Dimensions { overworld: true, nether: false, end: false }
}

fn start(radius: u32, state: Option<PregenState>, dimensions: Dimensions) -> Generation {
    PregenController::new(radius, state)
        .unwrap()
        .unwrap()
        .generate_chunks(dimensions)
}

fn saved() -> Option<Text> {
    Some(Text::Stdout("[12:00:00] [Server thread/INFO]: Saved the game".to_string()))
}

/// The blocks that commands load in the overworld.
fn loaded(commands: &str) -> Vec<(i32, i32)> {
    commands
        .lines()
        .filter_map(|line| line.strip_prefix("execute in overworld run forceload add "))
        .map(|blocks| {
            let (x, z) = blocks.split_once(' ').unwrap();
            (x.parse().unwrap(), z.parse().unwrap())
        })
        .collect()
}

#[test]
fn flags_restrict_the_dimensions() {
    let only = Dimensions::from_flags(false, true, false);
    assert_eq!(only, Dimensions { overworld: false, nether: true, end: false });
    let two = Dimensions::from_flags(true, false, true);
    assert_eq!(two, Dimensions { overworld: true, nether: false, end: true });
    let all = Dimensions::from_flags(false, false, false);
    assert_eq!(all, Dimensions { overworld: true, nether: true, end: true });
}

#[test]
fn first_step_reports_and_loads_the_first_chunk() {
    let mut generation = start(16, None, Dimensions::from_flags(false, false, false));
    let step = generation.poll(true);
    assert_eq!(step.report, Some((0, 4)));
    assert_eq!(
        step.commands,
        "execute in overworld run forceload add -8 -8\n\
         execute in the_nether run forceload add -8 -8\n\
         execute in the_end run forceload add -8 -8\n"
    );
    assert_eq!(step.cache, None);
    assert_eq!(step.next, Next::Poll);
}

#[test]
fn only_chosen_dimensions_are_loaded() {
    let end = Dimensions { overworld: false, nether: false, end: true };
    let mut generation = start(2000, Some(PregenState::new(100, 303)), end);
    let step = generation.poll(true);
    assert_eq!(step.report, Some((1600, 501)));
    assert_eq!(step.commands, "execute in the_end run forceload add 1608 24\n");
}

#[test]
fn rings_are_reported_once() {
    let mut generation = start(32, Some(PregenState::new(0, 2)), overworld());
    let reports: Vec<Option<(u32, u32)>> = (0..4).map(|_| generation.poll(true).report).collect();
    assert_eq!(reports, vec![Some((0, 2)), None, Some((16, 12)), None]);
}

#[test]
fn complete_run_of_one_ring() {
    let mut generation = start(16, None, overworld());
    let mut blocks = Vec::new();
    for _ in 0..4 {
        let step = generation.poll(true);
        assert_eq!(step.next, Next::Poll);
        blocks.extend(loaded(&step.commands));
    }
    assert_eq!(blocks, vec![(-8, -8), (8, -8), (8, 8), (-8, 8)]);

    let stop = generation.poll(true);
    assert_eq!(stop.report, None);
    assert_eq!(stop.commands, FLUSH_AND_STOP);
    assert_eq!(stop.cache, None);
    assert_eq!(stop.next, Next::ReadConsole);

    let done = generation.read_console(saved());
    assert_eq!(done.commands, "");
    assert_eq!(done.cache, Some(PregenState::new(1, 0)));
    assert_eq!(done.next, Next::Finish(Outcome::Completed { radius: 16 }));
}

#[test]
fn run_with_a_save_covers_the_square() {
    let mut generation = start(192, None, overworld());
    let mut blocks = Vec::new();
    let mut saves = 0;
    let mut step = generation.poll(true);
    loop {
        blocks.extend(loaded(&step.commands));
        step = match step.next {
            Next::Poll => generation.poll(true),
            Next::ReadConsole => {
                if !step.commands.ends_with(FLUSH_AND_STOP) {
                    saves += 1;
                    assert_eq!(blocks.len(), 512);
                    assert!(step.commands.ends_with(
                        "execute in overworld run forceload remove all\n\
                         execute in the_nether run forceload remove all\n\
                         execute in the_end run forceload remove all\n\
                         save-all flush\n"
                    ));
                }
                generation.read_console(saved())
            }
            Next::Finish(outcome) => {
                assert_eq!(outcome, Outcome::Completed { radius: 192 });
                break;
            }
        };
    }
    assert_eq!(saves, 1);
    assert_eq!(blocks.len(), 576);
    for x in -12..12 {
        for z in -12..12 {
            assert!(blocks.contains(&(x * 16 + 8, z * 16 + 8)));
        }
    }
}

#[test]
fn state_is_cached_after_a_save() {
    let mut generation = start(5000, None, overworld());
    for _ in 0..511 {
        assert_eq!(generation.poll(true).next, Next::Poll);
    }
    let step = generation.poll(true);
    assert_eq!(step.next, Next::ReadConsole);
    assert_eq!(step.cache, None);
    let step = generation.read_console(saved());
    // The rings before ring 11 hold 484 chunks.
    assert_eq!(step.cache, Some(PregenState::new(11, 28)));
    assert_eq!(step.next, Next::Poll);
    assert_eq!(generation.poll(true).next, Next::Poll);
}

#[test]
fn only_standard_output_reports_a_save() {
    let mut generation = start(16, Some(PregenState::new(0, 3)), overworld());
    generation.poll(true);
    generation.poll(true);
    for line in [
        Text::Stderr("[x]: Saved the game".to_string()),
        Text::Stdout("[x]: Saved the game.".to_string()),
        Text::Stdout("Saved the game".to_string()),
        Text::Stdout("[x]: Saved the game\n".to_string()),
        Text::Stdout("[x]: Saved the Game".to_string()),
        Text::Stdout(String::new()),
    ] {
        let step = generation.read_console(Some(line));
        assert_eq!(step.next, Next::ReadConsole);
        assert_eq!(step.cache, None);
        assert_eq!(step.commands, "");
    }
    let step = generation.read_console(Some(Text::Stdout(": Saved the game".to_string())));
    assert_eq!(step.next, Next::Finish(Outcome::Completed { radius: 16 }));
}

#[test]
fn server_that_ends_is_an_error() {
    let mut generation = start(16, Some(PregenState::new(0, 3)), overworld());
    generation.poll(true);
    generation.poll(true);
    let step = generation.read_console(None);
    assert_eq!(step.cache, None);
    assert_eq!(step.next, Next::Finish(Outcome::ServerEnded));
    assert_eq!(
        Outcome::ServerEnded.error(),
        Some("server ended after attempting to save world")
    );
    assert_eq!(Outcome::Interrupted.error(), None);
    assert_eq!(Outcome::Completed { radius: 16 }.error(), None);
}

#[test]
fn replies_decide_about_a_save() {
    let mut generation = start(16, Some(PregenState::new(0, 3)), overworld());
    generation.poll(true);
    generation.poll(true);
    assert_eq!(generation.handle_reply(Reply::Other).next, Next::ReadConsole);
    assert_eq!(
        generation.handle_reply(Reply::Saved).next,
        Next::Finish(Outcome::Completed { radius: 16 })
    );
}

#[test]
fn interruption_saves_and_stops() {
    let mut generation = start(32, None, overworld());
    for _ in 0..6 {
        generation.poll(true);
    }
    let step = generation.poll(false);
    assert_eq!(step.report, None);
    assert_eq!(step.commands, FLUSH_AND_STOP);
    assert_eq!(step.cache, None);
    assert_eq!(step.next, Next::ReadConsole);

    let step = generation.read_console(Some(Text::Stdout("[x]: Saving".to_string())));
    assert_eq!(step.cache, None);
    assert_eq!(step.next, Next::ReadConsole);

    let step = generation.read_console(saved());
    assert_eq!(step.commands, "");
    assert_eq!(step.cache, Some(PregenState::new(1, 2)));
    assert_eq!(step.next, Next::Finish(Outcome::Interrupted));
}

#[test]
fn interruption_without_a_confirmed_save_caches_nothing() {
    let all = Dimensions::from_flags(false, false, false);
    let mut generation = start(5000, Some(PregenState::new(3, 7)), all);
    let step = generation.poll(false);
    assert_eq!(step.report, None);
    assert_eq!(step.commands, FLUSH_AND_STOP);
    assert_eq!(step.cache, None);
    assert_eq!(step.next, Next::ReadConsole);

    let step = generation.read_console(None);
    assert_eq!(step.report, None);
    assert_eq!(step.commands, "");
    assert_eq!(step.cache, None);
    assert_eq!(step.next, Next::Finish(Outcome::Interrupted));
}

#[test]
fn interruption_after_the_last_chunk_caches_the_end() {
    let mut generation = start(16, Some(PregenState::new(0, 3)), overworld());
    generation.poll(true);
    assert_eq!(generation.poll(false).next, Next::ReadConsole);
    let step = generation.read_console(saved());
    assert_eq!(step.cache, Some(PregenState::new(1, 0)));
    assert_eq!(step.next, Next::Finish(Outcome::Interrupted));
}

#[test]
fn interrupted_run_is_resumed_where_it_was_left() {
    let mut whole = start(32, None, overworld());
    let expected: Vec<(i32, i32)> = (0..16).flat_map(|_| loaded(&whole.poll(true).commands)).collect();

    let mut first = start(32, None, overworld());
    let mut blocks: Vec<(i32, i32)> = (0..7).flat_map(|_| loaded(&first.poll(true).commands)).collect();
    first.poll(false);
    let cached = first.read_console(saved()).cache.unwrap();
    let cached = decode_lock(&encode_lock(cached)).unwrap();
    let mut second = start(32, Some(cached), overworld());
    blocks.extend((0..9).flat_map(|_| loaded(&second.poll(true).commands)));

    assert_eq!(blocks, expected);
    assert_eq!(blocks.len(), 16);
}

#[test]
fn completed_radius_leaves_no_work() {
    let state = Some(PregenState::new(2, 0));
    assert!(PregenController::new(32, state).unwrap().is_none());
    let mut further = start(33, state, overworld());
    assert_eq!(further.poll(true).report, Some((32, 20)));
}
