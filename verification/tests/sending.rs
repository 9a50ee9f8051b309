use morse_frames::draw::DrawSource;
use morse_frames::lamp_mode::{LampModeState, Mode};
use morse_frames::frame::Symbol;
use morse_frames::message_transformer::TransformerConfig;
use morse_frames::scheduler::{
    candidates, classify, generate_random_tempo, pause_ms, select_message, settle, ChangeFlag,
    Message, Scheduler, Step, Transmission, DEFAULT_TEMPO_MS, INTER_CYCLE_DELAY_SECS,
};

fn message(id: &str, morse_code: &str, last_sent: Option<i64>) -> Message {
    Message {
        id: id.to_string(),
        text: id.to_uppercase(),
        morse_code: morse_code.to_string(),
        created_at: 1_700_000_000,
        last_sent,
        send_count: if last_sent.is_some() { 1 } else { 0 },
    }
}

#[test]
fn the_one_unsent_message_is_always_selected() {
    let pool = vec![
        message("a", ".-", Some(10)),
        message("b", "-...", None),
        message("c", "-.-.", Some(30)),
    ];
    assert_eq!(candidates(&pool), vec![1]);
    let mut source = DrawSource::from_entropy();
    for _ in 0..300 {
        assert_eq!(select_message(&pool, &mut source), Some(1));
    }
}

#[test]
fn unsent_messages_come_first() {
    let pool = vec![
        message("a", ".-", None),
        message("b", "-...", Some(20)),
        message("c", "-.-.", None),
        message("d", "-..", Some(40)),
    ];
    assert_eq!(candidates(&pool), vec![0, 2]);
    let mut source = DrawSource::from_seed(5);
    let mut seen = [0u32; 4];
    for _ in 0..2_000 {
        let index = select_message(&pool, &mut source).expect("the pool is not empty");
        seen[index] += 1;
    }
    assert_eq!(seen[1], 0);
    assert_eq!(seen[3], 0);
    assert!(seen[0] > 800 && seen[2] > 800);
}

#[test]
fn once_all_were_sent_any_message_is_selected() {
    let pool = vec![
        message("a", ".-", Some(1)),
        message("b", "-...", Some(2)),
        message("c", "-.-.", Some(3)),
    ];
    assert_eq!(candidates(&pool), vec![0, 1, 2]);
    let mut source = DrawSource::from_seed(11);
    let mut seen = [0u32; 3];
    for _ in 0..3_000 {
        let index = select_message(&pool, &mut source).expect("the pool is not empty");
        seen[index] += 1;
    }
    assert!(seen.iter().all(|count| *count > 800));
}

#[test]
fn an_empty_pool_selects_nothing() {
    let pool: Vec<Message> = Vec::new();
    assert_eq!(candidates(&pool), Vec::<usize>::new());
    let mut source = DrawSource::from_entropy();
    assert_eq!(select_message(&pool, &mut source), None);
    let scheduler = Scheduler { lamp: LampModeState::new(), tempo_ms: 400 };
    assert!(scheduler.start_transmission(&pool, &mut source).is_none());
}

#[test]
fn tempo_is_one_of_the_choices() {
    let mut source = DrawSource::from_seed(3);
    let choices = vec![400, 700, 1000];
    let mut seen = [0u32; 3];
    for _ in 0..3_000 {
        match generate_random_tempo(&choices, &mut source) {
            400 => seen[0] += 1,
            700 => seen[1] += 1,
            1000 => seen[2] += 1,
            other => panic!("unexpected tempo {other}"),
        }
    }
    assert!(seen.iter().all(|count| *count > 800));
    assert_eq!(generate_random_tempo(&vec![250], &mut source), 250);
}

#[test]
fn tempo_falls_back_without_choices() {
    let mut source = DrawSource::from_entropy();
    assert_eq!(DEFAULT_TEMPO_MS, 700);
    assert_eq!(generate_random_tempo(&Vec::new(), &mut source), 700);
}

#[test]
fn characters_are_read_as_symbols() {
    assert_eq!(classify('.'), Some(Symbol::Dot));
    assert_eq!(classify('-'), Some(Symbol::Dash));
    assert_eq!(classify(' '), Some(Symbol::Space));
    assert_eq!(classify('\n'), Some(Symbol::LineBreak));
    assert_eq!(classify('/'), None);
    assert_eq!(classify('\r'), None);
    assert_eq!(classify('x'), None);
}

#[test]
fn pauses_are_one_or_four_units() {
    assert_eq!(pause_ms(Symbol::Dot, 400), 400);
    assert_eq!(pause_ms(Symbol::Dash, 400), 1_600);
    assert_eq!(pause_ms(Symbol::Space, 700), 2_800);
    assert_eq!(pause_ms(Symbol::LineBreak, 1_000), 4_000);
    assert_eq!(pause_ms(Symbol::Dot, u64::MAX), u64::MAX);
    assert_eq!(pause_ms(Symbol::Dash, u64::MAX / 4), u64::MAX - 3);
    assert_eq!(pause_ms(Symbol::Dash, u64::MAX / 4 + 1), u64::MAX);
    assert_eq!(pause_ms(Symbol::Space, 0), 0);
}

#[test]
fn a_send_walks_through_the_code() {
    let config = TransformerConfig::default();
    let mut source = DrawSource::from_entropy();
    let mut flag = ChangeFlag::new();
    let mut transmission = Transmission::new(".- /\n", 500, false);
    assert_eq!(transmission.code, vec!['.', '-', ' ', '/', '\n']);
    assert_eq!(transmission.position, 0);
    assert!(!transmission.finished());

    match transmission.step(&mut flag, &config, &mut source) {
        Step::Send { frame, pause_ms } => {
            assert_eq!(pause_ms, 500);
            assert_eq!(frame.len(), 29);
            assert!(frame[1..13].chars().any(|c| c != '0'));
            assert!(frame[13..27].chars().all(|c| c == '0'));
        }
        other => panic!("unexpected step {other:?}"),
    }
    match transmission.step(&mut flag, &config, &mut source) {
        Step::Send { frame, pause_ms } => {
            assert_eq!(pause_ms, 2_000);
            assert!(frame[1..13].chars().all(|c| c == '0'));
            assert!(frame[13..21].chars().any(|c| c != '0'));
            assert!(frame[21..27].chars().all(|c| c == '0'));
        }
        other => panic!("unexpected step {other:?}"),
    }
    assert_eq!(
        transmission.step(&mut flag, &config, &mut source),
        Step::Send { frame: String::from("<00000000000000000000000000>\n"), pause_ms: 2_000 }
    );
    assert_eq!(transmission.step(&mut flag, &config, &mut source), Step::Skip);
    assert_eq!(
        transmission.step(&mut flag, &config, &mut source),
        Step::Pause { pause_ms: 2_000 }
    );
    assert_eq!(transmission.position, 5);
    assert_eq!(transmission.step(&mut flag, &config, &mut source), Step::Finished);
    assert_eq!(transmission.step(&mut flag, &config, &mut source), Step::Finished);
    assert!(transmission.finished());
    assert!(!transmission.interrupted);
}

#[test]
fn a_lamp_send_drives_the_lamps_only() {
    let config = TransformerConfig::default();
    let mut source = DrawSource::from_entropy();
    let mut flag = ChangeFlag::new();
    let mut transmission = Transmission::new("..--", 1_000, true);
    for expected_pause in [1_000, 1_000, 4_000, 4_000] {
        match transmission.step(&mut flag, &config, &mut source) {
            Step::Send { frame, pause_ms } => {
                assert_eq!(pause_ms, expected_pause);
                assert!(frame[1..21].chars().all(|c| c == '0'));
            }
            other => panic!("unexpected step {other:?}"),
        }
    }
    assert_eq!(transmission.step(&mut flag, &config, &mut source), Step::Finished);
}

#[test]
fn a_config_change_interrupts_the_send() {
    let config = TransformerConfig::default();
    let mut source = DrawSource::from_entropy();
    let mut flag = ChangeFlag::new();
    let mut target = message("m", ".-.-.", None);
    let before = target.clone();
    let mut transmission = Transmission::new(&target.morse_code, 400, false);

    assert!(matches!(transmission.step(&mut flag, &config, &mut source), Step::Send { .. }));
    assert!(matches!(transmission.step(&mut flag, &config, &mut source), Step::Send { .. }));
    flag.raise();
    assert!(flag.raised);
    assert_eq!(transmission.step(&mut flag, &config, &mut source), Step::Interrupted);
    assert!(!flag.raised);
    assert_eq!(transmission.position, 2);
    assert!(transmission.interrupted);
    assert!(!transmission.finished());

    // The send stays stopped, and a flag raised later is left for the next send.
    assert_eq!(transmission.step(&mut flag, &config, &mut source), Step::Interrupted);
    flag.raise();
    assert_eq!(transmission.step(&mut flag, &config, &mut source), Step::Interrupted);
    assert!(flag.raised);
    assert_eq!(transmission.position, 2);

    assert!(!settle(&mut target, &transmission, 1_800_000_000));
    assert_eq!(target.last_sent, before.last_sent);
    assert_eq!(target.send_count, before.send_count);
    assert_eq!(target.last_sent, None);
    assert_eq!(target.send_count, 0);
}

#[test]
fn a_finished_send_leaves_the_flag_alone() {
    let config = TransformerConfig::default();
    let mut source = DrawSource::from_entropy();
    let mut flag = ChangeFlag::new();
    let mut transmission = Transmission::new("", 400, false);
    flag.raise();
    assert_eq!(transmission.step(&mut flag, &config, &mut source), Step::Finished);
    assert!(flag.raised);
    assert!(transmission.finished());
}

#[test]
fn the_flag_is_consumed_once() {
    let mut flag = ChangeFlag::new();
    assert!(!flag.consume());
    flag.raise();
    flag.raise();
    assert!(flag.consume());
    assert!(!flag.consume());
}

#[test]
fn a_completed_send_is_recorded() {
    let config = TransformerConfig::default();
    let mut source = DrawSource::from_entropy();
    let mut flag = ChangeFlag::new();
    let mut target = message("m", ". .", Some(5));
    let mut transmission = Transmission::new(&target.morse_code, 400, false);
    let mut frames = 0;
    loop {
        match transmission.step(&mut flag, &config, &mut source) {
            Step::Send { .. } => frames += 1,
            Step::Finished => break,
            other => panic!("unexpected step {other:?}"),
        }
    }
    assert_eq!(frames, 3);
    assert!(settle(&mut target, &transmission, 1_800_000_000));
    assert_eq!(target.last_sent, Some(1_800_000_000));
    assert_eq!(target.send_count, 2);
    assert_eq!(target.id, "m");
    assert_eq!(target.text, "M");
    assert_eq!(target.morse_code, ". .");
    assert_eq!(target.created_at, 1_700_000_000);
}

#[test]
fn the_send_count_stops_at_its_limit() {
    let mut target = message("m", ".", Some(5));
    target.send_count = u32::MAX;
    target.mark_sent(9);
    assert_eq!(target.send_count, u32::MAX);
    assert_eq!(target.last_sent, Some(9));
    let mut fresh = message("n", ".", None);
    fresh.mark_sent(-3);
    assert_eq!(fresh.send_count, 1);
    assert_eq!(fresh.last_sent, Some(-3));
}

#[test]
fn a_cycle_settles_mode_and_tempo() {
    assert_eq!(INTER_CYCLE_DELAY_SECS, 5);
    let mut config = TransformerConfig::default();
    config.lamp_tempo_ms = 1_500;
    let mut source = DrawSource::from_entropy();
    let mut scheduler = Scheduler::new(&config, &mut source);
    assert_eq!(scheduler.lamp, LampModeState::new());
    assert!(config.tempo_choices.contains(&scheduler.tempo_ms));

    let mut now = 100;
    for count in 1..=5 {
        let before = scheduler.tempo_ms;
        let mode = scheduler.begin_cycle(&config, now);
        assert_eq!(mode, Mode::Instrument);
        assert_eq!(scheduler.tempo_ms, before);
        scheduler.end_cycle(&config, mode, &mut source);
        assert_eq!(scheduler.lamp.consecutive_count, count);
        assert!(config.tempo_choices.contains(&scheduler.tempo_ms));
        now += 30;
    }
    let mode = scheduler.begin_cycle(&config, now);
    assert_eq!(mode, Mode::Lamp);
    assert_eq!(scheduler.tempo_ms, 1_500);
    assert_eq!(scheduler.lamp.lamp_mode_start, Some(now));
    scheduler.end_cycle(&config, mode, &mut source);
    assert_eq!(scheduler.lamp.consecutive_count, 0);
    assert!(config.tempo_choices.contains(&scheduler.tempo_ms));

    let mode = scheduler.begin_cycle(&config, now + 119);
    assert_eq!(mode, Mode::Lamp);
    assert_eq!(scheduler.tempo_ms, 1_500);
    scheduler.end_cycle(&config, mode, &mut source);

    let mode = scheduler.begin_cycle(&config, now + 120);
    assert_eq!(mode, Mode::Instrument);
    assert_eq!(scheduler.lamp, LampModeState::new());

    config.tempo_choices = Vec::new();
    scheduler.end_cycle(&config, mode, &mut source);
    assert_eq!(scheduler.tempo_ms, 700);
    assert_eq!(Scheduler::new(&config, &mut source).tempo_ms, 700);
}

#[test]
fn a_transmission_is_readied_for_the_selected_message() {
    let pool = vec![message("a", ".-", Some(10)), message("b", "-..\n.", None)];
    let mut source = DrawSource::from_entropy();
    let scheduler = Scheduler {
        lamp: LampModeState { consecutive_count: 0, lamp_mode_start: Some(3) },
        tempo_ms: 1_000,
    };
    let (index, transmission) =
        scheduler.start_transmission(&pool, &mut source).expect("the pool is not empty");
    assert_eq!(index, 1);
    assert_eq!(transmission.code, vec!['-', '.', '.', '\n', '.']);
    assert_eq!(transmission.position, 0);
    assert_eq!(transmission.tempo_ms, 1_000);
    assert!(transmission.lamp_mode);
    assert!(!transmission.interrupted);
}
