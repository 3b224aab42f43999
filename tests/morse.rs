use communications::morse::MorseSymbol::{Dash, Dot, Space};
use communications::morse::{
    calibration_word, ident_to_morse, letter_pattern, reversed, Morse, MorseSymbol,
};

const MS: u64 = 1_000_000;

fn code_of(s: &str) -> u64 {
    let mut value: u64 = 0;
    for (i, c) in s.chars().enumerate() {
        value += ((c as u64) - 31) << (6 * i);
    }
    value
}

/// Runs `ticks` ticks of one millisecond and returns the lengths of the
/// runs of equal tone state, starting with the state after the first tick.
fn runs(m: &mut Morse, ticks: usize) -> Vec<(bool, usize)> {
    let mut out: Vec<(bool, usize)> = Vec::new();
    for _ in 0..ticks {
        m.update(MS);
        let on = m.get_state();
        match out.last_mut() {
            Some((state, n)) if *state == on => *n += 1,
            _ => out.push((on, 1)),
        }
    }
    out
}

#[test]
fn letter_patterns() {
    assert_eq!(letter_pattern('A'), vec![Dot, Dash]);
    assert_eq!(letter_pattern('p'), vec![Dot, Dash, Dash, Dot]);
    assert_eq!(letter_pattern('Z'), vec![Dash, Dash, Dot, Dot]);
    assert!(letter_pattern('7').is_empty());
}

#[test]
fn sequence_of_identifier() {
    assert_eq!(ident_to_morse(&vec!['A']), vec![Dot, Dash, Space]);
    assert_eq!(
        ident_to_morse(&vec!['E', 'T']),
        vec![Dot, Space, Dash, Space]
    );
    assert_eq!(ident_to_morse(&vec!['1']), vec![Space]);
    assert_eq!(reversed(&vec![Dot, Dash, Space]), vec![Space, Dash, Dot]);
}

#[test]
fn calibration_sequence() {
    let w = calibration_word();
    assert_eq!(w.iter().collect::<String>(), "PARIS");
    let seq = ident_to_morse(&w);
    let dots = seq.iter().filter(|s| **s == MorseSymbol::Dot).count();
    let dashes = seq.iter().filter(|s| **s == MorseSymbol::Dash).count();
    let spaces = seq.iter().filter(|s| **s == MorseSymbol::Space).count();
    assert_eq!((dots, dashes, spaces), (10, 4, 5));
    assert_eq!(dots as u64 * 171 + dashes as u64 * 513, 3762);
}

#[test]
fn new_engine_is_silent() {
    let mut m = Morse::new();
    assert!(!m.get_state());
    assert_eq!(runs(&mut m, 5000), vec![(false, 5000)]);
}

#[test]
fn zero_code_stays_off() {
    let mut m = Morse::new();
    m.set_active_identifier(0);
    assert_eq!(runs(&mut m, 20000), vec![(false, 20000)]);
}

#[test]
fn letter_a_timing() {
    let mut m = Morse::new();
    m.set_active_identifier(code_of("A"));
    let r = runs(&mut m, 1198 + 172 + 171 + 514 + 171 + 1 + 1198 + 172);
    // Each interval ends on the first tick past it: the pause of 1197 ms,
    // the dot (171 ms), one unit of silence, the dash (513 ms), one unit of
    // silence, then the closing space gives way to the next pause.
    assert_eq!(
        r,
        vec![
            (false, 1198),
            (true, 172),
            (false, 171),
            (true, 514),
            (false, 171 + 1 + 1198),
            (true, 172),
        ]
    );
}

#[test]
fn same_code_does_not_restart() {
    let mut reference = Morse::new();
    let mut fed = Morse::new();
    reference.set_active_identifier(code_of("A"));
    fed.set_active_identifier(code_of("A"));
    for _ in 0..4000 {
        reference.update(MS);
        fed.set_active_identifier(code_of("A"));
        fed.update(MS);
        assert_eq!(reference.get_state(), fed.get_state());
    }
}

#[test]
fn new_code_restarts_with_pause() {
    let mut m = Morse::new();
    m.set_active_identifier(code_of("T"));
    // pause, then the dash is on
    let first = runs(&mut m, 1198 + 10);
    assert_eq!(first, vec![(false, 1198), (true, 10)]);
    m.set_active_identifier(code_of("E"));
    // the next tick drops the dash and starts the pause of the new identifier
    let r = runs(&mut m, 1198 + 172 + 171 + 1);
    assert_eq!(r, vec![(false, 1198), (true, 172), (false, 171 + 1)]);
}

#[test]
fn calibration_cycle_is_constant() {
    let mut m = Morse::new();
    m.set_active_identifier(code_of("PARIS"));
    let r = runs(&mut m, 40000);
    // cycles start where an "off" run longer than the pause begins
    let starts: Vec<usize> = r
        .iter()
        .enumerate()
        .filter(|(_, (on, n))| !*on && *n > 1197)
        .map(|(i, _)| i)
        .collect();
    assert!(starts.len() >= 4);
    let on_time = |from: usize, to: usize| -> usize {
        r[from..to].iter().filter(|(on, _)| *on).map(|(_, n)| *n).sum()
    };
    let period = |from: usize, to: usize| -> usize { r[from..to].iter().map(|(_, n)| *n).sum() };
    // 10 dots and 4 dashes, each seen one tick past its length
    assert_eq!(on_time(starts[1], starts[2]), 10 * 172 + 4 * 514);
    assert_eq!(on_time(starts[2], starts[3]), on_time(starts[1], starts[2]));
    // pause, 10 dots, 4 dashes and 4 character spaces, each one tick past
    // its interval, and the closing space for one tick
    assert_eq!(period(starts[1], starts[2]), 1198 + 10 * 343 + 4 * 685 + 4 * 514 + 1);
    assert_eq!(period(starts[2], starts[3]), period(starts[1], starts[2]));
}

#[test]
fn coarse_ticks_accumulate() {
    let mut m = Morse::new();
    m.set_active_identifier(code_of("E"));
    m.update(0);
    assert!(!m.get_state());
    // 1197 ms of pause is not yet exceeded
    m.update(1197 * MS);
    assert!(!m.get_state());
    m.update(MS / 2);
    assert!(!m.get_state());
    m.update(MS / 2);
    assert!(m.get_state());
}

#[test]
fn huge_tick_saturates() {
    let mut m = Morse::new();
    m.set_active_identifier(code_of("E"));
    m.update(u64::MAX);
    m.update(u64::MAX);
    assert!(m.get_state());
}
