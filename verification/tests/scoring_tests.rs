use mastermind::guess::Colors;
use mastermind::scoring::score;

fn four(a: Colors, b: Colors, c: Colors, d: Colors) -> Vec<Colors> {
    vec![a, b, c, d]
}

#[test]
fn score_one_exact_two_partial() {
    // secret = [Red, Blue, Green, Red]; guess = [Red, Red, Yellow, Blue]:
    // one exact match at slot 0; color overlap Red 2, Blue 1 -> 3; partial 2.
    let secret = four(Colors::Red, Colors::Blue, Colors::Green, Colors::Red);
    let guess = four(Colors::Red, Colors::Red, Colors::Yellow, Colors::Blue);
    assert_eq!(score(&secret, &guess), (1, 2));
}

#[test]
fn score_no_exact_full_overlap() {
    // secret = [Red, Red, Blue, Green]; guess = [Blue, Green, Red, Red]:
    // nothing in place, but every color is present: (0, 4).
    let secret = four(Colors::Red, Colors::Red, Colors::Blue, Colors::Green);
    let guess = four(Colors::Blue, Colors::Green, Colors::Red, Colors::Red);
    assert_eq!(score(&secret, &guess), (0, 4));
}

#[test]
fn score_perfect_guess() {
    let secret = four(Colors::Yellow, Colors::Black, Colors::White, Colors::Yellow);
    let guess = four(Colors::Yellow, Colors::Black, Colors::White, Colors::Yellow);
    assert_eq!(score(&secret, &guess), (4, 0));
}

#[test]
fn score_disjoint_colors() {
    let secret = four(Colors::Red, Colors::Red, Colors::Red, Colors::Red);
    let guess = four(Colors::Blue, Colors::Blue, Colors::Blue, Colors::Blue);
    assert_eq!(score(&secret, &guess), (0, 0));
}

#[test]
fn score_repeated_colors_not_double_counted() {
    // secret holds two Reds; a guess with three Reds gets credit for two.
    let secret = four(Colors::Red, Colors::Red, Colors::Blue, Colors::Blue);
    let guess = four(Colors::Red, Colors::Blue, Colors::Red, Colors::Red);
    // exact: slot 0 only; overlap: min(2,3) Red + min(2,1) Blue = 3; partial 2.
    assert_eq!(score(&secret, &guess), (1, 2));
}

#[test]
fn score_is_symmetric() {
    let pairs = [
        (
            four(Colors::Red, Colors::Blue, Colors::Green, Colors::Red),
            four(Colors::Red, Colors::Red, Colors::Yellow, Colors::Blue),
        ),
        (
            four(Colors::Black, Colors::White, Colors::White, Colors::Green),
            four(Colors::White, Colors::Black, Colors::Green, Colors::White),
        ),
        (
            four(Colors::Yellow, Colors::Yellow, Colors::Yellow, Colors::Red),
            four(Colors::Red, Colors::Yellow, Colors::Blue, Colors::Yellow),
        ),
    ];
    for (s, g) in pairs {
        assert_eq!(score(&s, &g), score(&g, &s));
    }
}

#[test]
fn score_stays_within_bounds() {
    let all = [Colors::Red, Colors::Blue, Colors::Green, Colors::Yellow, Colors::Black,
        Colors::White];
    // a spread of guesses against one secret: pins always fit the four slots
    let secret = four(Colors::Green, Colors::Green, Colors::White, Colors::Red);
    for &a in &all {
        for &b in &all {
            let guess = four(a, b, Colors::Green, Colors::White);
            let (exact, partial) = score(&secret, &guess);
            assert!(0 <= exact && exact <= 4);
            assert!(0 <= partial);
            assert!(exact + partial <= 4);
            // four exact pins happen exactly on the one matching guess
            let matches = guess == secret;
            assert_eq!(exact == 4, matches);
        }
    }
}
