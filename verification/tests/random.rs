use std::cell::Cell;

use zebra::utils::float::FloatLiteral;
use zebra::utils::probablity::Probablity;
use zebra::utils::random::Random;

#[test]
fn xorshift_from_seed_one() {
    let mut r = Random::new(1, 99);
    assert_eq!(r.rand(), 72066390130958337);
    assert_eq!(r.rand(), 4503599627371009);
    assert_eq!(r.rand(), 72347899471602209);
}

#[test]
fn seed_zero_takes_the_timestamp() {
    let mut a = Random::new(0, 1);
    let mut b = Random::new(1, 7);
    assert_eq!(a.rand(), b.rand());
}

#[test]
fn rand_idx_of_nothing_is_zero_and_draws_nothing() {
    let mut r = Random::new(1, 0);
    assert_eq!(r.rand_idx(0), 0);
    assert_eq!(r.0, 1);
    assert_eq!(r.rand_idx(10), (72066390130958337u64 % 10) as usize);
}

#[test]
fn rand_in_range_stays_in_range() {
    let mut r = Random::new(5, 0);
    for _ in 0..1000 {
        let v = r.rand_in_range(-7, 13);
        assert!(-7 <= v && v < 13);
    }
    assert_eq!(r.rand_in_range(4, 4), 4);
}

#[test]
fn rand_in_range_exact_value() {
    let mut r = Random::new(1, 0);
    assert_eq!(r.rand_in_range(0, 0x10000), 0x2001);
    let mut r = Random::new(1, 0);
    assert_eq!(r.rand_in_range(-100, 100), -100 + (72066390130958337u64 % 200) as isize);
}

#[test]
fn random_element_picks_by_the_next_word() {
    let items = [10, 20, 30, 40, 50, 60, 70];
    let mut r = Random::new(1, 0);
    assert_eq!(*r.random_element(&items), items[(72066390130958337u64 % 7) as usize]);
}

#[test]
fn random_string_has_the_length_asked_for() {
    let mut r = Random::new(3, 0);
    let s = r.random_string(40);
    assert_eq!(s.chars().count(), 40);
    assert!(s.chars().all(|c| c.is_ascii_graphic()));
    assert_eq!(r.random_string(0), "");
}

#[test]
fn random_string_first_character() {
    let alphabet = "ABCDEFGHIJKLMNOPQRSTUVWXYZabcdefghijklmnopqrstyvwxyz1234567890~!@#$%^&*()_+[];'./,{}:<>?`-=";
    let mut r = Random::new(1, 0);
    let s = r.random_string(1);
    let expect = alphabet.chars().nth((72066390130958337u64 % 91) as usize).unwrap();
    assert_eq!(s, expect.to_string());
}

#[test]
fn n_random_elements_are_distinct() {
    let items = ["a", "b", "c", "d", "w", "x", "y", "z"];
    let mut r = Random::new(11, 0);
    for n in 0..12 {
        let picked = r.get_n_random_elements(&items, n);
        assert_eq!(picked.len(), n.min(8));
        for i in 0..picked.len() {
            for j in 0..i {
                assert_ne!(picked[i], picked[j]);
            }
        }
    }
}

#[test]
fn float_in_range_scales_a_32_bit_integer() {
    let mut r = Random::new(1, 0);
    let f = r.float_in_range(-0x1000, 0x1000);
    let word = 72066390130958337u64;
    let base = -0x8000_0000i128 + (word % 0xffff_ffff) as i128;
    assert_eq!(f, FloatLiteral { numer: base * 0x1000, denom: 0x7fff_ffff });
}

#[test]
fn float_text() {
    let mut s = String::new();
    FloatLiteral { numer: -5, denom: 2 }.push_text(&mut s);
    assert_eq!(s, "-2.500000000000000");
    let mut s = String::new();
    FloatLiteral { numer: 1, denom: 3 }.push_text(&mut s);
    assert_eq!(s, "0.333333333333333");
    let mut s = String::new();
    FloatLiteral { numer: 0, denom: 7 }.push_text(&mut s);
    assert_eq!(s, "0.000000000000000");
}

#[test]
fn prob_is_in_tenths() {
    let mut p = Probablity::new(Random::new(1, 0));
    assert_eq!(p.prob(), 4);
    assert_eq!(p.prob(), 0);
    let mut p = Probablity::new(Random::new(9, 0));
    for _ in 0..1000 {
        assert!(p.prob() <= 10);
    }
}

#[test]
fn certainty_draws_nothing() {
    let mut p = Probablity::new(Random::new(1, 0));
    assert!(p.probablity(10));
    assert_eq!((p.0).0, 1);
    assert!(!p.probablity(4));
    assert!(p.probablity(1));
}

#[test]
fn impossible_is_never_true() {
    let mut p = Probablity::new(Random::new(77, 0));
    for _ in 0..200 {
        assert!(!p.probablity(0));
    }
}

#[test]
fn biased_choice_of_one_item_draws_nothing() {
    let mut p = Probablity::new(Random::new(1, 0));
    assert_eq!(*p.choose_biased(&[42], 6, 5), 42);
    assert_eq!((p.0).0, 1);
}

#[test]
fn biased_choice_of_two_items() {
    // The weights are 5 and 6. The second item is accepted when the tenths
    // drawn, times 11, are below 60; the tenths drawn from seed one are 4.
    let mut p = Probablity::new(Random::new(1, 0));
    assert_eq!(*p.choose_biased(&["outer", "inner"], 6, 5), "inner");
    // From seed 3 the first decision fails and the first item is taken
    // with certainty.
    let mut seed = 2;
    loop {
        let mut p = Probablity::new(Random::new(seed, 0));
        if p.prob() >= 6 {
            break;
        }
        seed += 1;
    }
    let mut p = Probablity::new(Random::new(seed, 0));
    assert_eq!(*p.choose_biased(&["outer", "inner"], 6, 5), "outer");
}

#[test]
fn weighted_choice_prefers_by_weight() {
    // Tenths 4 from seed one: the first pair, with 3 of 10, is refused
    // (40 is not below 30); the second, with 7 of 7, is taken with certainty.
    let mut p = Probablity::new(Random::new(1, 0));
    assert_eq!(*p.choose_weighted_baised(&[("a", 3), ("b", 7)]), "b");
    let mut p = Probablity::new(Random::new(1, 0));
    assert_eq!(*p.choose_weighted_baised(&[("a", 5), ("b", 5)]), "a");
}

#[test]
fn weighted_choice_with_no_weight_is_uniform() {
    let mut p = Probablity::new(Random::new(1, 0));
    let pairs = [("a", 0), ("b", 0), ("c", 0)];
    let chosen = *p.choose_weighted_baised(&pairs);
    assert!(chosen == "a" || chosen == "b" || chosen == "c");
}

#[test]
fn with_probablity_calls_one_of_the_two() {
    let mut p = Probablity::new(Random::new(1, 0));
    let mut yes = 0;
    let mut no = 0;
    // The tenths drawn from seed one are 4, 0, 4.
    p.with_probablity(5, || yes += 1, Some(|| no += 1));
    p.with_probablity(0, || yes += 10, Some(|| no += 10));
    p.with_probablity(4, || yes += 100, None::<fn()>);
    assert_eq!((yes, no), (1, 10));
}

#[test]
fn with_equal_probablity_calls_the_function_drawn() {
    let hits = [Cell::new(0), Cell::new(0), Cell::new(0)];
    let funcs = [0usize, 1, 2].map(|i| {
        let hits = &hits;
        move || hits[i].set(hits[i].get() + 1)
    });
    let mut p = Probablity::new(Random::new(1, 0));
    p.with_equal_probablity(&funcs);
    let expect = (72066390130958337u64 % 3) as usize;
    for i in 0..3 {
        assert_eq!(hits[i].get(), if i == expect { 1 } else { 0 });
    }
}
