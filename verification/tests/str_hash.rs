use isomech::hsh::str::str_alg::{reverse_bits, IStrAlg, StrAlg};

fn facets(s: &str) -> Vec<u64> {
    let mut all: Vec<u64> = Vec::new();
    let mut f: u8 = 0;
    while f < 8 {
        all.push(StrAlg::make_id(s, f));
        f += 1;
    }
    all
}

fn distinct(values: &Vec<u64>) -> usize {
    let mut seen: Vec<u64> = Vec::new();
    for v in values {
        if !seen.contains(v) {
            seen.push(*v);
        }
    }
    seen.len()
}

#[test]
fn empty_string_hashes_to_zero_under_every_facet() {
    let mut f: u8 = 0;
    loop {
        assert_eq!(StrAlg::make_id("", f), 0);
        if f == 255 {
            break;
        }
        f += 1;
    }
}

#[test]
fn facets_past_the_eighth_are_zero() {
    assert_eq!(StrAlg::make_id("alpha", 8), 0);
    assert_eq!(StrAlg::make_id("alpha", 9), 0);
    assert_eq!(StrAlg::make_id("alpha", 255), 0);
}

#[test]
fn alpha_has_the_known_facets() {
    assert_eq!(
        facets("alpha"),
        vec![
            17088281263521542342,
            17088281263521929438,
            4925771649667123390,
            4925771649666736294,
            13687640967972649269,
            9075954949545261365,
            8326411945216016463,
            12938097963643404367,
        ]
    );
}

#[test]
fn zephyr_9_has_the_known_facets() {
    assert_eq!(
        facets("Zephyr-9"),
        vec![
            3893455548848491878,
            5792660327870488159,
            10146321741036771821,
            17917375164145611278,
            13662730435032117463,
            15054638679977703778,
            305552192448444026,
            8744765117227258388,
        ]
    );
}

#[test]
fn strings_of_two_three_and_four_characters() {
    assert_eq!(StrAlg::make_id("ab", 0), 16695125292007842106);
    assert_eq!(StrAlg::make_id("ab", 1), 2350231516666790872);
    assert_eq!(StrAlg::make_id("abc", 0), 11717151146770693088);
    assert_eq!(StrAlg::make_id("abc", 1), 2350231516666790872);
    assert_eq!(StrAlg::make_id("abcd", 0), 7177238924967868642);
    assert_eq!(StrAlg::make_id("abcd", 7), 8902872697519439951);
}

#[test]
fn characters_are_counted_not_bytes() {
    assert_eq!(
        facets("h\u{e9}llo"),
        vec![
            17267263915171306534,
            7954400552503938166,
            4746788998017359198,
            14059652360684727566,
            4082943762603378485,
            1819175150039395125,
            17931109150585287247,
            1748133689439718991,
        ]
    );
}

#[test]
fn hashing_is_repeatable() {
    for s in ["alpha", "Zephyr-9", "a", "ab", "abc", "a longer identifier, with spaces"] {
        let first = facets(s);
        let second = facets(s);
        assert_eq!(first, second);
        let owned = String::from(s);
        assert_eq!(facets(owned.as_str()), first);
    }
}

#[test]
fn eight_facets_of_a_string_are_pairwise_distinct() {
    for s in ["alpha", "Zephyr-9", "ab", "abc", "abcd", "aa", "h\u{e9}llo"] {
        assert_eq!(distinct(&facets(s)), 8);
    }
}

#[test]
fn one_character_is_walked_the_same_from_both_ends() {
    let all = facets("a");
    assert_eq!(
        all,
        vec![
            16712998953045614652,
            16712998953045614652,
            1751478044213223108,
            1751478044213223108,
            17581985875045059582,
            17581985875045059582,
            882491122213778178,
            882491122213778178,
        ]
    );
    assert_eq!(distinct(&all), 4);
}

#[test]
fn forward_walk_stops_at_the_midpoint() {
    // "ab" and "abc" share the characters up to the midpoint index 1
    assert_eq!(StrAlg::make_id("ab", 1), StrAlg::make_id("abc", 1));
    assert_eq!(StrAlg::make_id("ab", 3), StrAlg::make_id("abc", 3));
    assert_ne!(StrAlg::make_id("ab", 0), StrAlg::make_id("abc", 0));
}

#[test]
fn different_strings_have_different_raw_values() {
    assert_ne!(StrAlg::make_id("alpha", 0), StrAlg::make_id("alphb", 0));
    assert_ne!(StrAlg::make_id("alpha", 0), StrAlg::make_id("blpha", 1));
}

#[test]
fn bits_are_reversed_end_to_end() {
    assert_eq!(reverse_bits(1), 0x8000_0000_0000_0000);
    assert_eq!(reverse_bits(0x8000_0000_0000_0000), 1);
    assert_eq!(reverse_bits(0x41), 9367487224930631680);
    assert_eq!(reverse_bits(0), 0);
    assert_eq!(reverse_bits(u64::MAX), u64::MAX);
    assert_eq!(reverse_bits(0x0123_4567_89ab_cdef), 0x0123_4567_89ab_cdefu64.reverse_bits());
}
