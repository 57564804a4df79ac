use blackjack_core::card::shoe::{Penetration, Shoe};

fn half() -> Penetration {
    Penetration { numerator: 1, denominator: 2 }
}

#[test]
fn a_new_shoe_is_full() {
    let shoe = Shoe::new(4, half());
    assert_eq!(shoe.decks(), 4);
    assert_eq!(shoe.cards_drawn(), 0);
    assert_eq!(shoe.max_penetration(), half());
    assert!(!shoe.needs_shuffle());
}

#[test]
fn one_deck_gives_each_card_once() {
    let mut shoe = Shoe::new(1, half());
    let mut seen = [0u32; 52];
    for drawn in 1..=51u16 {
        let card = shoe.draw_card();
        seen[card.to_ordinal()] += 1;
        assert_eq!(shoe.cards_drawn(), drawn);
    }
    let card = shoe.draw_card();
    seen[card.to_ordinal()] += 1;
    assert_eq!(seen, [1u32; 52]);
    // The last card has been drawn: the shoe has been shuffled
    assert_eq!(shoe.cards_drawn(), 0);
}

#[test]
fn a_shoe_gives_all_its_cards_before_it_is_shuffled() {
    for decks in [1u8, 2, 3, 6, 8] {
        let mut shoe = Shoe::new(decks, Penetration { numerator: 1, denominator: 1 });
        let size = u16::from(decks) * 52;
        let mut seen = [0u32; 52];
        for drawn in 1..size {
            let card = shoe.draw_card();
            seen[card.to_ordinal()] += 1;
            assert_eq!(shoe.cards_drawn(), drawn);
        }
        let card = shoe.draw_card();
        seen[card.to_ordinal()] += 1;
        assert_eq!(seen, [u32::from(decks); 52]);
        assert_eq!(shoe.cards_drawn(), 0);
        // and the next pass gives them all again
        let mut seen = [0u32; 52];
        for _ in 0..size {
            seen[shoe.draw_card().to_ordinal()] += 1;
        }
        assert_eq!(seen, [u32::from(decks); 52]);
        assert_eq!(shoe.cards_drawn(), 0);
    }
}

#[test]
fn the_largest_shoe_can_be_made_and_drawn_from() {
    let mut shoe = Shoe::new(255, half());
    let mut seen = [0u32; 52];
    for _ in 0..13260u32 {
        seen[shoe.draw_card().to_ordinal()] += 1;
    }
    assert_eq!(seen, [255u32; 52]);
    assert_eq!(shoe.cards_drawn(), 0);
}

#[test]
fn shuffle_is_needed_from_the_penetration_on() {
    let mut shoe = Shoe::new(1, half());
    for _ in 0..25 {
        shoe.draw_card();
        assert!(!shoe.needs_shuffle());
    }
    shoe.draw_card();
    assert_eq!(shoe.cards_drawn(), 26);
    assert!(shoe.needs_shuffle());
    shoe.draw_card();
    assert!(shoe.needs_shuffle());
    shoe.shuffle();
    assert_eq!(shoe.cards_drawn(), 0);
    assert!(!shoe.needs_shuffle());
}

#[test]
fn a_penetration_of_a_third_is_met_at_the_next_whole_card() {
    let mut shoe = Shoe::new(1, Penetration { numerator: 1, denominator: 3 });
    for _ in 0..17 {
        shoe.draw_card();
    }
    // 17 / 52 < 1 / 3 <= 18 / 52
    assert!(!shoe.needs_shuffle());
    shoe.draw_card();
    assert!(shoe.needs_shuffle());
}

#[test]
fn penetration_zero_always_asks_for_a_shuffle() {
    let mut shoe = Shoe::new(2, Penetration { numerator: 0, denominator: 1 });
    assert!(shoe.needs_shuffle());
    shoe.draw_card();
    assert!(shoe.needs_shuffle());
}

#[test]
fn penetration_one_never_asks_for_a_shuffle() {
    let mut shoe = Shoe::new(1, Penetration { numerator: 1, denominator: 1 });
    for _ in 0..104 {
        assert!(!shoe.needs_shuffle());
        shoe.draw_card();
    }
    assert!(!shoe.needs_shuffle());
}

#[test]
fn shuffle_brings_every_card_back() {
    let mut shoe = Shoe::new(1, half());
    for _ in 0..40 {
        shoe.draw_card();
    }
    shoe.shuffle();
    let mut seen = [0u32; 52];
    for _ in 0..52 {
        seen[shoe.draw_card().to_ordinal()] += 1;
    }
    assert_eq!(seen, [1u32; 52]);
}

#[test]
fn a_cloned_shoe_holds_the_same_cards() {
    let mut shoe = Shoe::new(1, half());
    let mut seen = [0u32; 52];
    for _ in 0..30 {
        seen[shoe.draw_card().to_ordinal()] += 1;
    }
    let mut copy = shoe.clone();
    assert_eq!(copy.decks(), 1);
    assert_eq!(copy.cards_drawn(), 30);
    assert_eq!(copy.max_penetration(), half());
    let mut seen_by_copy = seen;
    for _ in 0..22 {
        seen[shoe.draw_card().to_ordinal()] += 1;
        seen_by_copy[copy.draw_card().to_ordinal()] += 1;
    }
    assert_eq!(seen, [1u32; 52]);
    assert_eq!(seen_by_copy, [1u32; 52]);
}
