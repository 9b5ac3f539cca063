use frogsay::speech::{
    force_split, frame, is_fillable, say, say_with_width, trim, utter_line, FROG, INDENT,
    MAX_WIDTH,
};

const BELOW: &str = "\n        /\n  @..@\n (----)\n( >__< )\n^^ ~~ ^^";

#[test]
fn margin_is_eight_spaces() {
    assert_eq!(INDENT, "        ");
    assert_eq!(INDENT.len(), 8);
}

#[test]
fn frog_is_drawn_as_ever() {
    assert_eq!(FROG, "/\n  @..@\n (----)\n( >__< )\n^^ ~~ ^^");
}

#[test]
fn short_text_stands_on_one_line_behind_the_margin() {
    assert_eq!(say_with_width("HELLO FROG", 80), format!("\n        HELLO FROG{}", BELOW));
}

#[test]
fn text_wraps_at_the_width() {
    assert_eq!(say_with_width("FROG TIP", 12), format!("\n        FROG\n        TIP{}", BELOW));
    assert_eq!(say_with_width("FROG TIP", 16), format!("\n        FROG TIP{}", BELOW));
    assert_eq!(say_with_width("FROG TIP", 15), format!("\n        FROG\n        TIP{}", BELOW));
}

#[test]
fn long_word_is_broken() {
    assert_eq!(
        say_with_width("ABCDEFGHIJ", 12),
        format!("\n        ABCD\n        EFGH\n        IJ{}", BELOW)
    );
}

#[test]
fn word_is_split_at_its_hyphen() {
    assert_eq!(
        say_with_width("FROG-TIPS", 13),
        format!("\n        FROG-\n        TIPS{}", BELOW)
    );
}

#[test]
fn lines_are_wrapped_one_by_one() {
    assert_eq!(
        say_with_width("DO NOT\nFEED FROG", 80),
        format!("\n        DO NOT\n        FEED FROG{}", BELOW)
    );
    assert_eq!(
        say_with_width("ONE TWO\nFOUR", 12),
        format!("\n        ONE\n        TWO\n        FOUR{}", BELOW)
    );
}

#[test]
fn carriage_return_before_line_feed_ends_the_line_too() {
    assert_eq!(say_with_width("A\r\nB\n", 80), format!("\n        A\n        B{}", BELOW));
}

#[test]
fn empty_line_stays_empty() {
    assert_eq!(say_with_width("A\n\nB", 80), format!("\n        A\n\n        B{}", BELOW));
    assert_eq!(say_with_width("A\n  \t \nB", 80), format!("\n        A\n\n        B{}", BELOW));
}

#[test]
fn white_space_around_a_line_break_is_trimmed() {
    assert_eq!(say_with_width("A\n   B", 80), format!("\n        A\n        B{}", BELOW));
    assert_eq!(say_with_width("a  \n  b", 80), format!("\n        a\n        b{}", BELOW));
    assert_eq!(say_with_width("  a \t\r\n\t b  \n", 80), format!("\n        a\n        b{}", BELOW));
    assert_eq!(say_with_width("ONE TWO   \n  FOUR ", 12), format!("\n        ONE\n        TWO\n        FOUR{}", BELOW));
}

#[test]
fn white_space_between_words_is_kept() {
    assert_eq!(say_with_width("A  B", 80), format!("\n        A  B{}", BELOW));
}

#[test]
fn empty_text_leaves_the_frog() {
    assert_eq!(say_with_width("", 80), format!("\n{}", BELOW));
}

#[test]
fn text_beyond_ascii_is_wrapped_and_indented() {
    assert_eq!(say_with_width("\u{e9}", 80), format!("\n        \u{e9}{}", BELOW));
    assert_eq!(say_with_width("GR\u{dc}N", 80), format!("\n        GR\u{dc}N{}", BELOW));
    assert_eq!(
        say_with_width("GR\u{dc}NER FROSCH", 14),
        format!("\n        GR\u{dc}NER\n        FROSCH{}", BELOW)
    );
    assert_eq!(
        say_with_width("FROG \u{1f438}", 80),
        format!("\n        FROG \u{1f438}{}", BELOW)
    );
    assert_eq!(
        say_with_width("\u{2018}FROG\u{2019} \u{2014} TIP", 14),
        format!("\n        \u{2018}FROG\u{2019}\n        \u{2014} TIP{}", BELOW)
    );
}

#[test]
fn wide_characters_take_two_columns() {
    assert_eq!(
        say_with_width("\u{65e5}\u{672c}", 10),
        format!("\n        \u{65e5}\n        \u{672c}{}", BELOW)
    );
    assert_eq!(
        say_with_width("\u{65e5}\u{672c}", 12),
        format!("\n        \u{65e5}\u{672c}{}", BELOW)
    );
}

#[test]
fn control_character_in_a_short_word_is_filled() {
    assert_eq!(say_with_width("BELL\u{7}", 80), format!("\n        BELL\u{7}{}", BELOW));
}

#[test]
fn long_token_that_cannot_be_filled_is_cut_by_its_characters() {
    let heart = format!("{}\u{2764}\u{fe0f}", "x".repeat(73));
    assert!(!is_fillable(&heart, 80));
    assert_eq!(
        say_with_width(&heart, 80),
        format!("\n        {}\n        x\u{2764}\u{fe0f}{}", "x".repeat(72), BELOW)
    );
    let bell = format!("{}\u{7}", "y".repeat(73));
    assert!(!is_fillable(&bell, 80));
    assert_eq!(
        say_with_width(&bell, 80),
        format!("\n        {}\n        y\u{7}{}", "y".repeat(72), BELOW)
    );
    let long = "z".repeat(200);
    assert_eq!(
        utter_line(&long, MAX_WIDTH + 1),
        format!("        {}", long)
    );
    assert_eq!(
        say_with_width(&"\u{2764}\u{fe0f}".repeat(5), 11),
        format!(
            "\n        \u{2764}\u{fe0f}\u{2764}\u{fe0f}\u{2764}\u{fe0f}\n        \u{2764}\u{fe0f}\u{2764}\u{fe0f}{}",
            BELOW
        )
    );
}

#[test]
fn character_wider_than_the_room_gets_a_line_of_its_own() {
    assert_eq!(
        say_with_width("\u{65e5}\u{672c}", 9),
        format!("\n        \u{65e5}\n        \u{672c}{}", BELOW)
    );
}

#[test]
fn characters_of_no_width_are_not_cut_apart() {
    let bells = "\u{7}".repeat(100);
    assert_eq!(say_with_width(&bells, 80), format!("\n        {}{}", bells, BELOW));
    assert_eq!(
        say_with_width("OK\n\u{7}\u{7}\u{7}", 10),
        format!("\n        OK\n        \u{7}\u{7}\u{7}{}", BELOW)
    );
}

#[test]
fn nothing_is_wrapped_where_the_margin_leaves_no_column() {
    assert_eq!(say_with_width("FROG TIP", 8), format!("\n        FROG TIP{}", BELOW));
    assert_eq!(say_with_width("FROG TIP", 0), format!("\n        FROG TIP{}", BELOW));
    assert_eq!(say_with_width(" FROG\nTIP ", 3), format!("\n        FROG\n        TIP{}", BELOW));
}

#[test]
fn width_beyond_the_widest_terminal_cuts_by_characters() {
    assert_eq!(
        say_with_width(" FROG\nTIP ", MAX_WIDTH + 1),
        format!("\n        FROG\n        TIP{}", BELOW)
    );
    assert_eq!(
        say_with_width("KEEP  FROG MOIST", usize::MAX),
        format!("\n        KEEP  FROG MOIST{}", BELOW)
    );
}

#[test]
fn force_split_takes_the_longest_pieces_that_fit() {
    assert_eq!(force_split("ABCDEFGHIJ", 4), "        ABCD\n        EFGH\n        IJ");
    assert_eq!(force_split("ABCD", 4), "        ABCD");
    assert_eq!(force_split("A B C", 2), "        A \n        B \n        C");
    assert_eq!(force_split("", 4), "");
    assert_eq!(force_split("AB", 0), "        A\n        B");
    assert_eq!(force_split("\u{65e5}\u{672c}\u{8a9e}", 4), "        \u{65e5}\u{672c}\n        \u{8a9e}");
    assert_eq!(force_split("\u{65e5}a\u{672c}", 2), "        \u{65e5}\n        a\n        \u{672c}");
    assert_eq!(force_split("a\u{301}b\u{301}c", 2), "        a\u{301}b\u{301}\n        c");
}

#[test]
fn narrowest_and_widest_terminal_are_wrapped_for() {
    assert_eq!(say_with_width("AB", 9), format!("\n        A\n        B{}", BELOW));
    assert_eq!(say_with_width("FROG TIP", MAX_WIDTH), format!("\n        FROG TIP{}", BELOW));
}

#[test]
fn fillable_is_told_by_widths() {
    assert!(is_fillable("FROG ~ tip\t\u{b}\u{c}", 80));
    assert!(is_fillable("", 8));
    assert!(is_fillable("   ", 8));
    assert!(is_fillable("x", 9));
    assert!(is_fillable("x", MAX_WIDTH));
    assert!(is_fillable("\u{e9}", 80));
    assert!(is_fillable("a\u{a0}b", 80));
    assert!(is_fillable("FROG \u{1f438}", 80));
    assert!(is_fillable("\u{65e5}\u{672c}", 10));
    assert!(is_fillable(&"x".repeat(500), 80));
    assert!(is_fillable(&"\u{7}".repeat(72), 80));
    assert!(!is_fillable("x", 8));
    assert!(!is_fillable("", 7));
    assert!(!is_fillable("x", MAX_WIDTH + 1));
    assert!(!is_fillable("x", usize::MAX));
    assert!(!is_fillable("\u{65e5}\u{672c}", 9));
    assert!(!is_fillable(&"\u{7}".repeat(73), 80));
    assert!(!is_fillable(&"\u{2764}\u{fe0f}".repeat(40), 80));
}

#[test]
fn trim_drops_white_space_at_both_ends() {
    assert_eq!(trim("  a b \t"), "a b");
    assert_eq!(trim("a"), "a");
    assert_eq!(trim(""), "");
    assert_eq!(trim(" \t\r "), "");
    assert_eq!(trim("\u{a0}x y\u{2003}"), "x y");
    assert_eq!(trim("\u{e9} "), "\u{e9}");
}

#[test]
fn utter_line_fills_one_line() {
    assert_eq!(utter_line("  KEEP FROG MOIST  ", 20), "        KEEP FROG\n        MOIST");
    assert_eq!(utter_line("", 20), "");
    assert_eq!(utter_line("   ", 20), "");
    assert_eq!(utter_line(" x ", 3), "        x");
}

#[test]
fn frame_sets_the_frog_below_the_speech() {
    assert_eq!(frame("x"), "\nx\n        /\n  @..@\n (----)\n( >__< )\n^^ ~~ ^^");
}

#[test]
fn say_wraps_to_some_width() {
    assert_eq!(say("HI"), format!("\n        HI{}", BELOW));
    assert_eq!(say(" FROG \u{1f438}\n"), format!("\n        FROG \u{1f438}{}", BELOW));
}
