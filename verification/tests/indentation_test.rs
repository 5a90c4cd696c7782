use agentty_tui::indentation::{
    leading_indentation, protect_user_prompt_indentation, unused_private_use_character,
};

#[test]
fn test_marker_is_the_first_free_private_character() {
    // Arrange
    let area: String = ('\u{e000}'..='\u{f8ff}').collect();

    // Act, Assert
    assert_eq!(unused_private_use_character("plain"), Some('\u{e000}'));
    assert_eq!(
        unused_private_use_character("\u{e001}\u{e000}"),
        Some('\u{e002}')
    );
    assert_eq!(
        unused_private_use_character(area.as_str()),
        Some('\u{f0000}')
    );
}

#[test]
fn test_tabs_go_on_to_the_next_stop() {
    // Arrange
    let measure = |line: &str| {
        let chars: Vec<char> = line.chars().collect();

        leading_indentation(&chars)
    };

    // Act, Assert
    assert_eq!(measure("text"), (0, 0));
    assert_eq!(measure("  text"), (2, 2));
    assert_eq!(measure("\ttext"), (1, 4));
    assert_eq!(measure("  \t text"), (4, 5));
    assert_eq!(measure("\t\t"), (2, 8));
}

#[test]
fn test_indentation_is_marked_in_lines_that_are_not_kept() {
    // Arrange
    let prompt = "  a\n\tb\n  | c |".to_string();

    // Act
    let (protected, marker) = protect_user_prompt_indentation(&prompt, &vec![false, false, true]);

    // Assert
    assert_eq!(marker, Some('\u{e000}'));
    assert_eq!(
        protected,
        "\u{e000}\u{e000}a\n\u{e000}\u{e000}\u{e000}\u{e000}b\n  | c |"
    );
}

#[test]
fn test_prompt_without_tabs_comes_through_unchanged() {
    // Arrange
    let prompt = "    if ready {\n        run();\n    }\n".to_string();

    // Act
    let (protected, marker) = protect_user_prompt_indentation(&prompt, &Vec::new());

    // Assert
    let marker = marker.expect("a marker is free");
    assert_ne!(protected, prompt);
    assert_eq!(protected.replace(marker, " "), prompt);
}
