use pass::actions::{always_fail, always_ok};
use pass::checks::{always_no, always_yes};
use pass::playbook::{instruction, Playbook};
use pass::story_formatter::{
    decimal_text, bracket, has_dot, join_lines, join_sections, line_width, name_ok_fail, name_y_n, pad_to,
    wrap_lines, StoryFormatter,
};

fn strings(items: &[&str]) -> Vec<String> {
    items.iter().map(|s| s.to_string()).collect()
}

fn told(playbook: &Playbook, columns: usize) -> String {
    let report = playbook.apply_with_report();
    let mut story = StoryFormatter::with_columns(columns);
    playbook.narrate(&report, &mut story);
    story.take_text()
}

#[test]
fn results_and_answers_have_names() {
    assert_eq!(name_ok_fail(true), "ok");
    assert_eq!(name_ok_fail(false), "FAIL");
    assert_eq!(name_y_n(true), "Y");
    assert_eq!(name_y_n(false), "N");
}

#[test]
fn numbers_are_written_in_decimal() {
    assert_eq!(decimal_text(0), "0");
    assert_eq!(decimal_text(7), "7");
    assert_eq!(decimal_text(10), "10");
    assert_eq!(decimal_text(12), "12");
    assert_eq!(decimal_text(909), "909");
    assert_eq!(decimal_text(1234567890), "1234567890");
    assert_eq!(decimal_text(usize::MAX), format!("{}", usize::MAX));
}

#[test]
fn line_width_follows_the_terminal() {
    assert_eq!(line_width(None), 80);
    assert_eq!(line_width(Some(120)), 120);
    assert_eq!(line_width(Some(20)), 20);
    assert_eq!(line_width(Some(19)), 20);
    assert_eq!(line_width(Some(0)), 20);
}

#[test]
fn padding_fills_up_with_blanks() {
    assert_eq!(pad_to("ab", 5), "ab   ");
    assert_eq!(pad_to("abcde", 5), "abcde");
    assert_eq!(pad_to("abcdef", 5), "abcdef");
    assert_eq!(pad_to("", 2), "  ");
    assert_eq!(pad_to("\u{e9}", 3), "\u{e9}  ");
}

#[test]
fn text_is_wrapped_behind_a_margin() {
    assert_eq!(wrap_lines("|", "|", "abcdefgh", 5), strings(&["|abcd", "|efgh"]));
    assert_eq!(wrap_lines("|", "|", "abcdefghi", 5), strings(&["|abcd", "|efgh", "|i"]));
    assert_eq!(wrap_lines("|", "|", "abc", 5), strings(&["|abc"]));
    assert_eq!(wrap_lines("|", "|", "abcd", 5), strings(&["|abcd"]));
    assert_eq!(wrap_lines("|", "|", "", 5), strings(&["|"]));
    assert_eq!(
        wrap_lines("|-[ Y ] ", "|", "1.a very long name of a check", 20),
        strings(&["|-[ Y ] 1.a very lon", "|       g name of a ", "|       check"])
    );
    assert_eq!(wrap_lines("|", "|--", "\u{e9}\u{e8}\u{ea}", 5), strings(&["|  \u{e9}\u{e8}", "|--\u{ea}"]));
}

#[test]
fn lines_are_joined_by_line_breaks() {
    assert_eq!(join_lines(&strings(&[])), "");
    assert_eq!(join_lines(&strings(&["a"])), "a");
    assert_eq!(join_lines(&strings(&["a", "b", ""])), "a\nb\n");
}

#[test]
fn section_paths_bracket_names_with_dots() {
    assert!(has_dot("1.AlwaysOk"));
    assert!(!has_dot("pre"));
    assert!(!has_dot(""));
    assert_eq!(bracket("pre"), "pre");
    assert_eq!(bracket("1.AlwaysOk"), "[1.AlwaysOk]");
    assert_eq!(join_sections(&strings(&[])), "");
    assert_eq!(join_sections(&strings(&["Playbook"])), "Playbook");
    assert_eq!(
        join_sections(&strings(&["Playbook", "Actions", "1.AlwaysOk", "pre"])),
        "Playbook.Actions.[1.AlwaysOk].pre"
    );
}

#[test]
fn formatter_gathers_the_text_of_a_check_list() {
    let mut story = StoryFormatter::with_columns(80);
    story.playbook_header("Demo");
    story.push("Playbook");
    assert_eq!(story.section_name(), "Playbook");
    story.checklist_begin("Environment");
    story.checklist_item(true, 1, "AlwaysYes");
    story.checklist_item(false, 12, "AlwaysNo");
    story.checklist_result(false);
    story.section_result(false);
    story.playbook_result("Demo", false);
    assert_eq!(
        story.take_text(),
        "Applying playbook: Demo\n _\n|Playbook.Environment\n|\n|-[ Y ] 1.AlwaysYes\n\
         |-[ N ] 12.AlwaysNo\n|\n|> FAIL\n\nPlaybook|> FAIL\n\nDemo\n\n FAIL\n\n"
    );
    assert_eq!(story.take_text(), "");
    assert_eq!(story.section_name(), "");
}

#[test]
fn formatter_adds_notes_and_process_lines() {
    let mut story = StoryFormatter::with_columns(80);
    story.checklist_title_note("first");
    story.checklist_note("second");
    assert_eq!(story.take_text(), "| *first*\n|\n|\n| *second*\n");
    story.push("a");
    story.process_begin("apply");
    story.process_end(true);
    story.process_begin("apply");
    story.process_end(false);
    story.section_process();
    assert_eq!(story.take_text(), "a.apply|> ...applying...done!\na.apply|> ...applying...FAIL!\na|> ");
    story.playbook_header("h");
    story.put_separator();
    story.put_separator();
    assert_eq!(story.take_text(), "Applying playbook: h\n\n");
}

#[test]
fn story_of_a_playbook_with_environment_only() {
    let pb = Playbook::new("demo", "Demo", vec![always_yes()], vec![]);
    assert_eq!(
        told(&pb, 80),
        "Applying playbook: Demo\n _\n|Playbook.Environment\n|\n|-[ Y ] 1.AlwaysYes\n|\n|> ok\n\n\
         Playbook|> ok\n\nDemo\n\n OK\n\n"
    );
    let pb = Playbook::new("demo", "", vec![always_no()], vec![instruction(always_ok())]);
    assert_eq!(
        told(&pb, 80),
        "Applying playbook: ?Without description?\n _\n|Playbook.Environment\n|\n\
         |-[ N ] 1.AlwaysNo\n|\n|> FAIL\n\nPlaybook|> FAIL\n\n?Without description?\n\n FAIL\n\n"
    );
}

#[test]
fn story_of_an_action_that_was_applied_before() {
    let pb = Playbook::new(
        "n",
        "D",
        vec![],
        vec![instruction(always_ok()).confirm(vec![always_yes()])],
    );
    assert_eq!(
        told(&pb, 80),
        "Applying playbook: D\n _\n|Playbook.Actions.[1.AlwaysOk].pre.Confirmation\n|\n\
         |-[ Y ] 1.AlwaysYes\n|\n| *action already applied, skipping*\n|\n|> ok\n\n\
         Playbook.Actions.[1.AlwaysOk].pre|> ok\nPlaybook.Actions.[1.AlwaysOk]|> ok\n\
         Playbook.Actions|> ok\nPlaybook|> ok\n\nD\n\n OK\n\n"
    );
}

#[test]
fn story_of_an_action_that_fails() {
    let pb = Playbook::new("n", "D", vec![], vec![instruction(always_fail())]);
    assert_eq!(
        told(&pb, 80),
        "Applying playbook: D\n\nPlaybook.Actions.[1.AlwaysFail].pre|> ok\n\
         Playbook.Actions.[1.AlwaysFail].apply|> ...applying...FAIL!\n\
         Playbook.Actions.[1.AlwaysFail]|> FAIL\nPlaybook.Actions|> FAIL\nPlaybook|> FAIL\n\n\
         D\n\n FAIL\n\n"
    );
}

#[test]
fn story_of_an_action_that_is_not_confirmed() {
    let pb = Playbook::new(
        "n",
        "D",
        vec![],
        vec![instruction(always_ok()).with_env(vec![always_yes()]).confirm(vec![always_no()])],
    );
    assert_eq!(
        told(&pb, 80),
        "Applying playbook: D\n _\n|Playbook.Actions.[1.AlwaysOk].pre.Confirmation\n|\n\
         | *checking all confirmations is *no**\n|\n|-[ N ] 1.AlwaysNo\n|\n|> ok\n \
         _\n|Playbook.Actions.[1.AlwaysOk].pre.Environment\n|\n|-[ Y ] 1.AlwaysYes\n|\n|> ok\n\n\
         Playbook.Actions.[1.AlwaysOk].pre|> ok\n\
         Playbook.Actions.[1.AlwaysOk].apply|> ...applying...done!\n \
         _\n|Playbook.Actions.[1.AlwaysOk].post.Confirmation\n|\n|-[ N ] 1.AlwaysNo\n|\n|> FAIL\n\n\
         Playbook.Actions.[1.AlwaysOk].post|> FAIL\nPlaybook.Actions.[1.AlwaysOk]|> FAIL\n\
         Playbook.Actions|> FAIL\nPlaybook|> FAIL\n\nD\n\n FAIL\n\n"
    );
}

#[test]
fn story_of_mixed_confirmations() {
    let pb = Playbook::new(
        "n",
        "D",
        vec![],
        vec![instruction(always_ok()).confirm(vec![always_yes(), always_no()])],
    );
    assert_eq!(
        told(&pb, 80),
        "Applying playbook: D\n _\n|Playbook.Actions.[1.AlwaysOk].pre.Confirmation\n|\n\
         |-[ Y ] 1.AlwaysYes\n|-[ N ] 2.AlwaysNo\n|\n\
         | *confirmation checks should be *all yes* or *all no**\n|\n|> FAIL\n\n\
         Playbook.Actions.[1.AlwaysOk].pre|> FAIL\nPlaybook.Actions.[1.AlwaysOk]|> FAIL\n\
         Playbook.Actions|> FAIL\nPlaybook|> FAIL\n\nD\n\n FAIL\n\n"
    );
}
