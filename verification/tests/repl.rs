//! The command line: what a line asks for, and numbers as `str::parse` reads them.

use lib::repl::{candidate_position, parse_command, parse_usize, Command};

#[test]
fn lines_are_trimmed_and_classified() {
    assert_eq!(parse_command("   "), Command::Skip);
    assert_eq!(parse_command(":q"), Command::Quit);
    assert_eq!(parse_command(" :quit\n"), Command::Quit);
    assert_eq!(parse_command("3"), Command::Commit(3));
    assert_eq!(parse_command("+12"), Command::Commit(12));
    assert_eq!(parse_command(":raw"), Command::Raw);
    assert_eq!(parse_command(":up 2"), Command::Adjust { up: true, index: 2 });
    assert_eq!(parse_command(":down  7 "), Command::Adjust { up: false, index: 7 });
    assert_eq!(parse_command(":del 1"), Command::Delete(1));
    assert_eq!(parse_command(":up x"), Command::Query(":up x".to_string()));
    assert_eq!(parse_command(" nihao "), Command::Query("nihao".to_string()));
    assert_eq!(parse_command("-1"), Command::Query("-1".to_string()));
}

#[test]
fn numbers_read_like_str_parse() {
    assert_eq!(parse_usize("0"), Some(0));
    assert_eq!(parse_usize("007"), Some(7));
    assert_eq!(parse_usize("+"), None);
    assert_eq!(parse_usize(""), None);
    assert_eq!(parse_usize("1 2"), None);
    assert_eq!(parse_usize("18446744073709551615"), Some(usize::MAX));
    assert_eq!(parse_usize("18446744073709551616"), None);
    for n in [0usize, 1, 9, 10, 42, 1000, usize::MAX] {
        assert_eq!(parse_usize(&n.to_string()), Some(n));
    }
}

#[test]
fn candidate_numbers_count_from_one() {
    assert_eq!(candidate_position(1), 0);
    assert_eq!(candidate_position(5), 4);
    assert_eq!(candidate_position(0), usize::MAX);
}
