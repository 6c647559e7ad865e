use ruth::command::{begin, random_address_lines, random_bytes_line, Command, Step};
use ruth::address::format_address;

#[test]
fn random_address() {
    let a = ruth::random::random_address();
    let text = format_address(&a, true);
    assert!(text.starts_with("0x"));
    assert_eq!(text.len(), 42);
}

#[test]
fn successive_random_address_different() {
    let first = format_address(&ruth::random::random_address(), true);
    let second = format_address(&ruth::random::random_address(), true);
    assert_ne!(first, second);
}

#[test]
fn count_2_random_address_different() {
    let lines = random_address_lines(2);
    assert_eq!(lines.len(), 2);
    assert_ne!(lines[0], lines[1]);
}

#[test]
fn random_bytes() {
    let line = random_bytes_line(32);
    assert!(line.starts_with("0x"));
}

#[test]
fn random_bytes_with_length() {
    let line = random_bytes_line(4);
    assert_eq!(line.len(), 10);
}

#[test]
fn random_bytes_are_lowercase_hex_without_prefix() {
    let text = ruth::random::random_bytes(16);
    assert_eq!(text.len(), 32);
    assert!(text.chars().all(|c| c.is_ascii_digit() || ('a'..='f').contains(&c)));
}

#[test]
fn random_bytes_of_length_zero_is_just_the_prefix() {
    assert_eq!(random_bytes_line(0), "0x");
    assert_eq!(ruth::random::random_bytes(0), "");
}

#[test]
fn random_address_lines_all_start_with_prefix() {
    for n in [1u32, 3, 7] {
        let lines = random_address_lines(n);
        assert_eq!(lines.len(), n as usize);
        for line in &lines {
            assert!(line.starts_with("0x"));
            assert_eq!(line.len(), 42);
            assert!(ruth::address::parse_address(line).is_ok());
        }
    }
}

#[test]
fn random_address_command_prints_count_lines() {
    match begin(&Command::RandomAddress { count: 5 }) {
        Ok(Step::Print(lines)) => {
            assert_eq!(lines.len(), 5);
            for line in &lines {
                assert!(line.starts_with("0x"));
            }
        }
        _ => panic!("expected lines to print"),
    }
}

#[test]
fn random_bytes_command_prints_one_line() {
    match begin(&Command::RandomBytes { length: 10 }) {
        Ok(Step::Print(lines)) => {
            assert_eq!(lines.len(), 1);
            assert_eq!(lines[0].len(), 22);
            assert!(lines[0].starts_with("0x"));
        }
        _ => panic!("expected a line to print"),
    }
}

#[test]
fn random_addresses_differ_across_many_draws() {
    let lines = random_address_lines(16);
    for i in 0..lines.len() {
        for j in (i + 1)..lines.len() {
            assert_ne!(lines[i], lines[j]);
        }
    }
}

#[test]
fn random_bytes_command_line_is_prefixed_hex() {
    match begin(&Command::RandomBytes { length: 3 }) {
        Ok(Step::Print(lines)) => {
            assert_eq!(lines[0].len(), 8);
            assert!(lines[0][2..].chars().all(|c| c.is_ascii_digit() || ('a'..='f').contains(&c)));
        }
        _ => panic!("expected a line to print"),
    }
}
