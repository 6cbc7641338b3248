use zit::log::{commit_count, get_log, get_recent_commits, parse_log_line, parse_log_output,
    search_commits};

#[test]
fn test_parse_log_output() {
    // Hash must be exactly 40 chars for regex to match correctly at start
    let sample = "* abc123def456abc123def456abc123def456abc1\x1fabc123d\x1ffeat: add login\x1fJohn\x1f2 hours ago\x1f2026-02-10T10:00:00+05:30\x1f\x1fHEAD -> main\n";
    let entries = parse_log_output(sample);
    assert_eq!(entries.len(), 1);
    assert_eq!(entries[0].short_hash, "abc123d");
    assert_eq!(entries[0].message, "feat: add login");
    assert_eq!(entries[0].author, "John");
    assert_eq!(entries[0].refs, "HEAD -> main");
    assert_eq!(entries[0].graph, "* ");
}

#[test]
fn test_parse_graph_only_line() {
    let sample = "| \\ \n";
    let entries = parse_log_output(sample);
    assert_eq!(entries.len(), 1);
    assert_eq!(entries[0].hash, "");
    assert_eq!(entries[0].graph, "| \\ ");
}

const HASH: &str = "abc123def456abc123def456abc123def456abc1";
const FORMAT: &str = "--format=%H\x1f%h\x1f%s\x1f%an\x1f%ar\x1f%aI\x1f%P\x1f%D";

#[test]
fn commit_line_gives_all_its_fields() {
    let line = format!(
        "| * {}\x1fabc123d\x1ffix: a \x1fJane Doe\x1f3 days ago\x1f2026-02-10T10:00:00+00:00\x1f{} {}\x1ftag: v1\n",
        HASH, "1111111111111111111111111111111111111111", "2222222222222222222222222222222222222222"
    );
    let entries = parse_log_output(&line);
    assert_eq!(entries.len(), 1);
    let e = &entries[0];
    assert_eq!(e.graph, "| * ");
    assert_eq!(e.hash, HASH);
    assert_eq!(e.short_hash, "abc123d");
    assert_eq!(e.message, "fix: a ");
    assert_eq!(e.author, "Jane Doe");
    assert_eq!(e.date, "3 days ago");
    assert_eq!(e.date_iso, "2026-02-10T10:00:00+00:00");
    assert_eq!(e.parents, vec!["1111111111111111111111111111111111111111", "2222222222222222222222222222222222222222"]);
    assert_eq!(e.refs, "tag: v1");
}

#[test]
fn graph_lines_between_commits_are_kept_in_order() {
    let out = format!(
        "*   {h}\x1fa\x1fm\x1fn\x1fd\x1fi\x1f\x1f\n|\\  \n| * {h}\x1fb\x1fm\x1fn\x1fd\x1fi\x1f\x1f\n   \n|/  \n",
        h = HASH
    );
    let entries = parse_log_output(&out);
    assert_eq!(entries.len(), 5);
    assert_eq!(entries[0].short_hash, "a");
    assert_eq!(entries[1].hash, "");
    assert_eq!(entries[1].graph, "|\\  ");
    assert_eq!(entries[2].graph, "| * ");
    assert_eq!(entries[3].graph, "   ");
    assert_eq!(entries[3].hash, "");
    assert_eq!(entries[4].graph, "|/  ");
    assert!(entries[1].parents.is_empty());
    assert!(entries[0].parents.is_empty());
}

#[test]
fn without_the_graph_the_hash_stands_first() {
    let out = format!("{}\x1fs\x1fm\x1fa\x1fd\x1fi\x1fp\x1fr\n", HASH);
    let entries = parse_log_output(&out);
    assert_eq!(entries[0].graph, "");
    assert_eq!(entries[0].hash, HASH);
    assert_eq!(entries[0].parents, vec!["p"]);
}

#[test]
fn commit_line_of_too_few_fields_gives_nothing() {
    let out = format!("* {}\x1fs\x1fm\x1fa\n", HASH);
    assert!(parse_log_output(&out).is_empty());
}

#[test]
fn a_hash_needs_forty_digits_and_the_separator() {
    let short = "* abc123def456abc123def456abc123def456abc\x1fx\x1fm\x1fa\x1fd\x1fi\x1fp\x1fr";
    let entries = parse_log_output(short);
    assert_eq!(entries.len(), 1);
    assert_eq!(entries[0].hash, "");
    assert_eq!(entries[0].graph, short);
    let upper = "ABC123DEF456ABC123DEF456ABC123DEF456ABC1\x1fx\x1fm\x1fa\x1fd\x1fi\x1fp\x1fr";
    assert_eq!(parse_log_output(upper)[0].graph, upper);
    let long = format!("ff{}\x1fs\x1fm\x1fa\x1fd\x1fi\x1fp\x1fr", HASH);
    let entries = parse_log_output(&long);
    assert_eq!(entries[0].graph, "ff");
    assert_eq!(entries[0].hash, HASH);
}

#[test]
fn log_line_is_read_from_what_was_found() {
    let found = Some(("* ".to_string(), "h\x1fs\x1fm\x1fa\x1fd\x1fi\x1fp q\x1fr\x1fmore".to_string()));
    let e = parse_log_line("ignored", &found).unwrap();
    assert_eq!((e.graph.as_str(), e.hash.as_str(), e.refs.as_str()), ("* ", "h", "r"));
    assert_eq!(e.parents, vec!["p", "q"]);
    assert!(parse_log_line("x", &Some(("".to_string(), "a\x1fb".to_string()))).is_none());
    assert_eq!(parse_log_line(" \t ", &None).unwrap().graph, " \t ");
    assert_eq!(parse_log_line("", &None).unwrap().hash, "");
    assert_eq!(parse_log_line("| |", &None).unwrap().graph, "| |");
}

#[test]
fn log_commands() {
    assert_eq!(
        get_log(50, 100, Some("main")).args,
        vec!["log", "-50", "--skip=100", FORMAT, "--graph", "--color=never", "main"]
    );
    assert_eq!(get_log(0, 0, None).args, vec!["log", "-0", "--skip=0", FORMAT, "--graph", "--color=never"]);
    assert_eq!(get_recent_commits(7).args, get_log(7, 0, None).args);
    assert_eq!(search_commits("fix bug", 20).args, vec!["log", "-20", FORMAT, "--grep=fix bug", "-i"]);
    assert!(get_log(1, 2, None).stdin.is_none());
}

#[test]
fn commit_count_reads_a_number_or_zero() {
    assert_eq!(commit_count("42\n"), 42);
    assert_eq!(commit_count("  +7 "), 7);
    assert_eq!(commit_count(""), 0);
    assert_eq!(commit_count("-3"), 0);
    assert_eq!(commit_count("12 commits"), 0);
    assert_eq!(commit_count("99999999999999999999999999"), 0);
    assert_eq!(commit_count("0012"), 12);
}

#[test]
fn the_first_hash_of_a_line_is_taken() {
    let line = format!("* {h}\x1f{h}\x1fs\x1fm\x1fa\x1fd\x1fi\x1fp\x1fr", h = HASH);
    let entries = parse_log_output(&line);
    assert_eq!(entries.len(), 1);
    assert_eq!(entries[0].graph, "* ");
    assert_eq!(entries[0].hash, HASH);
    assert_eq!(entries[0].short_hash, HASH);
    let late = format!("\u{e9}\u{1f600} | {h}g\x1f {h}\x1fa\x1fb\x1fc\x1fd\x1fe\x1ff\x1fg", h = HASH);
    let entries = parse_log_output(&late);
    assert_eq!(entries[0].graph, format!("\u{e9}\u{1f600} | {}g\x1f ", HASH));
    assert_eq!(entries[0].hash.len(), 40);
    for e in parse_log_output(&format!("| |\n* {}\x1fa\x1fb\x1fc\x1fd\x1fe\x1ff\x1fg\n|/\n", HASH)) {
        assert_eq!(e.hash.is_empty(), e.short_hash.is_empty());
        assert!(e.hash.is_empty() || e.hash.len() == 40);
    }
}

fn first_hash_by_hand(line: &str) -> Option<usize> {
    let chars: Vec<char> = line.chars().collect();
    (0..chars.len()).find(|&i| {
        i + 41 <= chars.len()
            && chars[i..i + 40].iter().all(|c| matches!(c, '0'..='9' | 'a'..='f'))
            && chars[i + 40] == '\x1f'
    })
}

#[test]
fn the_hash_is_found_where_forty_digits_and_the_separator_stand() {
    let fields = "\x1fs\x1fm\x1fa\x1fd\x1fi\x1fp\x1fr";
    let prefixes = ["", "* ", "| | * ", "\u{e9}\u{1f600} ", "abc", "0123456789abcdef0123456789abcdef0123456",
        "ABCDEF0123456789ABCDEF0123456789ABCDEF01\x1f", "\x1f", "g", "ffffffffffffffffffffffffffffffffffffffff"];
    let bodies = [HASH.to_string(), HASH[..39].to_string(), HASH.to_uppercase(), format!("{}g", HASH),
        format!("{} ", HASH), String::new(), format!("{}\u{e9}", &HASH[..39])];
    for prefix in prefixes {
        for body in &bodies {
            let line = format!("{}{}{}", prefix, body, fields);
            let entries = parse_log_output(&line);
            match first_hash_by_hand(&line) {
                Some(k) => {
                    let graph: String = line.chars().take(k).collect();
                    assert_eq!(entries.len(), 1, "{:?}", line);
                    assert_eq!(entries[0].graph, graph, "{:?}", line);
                    assert_eq!(entries[0].hash.len(), 40, "{:?}", line);
                },
                None => {
                    assert_eq!(entries.len(), 1, "{:?}", line);
                    assert_eq!(entries[0].hash, "", "{:?}", line);
                    assert_eq!(entries[0].graph, line, "{:?}", line);
                },
            }
        }
    }
}
