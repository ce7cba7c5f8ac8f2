use matrix_commander::help::{collapse_blank_lines, condense_help, lines, usage_option_lines};

#[test]
fn lines_split_like_str_split() {
    for s in ["", "a", "a\nb", "a\n", "\n\n", "x\ny\nz"] {
        let expected: Vec<String> = s.split('\n').map(|l| l.to_string()).collect();
        assert_eq!(lines(s), expected);
    }
}

#[test]
fn usage_keeps_option_lines_only() {
    let help = "Usage: prog [OPTIONS]\n\nOptions:\n  -p, --profile <P>\n          Details:: more\n      --usage\n  text\n";
    assert_eq!(
        usage_option_lines(help),
        vec!["  -p, --profile <P>".to_string(), "      --usage".to_string()]
    );
}

#[test]
fn blank_lines_are_collapsed_like_str_replace() {
    for s in ["a\n\nb", "\n\n\n", "a\n\n\n\nb", "", "x"] {
        assert_eq!(collapse_blank_lines(s), s.replace("\n\n", "\n"));
    }
}

#[test]
fn condensed_help_drops_detail_paragraphs() {
    let help = "Options:\n  -p, --profile <P>\n          Profile to use. Details:: long\n          explanation\n      --usage\n          Short. Details:: more\nPS: see also\n";
    let short = condense_help(help).unwrap();
    assert_eq!(
        short,
        "Options:\n  -p, --profile <P>\n          Profile to use.\n      --usage\n          Short.\nPS: see also\n"
    );
}
