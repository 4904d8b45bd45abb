use repo_lens::text::{
    count_of, field_ranges, find_delim, from_chars, is_whitespace, line_ranges, to_chars,
    token_ranges, trim_range, Delim,
};

fn chars(s: &str) -> Vec<char> {
    s.chars().collect()
}

fn pieces(s: &str, ranges: &[(usize, usize)]) -> Vec<String> {
    let all = chars(s);
    ranges.iter().map(|&(a, b)| all[a..b].iter().collect()).collect()
}

const SAMPLES: [&str; 14] = [
    "",
    "\n",
    "a",
    "a\n",
    "a\nb",
    "a\r\nb\r\n",
    "a\r",
    "\r\n\r\n",
    "one two\tthree\n\n  four  \n",
    "tab\tseparated\t\tfields\t",
    "\u{a0}nbsp\u{2003}em space\u{3000}",
    "M\tsrc/lib.rs\nR100\told name.txt\tnew name.txt\n",
    "trailing spaces   \r\n   leading",
    "na\u{ef}ve \u{1f600} text\n",
];

#[test]
fn whitespace_agrees_with_the_standard_library_on_every_char() {
    let mut code: u32 = 0;
    while code <= 0x10FFFF {
        if let Some(c) = char::from_u32(code) {
            assert_eq!(is_whitespace(c), c.is_whitespace(), "U+{:04X}", code);
        }
        code += 1;
    }
}

#[test]
fn chars_round_trip() {
    for s in SAMPLES {
        let v = to_chars(s);
        assert_eq!(v, chars(s));
        assert_eq!(from_chars(&v), s);
    }
}

#[test]
fn lines_agree_with_the_standard_library() {
    for s in SAMPLES {
        let got = pieces(s, &line_ranges(&chars(s)));
        let expected: Vec<String> = s.lines().map(|l| l.to_string()).collect();
        assert_eq!(got, expected, "input {:?}", s);
    }
}

#[test]
fn lines_keep_a_final_bare_carriage_return() {
    assert_eq!(pieces("a\r", &line_ranges(&chars("a\r"))), vec!["a\r"]);
    assert_eq!(pieces("a\r\n", &line_ranges(&chars("a\r\n"))), vec!["a"]);
    assert_eq!(pieces("a\r\r\n", &line_ranges(&chars("a\r\r\n"))), vec!["a\r"]);
}

#[test]
fn tokens_agree_with_split_whitespace() {
    for s in SAMPLES {
        let got = pieces(s, &token_ranges(&chars(s), Delim::Space));
        let expected: Vec<String> = s.split_whitespace().map(|l| l.to_string()).collect();
        assert_eq!(got, expected, "input {:?}", s);
    }
}

#[test]
fn fields_agree_with_split_on_tab() {
    for s in SAMPLES {
        let got = pieces(s, &field_ranges(&chars(s), Delim::Char('\t')));
        let expected: Vec<String> = s.split('\t').map(|l| l.to_string()).collect();
        assert_eq!(got, expected, "input {:?}", s);
    }
}

#[test]
fn fields_keep_empty_pieces() {
    assert_eq!(pieces("", &field_ranges(&chars(""), Delim::Char('\t'))), vec![""]);
    assert_eq!(pieces("\t", &field_ranges(&chars("\t"), Delim::Char('\t'))), vec!["", ""]);
    assert_eq!(
        pieces("a\t\tb", &field_ranges(&chars("a\t\tb"), Delim::Char('\t'))),
        vec!["a", "", "b"]
    );
}

#[test]
fn find_delim_stops_at_the_first_separator() {
    let text = chars("ab cd");
    assert_eq!(find_delim(&text, 0, Delim::Space), 2);
    assert_eq!(find_delim(&text, 2, Delim::Space), 2);
    assert_eq!(find_delim(&text, 3, Delim::Space), 5);
    assert_eq!(find_delim(&text, 5, Delim::Space), 5);
    assert_eq!(find_delim(&text, 9, Delim::Space), 5);
    assert_eq!(find_delim(&text, 0, Delim::Char('c')), 3);
    assert_eq!(find_delim(&text, 0, Delim::Char('z')), 5);
}

#[test]
fn trim_agrees_with_the_standard_library() {
    for s in SAMPLES {
        let all = chars(s);
        let (a, b) = trim_range(&all);
        let got: String = all[a..b].iter().collect();
        assert_eq!(got, s.trim(), "input {:?}", s);
        assert_eq!(a == b, s.trim().is_empty(), "input {:?}", s);
    }
    for s in ["   ", "\t\n", " x ", "x", " \u{a0} y\u{3000}"] {
        let all = chars(s);
        let (a, b) = trim_range(&all);
        let got: String = all[a..b].iter().collect();
        assert_eq!(got, s.trim(), "input {:?}", s);
        assert_eq!(a == b, s.trim().is_empty(), "input {:?}", s);
    }
}

#[test]
fn counts_agree_with_the_standard_library() {
    let max = usize::MAX.to_string();
    let over = format!("{}0", usize::MAX);
    let just_over = "18446744073709551616";
    let words = [
        "0", "7", "42", "007", "+5", "+", "-", "-1", "", " 1", "1 ", "1a", "a1", "١٢", "+-1",
        "++1", "1_000", "0x10", max.as_str(), over.as_str(), just_over, "99999999999999999999999",
    ];
    for w in words {
        assert_eq!(count_of(&chars(w)), w.parse::<usize>().ok(), "word {:?}", w);
    }
}

#[test]
fn count_exact_values() {
    assert_eq!(count_of(&chars("12345")), Some(12345));
    assert_eq!(count_of(&chars("+0")), Some(0));
    assert_eq!(count_of(&chars(&usize::MAX.to_string())), Some(usize::MAX));
    assert_eq!(count_of(&chars("-")), None);
}
