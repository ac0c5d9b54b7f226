use minigrep::{search, search_case_sensitive};

#[test]
fn case_sensitive() {
    let query = "duct";
    let contents = "\
Rust:
safe, fast, productive.
Pick three.
Duct tape";
    assert_eq!(vec!["safe, fast, productive."], search_case_sensitive(query, contents))
}

#[test]
fn case_insensitive() {
    let query = "RUST";
    let contents = "\
Rust:
safe, fast, productive.
Pick three.
Trust me.";
    assert_eq!(vec!["Rust:", "Trust me."], search(query, contents))
}

#[test]
fn case_insensitive_first_scenario_keeps_both_duct_lines() {
    let contents = "Rust:\nsafe, fast, productive.\nPick three.\nDuct tape";
    assert_eq!(vec!["safe, fast, productive.", "Duct tape"], search("duct", contents));
}

#[test]
fn case_sensitive_rust_upper_matches_nothing() {
    let contents = "Rust:\nsafe, fast, productive.\nPick three.\nTrust me.";
    assert_eq!(Vec::<&str>::new(), search_case_sensitive("RUST", contents));
}

#[test]
fn empty_query_keeps_every_line() {
    assert_eq!(vec!["a", "b", "c"], search_case_sensitive("", "a\nb\nc"));
    assert_eq!(vec!["a", "b", "c"], search("", "a\nb\nc"));
}

#[test]
fn empty_contents_give_no_lines() {
    assert!(search_case_sensitive("x", "").is_empty());
    assert!(search("x", "").is_empty());
    assert!(search_case_sensitive("", "").is_empty());
    assert!(search("", "").is_empty());
}

#[test]
fn final_line_ending_adds_no_empty_line() {
    assert_eq!(vec!["a", "b"], search_case_sensitive("", "a\nb\n"));
}

#[test]
fn unterminated_last_line_is_kept() {
    assert_eq!(vec!["tail end"], search_case_sensitive("tail", "head\ntail end"));
}

#[test]
fn inner_empty_lines_are_lines() {
    assert_eq!(vec!["a", "", "b"], search_case_sensitive("", "a\n\nb"));
}

#[test]
fn carriage_return_before_newline_is_dropped() {
    assert_eq!(vec!["one", "two"], search_case_sensitive("", "one\r\ntwo\r\n"));
}

#[test]
fn every_match_holds_the_query() {
    let contents = "alpha\nbeta\ngamma\ndelta";
    let exact = search_case_sensitive("ta", contents);
    assert_eq!(vec!["beta", "delta"], exact);
    for line in exact {
        assert!(line.contains("ta"));
    }
}

#[test]
fn matches_keep_their_order() {
    let contents = "z1\na\nz2\nb\nz3";
    assert_eq!(vec!["z1", "z2", "z3"], search_case_sensitive("z", contents));
}

#[test]
fn ignoring_case_keeps_every_exact_match() {
    let contents = "Apple\napple\nAPPLE\nbanana";
    let exact = search_case_sensitive("ppl", contents);
    let folded = search("ppl", contents);
    assert_eq!(vec!["Apple", "apple"], exact);
    assert_eq!(vec!["Apple", "apple", "APPLE"], folded);
    for line in exact {
        assert!(folded.contains(&line));
    }
}

#[test]
fn folding_touches_ascii_letters_only() {
    assert_eq!(vec!["ÉCOLE"], search("ÉCOLE", "école\nÉCOLE"));
    assert_eq!(vec!["ABC-1", "abc-1"], search("aBc-1", "ABC-1\nabc-1\nabd-1"));
}

#[test]
fn query_longer_than_line_does_not_match() {
    assert!(search_case_sensitive("longer", "long").is_empty());
}

#[test]
fn lone_carriage_return_at_end_stays() {
    assert_eq!(vec!["foo", "bar", "", "baz\r"], search_case_sensitive("", "foo\r\nbar\n\nbaz\r"));
}
