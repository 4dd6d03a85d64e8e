use msedgedriver_tool::error::Error;
use msedgedriver_tool::install::Webview2Install;
use msedgedriver_tool::lookup::webview2_version;
use msedgedriver_tool::lookup::Lookup;
use msedgedriver_tool::lookup::Search;
use msedgedriver_tool::version::Version;

fn version(text: &str) -> Version {
    Version::new(text).unwrap()
}

/// Runs a search against lookups that are answered from `answers`, and says how it
/// ended and which locations were asked.
fn run(answers: &[(bool, &[u8])]) -> (Search, Vec<Webview2Install>) {
    let mut outcomes = Vec::new();
    let mut asked = Vec::new();
    loop {
        match webview2_version(&outcomes) {
            Search::Ask(install) => {
                let (success, stdout) = answers[asked.len()];
                asked.push(install);
                outcomes.push(Lookup::ran(success, stdout));
            }
            end => return (end, asked),
        }
    }
}

#[test]
fn the_search_starts_at_the_first_location() {
    assert_eq!(webview2_version(&Vec::new()), Search::Ask(Webview2Install::Global64));
}

#[test]
fn first_location_with_a_version_wins() {
    let all = Webview2Install::all();
    for k in 0..4 {
        let mut answers: Vec<(bool, &[u8])> = vec![(false, b""); 4];
        answers[k] = (true, b" 100.0.1.2\r\n");
        for later in k + 1..4 {
            answers[later] = (true, b"9.9.9.9");
        }
        let (end, asked) = run(&answers);
        assert_eq!(end, Search::Found(version("100.0.1.2")));
        assert_eq!(asked, all[..k + 1].to_vec());
    }
}

#[test]
fn empty_output_counts_as_nothing() {
    let answers: Vec<(bool, &[u8])> =
        vec![(true, b""), (true, b" \r\n"), (false, b"1.2.3.4"), (true, b"5.6.7.8\n")];
    let (end, asked) = run(&answers);
    assert_eq!(end, Search::Found(version("5.6.7.8")));
    assert_eq!(asked, Webview2Install::all());
}

#[test]
fn no_install_found_after_four_empty_lookups() {
    let answers: Vec<(bool, &[u8])> = vec![(false, b""), (true, b""), (false, b"x"), (true, b"\n")];
    let (end, asked) = run(&answers);
    assert_eq!(end, Search::Failed(Error::NoInstallFound));
    assert_eq!(asked, Webview2Install::all());
}

#[test]
fn decided_outcomes_stay_decided() {
    let found = vec![Lookup::Missing, Lookup::Found(version("1.2.3.4")), Lookup::Missing];
    assert_eq!(webview2_version(&found), Search::Found(version("1.2.3.4")));
    let found = vec![
        Lookup::Missing,
        Lookup::Found(version("1.2.3.4")),
        Lookup::Found(version("5.6.7.8")),
        Lookup::Failed("denied".to_string()),
    ];
    assert_eq!(webview2_version(&found), Search::Found(version("1.2.3.4")));
    let missing = vec![Lookup::Missing, Lookup::Missing];
    assert_eq!(webview2_version(&missing), Search::Ask(Webview2Install::User64));
}

#[test]
fn each_missing_lookup_moves_to_the_next_location() {
    let mut outcomes = Vec::new();
    for install in Webview2Install::all() {
        assert_eq!(webview2_version(&outcomes), Search::Ask(install));
        outcomes.push(Lookup::Missing);
    }
    assert_eq!(webview2_version(&outcomes), Search::Failed(Error::NoInstallFound));
    outcomes.push(Lookup::Found(version("1.2.3.4")));
    assert_eq!(webview2_version(&outcomes), Search::Failed(Error::NoInstallFound));
}

#[test]
fn a_lookup_that_could_not_run_ends_the_search() {
    let outcomes = vec![Lookup::not_run("program not found".to_string())];
    assert_eq!(
        webview2_version(&outcomes),
        Search::Failed(Error::LookupFailed("program not found".to_string()))
    );
    let outcomes = vec![
        Lookup::Missing,
        Lookup::Missing,
        Lookup::not_run("denied".to_string()),
        Lookup::Found(version("1.2.3.4")),
    ];
    assert_eq!(
        webview2_version(&outcomes),
        Search::Failed(Error::LookupFailed("denied".to_string()))
    );
}

#[test]
fn outcome_of_a_run() {
    assert_eq!(Lookup::ran(true, b"1.2.3.4\r\n"), Lookup::Found(version("1.2.3.4")));
    assert_eq!(Lookup::ran(true, b"\r\n"), Lookup::Missing);
    assert_eq!(Lookup::ran(false, b"1.2.3.4\r\n"), Lookup::Missing);
    assert_eq!(Lookup::of(None), Lookup::Missing);
    assert_eq!(Lookup::of(Version::new("1.2")), Lookup::Found(version("1.2")));
    assert_eq!(Lookup::not_run("x".to_string()), Lookup::Failed("x".to_string()));
}
