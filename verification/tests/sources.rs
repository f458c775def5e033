use vidatitles::blacklist::{contains_phrase, found_in_blacklist, Blacklist};
use vidatitles::columns::fit;
use vidatitles::config::{get_config, Config, ConfigError, MAX_PAGES};
use vidatitles::decimal::{parse_u16, push_decimal};
use vidatitles::extract::{
    extract_movies, extract_movies_with, movies_from_captures, PatternRejected,
};
use vidatitles::movie::SimpleMovie;
use vidatitles::pages::{join_pages, page_url, page_urls, URL_TEMPLATE};
use vidatitles::text::chars_of;

fn letters(text: &str) -> Vec<char> {
    text.chars().collect()
}

fn phrases(list: &Blacklist) -> Vec<String> {
    (0..list.len()).map(|i| list.phrase(i).iter().collect()).collect()
}

#[test]
fn page_count_out_of_range_is_a_config_error() {
    assert_eq!(get_config("0", "0").err(), Some(ConfigError::PageCount));
    assert_eq!(get_config("251", "0").err(), Some(ConfigError::PageCount));
    assert_eq!(get_config("65535", "0").err(), Some(ConfigError::PageCount));
}

#[test]
fn page_count_in_range_is_accepted() {
    let least = get_config("1", "0").unwrap();
    assert_eq!(least.get_page_count(), 1);
    assert_eq!(least.get_page_offset(), 0);
    assert_eq!(least.get_url_prefix(), "https://videa.hu/videok/film-animacio/");
    let most = get_config("250", "65535").unwrap();
    assert_eq!(most.get_page_count(), MAX_PAGES);
    assert_eq!(most.get_page_offset(), 65535);
    let middle = get_config("+17", "0042").unwrap();
    assert_eq!(middle.get_page_count(), 17);
    assert_eq!(middle.get_page_offset(), 42);
}

#[test]
fn arguments_that_are_no_numbers_are_config_errors() {
    assert_eq!(get_config("", "0").err(), Some(ConfigError::PageCount));
    assert_eq!(get_config("ten", "0").err(), Some(ConfigError::PageCount));
    assert_eq!(get_config("-1", "0").err(), Some(ConfigError::PageCount));
    assert_eq!(get_config("65536", "0").err(), Some(ConfigError::PageCount));
    assert_eq!(get_config("1", "").err(), Some(ConfigError::PageOffset));
    assert_eq!(get_config("1", "x").err(), Some(ConfigError::PageOffset));
    assert_eq!(get_config("1", "65536").err(), Some(ConfigError::PageOffset));
    assert_eq!(get_config("1", " 1").err(), Some(ConfigError::PageOffset));
    // the offset is read before the range of the count is looked at
    assert_eq!(get_config("0", "x").err(), Some(ConfigError::PageOffset));
    assert_eq!(get_config("x", "x").err(), Some(ConfigError::PageCount));
}

#[test]
fn config_error_messages() {
    assert_eq!(ConfigError::PageCount.message(), "Page count must be in range: 1 - 250.");
    assert_eq!(ConfigError::PageOffset.message(), "Page offset must be in range: 0 - 9999.");
}

#[test]
fn config_builders() {
    let config = Config::new();
    assert_eq!(config.get_url_prefix(), "https://videa.hu/videok/film-animacio/");
    assert_eq!(config.get_page_count(), 1);
    assert_eq!(config.get_page_offset(), 0);
    let config = config.set_page_count(7).set_page_offset(3);
    assert_eq!(config.get_page_count(), 7);
    assert_eq!(config.get_page_offset(), 3);
    assert_eq!(config.get_url_prefix(), "https://videa.hu/videok/film-animacio/");
    let config = config.set_page_count(0);
    assert_eq!(config.get_page_count(), 0);
    assert_eq!(config.get_page_offset(), 3);
}

#[test]
fn page_numbers_start_behind_the_offset() {
    assert_eq!(Config::new().page_numbers(), vec![1]);
    assert_eq!(Config::new().set_page_count(3).page_numbers(), vec![1, 2, 3]);
    assert_eq!(Config::new().set_page_count(3).set_page_offset(10).page_numbers(), vec![11, 12, 13]);
    assert_eq!(Config::new().set_page_count(0).page_numbers(), Vec::<u32>::new());
    let far = Config::new().set_page_count(250).set_page_offset(65535).page_numbers();
    assert_eq!(far.len(), 250);
    assert_eq!(far[0], 65536);
    assert_eq!(far[249], 65785);
}

#[test]
fn page_addresses() {
    assert_eq!(
        page_url(URL_TEMPLATE, 12),
        "https://videa.hu/kategoriak/film-animacio?sort=0&category=0&page=12"
    );
    assert_eq!(page_url("p=", 0), "p=0");
    assert_eq!(page_url("", 4294967295), "4294967295");
    assert_eq!(page_urls("p=", &vec![9, 10, 11]), vec!["p=9", "p=10", "p=11"]);
    assert_eq!(page_urls("p=", &vec![]), Vec::<String>::new());
}

#[test]
fn decimal_numerals_written_and_read() {
    for n in [0u32, 1, 9, 10, 11, 99, 100, 101, 1900, 2035, 65535, 65536, 1000000, u32::MAX] {
        let mut out = String::from("n=");
        push_decimal(&mut out, n);
        assert_eq!(out, format!("n={}", n));
        if n <= 65535 {
            assert_eq!(parse_u16(&out[2..]), Some(n as u16));
        } else {
            assert_eq!(parse_u16(&out[2..]), None);
        }
    }
}

#[test]
fn numerals_read_as_the_standard_library_reads_them() {
    let samples = [
        "", "+", "-", "0", "+0", "-0", "00", "007", "+007", "++1", "+-1", "1+", "65535", "65536",
        "065535", "0000000000000000000000065535", "99999", "100000", "4294967296", "12a", "a12",
        " 12", "12 ", "1_000", "١٢", "1.0", "0x10", "18446744073709551616",
    ];
    for text in samples {
        assert_eq!(parse_u16(text), text.parse::<u16>().ok(), "{:?}", text);
    }
}

#[test]
fn pages_are_joined_with_line_feeds() {
    let pages = vec!["one".to_string(), "two".to_string(), "".to_string(), "four".to_string()];
    assert_eq!(join_pages(&pages), "one\ntwo\n\nfour");
    assert_eq!(join_pages(&pages), pages.join("\n"));
    assert_eq!(join_pages(&vec!["only".to_string()]), "only");
    assert_eq!(join_pages(&vec![]), "");
    assert_eq!(join_pages(&vec!["".to_string(), "".to_string()]), "\n");
}

fn panel(url: &str, hover: &str, title: &str) -> String {
    format!(
        "<div class=\"panel-video-title\"><a href=\"{}\" title=\"{}\">{}</a></div>",
        url, hover, title
    )
}

#[test]
fn records_are_taken_from_the_markup() {
    let markup = format!(
        "<html>\n  {}\n<p>nothing</p>\n  {}\n</html>",
        panel("/videok/zeta-1", "Zeta", "Zeta"),
        panel("/videok/alfa-2", "Alpha 2005", "Alpha 2005")
    );
    let movies = extract_movies(&markup).unwrap();
    assert_eq!(
        movies,
        vec![
            SimpleMovie::new("Zeta".to_string(), "/videok/zeta-1".to_string()),
            SimpleMovie::new("Alpha 2005".to_string(), "/videok/alfa-2".to_string()),
        ]
    );
    assert_eq!(extract_movies("").unwrap(), vec![]);
    assert_eq!(extract_movies("<div class=\"panel-video-title\"></div>").unwrap(), vec![]);
}

#[test]
fn extraction_does_not_depend_on_page_boundaries() {
    let first = format!("{}\n{}", panel("a", "A", "A"), panel("b", "B", "B"));
    let second = panel("c", "C", "C");
    let mut apart = extract_movies(&first).unwrap();
    apart.extend(extract_movies(&second).unwrap());
    let together = extract_movies(&join_pages(&vec![first, second])).unwrap();
    assert_eq!(together, apart);
    assert_eq!(together.len(), 3);
}

#[test]
fn extraction_with_another_pattern() {
    let found = extract_movies_with("<(\\w+)>(\\w+)", "<u1>Zeta <u2>Alpha").unwrap();
    assert_eq!(
        found,
        vec![
            SimpleMovie::new("Zeta".to_string(), "u1".to_string()),
            SimpleMovie::new("Alpha".to_string(), "u2".to_string()),
        ]
    );
    // a match in which a group takes no part gives no record
    let found = extract_movies_with("<(\\w+)>(\\w+)|(none)", "<u1>Zeta none").unwrap();
    assert_eq!(found, vec![SimpleMovie::new("Zeta".to_string(), "u1".to_string())]);
    // a pattern with fewer than two groups gives none either
    assert_eq!(extract_movies_with("(\\w+)", "some words").unwrap(), vec![]);
}

#[test]
fn a_pattern_that_is_turned_down() {
    assert_eq!(extract_movies_with("(", "anything"), Err(PatternRejected));
    assert_eq!(extract_movies_with("a{2,1}", ""), Err(PatternRejected));
}

#[test]
fn records_from_capture_groups() {
    let groups = |url: Option<&str>, title: Option<&str>| {
        vec![
            Some("whole".to_string()),
            url.map(|s| s.to_string()),
            title.map(|s| s.to_string()),
        ]
    };
    assert_eq!(
        SimpleMovie::from_capture(&groups(Some("u"), Some("t"))),
        Some(SimpleMovie::new("t".to_string(), "u".to_string()))
    );
    assert_eq!(SimpleMovie::from_capture(&groups(None, Some("t"))), None);
    assert_eq!(SimpleMovie::from_capture(&groups(Some("u"), None)), None);
    assert_eq!(SimpleMovie::from_capture(&vec![Some("w".to_string()), Some("u".to_string())]), None);
    assert_eq!(SimpleMovie::from_capture(&vec![]), None);
    let found = vec![groups(Some("u1"), Some("t1")), groups(None, None), groups(Some("u2"), Some("t2"))];
    assert_eq!(
        movies_from_captures(&found),
        vec![
            SimpleMovie::new("t1".to_string(), "u1".to_string()),
            SimpleMovie::new("t2".to_string(), "u2".to_string()),
        ]
    );
}

#[test]
fn blacklist_is_read_line_by_line() {
    assert_eq!(phrases(&Blacklist::parse("one\ntwo words\nthree")), vec!["one", "two words", "three"]);
    assert_eq!(phrases(&Blacklist::parse("one\ntwo\n")), vec!["one", "two"]);
    assert_eq!(phrases(&Blacklist::parse("one\r\ntwo\r\n")), vec!["one", "two"]);
    assert_eq!(phrases(&Blacklist::parse(" padded \n")), vec![" padded "]);
}

#[test]
fn empty_lines_are_no_phrases() {
    assert_eq!(Blacklist::parse("").len(), 0);
    assert_eq!(Blacklist::parse("\n").len(), 0);
    assert_eq!(Blacklist::parse("\n\n\r\n\n").len(), 0);
    assert_eq!(phrases(&Blacklist::parse("\n\none\n\n\ntwo\n\n")), vec!["one", "two"]);
    assert_eq!(Blacklist::new().len(), 0);
    // nothing is blacklisted by a file of empty lines
    assert!(!found_in_blacklist("any title", &Blacklist::parse("\n\n")));
    assert!(!found_in_blacklist("", &Blacklist::parse("\n\n")));
}

#[test]
fn lines_are_those_of_the_standard_library() {
    let samples = [
        "", "a", "a\n", "a\nb", "a\r\nb", "a\rb\n", "a\r", "a\r\n", "\r\n", "\r", "\r\r\n",
        "a\n\r\nb", "a\r\r\nb\r", "\na", "a\n\n", "é\r\nК\n💭",
    ];
    for text in samples {
        let expected: Vec<&str> = text.lines().filter(|line| !line.is_empty()).collect();
        assert_eq!(phrases(&Blacklist::parse(text)), expected, "{:?}", text);
    }
}

#[test]
fn blacklist_matches_literal_substrings() {
    let blacklist = Blacklist::parse("Zeta\nfull hd\n.*\n");
    assert!(found_in_blacklist("Zeta", &blacklist));
    assert!(found_in_blacklist("The Zeta Files", &blacklist));
    assert!(found_in_blacklist("film (full hd)", &blacklist));
    // case matters, and a phrase is no pattern
    assert!(!found_in_blacklist("zeta", &blacklist));
    assert!(!found_in_blacklist("Full HD", &blacklist));
    assert!(!found_in_blacklist("anything at all", &blacklist));
    assert!(found_in_blacklist("a .* b", &blacklist));
    assert!(!found_in_blacklist("Zet", &blacklist));
    assert!(!found_in_blacklist("", &blacklist));
    assert!(!found_in_blacklist("Zeta", &Blacklist::new()));
}

#[test]
fn phrases_are_found_where_the_standard_library_finds_them() {
    let texts = ["", "a", "ab", "aab", "abab", "aaab", "éaé", "xyzxyzxy", "Каан репортаж"];
    let needles = ["", "a", "b", "ab", "aab", "abab", "ba", "é", "aé", "xyzxy", "zxyz", "реп", "ж", "жа"];
    for text in texts {
        for needle in needles {
            assert_eq!(
                contains_phrase(&letters(text), &letters(needle)),
                text.contains(needle),
                "{:?} in {:?}",
                needle,
                text
            );
        }
    }
}

#[test]
fn columns_are_filled_or_cut() {
    assert_eq!(fit("abc", 5), "abc  ");
    assert_eq!(fit("abc", 3), "abc");
    assert_eq!(fit("abc", 2), "ab");
    assert_eq!(fit("abc", 0), "");
    assert_eq!(fit("", 3), "   ");
    assert_eq!(fit("éé", 3), "éé ");
    assert_eq!(fit("ééééé", 3), "ééé");
}

#[test]
fn characters_of_a_text() {
    assert_eq!(chars_of("aé💭"), vec!['a', 'é', '💭']);
    assert_eq!(chars_of(""), Vec::<char>::new());
}
