use graph::sso::{
    SSCacheLine, SSErrorType, SmallString, SmallStringCollection, CACHELINE_WIDTH,
    INLINE_CAPACITY, SMALL_STRING_SIZE, SS_CACHELINE_PADDING, SS_PER_CACHELINE,
};

type SSC3 = SmallStringCollection<3, 1>;
type SSC7 = SmallStringCollection<7, 3>;

#[test]
fn basics() {
    let col: SSC3 = SSC3::new(&["a", "b", "c"]).unwrap();
    assert_eq!(col.lines().len(), 1);
    assert_eq!(col.lines()[0].cells().len(), 3);

    assert!(col.find("a").is_ok());
    assert_eq!(col.find("a").unwrap(), "a");

    assert!(col.find("b").is_ok());
    assert_eq!(col.find("b").unwrap(), "b");

    assert!(col.find("c").is_ok());
    assert_eq!(col.find("c").unwrap(), "c");

    assert!(col.find("z").is_err());

    assert!(col.find("").is_err());
    assert!(matches!(col.find("").unwrap_err(), SSErrorType::StringEmpty));

    let long_string = "a".repeat(INLINE_CAPACITY + 1);
    assert!(col.find(&long_string).is_err());
    assert!(matches!(
        col.find(&long_string).unwrap_err(),
        SSErrorType::StringTooBig
    ));
}

#[test]
fn layout_constants_are_derived_from_the_cache_line() {
    assert_eq!(CACHELINE_WIDTH, 32);
    assert_eq!(INLINE_CAPACITY, 9);
    assert_eq!(SMALL_STRING_SIZE, 10);
    assert_eq!(SS_PER_CACHELINE, 3);
    assert_eq!(SS_CACHELINE_PADDING, 2);
    assert_eq!(
        SS_PER_CACHELINE * SMALL_STRING_SIZE + SS_CACHELINE_PADDING,
        CACHELINE_WIDTH
    );
}

#[test]
fn a_line_occupies_one_cache_line() {
    assert_eq!(std::mem::size_of::<SmallString>(), SMALL_STRING_SIZE);
    assert_eq!(std::mem::size_of::<SSCacheLine>(), CACHELINE_WIDTH);
    assert_eq!(std::mem::size_of::<[SSCacheLine; 3]>(), 3 * CACHELINE_WIDTH);
}

#[test]
fn cell_round_trip() {
    for s in ["a", "ab", "tag", "symbol", "12345678", "\u{e9}", "\u{65e5}\u{672c}", "a\u{1f600}b"] {
        let cell = SmallString::new(s).unwrap();
        assert!(cell.is_init());
        assert_eq!(cell.as_str_unchecked(), s);
        assert_eq!(cell.as_str().unwrap(), s);
        assert_eq!(cell.as_str_maybe(), Some(s));
        assert!(cell.check_utf8().is_ok());
    }
}

#[test]
fn cell_rejects_the_empty_string() {
    assert!(matches!(SmallString::new(""), Err(SSErrorType::StringEmpty)));
}

#[test]
fn cell_rejects_strings_at_or_above_the_buffer_size() {
    assert!(SmallString::new("12345678").is_ok());
    assert!(matches!(
        SmallString::new("123456789"),
        Err(SSErrorType::StringTooBig)
    ));
    assert!(matches!(
        SmallString::new("1234567890abcdef"),
        Err(SSErrorType::StringTooBig)
    ));
    // Three characters of three bytes each: nine bytes.
    assert!(matches!(
        SmallString::new("\u{65e5}\u{672c}\u{8a9e}"),
        Err(SSErrorType::StringTooBig)
    ));
    // Four characters of two bytes each: eight bytes.
    assert_eq!(
        SmallString::new("\u{e9}\u{e8}\u{ea}\u{eb}")
            .unwrap()
            .as_str_unchecked(),
        "\u{e9}\u{e8}\u{ea}\u{eb}"
    );
}

#[test]
fn uninitialized_cell_is_reported() {
    let col: SSC7 = SSC7::new(&["a", "b", "c", "d", "e", "f", "g"]).unwrap();
    let padding = col.lookup_idx(7);
    assert!(!padding.is_init());
    assert!(matches!(padding.as_str(), Err(SSErrorType::Uninit)));
    assert!(matches!(padding.check_utf8(), Err(SSErrorType::Uninit)));
    assert_eq!(padding.as_str_maybe(), None);
    assert_eq!(padding.as_str_unchecked(), "");
}

#[test]
fn line_of_three_strings() {
    let line = SSCacheLine::new(&["x", "yy", "zzz"]).unwrap();
    assert_eq!(line.cells().len(), SS_PER_CACHELINE);
    assert_eq!(line.cells()[0].as_str_unchecked(), "x");
    assert_eq!(line.cells()[1].as_str_unchecked(), "yy");
    assert_eq!(line.cells()[2].as_str_unchecked(), "zzz");
}

#[test]
fn line_fails_with_the_first_error() {
    assert!(matches!(
        SSCacheLine::new(&["x", "", "123456789"]),
        Err(SSErrorType::StringEmpty)
    ));
    assert!(matches!(
        SSCacheLine::new(&["x", "123456789", ""]),
        Err(SSErrorType::StringTooBig)
    ));
}

#[test]
fn three_strings_in_one_line() {
    let col: SSC3 = SSC3::new(&["a", "b", "c"]).unwrap();
    assert_eq!(col.size(), 3);
    assert_eq!(col.lines().len(), 1);
    assert_eq!(col.find("b").unwrap(), "b");
    assert_eq!(col.find_index("b").unwrap(), 1);
    assert!(matches!(col.find("z"), Err(SSErrorType::MatchNotFound)));
    assert!(matches!(col.find_index("z"), Err(SSErrorType::MatchNotFound)));
    assert!(matches!(col.find(""), Err(SSErrorType::StringEmpty)));
    assert!(matches!(col.find_index(""), Err(SSErrorType::StringEmpty)));
    let long = "a".repeat(20);
    assert!(matches!(col.find(&long), Err(SSErrorType::StringTooBig)));
    assert!(matches!(col.find_index(&long), Err(SSErrorType::StringTooBig)));
}

#[test]
fn seven_strings_in_three_lines() {
    let values = ["a", "b", "c", "d", "e", "f", "g"];
    let col: SSC7 = SSC7::new(&values).unwrap();
    assert_eq!(col.size(), 7);
    assert_eq!(col.lines().len(), 3);
    let last = col.lines()[2].cells();
    assert!(last[0].is_init());
    assert!(!last[1].is_init());
    assert!(!last[2].is_init());
    assert_eq!(col[6].as_str_unchecked(), "g");
    assert!(col.lookup_idx(6).is_init());
    assert!(!col.lookup_idx(7).is_init());
    assert!(!col.lookup_idx(8).is_init());
    assert!(matches!(col.lookup_idx(7).as_str(), Err(SSErrorType::Uninit)));
}

#[test]
fn every_distinct_string_is_found_in_its_slot() {
    let values = ["alpha", "beta", "gamma", "delta", "eps", "zeta", "eta"];
    let col: SSC7 = SSC7::new(&values).unwrap();
    for (i, v) in values.iter().enumerate() {
        assert_eq!(col.find(v).unwrap(), *v);
        assert_eq!(col.find_index(v).unwrap(), i);
        assert_eq!(col[i].as_str_unchecked(), *v);
    }
}

#[test]
fn exact_multiple_of_the_line_size() {
    let values = ["a", "b", "c", "d", "e", "f"];
    let col = SmallStringCollection::<6, 2>::new(&values).unwrap();
    assert_eq!(col.lines().len(), 2);
    for (i, v) in values.iter().enumerate() {
        assert_eq!(col.find_index(v).unwrap(), i);
    }
    assert!(col.lines()[1].cells()[2].is_init());
}

#[test]
fn empty_collection_finds_nothing() {
    let values: [&str; 0] = [];
    let col = SmallStringCollection::<0, 0>::new(&values).unwrap();
    assert_eq!(col.size(), 0);
    assert!(matches!(col.find("a"), Err(SSErrorType::MatchNotFound)));
    assert!(matches!(col.find(""), Err(SSErrorType::StringEmpty)));
}

#[test]
fn duplicate_values_resolve_to_the_lowest_slot() {
    let col = SmallStringCollection::<4, 2>::new(&["x", "dup", "dup", "y"]).unwrap();
    assert_eq!(col.find_index("dup").unwrap(), 1);
    assert_eq!(col.find("dup").unwrap(), "dup");
    assert_eq!(col.find_index("y").unwrap(), 3);
}

#[test]
fn lookup_compares_whole_strings() {
    let col: SSC3 = SSC3::new(&["ab", "abc", "b"]).unwrap();
    assert_eq!(col.find_index("abc").unwrap(), 1);
    assert_eq!(col.find_index("b").unwrap(), 2);
    assert!(matches!(col.find_index("a"), Err(SSErrorType::MatchNotFound)));
    assert!(matches!(col.find_index("abcd"), Err(SSErrorType::MatchNotFound)));
}

#[test]
fn construction_is_all_or_nothing() {
    assert!(matches!(
        SSC7::new(&["a", "b", "c", "d", "", "f", "g"]),
        Err(SSErrorType::StringEmpty)
    ));
    assert!(matches!(
        SSC7::new(&["a", "b", "c", "d", "e", "f", "123456789"]),
        Err(SSErrorType::StringTooBig)
    ));
}

#[test]
fn construction_fails_with_the_first_error() {
    assert!(matches!(
        SSC7::new(&["a", "b", "123456789", "d", "", "f", "g"]),
        Err(SSErrorType::StringTooBig)
    ));
    assert!(matches!(
        SSC7::new(&["a", "", "c", "d", "e", "f", "123456789"]),
        Err(SSErrorType::StringEmpty)
    ));
}

#[test]
fn padding_bytes_per_line() {
    assert_eq!(SSC3::padding_byte_count_for_ss_count(0), 0);
    assert_eq!(SSC3::padding_byte_count_for_ss_count(1), 2);
    assert_eq!(SSC3::padding_byte_count_for_ss_count(5), 10);
}

#[test]
fn collection_is_a_plain_value() {
    let col: SSC3 = SSC3::new(&["a", "b", "c"]).unwrap();
    let copy = col;
    assert_eq!(col.find_index("c").unwrap(), 2);
    assert_eq!(copy.find_index("c").unwrap(), 2);
}
