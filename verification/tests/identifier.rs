use mod_add::{parse_project_id, route, split_repository, Route};

#[test]
fn numeric_identifier_routes_to_curseforge() {
    assert_eq!(route("12345"), Route::CurseForge(12345));
}

#[test]
fn owner_and_repo_route_to_github() {
    assert_eq!(
        route("owner/repo"),
        Route::GitHub {
            owner: "owner",
            repo: "repo"
        }
    );
}

#[test]
fn slug_routes_to_modrinth() {
    assert_eq!(route("sodium"), Route::Modrinth("sodium"));
}

#[test]
fn numeric_identifier_never_routes_to_github() {
    assert!(!matches!(route("12345"), Route::GitHub { .. }));
    assert!(!matches!(route("12345"), Route::Modrinth(_)));
}

#[test]
fn routing_is_repeatable() {
    for identifier in ["12345", "owner/repo", "sodium", "", "a/b/c", "-7"] {
        assert_eq!(route(identifier), route(identifier));
    }
}

#[test]
fn signs_and_leading_zeros_are_numbers() {
    assert_eq!(route("+5"), Route::CurseForge(5));
    assert_eq!(route("-5"), Route::CurseForge(-5));
    assert_eq!(route("-0"), Route::CurseForge(0));
    assert_eq!(route("007"), Route::CurseForge(7));
    assert_eq!(route("0"), Route::CurseForge(0));
}

#[test]
fn limits_of_32_bits() {
    assert_eq!(route("2147483647"), Route::CurseForge(i32::MAX));
    assert_eq!(route("-2147483648"), Route::CurseForge(i32::MIN));
    assert_eq!(route("2147483648"), Route::Modrinth("2147483648"));
    assert_eq!(route("-2147483649"), Route::Modrinth("-2147483649"));
    assert_eq!(
        route("99999999999999999999999999"),
        Route::Modrinth("99999999999999999999999999")
    );
    assert_eq!(route("0000000000002147483647"), Route::CurseForge(i32::MAX));
}

#[test]
fn almost_numbers_are_slugs() {
    for identifier in [
        "", "+", "-", "+-1", "--1", "1-", " 12", "12 ", "1_000", "12a", "0x10", "1.5", "١٢٣",
        "１２３",
    ] {
        assert_eq!(route(identifier), Route::Modrinth(identifier));
    }
}

#[test]
fn one_separator_goes_to_github_even_with_an_empty_segment() {
    assert_eq!(
        route("/repo"),
        Route::GitHub {
            owner: "",
            repo: "repo"
        }
    );
    assert_eq!(
        route("owner/"),
        Route::GitHub {
            owner: "owner",
            repo: ""
        }
    );
    assert_eq!(
        route("/"),
        Route::GitHub {
            owner: "",
            repo: ""
        }
    );
    assert_eq!(
        route("1/2"),
        Route::GitHub {
            owner: "1",
            repo: "2"
        }
    );
}

#[test]
fn several_separators_go_to_modrinth() {
    assert_eq!(route("a/b/c"), Route::Modrinth("a/b/c"));
    assert_eq!(route("//"), Route::Modrinth("//"));
    assert_eq!(route("bad id with spaces"), Route::Modrinth("bad id with spaces"));
}

#[test]
fn segments_are_cut_by_characters_not_bytes() {
    assert_eq!(
        route("ownér/repö"),
        Route::GitHub {
            owner: "ownér",
            repo: "repö"
        }
    );
    assert_eq!(split_repository("日本/語"), Some(("日本", "語")));
}

#[test]
fn split_repository_takes_the_first_two_segments() {
    assert_eq!(split_repository("owner/repo"), Some(("owner", "repo")));
    assert_eq!(split_repository("a/b/c"), Some(("a", "b")));
    assert_eq!(split_repository("a//c"), Some(("a", "")));
    assert_eq!(split_repository("/x"), Some(("", "x")));
    assert_eq!(split_repository("x/"), Some(("x", "")));
    assert_eq!(split_repository("none"), None);
    assert_eq!(split_repository(""), None);
}

#[test]
fn split_repository_agrees_with_split() {
    for identifier in ["owner/repo", "a/b/c", "a//c", "/x", "x/", "/", "//", "é/ü/ö"] {
        let segments: Vec<&str> = identifier.split('/').collect();
        assert_eq!(
            split_repository(identifier),
            Some((segments[0], segments[1]))
        );
    }
}

#[test]
fn parse_project_id_reads_decimal_numbers() {
    assert_eq!(parse_project_id("12345"), Some(12345));
    assert_eq!(parse_project_id("-12345"), Some(-12345));
    assert_eq!(parse_project_id("306612"), Some(306612));
    assert_eq!(parse_project_id("sodium"), None);
    assert_eq!(parse_project_id(""), None);
}

#[test]
fn parse_project_id_agrees_with_the_standard_parser() {
    let samples = [
        "", "0", "1", "-1", "+1", "+", "-", "+-1", "-+1", "00", "-00", "+007", "12345",
        "2147483646", "2147483647", "2147483648", "2147483649", "-2147483647", "-2147483648",
        "-2147483649", "4294967296", "-4294967296", "21474836470", "9223372036854775807",
        "9223372036854775808", "18446744073709551616", "99999999999999999999999999999999",
        " 1", "1 ", "1 2", "1\n", "\t1", "1_0", "1e3", "0x1f", "1.0", "1,0", "a", "1a", "a1",
        "١", "１", "²", "owner/repo", "1/2", "/", "−1", "１２３",
    ];
    for sample in samples {
        assert_eq!(
            parse_project_id(sample),
            sample.parse::<i32>().ok(),
            "{sample:?}"
        );
    }
    for number in [-100_000, -11, -10, -9, -1, 0, 1, 9, 10, 11, 99, 100, 101, 65_535, 1_000_000] {
        assert_eq!(parse_project_id(&number.to_string()), Some(number));
        assert_eq!(parse_project_id(&format!("+{}", number.abs())), Some(number.abs()));
    }
}
