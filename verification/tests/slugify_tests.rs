use paptura::slugify::slugify;
use paptura::text::prefix3_uppercase;

#[test]
fn slug_of_default_name() {
    let s = slugify(String::from("Papaj - Janusz Pawlacz"));
    assert_eq!(s, "papaj---janusz-pawlacz");
}

#[test]
fn slug_collapses_whitespace_runs() {
    let s = slugify(String::from("  Hello   World  "));
    assert_eq!(s, "hello-world");
}

#[test]
fn slug_of_empty_is_empty() {
    assert_eq!(slugify(String::new()), "");
}

#[test]
fn slug_of_only_spaces_is_empty() {
    assert_eq!(slugify(String::from(" \t \n ")), "");
}

#[test]
fn slug_splits_on_tabs_and_newlines() {
    assert_eq!(slugify(String::from("A\tB\nC")), "a-b-c");
}

#[test]
fn slug_lowercases_beyond_ascii() {
    assert_eq!(slugify(String::from("ZAWARTOŚĆ Kremówki")), "zawartość-kremówki");
}

#[test]
fn prefix_three_upper() {
    assert_eq!(prefix3_uppercase("papaj-janusz"), "PAP");
    assert_eq!(prefix3_uppercase("ab"), "AB");
    assert_eq!(prefix3_uppercase(""), "");
}
