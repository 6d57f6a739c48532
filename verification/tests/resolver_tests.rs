use paptura::dates::Date;
use paptura::resolver::policz_pasujace;
use paptura::resolver::przydziel_numer;
use paptura::resolver::rozwiaz_nazwe_pliku;
use paptura::template_data::DaneFaktury;
use paptura::PapturaError;

fn names(v: &[&str]) -> Vec<String> {
    v.iter().map(|s| String::from(*s)).collect()
}

#[test]
fn counting_matches_the_slug_prefix() {
    let n = names(&[
        "acme-bob-PAP_1--2024-01-01.html",
        "acme-bob-PAP_2--2024-01-05.html",
        "acme-bobcat.html",
        "emca-bob.html",
        "notes.txt",
    ]);
    assert_eq!(policz_pasujace(&n, &String::from("acme-bob")), 3);
}

#[test]
fn three_matching_files_give_number_four() {
    let mut d = DaneFaktury::default();
    d.nadpisana_nazwa_faktury = Some(String::from("acme-bob"));
    let n = names(&[
        "acme-bob-PAP_1--2024-01-01.html",
        "acme-bob-PAP_2--2024-01-05.html",
        "acme-bob-PAP_3--2024-02-01.html",
        "unrelated.html",
    ]);
    przydziel_numer(&mut d, &n);
    assert_eq!(d.numer_faktury, Some(4));
}

#[test]
fn an_empty_directory_starts_the_series() {
    let mut d = DaneFaktury::default();
    przydziel_numer(&mut d, &Vec::new());
    assert_eq!(d.numer_faktury, Some(1));
}

#[test]
fn an_existing_filename_is_a_collision() {
    let date = Date { rok: 2024, miesiac: 3, dzien: 4 };
    let mut pierwsza = DaneFaktury::default();
    pierwsza.nadpisana_nazwa_faktury = Some(String::from("acme-bob"));
    let fname = rozwiaz_nazwe_pliku(&mut pierwsza, &Vec::new(), &date).unwrap();
    assert_eq!(fname, "acme-bob-PAP_1--2024-03-04.html");

    let mut druga = DaneFaktury::default();
    druga.nadpisana_nazwa_faktury = Some(String::from("acme-bob"));
    druga.poczatek_serii_numeru_faktury = 0;
    let zajete = names(&[fname.as_str()]);
    let r = rozwiaz_nazwe_pliku(&mut druga, &zajete, &date);
    assert!(matches!(r, Err(PapturaError::DocumentAlreadyExists)));
}

#[test]
fn a_fresh_filename_passes_the_collision_check() {
    let date = Date { rok: 2024, miesiac: 3, dzien: 4 };
    let mut d = DaneFaktury::default();
    d.nadpisana_nazwa_faktury = Some(String::from("acme-bob"));
    let zajete = names(&["acme-bob-PAP_1--2024-03-01.html"]);
    let r = rozwiaz_nazwe_pliku(&mut d, &zajete, &date).unwrap();
    assert_eq!(r, "acme-bob-PAP_2--2024-03-04.html");
}
