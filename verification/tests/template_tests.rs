use paptura::dates::Date;
use paptura::money::Decimal;
use paptura::template_data::DaneFaktury;
use paptura::template_data::PrzedmiotSprzedazy;
use paptura::PapturaError;

fn item(cena_nanos: i64, stawka_nanos: i64, ilosc_nanos: i64) -> PrzedmiotSprzedazy {
    PrzedmiotSprzedazy {
        nazwa: String::from("pozycja"),
        jednostka: String::from("szt."),
        ilosc: Decimal::from_nanos(ilosc_nanos),
        cena_netto: Decimal::from_nanos(cena_nanos),
        stawka: Decimal::from_nanos(stawka_nanos),
    }
}

#[test]
fn gross_and_vat_of_single_item() {
    let p = item(100_000_000_000, 230_000_000, 1_000_000_000);
    assert_eq!(p.kwota_vat().unwrap().as_nanos(), 23_000_000_000);
    assert_eq!(p.wartosc_brutto().unwrap().as_nanos(), 123_000_000_000);
}

#[test]
fn total_net_ignores_quantity() {
    let mut d = DaneFaktury::default();
    d.przedmiot_sprzedazy = vec![
        item(100_000_000_000, 230_000_000, 5_000_000_000),
        item(200_000_000_000, 230_000_000, 7_000_000_000),
    ];
    let total = d.wartosc_netto().unwrap();
    assert_eq!(total.as_nanos(), 300_000_000_000);
}

#[test]
fn payment_above_total_is_rejected_and_leaves_state() {
    let mut d = DaneFaktury::default();
    let r = d.nadpisz_zaplacono(Decimal::from_nanos(3_000_000_000_000));
    assert!(matches!(r, Err(PapturaError::PaymentExceedsTotal)));
    assert_eq!(d.zaplacono.as_nanos(), 0);
    assert_eq!(
        d.przedmiot_sprzedazy[0].cena_netto.as_nanos(),
        2_137_000_000_000
    );
}

#[test]
fn payment_within_total_is_accepted() {
    let mut d = DaneFaktury::default();
    let r = d.nadpisz_zaplacono(Decimal::from_nanos(1_000_000_000_000));
    assert!(r.is_ok());
    assert_eq!(d.zaplacono.as_nanos(), 1_000_000_000_000);
}

#[test]
fn empty_invoice_has_no_totals_and_rejects_overrides() {
    let mut d = DaneFaktury::default();
    d.przedmiot_sprzedazy = Vec::new();
    assert!(d.wartosc_netto().is_none());
    assert!(d.kwota_vat().is_none());
    assert!(d.wartosc_brutto().is_none());
    assert!(d.do_zaplaty().is_none());
    let r = d.nadpisz_cene_netto(Decimal::from_nanos(1_000_000_000));
    assert!(matches!(r, Err(PapturaError::PrzedmiotSprzedazyMissing)));
    let r2 = d.nadpisz_zaplacono(Decimal::from_nanos(0));
    assert!(matches!(r2, Err(PapturaError::PrzedmiotSprzedazyMissing)));
}

#[test]
fn default_invoice_shape() {
    let d = DaneFaktury::default();
    assert!(d.nadpisana_nazwa_faktury.is_none());
    assert_eq!(d.poczatek_serii_numeru_faktury, 1);
    assert!(d.numer_faktury.is_none());
    assert_eq!(d.prefix_faktury, "PAP");
    assert_eq!(d.metoda_platnosci, "przelew");
    assert_eq!(d.uwagi, "GTU_12");
    assert_eq!(d.waluta, "USD");
    assert_eq!(d.przedmiot_sprzedazy.len(), 1);
    assert_eq!(d.przedmiot_sprzedazy[0].cena_netto.as_nanos(), 2_137_000_000_000);
    assert_eq!(d.zaplacono.as_nanos(), 0);
}

#[test]
fn price_override_touches_only_the_first_item() {
    let mut d = DaneFaktury::default();
    d.przedmiot_sprzedazy.push(item(50_000_000_000, 80_000_000, 1_000_000_000));
    let r = d.nadpisz_cene_netto(Decimal::from_nanos(999_000_000_000));
    assert!(r.is_ok());
    assert_eq!(d.przedmiot_sprzedazy[0].cena_netto.as_nanos(), 999_000_000_000);
    assert_eq!(d.przedmiot_sprzedazy[0].jednostka, "szt.");
    assert_eq!(d.przedmiot_sprzedazy[1].cena_netto.as_nanos(), 50_000_000_000);
}

#[test]
fn comment_override_replaces_remarks() {
    let mut d = DaneFaktury::default();
    d.nadpisz_uwagi(String::from("dodatkowy komentarz"));
    assert_eq!(d.uwagi, "dodatkowy komentarz");
    assert_eq!(d.waluta, "USD");
}

#[test]
fn number_string_uses_assigned_number() {
    let mut d = DaneFaktury::default();
    d.przypisz_numer(4);
    let date = Date { rok: 2024, miesiac: 7, dzien: 1 };
    assert_eq!(d.numer_faktury_napis(&date), "PAP_4");
}

#[test]
fn number_string_falls_back_to_the_month() {
    let d = DaneFaktury::default();
    let date = Date { rok: 2024, miesiac: 7, dzien: 1 };
    assert_eq!(d.numer_faktury_napis(&date), "PAP_7");
}

#[test]
fn slug_joins_seller_and_buyer() {
    let d = DaneFaktury::default();
    assert_eq!(d.slug(), "papaj---janusz-pawlacz-papaj---janusz-pawlacz");
}

#[test]
fn slug_override_wins() {
    let mut d = DaneFaktury::default();
    d.nadpisana_nazwa_faktury = Some(String::from("acme-bob"));
    assert_eq!(d.slug(), "acme-bob");
}

#[test]
fn filename_shape() {
    let mut d = DaneFaktury::default();
    d.nadpisana_nazwa_faktury = Some(String::from("acme-bob"));
    d.przypisz_numer(4);
    let date = Date { rok: 2024, miesiac: 1, dzien: 2 };
    assert_eq!(d.filename(&date), "acme-bob-PAP_4--2024-01-02.html");
}

#[test]
fn due_amount_subtracts_payment() {
    let mut d = DaneFaktury::default();
    d.nadpisz_zaplacono(Decimal::from_nanos(1_000_000_000_000)).unwrap();
    let due = d.do_zaplaty().unwrap();
    assert_eq!(due.as_nanos(), 2_628_510_000_000 - 1_000_000_000_000);
}

#[test]
fn overflowed_vat_is_left_out_of_the_totals() {
    let mut d = DaneFaktury::default();
    d.przedmiot_sprzedazy = vec![
        item(100_000_000_000, 230_000_000, 1_000_000_000),
        item(i64::MAX, 500_000_000, 1_000_000_000),
    ];
    assert_eq!(d.kwota_vat().unwrap().as_nanos(), 23_000_000_000);
    assert_eq!(d.wartosc_brutto().unwrap().as_nanos(), 123_000_000_000);
}

#[test]
fn error_messages_are_readable() {
    assert_eq!(
        PapturaError::DocumentAlreadyExists.message(),
        "Faktura o takiej nazwie już istnieje, prawdopodobnie coś poszło nietak"
    );
    assert_eq!(
        PapturaError::BadArgumentFormat(String::from("xyz")).message(),
        "Argument for value xyz was invalid"
    );
}
