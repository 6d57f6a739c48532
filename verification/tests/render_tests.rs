use paptura::dates::Date;
use paptura::money::Decimal;
use paptura::render::renderuj;
use paptura::template_data::DaneFaktury;
use paptura::template_data::PrzedmiotSprzedazy;
use paptura::PapturaError;

#[test]
fn the_default_invoice_renders_with_exact_amounts() {
    let d = DaneFaktury::default();
    let date = Date { rok: 2024, miesiac: 5, dzien: 6 };
    let doc = renderuj(&d, &date).unwrap();
    assert!(doc.contains("Faktura PAP_5"));
    assert!(doc.contains("Data wystawienia: 2024-05-06"));
    assert!(doc.contains("Data sprzedazy: 2024-05-06"));
    assert!(doc.contains("Termin platnosci: 2024-05-09"));
    assert!(doc.contains("23.00%"));
    assert!(doc.contains("Razem netto: 2137.00"));
    assert!(doc.contains("Razem VAT: 491.51"));
    assert!(doc.contains("Razem brutto: 2628.51"));
    assert!(doc.contains("Zaplacono: 0.00"));
    assert!(doc.contains("Do zaplaty: 2628.51"));
    assert!(doc.contains("Waluta: USD"));
    assert!(doc.contains("Uwagi: GTU_12"));
    assert!(doc.contains("Papaj - Janusz Pawlacz"));
    assert!(doc.contains("NIP: 8911632619"));
}

#[test]
fn absent_amounts_render_as_a_placeholder() {
    let mut d = DaneFaktury::default();
    d.przedmiot_sprzedazy = vec![PrzedmiotSprzedazy {
        nazwa: String::from("ogromna pozycja"),
        jednostka: String::from("szt."),
        ilosc: Decimal::from_nanos(1_000_000_000),
        cena_netto: Decimal::from_nanos(i64::MAX),
        stawka: Decimal::from_nanos(500_000_000),
    }];
    let date = Date { rok: 2024, miesiac: 5, dzien: 6 };
    let doc = renderuj(&d, &date).unwrap();
    assert!(doc.contains("Razem VAT: n/a"));
    assert!(doc.contains("Razem brutto: n/a"));
    assert!(doc.contains("Do zaplaty: n/a"));
}

#[test]
fn a_percent_overflow_fails_the_rendering() {
    let mut d = DaneFaktury::default();
    d.przedmiot_sprzedazy[0].stawka = Decimal::from_nanos(i64::MAX);
    let date = Date { rok: 2024, miesiac: 5, dzien: 6 };
    let r = renderuj(&d, &date);
    assert!(matches!(r, Err(PapturaError::RenderingError)));
}
