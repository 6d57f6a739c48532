//! The rendering boundary: the finished invoice laid out as a single
//! HTML document.  Rendering is pure field substitution; every absent
//! amount is shown as an explicit placeholder, never as zero.
use vstd::prelude::*;

use crate::dates::iso_chars;
use crate::dates::push_iso_date;
use crate::dates::Date;
use crate::filters::currency_chars;
use crate::filters::format_currency;
use crate::filters::format_percent;
use crate::money::Decimal;
use crate::template_data::brutto_mozliwy;
use crate::template_data::jest_brutto;
use crate::template_data::jest_vat;
use crate::template_data::kwota_vat_pozycji;
use crate::template_data::numer_chars;
use crate::template_data::suma_brutto;
use crate::template_data::suma_netto;
use crate::template_data::suma_vat;
use crate::template_data::vat_mozliwy;
use crate::template_data::wartosc_brutto_pozycji;
use crate::template_data::wartosc_netto_pozycji;
use crate::template_data::DaneFaktury;
use crate::template_data::PrzedmiotSprzedazy;
use crate::template_data::StronaSprzedazy;
use crate::text::push_str_chars;
use crate::text::string_from_chars;
use crate::PapturaError;

verus! {

/// Whether every item's tax rate survives the multiplication by one
/// hundred that the percent column needs.
pub open spec fn procenty_mozliwe(s: Seq<PrzedmiotSprzedazy>) -> bool {
    forall|i: int|
        0 <= i < s.len() ==> i64::MIN <= 100 * #[trigger] s[i].stawka.value() <= i64::MAX
}

/// One party's block of the document.
pub open spec fn strona_chars(s: StronaSprzedazy) -> Seq<char> {
    "<p>"@ + s.nazwa@ + "<br>NIP: "@ + s.nip@ + "<br>"@ + s.adres.adres_1@ + "<br>"@
        + s.adres.adres_2@ + "<br>Konto: "@ + (match s.konto_bankowe {
        Some(k) => k.przedrostek_banku@ + seq![' '] + k.numer_konta@,
        None => "n/a"@,
    }) + "</p>"@
}

/// One line item's table row.
pub open spec fn wiersz_chars(p: PrzedmiotSprzedazy) -> Seq<char> {
    "<tr><td>"@ + p.nazwa@ + "</td><td>"@ + p.jednostka@ + "</td><td>"@ + currency_chars(
        p.ilosc.value(),
    ) + "</td><td>"@ + currency_chars(p.cena_netto.value()) + "</td><td>"@ + currency_chars(
        100 * p.stawka.value(),
    ) + seq!['%'] + "</td><td>"@ + currency_chars(wartosc_netto_pozycji(p)) + "</td><td>"@ + (
    if vat_mozliwy(p) {
        currency_chars(kwota_vat_pozycji(p))
    } else {
        "n/a"@
    }) + "</td><td>"@ + (if brutto_mozliwy(p) {
        currency_chars(wartosc_brutto_pozycji(p))
    } else {
        "n/a"@
    }) + "</td></tr>"@
}

/// Every item's row, in order.
pub open spec fn wiersze_chars(s: Seq<PrzedmiotSprzedazy>) -> Seq<char>
    decreases s.len(),
{
    if s.len() == 0 {
        Seq::empty()
    } else {
        wiersze_chars(s.drop_last()) + wiersz_chars(s.last())
    }
}

/// The net total field: the amount, or the placeholder where absent.
pub open spec fn pole_netto(d: DaneFaktury) -> Seq<char> {
    if d.przedmiot_sprzedazy@.len() > 0 && i64::MIN <= suma_netto(d.przedmiot_sprzedazy@)
        <= i64::MAX {
        currency_chars(suma_netto(d.przedmiot_sprzedazy@))
    } else {
        "n/a"@
    }
}

/// The VAT total field: the amount, or the placeholder where absent.
pub open spec fn pole_vat(d: DaneFaktury) -> Seq<char> {
    if jest_vat(d.przedmiot_sprzedazy@) && i64::MIN <= suma_vat(d.przedmiot_sprzedazy@)
        <= i64::MAX {
        currency_chars(suma_vat(d.przedmiot_sprzedazy@))
    } else {
        "n/a"@
    }
}

/// The gross total field: the amount, or the placeholder where absent.
pub open spec fn pole_brutto(d: DaneFaktury) -> Seq<char> {
    if jest_brutto(d.przedmiot_sprzedazy@) && i64::MIN <= suma_brutto(d.przedmiot_sprzedazy@)
        <= i64::MAX {
        currency_chars(suma_brutto(d.przedmiot_sprzedazy@))
    } else {
        "n/a"@
    }
}

/// The amount-due field: the amount, or the placeholder where absent.
pub open spec fn pole_do_zaplaty(d: DaneFaktury) -> Seq<char> {
    if jest_brutto(d.przedmiot_sprzedazy@) && i64::MIN <= suma_brutto(d.przedmiot_sprzedazy@)
        <= i64::MAX && i64::MIN <= suma_brutto(d.przedmiot_sprzedazy@) - d.zaplacono.value()
        <= i64::MAX {
        currency_chars(suma_brutto(d.przedmiot_sprzedazy@) - d.zaplacono.value())
    } else {
        "n/a"@
    }
}

/// The whole document, given the invoice and its issue date.
pub open spec fn render_chars(d: DaneFaktury, wystawienie: Date) -> Seq<char> {
    "<html><body><h1>Faktura "@ + numer_chars(d, wystawienie) + "</h1><p>Data wystawienia: "@
        + iso_chars(wystawienie) + "</p><p>Data sprzedazy: "@ + iso_chars(wystawienie)
        + "</p><p>Termin platnosci: "@ + iso_chars(wystawienie.plus3_spec())
        + "</p><p>Metoda platnosci: "@ + d.metoda_platnosci@ + "</p><h2>Sprzedawca</h2>"@
        + strona_chars(d.sprzedawca) + "<h2>Nabywca</h2>"@ + strona_chars(d.nabywca) + "<table>"@
        + wiersze_chars(d.przedmiot_sprzedazy@) + "</table><p>Razem netto: "@ + pole_netto(d)
        + "</p><p>Razem VAT: "@ + pole_vat(d) + "</p><p>Razem brutto: "@ + pole_brutto(d)
        + "</p><p>Zaplacono: "@ + currency_chars(d.zaplacono.value()) + "</p><p>Do zaplaty: "@
        + pole_do_zaplaty(d) + "</p><p>Waluta: "@ + d.waluta@ + "</p><p>Uwagi: "@ + d.uwagi@
        + "</p><p>"@ + "https://github.com/Niedzwiedzw/paptura"@ + "</p></body></html>"@
}

/// One party's block of the document.
fn strona_napis(s: &StronaSprzedazy) -> (r: String)
    ensures
        r@ == strona_chars(*s),
{
    let mut out: Vec<char> = Vec::new();
    push_str_chars(&mut out, "<p>");
    push_str_chars(&mut out, s.nazwa.as_str());
    push_str_chars(&mut out, "<br>NIP: ");
    push_str_chars(&mut out, s.nip.as_str());
    push_str_chars(&mut out, "<br>");
    push_str_chars(&mut out, s.adres.adres_1.as_str());
    push_str_chars(&mut out, "<br>");
    push_str_chars(&mut out, s.adres.adres_2.as_str());
    push_str_chars(&mut out, "<br>Konto: ");
    match &s.konto_bankowe {
        Some(k) => {
            push_str_chars(&mut out, k.przedrostek_banku.as_str());
            out.push(' ');
            push_str_chars(&mut out, k.numer_konta.as_str());
        },
        None => {
            push_str_chars(&mut out, "n/a");
        },
    }
    push_str_chars(&mut out, "</p>");
    proof {
        assert(out@ =~= strona_chars(*s));
    }
    string_from_chars(&out)
}

/// One line item's table row; fails where the percent column would
/// overflow.
fn wiersz_napis(p: &PrzedmiotSprzedazy) -> (r: Result<String, PapturaError>)
    ensures
        match r {
            Ok(s) => i64::MIN <= 100 * p.stawka.value() <= i64::MAX && s@ == wiersz_chars(*p),
            Err(e) => !(i64::MIN <= 100 * p.stawka.value() <= i64::MAX) && e is RenderingError,
        },
{
    let procent = match format_percent(p.stawka) {
        Ok(s) => s,
        Err(e) => {
            return Err(e);
        },
    };
    let mut out: Vec<char> = Vec::new();
    push_str_chars(&mut out, "<tr><td>");
    push_str_chars(&mut out, p.nazwa.as_str());
    push_str_chars(&mut out, "</td><td>");
    push_str_chars(&mut out, p.jednostka.as_str());
    push_str_chars(&mut out, "</td><td>");
    let ilosc = format_currency(p.ilosc);
    push_str_chars(&mut out, ilosc.as_str());
    push_str_chars(&mut out, "</td><td>");
    let cena = format_currency(p.cena_netto);
    push_str_chars(&mut out, cena.as_str());
    push_str_chars(&mut out, "</td><td>");
    push_str_chars(&mut out, procent.as_str());
    push_str_chars(&mut out, "</td><td>");
    let netto = format_currency(p.wartosc_netto());
    push_str_chars(&mut out, netto.as_str());
    push_str_chars(&mut out, "</td><td>");
    match p.kwota_vat() {
        Some(v) => {
            let vat = format_currency(v);
            push_str_chars(&mut out, vat.as_str());
        },
        None => {
            push_str_chars(&mut out, "n/a");
        },
    }
    push_str_chars(&mut out, "</td><td>");
    match p.wartosc_brutto() {
        Some(v) => {
            let brutto = format_currency(v);
            push_str_chars(&mut out, brutto.as_str());
        },
        None => {
            push_str_chars(&mut out, "n/a");
        },
    }
    push_str_chars(&mut out, "</td></tr>");
    proof {
        assert(out@ =~= wiersz_chars(*p));
    }
    Ok(string_from_chars(&out))
}

/// A total that may be absent, written as an amount or the
/// placeholder.
fn pole_napis(out: &mut Vec<char>, kwota: Option<Decimal>)
    ensures
        final (out)@ == old(out)@ + (match kwota {
            Some(v) => currency_chars(v.value()),
            None => "n/a"@,
        }),
{
    match kwota {
        Some(v) => {
            let s = format_currency(v);
            push_str_chars(out, s.as_str());
        },
        None => {
            push_str_chars(out, "n/a");
        },
    }
}

/// The whole document for a populated invoice: pure substitution of
/// the invoice's fields and derived values; fails only where a percent
/// column overflows.
pub fn renderuj(d: &DaneFaktury, wystawienie: &Date) -> (r: Result<String, PapturaError>)
    requires
        d.przedmiot_sprzedazy@.len() > 0,
        wystawienie.valid(),
        wystawienie.rok < 399997,
    ensures
        match r {
            Ok(s) => procenty_mozliwe(d.przedmiot_sprzedazy@) && s@ == render_chars(
                *d,
                *wystawienie,
            ),
            Err(e) => !procenty_mozliwe(d.przedmiot_sprzedazy@) && e is RenderingError,
        },
{
    let mut out: Vec<char> = Vec::new();
    push_str_chars(&mut out, "<html><body><h1>Faktura ");
    let numer = d.numer_faktury_napis(wystawienie);
    push_str_chars(&mut out, numer.as_str());
    push_str_chars(&mut out, "</h1><p>Data wystawienia: ");
    push_iso_date(&mut out, wystawienie);
    push_str_chars(&mut out, "</p><p>Data sprzedazy: ");
    let sprzedaz = d.data_sprzedazy(wystawienie);
    push_iso_date(&mut out, &sprzedaz);
    push_str_chars(&mut out, "</p><p>Termin platnosci: ");
    let termin = d.termin_platnosci(wystawienie);
    push_iso_date(&mut out, &termin);
    push_str_chars(&mut out, "</p><p>Metoda platnosci: ");
    push_str_chars(&mut out, d.metoda_platnosci.as_str());
    push_str_chars(&mut out, "</p><h2>Sprzedawca</h2>");
    let sprzedawca = strona_napis(&d.sprzedawca);
    push_str_chars(&mut out, sprzedawca.as_str());
    push_str_chars(&mut out, "<h2>Nabywca</h2>");
    let nabywca = strona_napis(&d.nabywca);
    push_str_chars(&mut out, nabywca.as_str());
    push_str_chars(&mut out, "<table>");
    let ghost naglowek = out@;
    let mut i: usize = 0;
    while i < d.przedmiot_sprzedazy.len()
        invariant
            i <= d.przedmiot_sprzedazy@.len(),
            out@ == naglowek + wiersze_chars(d.przedmiot_sprzedazy@.take(i as int)),
            forall|k: int|
                0 <= k < i ==> i64::MIN <= 100 * #[trigger] d.przedmiot_sprzedazy@[k].stawka.value()
                    <= i64::MAX,
        decreases d.przedmiot_sprzedazy@.len() - i,
    {
        let wiersz = match wiersz_napis(&d.przedmiot_sprzedazy[i]) {
            Ok(w) => w,
            Err(e) => {
                return Err(e);
            },
        };
        push_str_chars(&mut out, wiersz.as_str());
        proof {
            let s = d.przedmiot_sprzedazy@;
            assert(s.take(i + 1 as int).drop_last() =~= s.take(i as int));
            assert(s.take(i + 1 as int).last() == s[i as int]);
            assert((naglowek + wiersze_chars(s.take(i as int))) + wiersz_chars(s[i as int])
                =~= naglowek + wiersze_chars(s.take(i + 1 as int)));
        }
        i = i + 1;
    }
    proof {
        assert(d.przedmiot_sprzedazy@.take(d.przedmiot_sprzedazy@.len() as int)
            =~= d.przedmiot_sprzedazy@);
    }
    push_str_chars(&mut out, "</table><p>Razem netto: ");
    pole_napis(&mut out, d.wartosc_netto());
    push_str_chars(&mut out, "</p><p>Razem VAT: ");
    pole_napis(&mut out, d.kwota_vat());
    push_str_chars(&mut out, "</p><p>Razem brutto: ");
    pole_napis(&mut out, d.wartosc_brutto());
    push_str_chars(&mut out, "</p><p>Zaplacono: ");
    let zaplacono = format_currency(d.zaplacono);
    push_str_chars(&mut out, zaplacono.as_str());
    push_str_chars(&mut out, "</p><p>Do zaplaty: ");
    pole_napis(&mut out, d.do_zaplaty());
    push_str_chars(&mut out, "</p><p>Waluta: ");
    push_str_chars(&mut out, d.waluta.as_str());
    push_str_chars(&mut out, "</p><p>Uwagi: ");
    push_str_chars(&mut out, d.uwagi.as_str());
    push_str_chars(&mut out, "</p><p>");
    let wersja = d.wersja();
    push_str_chars(&mut out, wersja.as_str());
    push_str_chars(&mut out, "</p></body></html>");
    proof {
        assert(out@ =~= render_chars(*d, *wystawienie));
    }
    Ok(string_from_chars(&out))
}

} // verus!
