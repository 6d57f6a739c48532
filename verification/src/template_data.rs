//! The invoice data model: the parties, the line items, and the root
//! aggregate with its derived financial quantities.
use vstd::prelude::*;
use vstd::string::StringExecFns;

use crate::dates::Date;
use crate::money::product_representable;
use crate::money::Decimal;
use crate::money::NANO;
use crate::slugify::lower_of;
use crate::slugify::slug_chars;
use crate::slugify::slugify;
use crate::text::dec_str;
use crate::text::prefix3_uppercase;
use crate::text::prefix_upper3;
use crate::text::push_dec_u64;
use crate::text::push_str_chars;
use crate::text::string_from_chars;
use crate::PapturaError;

verus! {

/// A bank account: a bank-name prefix and an account number.
#[derive(Clone, Debug)]
pub struct KontoBankowe {
    pub przedrostek_banku: String,
    pub numer_konta: String,
}

impl Default for KontoBankowe {
    /// The example bank account.
    fn default() -> (r: KontoBankowe)
        ensures
            r.przedrostek_banku@ == "PKO BP"@,
            r.numer_konta@ == "21 2137 2137 2137 2137 2137 2137"@,
    {
        KontoBankowe {
            przedrostek_banku: String::from_str("PKO BP"),
            numer_konta: String::from_str("21 2137 2137 2137 2137 2137 2137"),
        }
    }
}

/// A postal address, two free-text lines.
#[derive(Clone, Debug)]
pub struct Adres {
    pub adres_1: String,
    pub adres_2: String,
}

impl Default for Adres {
    /// The example address.
    fn default() -> (r: Adres)
        ensures
            r.adres_1@ == "Kremóweczki-Małe, ul. Janusza Pawlacza 21/37"@,
            r.adres_2@ == "21-370 Kremówkowice"@,
    {
        Adres {
            adres_1: String::from_str("Kremóweczki-Małe, ul. Janusza Pawlacza 21/37"),
            adres_2: String::from_str("21-370 Kremówkowice"),
        }
    }
}

/// One side of the sale: a display name, a tax identifier, an optional
/// bank account and an address.
#[derive(Clone, Debug)]
pub struct StronaSprzedazy {
    pub nazwa: String,
    pub nip: String,
    pub konto_bankowe: Option<KontoBankowe>,
    pub adres: Adres,
}

impl StronaSprzedazy {
    /// The party's slug: its name lower-cased, whitespace runs
    /// collapsed and joined with hyphens.
    pub fn slug(&self) -> (r: String)
        ensures
            r@ == slug_chars(lower_of(self.nazwa@)),
    {
        slugify(self.nazwa.clone())
    }
}

impl Default for StronaSprzedazy {
    /// The example party.
    fn default() -> (r: StronaSprzedazy)
        ensures
            r.nazwa@ == "Papaj - Janusz Pawlacz"@,
            r.nip@ == "8911632619"@,
            r.konto_bankowe is Some,
            (match r.konto_bankowe {
                Some(k) => k.przedrostek_banku@ == "PKO BP"@ && k.numer_konta@
                    == "21 2137 2137 2137 2137 2137 2137"@,
                None => false,
            }),
            r.adres.adres_1@ == "Kremóweczki-Małe, ul. Janusza Pawlacza 21/37"@,
            r.adres.adres_2@ == "21-370 Kremówkowice"@,
    {
        StronaSprzedazy {
            nazwa: String::from_str("Papaj - Janusz Pawlacz"),
            nip: String::from_str("8911632619"),
            konto_bankowe: Some(KontoBankowe::default()),
            adres: Adres::default(),
        }
    }
}

/// One line item: a name, a unit label, a quantity, a unit net price
/// and a tax-rate fraction.
#[derive(Clone, Debug)]
pub struct PrzedmiotSprzedazy {
    pub nazwa: String,
    pub jednostka: String,
    pub ilosc: Decimal,
    pub cena_netto: Decimal,
    pub stawka: Decimal,
}

/// The net value of a line item: its unit net price, verbatim.  The
/// quantity is deliberately not multiplied in; this single definition
/// is the one place to change should that ever be corrected.
pub open spec fn wartosc_netto_pozycji(p: PrzedmiotSprzedazy) -> int {
    p.cena_netto.value()
}

/// Whether the item's VAT amount (net times rate) is representable.
pub open spec fn vat_mozliwy(p: PrzedmiotSprzedazy) -> bool {
    product_representable(p.cena_netto.value(), p.stawka.value())
}

/// The item's VAT amount in billionths, where representable.
pub open spec fn kwota_vat_pozycji(p: PrzedmiotSprzedazy) -> int {
    (p.cena_netto.value() * p.stawka.value()) / (NANO as int)
}

/// Whether the item's gross value (net plus VAT) is representable.
pub open spec fn brutto_mozliwy(p: PrzedmiotSprzedazy) -> bool {
    vat_mozliwy(p) && i64::MIN <= wartosc_netto_pozycji(p) + kwota_vat_pozycji(p) <= i64::MAX
}

/// The item's gross value in billionths, where representable.
pub open spec fn wartosc_brutto_pozycji(p: PrzedmiotSprzedazy) -> int {
    wartosc_netto_pozycji(p) + kwota_vat_pozycji(p)
}

impl PrzedmiotSprzedazy {
    /// The item's net value.
    pub fn wartosc_netto(&self) -> (r: Decimal)
        ensures
            r.value() == wartosc_netto_pozycji(*self),
    {
        self.cena_netto
    }

    /// The item's VAT amount: net value times tax rate, exactly, or
    /// `None` where that product is not representable.
    pub fn kwota_vat(&self) -> (r: Option<Decimal>)
        ensures
            (r is Some) <==> vat_mozliwy(*self),
            (match r {
                Some(v) => v.value() == kwota_vat_pozycji(*self),
                None => true,
            }),
    {
        let r = self.cena_netto.checked_mul(self.stawka);
        proof {
            if r is Some {
                let v = r->Some_0;
                let n = NANO as int;
                let ab = self.cena_netto.value() * self.stawka.value();
                assert(ab == n * v.value()) by (nonlinear_arith)
                    requires
                        v.value() * n == ab,
                ;
                vstd::arithmetic::div_mod::lemma_div_multiples_vanish(v.value(), n);
            }
        }
        r
    }

    /// The item's gross value: net plus VAT, exactly, or `None` where
    /// the VAT is absent or the sum is not representable.
    pub fn wartosc_brutto(&self) -> (r: Option<Decimal>)
        ensures
            (r is Some) <==> brutto_mozliwy(*self),
            (match r {
                Some(v) => v.value() == wartosc_brutto_pozycji(*self),
                None => true,
            }),
    {
        match self.kwota_vat() {
            Some(v) => self.wartosc_netto().checked_add(v),
            None => None,
        }
    }
}

impl Default for PrzedmiotSprzedazy {
    /// The example line item.
    fn default() -> (r: PrzedmiotSprzedazy)
        ensures
            r.nazwa@
                == "wytwarzanie oprogramowania stopniowo zwiększającego zawartość alkoholu w kremówkach"@,
            r.jednostka@ == "szt."@,
            r.ilosc.value() == 1_000_000_000,
            r.cena_netto.value() == 2_137_000_000_000,
            r.stawka.value() == 230_000_000,
    {
        PrzedmiotSprzedazy {
            nazwa: String::from_str(
                "wytwarzanie oprogramowania stopniowo zwiększającego zawartość alkoholu w kremówkach",
            ),
            jednostka: String::from_str("szt."),
            ilosc: Decimal::from_nanos(1_000_000_000),
            cena_netto: Decimal::from_nanos(2_137_000_000_000),
            stawka: Decimal::from_nanos(230_000_000),
        }
    }
}

/// The net sum of the items: every unit net price added up.
pub open spec fn suma_netto(s: Seq<PrzedmiotSprzedazy>) -> int
    decreases s.len(),
{
    if s.len() == 0 {
        0
    } else {
        suma_netto(s.drop_last()) + wartosc_netto_pozycji(s.last())
    }
}

/// The VAT sum of the items: the VAT amounts of the items whose VAT is
/// representable, added up; the others contribute nothing.
pub open spec fn suma_vat(s: Seq<PrzedmiotSprzedazy>) -> int
    decreases s.len(),
{
    if s.len() == 0 {
        0
    } else {
        suma_vat(s.drop_last()) + if vat_mozliwy(s.last()) {
            kwota_vat_pozycji(s.last())
        } else {
            0
        }
    }
}

/// Whether any item has a representable VAT amount.
pub open spec fn jest_vat(s: Seq<PrzedmiotSprzedazy>) -> bool {
    exists|i: int| 0 <= i < s.len() && vat_mozliwy(s[i])
}

/// The gross sum of the items: the gross values of the items whose
/// gross value is representable, added up.
pub open spec fn suma_brutto(s: Seq<PrzedmiotSprzedazy>) -> int
    decreases s.len(),
{
    if s.len() == 0 {
        0
    } else {
        suma_brutto(s.drop_last()) + if brutto_mozliwy(s.last()) {
            wartosc_brutto_pozycji(s.last())
        } else {
            0
        }
    }
}

/// Whether any item has a representable gross value.
pub open spec fn jest_brutto(s: Seq<PrzedmiotSprzedazy>) -> bool {
    exists|i: int| 0 <= i < s.len() && brutto_mozliwy(s[i])
}

/// One more item moves each running sum by that item's contribution.
proof fn lemma_sumy_krok(s: Seq<PrzedmiotSprzedazy>, i: int)
    requires
        0 <= i < s.len(),
    ensures
        suma_netto(s.take(i + 1)) == suma_netto(s.take(i)) + wartosc_netto_pozycji(s[i]),
        suma_vat(s.take(i + 1)) == suma_vat(s.take(i)) + if vat_mozliwy(s[i]) {
            kwota_vat_pozycji(s[i])
        } else {
            0
        },
        suma_brutto(s.take(i + 1)) == suma_brutto(s.take(i)) + if brutto_mozliwy(s[i]) {
            wartosc_brutto_pozycji(s[i])
        } else {
            0
        },
{
    assert(s.take(i + 1).drop_last() =~= s.take(i));
    assert(s.take(i + 1).last() == s[i]);
}

/// One more item makes a present VAT or gross value visible, and
/// nothing else does.
proof fn lemma_jest_krok(s: Seq<PrzedmiotSprzedazy>, i: int)
    requires
        0 <= i < s.len(),
    ensures
        jest_vat(s.take(i + 1)) == (jest_vat(s.take(i)) || vat_mozliwy(s[i])),
        jest_brutto(s.take(i + 1)) == (jest_brutto(s.take(i)) || brutto_mozliwy(s[i])),
{
    let t0 = s.take(i);
    let t1 = s.take(i + 1);
    assert(forall|j: int| 0 <= j < t0.len() ==> t0[j] == t1[j]);
    assert(t1[i] == s[i]);
    if jest_vat(t1) {
        let j = choose|j: int| 0 <= j < t1.len() && vat_mozliwy(t1[j]);
        if j < i {
            assert(vat_mozliwy(t0[j]));
        }
    }
    if jest_brutto(t1) {
        let j = choose|j: int| 0 <= j < t1.len() && brutto_mozliwy(t1[j]);
        if j < i {
            assert(brutto_mozliwy(t0[j]));
        }
    }
}

/// A running sum of at most `i + 1` stored amounts stays well inside
/// the accumulator's range.
proof fn lemma_krok_sumy(i: int, acc: int, c: int)
    requires
        0 <= i,
        i + 1 <= 0xffff_ffff_ffff_ffff,
        i * (i64::MIN as int) <= acc <= i * (i64::MAX as int),
        i64::MIN <= c <= i64::MAX || c == 0,
    ensures
        (i + 1) * (i64::MIN as int) <= acc + c <= (i + 1) * (i64::MAX as int),
        i128::MIN <= acc + c <= i128::MAX,
{
    assert((i + 1) * (i64::MIN as int) <= acc + c <= (i + 1) * (i64::MAX as int))
        by (nonlinear_arith)
        requires
            0 <= i,
            i * (i64::MIN as int) <= acc <= i * (i64::MAX as int),
            i64::MIN <= c <= i64::MAX,
    ;
    assert((i + 1) * (i64::MAX as int) <= 0x1_0000_0000_0000_0000 * (i64::MAX as int))
        by (nonlinear_arith)
        requires
            i + 1 <= 0x1_0000_0000_0000_0000,
    ;
    assert((i + 1) * (i64::MIN as int) >= 0x1_0000_0000_0000_0000 * (i64::MIN as int))
        by (nonlinear_arith)
        requires
            i + 1 <= 0x1_0000_0000_0000_0000,
            0 <= i,
    ;
}

/// The net total is the sum of the unit net prices alone: any two item
/// lists that agree on every unit net price — whatever their names,
/// units, quantities or rates — have the same net total.
pub proof fn lemma_suma_netto_niezalezna_od_ilosci(
    a: Seq<PrzedmiotSprzedazy>,
    b: Seq<PrzedmiotSprzedazy>,
)
    requires
        a.len() == b.len(),
        forall|i: int| 0 <= i < a.len() ==> #[trigger] a[i].cena_netto == b[i].cena_netto,
    ensures
        suma_netto(a) == suma_netto(b),
    decreases a.len(),
{
    if a.len() > 0 {
        assert(a.last().cena_netto == b.last().cena_netto);
        lemma_suma_netto_niezalezna_od_ilosci(a.drop_last(), b.drop_last());
    }
}

/// An empty item list yields nothing to sum: its net sum is zero and
/// no VAT amount or gross value is present, so every derived total of
/// an invoice without line items reports "no value".
pub proof fn lemma_pusta_faktura(s: Seq<PrzedmiotSprzedazy>)
    requires
        s.len() == 0,
    ensures
        suma_netto(s) == 0,
        !jest_vat(s),
        !jest_brutto(s),
{
}

/// The root aggregate: one sale, everything the rendered invoice needs.
#[derive(Clone, Debug)]
pub struct DaneFaktury {
    pub nadpisana_nazwa_faktury: Option<String>,
    pub poczatek_serii_numeru_faktury: u64,
    pub numer_faktury: Option<u64>,
    pub metoda_platnosci: String,
    pub sprzedawca: StronaSprzedazy,
    pub nabywca: StronaSprzedazy,
    pub prefix_faktury: String,
    pub przedmiot_sprzedazy: Vec<PrzedmiotSprzedazy>,
    pub zaplacono: Decimal,
    pub uwagi: String,
    pub waluta: String,
}

/// The invoice's slug: the override where one is set, otherwise the
/// seller's and the buyer's slugs joined with a hyphen.
pub open spec fn slug_view(d: DaneFaktury) -> Seq<char> {
    match d.nadpisana_nazwa_faktury {
        Some(n) => n@,
        None => slug_chars(lower_of(d.sprzedawca.nazwa@)) + seq!['-'] + slug_chars(
            lower_of(d.nabywca.nazwa@),
        ),
    }
}

/// The invoice-number string: the prefix, an underscore, and the
/// assigned number, or the issue month where none is assigned yet.
pub open spec fn numer_chars(d: DaneFaktury, issue: Date) -> Seq<char> {
    let n: int = match d.numer_faktury {
        Some(n) => n as int,
        None => issue.miesiac as int,
    };
    d.prefix_faktury@ + seq!['_'] + dec_str(n as nat)
}

/// The output filename: slug, number string and ISO issue date.
pub open spec fn filename_chars(d: DaneFaktury, issue: Date) -> Seq<char> {
    slug_view(d) + seq!['-'] + numer_chars(d, issue) + seq!['-', '-'] + crate::dates::iso_chars(
        issue,
    ) + seq!['.', 'h', 't', 'm', 'l']
}

/// Equal in every field but the line items.
pub open spec fn rowne_poza_przedmiotami(a: DaneFaktury, b: DaneFaktury) -> bool {
    &&& a.nadpisana_nazwa_faktury == b.nadpisana_nazwa_faktury
    &&& a.poczatek_serii_numeru_faktury == b.poczatek_serii_numeru_faktury
    &&& a.numer_faktury == b.numer_faktury
    &&& a.metoda_platnosci == b.metoda_platnosci
    &&& a.sprzedawca == b.sprzedawca
    &&& a.nabywca == b.nabywca
    &&& a.prefix_faktury == b.prefix_faktury
    &&& a.zaplacono == b.zaplacono
    &&& a.uwagi == b.uwagi
    &&& a.waluta == b.waluta
}

/// Equal in every field but the paid amount.
pub open spec fn rowne_poza_zaplacono(a: DaneFaktury, b: DaneFaktury) -> bool {
    &&& a.nadpisana_nazwa_faktury == b.nadpisana_nazwa_faktury
    &&& a.poczatek_serii_numeru_faktury == b.poczatek_serii_numeru_faktury
    &&& a.numer_faktury == b.numer_faktury
    &&& a.metoda_platnosci == b.metoda_platnosci
    &&& a.sprzedawca == b.sprzedawca
    &&& a.nabywca == b.nabywca
    &&& a.prefix_faktury == b.prefix_faktury
    &&& a.przedmiot_sprzedazy == b.przedmiot_sprzedazy
    &&& a.uwagi == b.uwagi
    &&& a.waluta == b.waluta
}

/// Equal in every field but the remarks.
pub open spec fn rowne_poza_uwagami(a: DaneFaktury, b: DaneFaktury) -> bool {
    &&& a.nadpisana_nazwa_faktury == b.nadpisana_nazwa_faktury
    &&& a.poczatek_serii_numeru_faktury == b.poczatek_serii_numeru_faktury
    &&& a.numer_faktury == b.numer_faktury
    &&& a.metoda_platnosci == b.metoda_platnosci
    &&& a.sprzedawca == b.sprzedawca
    &&& a.nabywca == b.nabywca
    &&& a.prefix_faktury == b.prefix_faktury
    &&& a.przedmiot_sprzedazy == b.przedmiot_sprzedazy
    &&& a.zaplacono == b.zaplacono
    &&& a.waluta == b.waluta
}

/// Equal in every field but the assigned invoice number.
pub open spec fn rowne_poza_numerem(a: DaneFaktury, b: DaneFaktury) -> bool {
    &&& a.nadpisana_nazwa_faktury == b.nadpisana_nazwa_faktury
    &&& a.poczatek_serii_numeru_faktury == b.poczatek_serii_numeru_faktury
    &&& a.metoda_platnosci == b.metoda_platnosci
    &&& a.sprzedawca == b.sprzedawca
    &&& a.nabywca == b.nabywca
    &&& a.prefix_faktury == b.prefix_faktury
    &&& a.przedmiot_sprzedazy == b.przedmiot_sprzedazy
    &&& a.zaplacono == b.zaplacono
    &&& a.uwagi == b.uwagi
    &&& a.waluta == b.waluta
}

/// The first item carries the given price; everything else it carries
/// is unchanged.
pub open spec fn pozycja_z_cena(p: PrzedmiotSprzedazy, q: PrzedmiotSprzedazy, cena: Decimal) -> bool {
    &&& p.nazwa == q.nazwa
    &&& p.jednostka == q.jednostka
    &&& p.ilosc == q.ilosc
    &&& p.stawka == q.stawka
    &&& p.cena_netto == cena
}

impl DaneFaktury {
    /// The net total: the sum of every item's net value; absent when
    /// there are no items or the exact sum leaves the stored range.
    pub fn wartosc_netto(&self) -> (r: Option<Decimal>)
        ensures
            (r is Some) <==> (self.przedmiot_sprzedazy@.len() > 0 && i64::MIN <= suma_netto(
                self.przedmiot_sprzedazy@,
            ) <= i64::MAX),
            (match r {
                Some(t) => t.value() == suma_netto(self.przedmiot_sprzedazy@),
                None => true,
            }),
    {
        let items = &self.przedmiot_sprzedazy;
        if items.len() == 0 {
            return None;
        }
        let mut acc: i128 = 0;
        let mut i: usize = 0;
        while i < items.len()
            invariant
                i <= items.len(),
                items@ == self.przedmiot_sprzedazy@,
                acc as int == suma_netto(items@.take(i as int)),
                (i as int) * (i64::MIN as int) <= acc as int <= (i as int) * (i64::MAX as int),
            decreases items.len() - i,
        {
            let c = items[i].wartosc_netto().as_nanos();
            proof {
                lemma_krok_sumy(i as int, acc as int, c as int);
                lemma_sumy_krok(items@, i as int);
            }
            acc = acc + (c as i128);
            i = i + 1;
        }
        proof {
            assert(items@.take(items@.len() as int) =~= items@);
        }
        if acc >= i64::MIN as i128 && acc <= i64::MAX as i128 {
            Some(Decimal::from_nanos(acc as i64))
        } else {
            None
        }
    }

    /// The VAT total: the sum over the items whose VAT amount is
    /// representable; absent when no item has one, or the exact sum
    /// leaves the stored range.
    pub fn kwota_vat(&self) -> (r: Option<Decimal>)
        ensures
            (r is Some) <==> (jest_vat(self.przedmiot_sprzedazy@) && i64::MIN <= suma_vat(
                self.przedmiot_sprzedazy@,
            ) <= i64::MAX),
            (match r {
                Some(t) => t.value() == suma_vat(self.przedmiot_sprzedazy@),
                None => true,
            }),
    {
        let items = &self.przedmiot_sprzedazy;
        let mut acc: i128 = 0;
        let mut any = false;
        let mut i: usize = 0;
        while i < items.len()
            invariant
                i <= items.len(),
                items@ == self.przedmiot_sprzedazy@,
                acc as int == suma_vat(items@.take(i as int)),
                any == jest_vat(items@.take(i as int)),
                (i as int) * (i64::MIN as int) <= acc as int <= (i as int) * (i64::MAX as int),
            decreases items.len() - i,
        {
            proof {
                lemma_sumy_krok(items@, i as int);
                lemma_jest_krok(items@, i as int);
            }
            match items[i].kwota_vat() {
                Some(v) => {
                    let c = v.as_nanos();
                    proof {
                        lemma_krok_sumy(i as int, acc as int, c as int);
                    }
                    acc = acc + (c as i128);
                    any = true;
                },
                None => {
                    proof {
                        lemma_krok_sumy(i as int, acc as int, 0);
                    }
                },
            }
            i = i + 1;
        }
        proof {
            assert(items@.take(items@.len() as int) =~= items@);
        }
        if !any {
            return None;
        }
        if acc >= i64::MIN as i128 && acc <= i64::MAX as i128 {
            Some(Decimal::from_nanos(acc as i64))
        } else {
            None
        }
    }

    /// The gross total: the sum over the items whose gross value is
    /// representable; absent when no item has one, or the exact sum
    /// leaves the stored range.
    pub fn wartosc_brutto(&self) -> (r: Option<Decimal>)
        ensures
            (r is Some) <==> (jest_brutto(self.przedmiot_sprzedazy@) && i64::MIN <= suma_brutto(
                self.przedmiot_sprzedazy@,
            ) <= i64::MAX),
            (match r {
                Some(t) => t.value() == suma_brutto(self.przedmiot_sprzedazy@),
                None => true,
            }),
    {
        let items = &self.przedmiot_sprzedazy;
        let mut acc: i128 = 0;
        let mut any = false;
        let mut i: usize = 0;
        while i < items.len()
            invariant
                i <= items.len(),
                items@ == self.przedmiot_sprzedazy@,
                acc as int == suma_brutto(items@.take(i as int)),
                any == jest_brutto(items@.take(i as int)),
                (i as int) * (i64::MIN as int) <= acc as int <= (i as int) * (i64::MAX as int),
            decreases items.len() - i,
        {
            proof {
                lemma_sumy_krok(items@, i as int);
                lemma_jest_krok(items@, i as int);
            }
            match items[i].wartosc_brutto() {
                Some(v) => {
                    let c = v.as_nanos();
                    proof {
                        lemma_krok_sumy(i as int, acc as int, c as int);
                    }
                    acc = acc + (c as i128);
                    any = true;
                },
                None => {
                    proof {
                        lemma_krok_sumy(i as int, acc as int, 0);
                    }
                },
            }
            i = i + 1;
        }
        proof {
            assert(items@.take(items@.len() as int) =~= items@);
        }
        if !any {
            return None;
        }
        if acc >= i64::MIN as i128 && acc <= i64::MAX as i128 {
            Some(Decimal::from_nanos(acc as i64))
        } else {
            None
        }
    }

    /// The amount still due: gross total minus the amount already
    /// paid; absent when the gross total is absent or the difference
    /// leaves the stored range.
    pub fn do_zaplaty(&self) -> (r: Option<Decimal>)
        ensures
            (r is Some) <==> (jest_brutto(self.przedmiot_sprzedazy@) && i64::MIN <= suma_brutto(
                self.przedmiot_sprzedazy@,
            ) <= i64::MAX && i64::MIN <= suma_brutto(self.przedmiot_sprzedazy@)
                - self.zaplacono.value() <= i64::MAX),
            (match r {
                Some(t) => t.value() == suma_brutto(self.przedmiot_sprzedazy@)
                    - self.zaplacono.value(),
                None => true,
            }),
    {
        match self.wartosc_brutto() {
            Some(b) => b.checked_sub(self.zaplacono),
            None => None,
        }
    }
}

/// The example party, field for field.
pub open spec fn domyslna_strona(s: StronaSprzedazy) -> bool {
    &&& s.nazwa@ == "Papaj - Janusz Pawlacz"@
    &&& s.nip@ == "8911632619"@
    &&& (match s.konto_bankowe {
        Some(k) => k.przedrostek_banku@ == "PKO BP"@ && k.numer_konta@
            == "21 2137 2137 2137 2137 2137 2137"@,
        None => false,
    })
    &&& s.adres.adres_1@ == "Kremóweczki-Małe, ul. Janusza Pawlacza 21/37"@
    &&& s.adres.adres_2@ == "21-370 Kremówkowice"@
}

/// The example line item, field for field.
pub open spec fn domyslny_przedmiot(p: PrzedmiotSprzedazy) -> bool {
    &&& p.nazwa@
        == "wytwarzanie oprogramowania stopniowo zwiększającego zawartość alkoholu w kremówkach"@
    &&& p.jednostka@ == "szt."@
    &&& p.ilosc.value() == 1_000_000_000
    &&& p.cena_netto.value() == 2_137_000_000_000
    &&& p.stawka.value() == 230_000_000
}

impl Default for DaneFaktury {
    /// The example invoice: one default line item, nothing paid yet,
    /// the number prefix derived from the buyer's slug.
    fn default() -> (r: DaneFaktury)
        ensures
            r.nadpisana_nazwa_faktury is None,
            r.poczatek_serii_numeru_faktury == 1,
            r.numer_faktury is None,
            r.metoda_platnosci@ == "przelew"@,
            domyslna_strona(r.sprzedawca),
            domyslna_strona(r.nabywca),
            r.prefix_faktury@ == prefix_upper3(slug_chars(lower_of("Papaj - Janusz Pawlacz"@))),
            r.przedmiot_sprzedazy@.len() == 1,
            domyslny_przedmiot(r.przedmiot_sprzedazy@[0]),
            r.zaplacono.value() == 0,
            r.uwagi@ == "GTU_12"@,
            r.waluta@ == "USD"@,
    {
        let nabywca = StronaSprzedazy::default();
        let nabywca_slug = nabywca.slug();
        let prefix = prefix3_uppercase(nabywca_slug.as_str());
        let mut przedmioty: Vec<PrzedmiotSprzedazy> = Vec::new();
        przedmioty.push(PrzedmiotSprzedazy::default());
        DaneFaktury {
            nadpisana_nazwa_faktury: None,
            poczatek_serii_numeru_faktury: 1,
            numer_faktury: None,
            metoda_platnosci: String::from_str("przelew"),
            sprzedawca: StronaSprzedazy::default(),
            prefix_faktury: prefix,
            nabywca,
            przedmiot_sprzedazy: przedmioty,
            zaplacono: Decimal::from_nanos(0),
            uwagi: String::from_str("GTU_12"),
            waluta: String::from_str("USD"),
        }
    }
}

impl DaneFaktury {
    /// The invoice-number string, `prefix_n`: the assigned number, or
    /// the issue month where none is assigned yet.
    pub fn numer_faktury_napis(&self, wystawienie: &Date) -> (r: String)
        requires
            wystawienie.valid(),
        ensures
            r@ == numer_chars(*self, *wystawienie),
    {
        let n: u64 = match self.numer_faktury {
            Some(n) => n,
            None => wystawienie.miesiac as u64,
        };
        let mut out: Vec<char> = Vec::new();
        push_str_chars(&mut out, self.prefix_faktury.as_str());
        out.push('_');
        push_dec_u64(&mut out, n);
        proof {
            assert(out@ =~= numer_chars(*self, *wystawienie));
        }
        string_from_chars(&out)
    }

    /// The issue date: the current local date, from the clock.
    pub fn data_wystawienia(&self) -> (d: Date)
        ensures
            d.valid(),
    {
        crate::dates::today()
    }

    /// The sale date: the issue date itself.
    pub fn data_sprzedazy(&self, wystawienie: &Date) -> (d: Date)
        ensures
            d == *wystawienie,
    {
        *wystawienie
    }

    /// The payment deadline: three days past the issue date.
    pub fn termin_platnosci(&self, wystawienie: &Date) -> (d: Date)
        requires
            wystawienie.valid(),
            wystawienie.rok < 399997,
        ensures
            d == wystawienie.plus3_spec(),
            d.valid(),
    {
        crate::dates::plus_three_days(wystawienie)
    }

    /// Where this project lives.
    pub fn wersja(&self) -> (r: String)
        ensures
            r@ == "https://github.com/Niedzwiedzw/paptura"@,
    {
        String::from_str("https://github.com/Niedzwiedzw/paptura")
    }

    /// The invoice's slug: the override where set, otherwise seller
    /// slug, hyphen, buyer slug.
    pub fn slug(&self) -> (r: String)
        ensures
            r@ == slug_view(*self),
    {
        match &self.nadpisana_nazwa_faktury {
            Some(n) => n.clone(),
            None => {
                let mut s = self.sprzedawca.slug();
                let b = self.nabywca.slug();
                s.append("-");
                s.append(b.as_str());
                proof {
                    reveal_strlit("-");
                    assert("-"@ =~= seq!['-']);
                    assert(s@ =~= slug_view(*self));
                }
                s
            },
        }
    }

    /// The output filename: slug, number string, double hyphen, the
    /// ISO issue date and the `.html` extension.
    pub fn filename(&self, wystawienie: &Date) -> (r: String)
        requires
            wystawienie.valid(),
        ensures
            r@ == filename_chars(*self, *wystawienie),
    {
        let mut out: Vec<char> = Vec::new();
        let slug = self.slug();
        push_str_chars(&mut out, slug.as_str());
        out.push('-');
        let numer = self.numer_faktury_napis(wystawienie);
        push_str_chars(&mut out, numer.as_str());
        out.push('-');
        out.push('-');
        crate::dates::push_iso_date(&mut out, wystawienie);
        out.push('.');
        out.push('h');
        out.push('t');
        out.push('m');
        out.push('l');
        proof {
            assert(out@ =~= filename_chars(*self, *wystawienie));
        }
        string_from_chars(&out)
    }

    /// Replaces the first line item's unit net price; fails when the
    /// line-item list is empty, leaving the invoice unchanged.
    pub fn nadpisz_cene_netto(&mut self, cena: Decimal) -> (r: Result<(), PapturaError>)
        ensures
            old(self).przedmiot_sprzedazy@.len() == 0 ==> (match r {
                Err(e) => e is PrzedmiotSprzedazyMissing,
                Ok(_) => false,
            }) && *final (self) == *old(self),
            old(self).przedmiot_sprzedazy@.len() > 0 ==> (r is Ok)
                && final (self).przedmiot_sprzedazy@.len() == old(self).przedmiot_sprzedazy@.len()
                && pozycja_z_cena(
                final (self).przedmiot_sprzedazy@[0],
                old(self).przedmiot_sprzedazy@[0],
                cena,
            ) && (forall|i: int|
                1 <= i < old(self).przedmiot_sprzedazy@.len()
                    ==> final (self).przedmiot_sprzedazy@[i] == old(self).przedmiot_sprzedazy@[i])
                && rowne_poza_przedmiotami(*final (self), *old(self)),
    {
        if self.przedmiot_sprzedazy.len() == 0 {
            return Err(PapturaError::PrzedmiotSprzedazyMissing);
        }
        let mut pierwszy = self.przedmiot_sprzedazy.remove(0);
        pierwszy.cena_netto = cena;
        self.przedmiot_sprzedazy.insert(0, pierwszy);
        proof {
            assert(forall|i: int|
                1 <= i < old(self).przedmiot_sprzedazy@.len()
                    ==> final (self).przedmiot_sprzedazy@[i] == old(self).przedmiot_sprzedazy@[i]);
        }
        Ok(())
    }

    /// Accepts the paid amount after checking it does not exceed the
    /// net total; fails, leaving the invoice unchanged, when there are
    /// no line items or the paid amount exceeds the net total.
    pub fn nadpisz_zaplacono(&mut self, kwota: Decimal) -> (r: Result<(), PapturaError>)
        requires
            old(self).przedmiot_sprzedazy@.len() > 0 ==> i64::MIN <= suma_netto(
                old(self).przedmiot_sprzedazy@,
            ) <= i64::MAX,
        ensures
            old(self).przedmiot_sprzedazy@.len() == 0 ==> (match r {
                Err(e) => e is PrzedmiotSprzedazyMissing,
                Ok(_) => false,
            }) && *final (self) == *old(self),
            old(self).przedmiot_sprzedazy@.len() > 0 && suma_netto(old(self).przedmiot_sprzedazy@)
                < kwota.value() ==> (match r {
                Err(e) => e is PaymentExceedsTotal,
                Ok(_) => false,
            }) && *final (self) == *old(self),
            old(self).przedmiot_sprzedazy@.len() > 0 && kwota.value() <= suma_netto(
                old(self).przedmiot_sprzedazy@,
            ) ==> (r is Ok) && final (self).zaplacono == kwota && rowne_poza_zaplacono(
                *final (self),
                *old(self),
            ),
    {
        match self.wartosc_netto() {
            None => Err(PapturaError::PrzedmiotSprzedazyMissing),
            Some(total) => {
                if total.lt(&kwota) {
                    Err(PapturaError::PaymentExceedsTotal)
                } else {
                    self.zaplacono = kwota;
                    Ok(())
                }
            },
        }
    }

    /// Replaces the remarks with the supplied comment, unconditionally.
    pub fn nadpisz_uwagi(&mut self, komentarz: String)
        ensures
            final (self).uwagi == komentarz,
            rowne_poza_uwagami(*final (self), *old(self)),
    {
        self.uwagi = komentarz;
    }

    /// Records the assigned invoice number.
    pub fn przypisz_numer(&mut self, n: u64)
        ensures
            final (self).numer_faktury == Some(n),
            rowne_poza_numerem(*final (self), *old(self)),
    {
        self.numer_faktury = Some(n);
    }
}

} // verus!
