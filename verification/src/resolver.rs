//! Numbering and collision resolution.  The caller lists the output
//! directory and hands the entry names in; everything decided from
//! them — the assigned number and the filename collision — is decided
//! here.
use vstd::prelude::*;

use crate::dates::Date;
use crate::template_data::filename_chars;
use crate::template_data::rowne_poza_numerem;
use crate::template_data::slug_view;
use crate::template_data::DaneFaktury;
use crate::text::str_starts_with;
use crate::PapturaError;

verus! {

/// How many of the names begin with the given slug.
pub open spec fn count_prefixed(names: Seq<String>, slug: Seq<char>) -> int
    decreases names.len(),
{
    if names.len() == 0 {
        0
    } else {
        count_prefixed(names.drop_last(), slug) + if slug.is_prefix_of(names.last()@) {
            1int
        } else {
            0int
        }
    }
}

/// The count never exceeds the number of names.
proof fn lemma_count_prefixed_bound(names: Seq<String>, slug: Seq<char>)
    ensures
        0 <= count_prefixed(names, slug) <= names.len(),
    decreases names.len(),
{
    if names.len() > 0 {
        lemma_count_prefixed_bound(names.drop_last(), slug);
    }
}

/// How many of the names begin with the given slug.
pub fn policz_pasujace(names: &Vec<String>, slug: &String) -> (n: usize)
    ensures
        n == count_prefixed(names@, slug@),
        n <= names@.len(),
{
    let mut n: usize = 0;
    let mut i: usize = 0;
    while i < names.len()
        invariant
            i <= names.len(),
            n <= i,
            n == count_prefixed(names@.take(i as int), slug@),
        decreases names.len() - i,
    {
        proof {
            assert(names@.take(i + 1 as int).drop_last() =~= names@.take(i as int));
            assert(names@.take(i + 1 as int).last() == names@[i as int]);
        }
        if str_starts_with(&names[i], slug) {
            n = n + 1;
        }
        i = i + 1;
    }
    proof {
        assert(names@.take(names@.len() as int) =~= names@);
    }
    n
}

/// Assigns the next number in the series: the starting number plus the
/// count of directory entries whose name begins with the invoice's
/// slug.
pub fn przydziel_numer(d: &mut DaneFaktury, names: &Vec<String>)
    requires
        old(d).poczatek_serii_numeru_faktury + names@.len() <= u64::MAX,
    ensures
        rowne_poza_numerem(*final (d), *old(d)),
        final (d).numer_faktury == Some(
            (old(d).poczatek_serii_numeru_faktury + count_prefixed(
                names@,
                slug_view(*old(d)),
            )) as u64,
        ),
{
    let slug = d.slug();
    let n = policz_pasujace(names, &slug);
    proof {
        lemma_count_prefixed_bound(names@, slug@);
    }
    let numer = d.poczatek_serii_numeru_faktury + (n as u64);
    d.przypisz_numer(numer);
}

/// Assigns the number and resolves the output filename: fails, without
/// touching anything on disk, when a directory entry already carries
/// the resolved name.
pub fn rozwiaz_nazwe_pliku(d: &mut DaneFaktury, names: &Vec<String>, wystawienie: &Date) -> (r:
    Result<String, PapturaError>)
    requires
        wystawienie.valid(),
        old(d).poczatek_serii_numeru_faktury + names@.len() <= u64::MAX,
    ensures
        rowne_poza_numerem(*final (d), *old(d)),
        final (d).numer_faktury == Some(
            (old(d).poczatek_serii_numeru_faktury + count_prefixed(
                names@,
                slug_view(*old(d)),
            )) as u64,
        ),
        match r {
            Ok(f) => f@ == filename_chars(*final (d), *wystawienie) && (forall|i: int|
                0 <= i < names@.len() ==> names@[i]@ != filename_chars(*final (d), *wystawienie)),
            Err(e) => e is DocumentAlreadyExists && (exists|i: int|
                0 <= i < names@.len() && names@[i]@ == filename_chars(*final (d), *wystawienie)),
        },
{
    przydziel_numer(d, names);
    let fname = d.filename(wystawienie);
    let mut i: usize = 0;
    while i < names.len()
        invariant
            i <= names.len(),
            fname@ == filename_chars(*d, *wystawienie),
            rowne_poza_numerem(*d, *old(d)),
            d.numer_faktury == Some(
                (old(d).poczatek_serii_numeru_faktury + count_prefixed(
                    names@,
                    slug_view(*old(d)),
                )) as u64,
            ),
            forall|k: int| 0 <= k < i ==> names@[k]@ != fname@,
        decreases names.len() - i,
    {
        let ni = &names[i];
        if ni.eq(&fname) {
            return Err(PapturaError::DocumentAlreadyExists);
        }
        i = i + 1;
    }
    Ok(fname)
}

} // verus!
