//! Invoice generation library: an invoice data model with exact
//! fixed-point money arithmetic, deterministic slug/number/filename
//! derivation, and a verified rendering of the final document.
use vstd::prelude::*;
use vstd::string::StringExecFns;

pub mod dates;
pub mod filters;
pub mod money;
pub mod render;
pub mod resolver;
pub mod slugify;
pub mod template_data;
pub mod text;

verus! {

/// Every failure the invoice logic itself can raise.  I/O and
/// configuration-parsing failures are the caller's concern.
#[derive(Clone, Debug)]
pub enum PapturaError {
    /// A supplied override value was not usable.
    BadArgumentFormat(String),
    /// An override needed at least one line item and the list was empty.
    PrzedmiotSprzedazyMissing,
    /// The paid amount exceeded the net total of the invoice.
    PaymentExceedsTotal,
    /// The resolved output filename is already taken.
    DocumentAlreadyExists,
    /// A formatting step overflowed the decimal representation.
    RenderingError,
}

impl PapturaError {
    /// A human-readable description of the failure.
    pub fn message(&self) -> (r: String)
        ensures
            match self {
                PapturaError::BadArgumentFormat(v) => r@ == "Argument for value "@ + v@
                    + " was invalid"@,
                PapturaError::PrzedmiotSprzedazyMissing => r@
                    == "Dodaj przynajmniej jeden przedmiot sprzedaży"@,
                PapturaError::PaymentExceedsTotal => r@
                    == "Zapłacono więcej niż wynosi całkowita wartość faktury netto"@,
                PapturaError::DocumentAlreadyExists => r@
                    == "Faktura o takiej nazwie już istnieje, prawdopodobnie coś poszło nietak"@,
                PapturaError::RenderingError => r@ == "Nie udało się sformatować dokumentu"@,
            },
    {
        match self {
            PapturaError::BadArgumentFormat(v) => {
                let mut s = String::from_str("Argument for value ");
                s.append(v.as_str());
                s.append(" was invalid");
                s
            },
            PapturaError::PrzedmiotSprzedazyMissing => String::from_str(
                "Dodaj przynajmniej jeden przedmiot sprzedaży",
            ),
            PapturaError::PaymentExceedsTotal => String::from_str(
                "Zapłacono więcej niż wynosi całkowita wartość faktury netto",
            ),
            PapturaError::DocumentAlreadyExists => String::from_str(
                "Faktura o takiej nazwie już istnieje, prawdopodobnie coś poszło nietak",
            ),
            PapturaError::RenderingError => String::from_str("Nie udało się sformatować dokumentu"),
        }
    }
}

} // verus!
