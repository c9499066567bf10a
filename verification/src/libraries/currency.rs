//! Currencies that a library charges in.

use vstd::prelude::*;
use crate::error::Error;

verus! {

pub type UnvalidatedCurrency = String;

/// Whether a library can charge in the currency with this code: hryvnias,
/// US dollars and euros are supported.
pub open spec fn supported(code: Seq<char>) -> bool {
    code == "UAH"@ || code == "USD"@ || code == "EUR"@
}

/// The code of a supported currency.
#[derive(Debug)]
pub struct Currency(UnvalidatedCurrency);

impl View for Currency {
    type V = Seq<char>;

    closed spec fn view(&self) -> Seq<char> {
        self.0@
    }
}

impl Currency {
    #[verifier::type_invariant]
    spec fn is_supported(self) -> bool {
        supported(self.0@)
    }

    /// Accepts the code of a supported currency and rejects any other text.
    pub fn new(currency: UnvalidatedCurrency) -> (res: Result<Self, Error>)
        ensures
            match res {
                Ok(value) => supported(currency@) && value@ == currency@,
                Err(e) => !supported(currency@) && e == Error::Validation("unsupported currency"),
            },
    {
        if currency == "UAH".to_owned() || currency == "USD".to_owned() || currency
            == "EUR".to_owned() {
            Ok(Currency(currency))
        } else {
            Err(Error::Validation("unsupported currency"))
        }
    }

    /// The code, which is that of a supported currency.
    pub fn as_str(&self) -> (code: &str)
        ensures
            code@ == self@,
            supported(code@),
    {
        proof {
            use_type_invariant(self);
        }
        self.0.as_str()
    }
}

impl Clone for Currency {
    /// A copy with the same code.
    fn clone(&self) -> (value: Self)
        ensures
            value@ == self@,
    {
        proof {
            use_type_invariant(self);
        }
        Currency(self.0.clone())
    }
}

} // verus!
