use vstd::prelude::*;

verus! {

/// A prompt symbol with an optional plainer fallback for terminals that
/// cannot render the regular glyph.
#[derive(Clone, Debug)]
pub struct Symbol {
    pub regular: String,
    pub fallback: Option<String>,
}

impl Symbol {
    pub fn new(regular: &str) -> (r: Symbol)
        ensures
            r.regular@ == regular@,
            r.fallback is None,
    {
        Symbol { regular: String::from_str(regular), fallback: None }
    }

    pub fn with_fallback(self, fallback: &str) -> (r: Symbol)
        ensures
            r.regular@ == self.regular@,
            r.fallback matches Some(f) && f@ == fallback@,
    {
        Symbol { fallback: Some(String::from_str(fallback)), ..self }
    }

    /// The glyph to render: the regular one when `regular` rendering is
    /// requested or no fallback exists, else the fallback.
    pub fn as_str(&self, regular: bool) -> (r: &str)
        ensures
            r@ == match self.fallback {
                Some(f) => if regular {
                    self.regular@
                } else {
                    f@
                },
                None => self.regular@,
            },
    {
        if regular {
            self.regular.as_str()
        } else {
            match &self.fallback {
                Some(f) => f.as_str(),
                None => self.regular.as_str(),
            }
        }
    }
}

} // verus!
