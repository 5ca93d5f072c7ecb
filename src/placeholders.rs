//! Placeholders: inert comment markers that stand for elements inside the
//! reconstructed source of a code block, drawn from an explicit generator.
use vstd::prelude::*;

use crate::text::{decimal, push_decimal, push_str};

verus! {

/// The number that the `k`-th placeholder carries: `k`, counted modulo 2^64.
pub open spec fn draw_value(k: nat) -> u64 {
    (k % (u64::MAX as nat + 1)) as u64
}

/// The text of the `k`-th placeholder.
pub open spec fn placeholder_text(k: nat) -> Seq<char> {
    "/* rsx:"@ + decimal(draw_value(k) as nat) + " */"@
}

/// A generator of placeholders: a counter, so that a fresh generator always
/// yields the same sequence of placeholders.
pub struct PlaceholderGenerator {
    next: u64,
    drawn: Ghost<nat>,
}

impl PlaceholderGenerator {
    /// The counter holds the number of draws made.
    pub closed spec fn wf(&self) -> bool {
        self.next == draw_value(self.drawn@)
    }

    /// How many placeholders the generator has made.
    pub closed spec fn count(&self) -> nat {
        self.drawn@
    }

    pub fn new() -> (r: Self)
        ensures
            r.wf(),
            r.count() == 0,
    {
        PlaceholderGenerator { next: 0, drawn: Ghost(0) }
    }

    /// The next number to draw.
    pub fn next_u64(&mut self) -> (r: u64)
        requires
            old(self).wf(),
        ensures
            final(self).wf(),
            final(self).count() == old(self).count() + 1,
            r == draw_value(old(self).count()),
    {
        let ghost k = self.drawn@;
        let r = self.next;
        let ghost m: nat = u64::MAX as nat + 1;
        if self.next == u64::MAX {
            self.next = 0;
            assert((k + 1) % m == 0) by (nonlinear_arith)
                requires
                    k % m == m - 1,
                    m > 0,
            ;
        } else {
            self.next = self.next + 1;
            assert((k + 1) % m == k % m + 1) by (nonlinear_arith)
                requires
                    k % m < m - 1,
                    m > 0,
            ;
        }
        self.drawn = Ghost(k + 1);
        r
    }
}

/// An inert marker that stands for an element in the source of a code block.
/// The empty placeholder (`dummy`) matches any other, so that trees built by
/// hand can be compared with parsed ones; any other matches its own text only.
#[derive(Debug)]
pub struct RSXElementPlaceholder {
    pub text: String,
}

impl View for RSXElementPlaceholder {
    type V = Seq<char>;

    open spec fn view(&self) -> Seq<char> {
        self.text@
    }
}

impl RSXElementPlaceholder {
    pub fn dummy() -> (r: Self)
        ensures
            r@.len() == 0,
    {
        RSXElementPlaceholder { text: String::new() }
    }

    /// Makes the next placeholder: `/* rsx:N */` with `N` the generator's next number.
    pub fn generate(generator: &mut PlaceholderGenerator) -> (r: Self)
        requires
            old(generator).wf(),
        ensures
            final(generator).wf(),
            final(generator).count() == old(generator).count() + 1,
            r@ == placeholder_text(old(generator).count()),
    {
        let v = generator.next_u64();
        let mut text = String::new();
        push_str(&mut text, "/* rsx:");
        push_decimal(&mut text, v);
        push_str(&mut text, " */");
        RSXElementPlaceholder { text }
    }

    pub fn as_str(&self) -> (r: &str)
        ensures
            r@ == self@,
    {
        self.text.as_str()
    }
}

impl PartialEq for RSXElementPlaceholder {
    fn eq(&self, other: &RSXElementPlaceholder) -> (r: bool) {
        self.text.as_str().is_empty() || other.text.as_str().is_empty() || self.text == other.text
    }
}

impl vstd::std_specs::cmp::PartialEqSpecImpl for RSXElementPlaceholder {
    open spec fn obeys_eq_spec() -> bool {
        true
    }

    open spec fn eq_spec(&self, other: &RSXElementPlaceholder) -> bool {
        self@.len() == 0 || other@.len() == 0 || self@ == other@
    }
}

} // verus!
