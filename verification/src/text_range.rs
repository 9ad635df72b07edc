use vstd::prelude::*;

verus! {

/// A half-open interval `[start, end)` of offsets into a text.
///
/// Every executable value satisfies `start <= end`.
#[derive(Debug, Clone, Copy, PartialEq, Eq, Hash)]
pub struct TextRange {
    start: u32,
    end: u32,
}

impl View for TextRange {
    type V = (nat, nat);

    /// The pair `(start, end)`.
    closed spec fn view(&self) -> (nat, nat) {
        (self.start as nat, self.end as nat)
    }
}

impl DeepView for TextRange {
    type V = (nat, nat);

    open spec fn deep_view(&self) -> (nat, nat) {
        self.view()
    }
}

impl TextRange {
    #[verifier::type_invariant]
    pub closed spec fn ordered(self) -> bool {
        self.start <= self.end
    }

    /// The range `[start, end)`. The start may not lie behind the end.
    pub fn new(start: u32, end: u32) -> (r: TextRange)
        requires
            start <= end,
        ensures
            r@ == (start as nat, end as nat),
    {
        TextRange { start, end }
    }

    /// The range `[start, end)` if the start does not lie behind the end.
    pub fn checked(start: u32, end: u32) -> (r: Option<TextRange>)
        ensures
            r is Some <==> start <= end,
            r matches Some(range) ==> range@ == (start as nat, end as nat),
    {
        if start <= end {
            Some(TextRange { start, end })
        } else {
            None
        }
    }

    /// The offset at which the range begins.
    pub fn start(&self) -> (s: u32)
        ensures
            s == self@.0,
            self@.0 <= self@.1,
    {
        proof {
            use_type_invariant(self);
        }
        self.start
    }

    /// The offset just behind the range.
    pub fn end(&self) -> (e: u32)
        ensures
            e == self@.1,
            self@.0 <= self@.1,
    {
        proof {
            use_type_invariant(self);
        }
        self.end
    }

    /// The number of offsets that the range covers.
    pub fn len(&self) -> (n: u32)
        ensures
            n == self@.1 - self@.0,
    {
        proof {
            use_type_invariant(self);
        }
        self.end - self.start
    }

    /// Whether the range covers nothing.
    pub fn is_empty(&self) -> (b: bool)
        ensures
            b <==> self@.0 == self@.1,
    {
        self.start == self.end
    }
}

} // verus!
