use vstd::prelude::*;
use vstd::string::StringExecFns;

verus! {

/// A mutable text accumulator. It collects fragments of text through
/// `append` and hands out their concatenation, as an independently owned
/// copy, through `build`. Both operations are legal in any order, any
/// number of times; there is no reset.
pub struct RustStringBuilder {
    internal: String,
}

impl View for RustStringBuilder {
    type V = Seq<char>;

    closed spec fn view(&self) -> Seq<char> {
        self.internal@
    }
}

/// The concatenation, in call order, of a sequence of fragments.
pub open spec fn concat_of(frags: Seq<Seq<char>>) -> Seq<char>
    decreases frags.len(),
{
    if frags.len() == 0 {
        Seq::<char>::empty()
    } else {
        concat_of(frags.drop_last()) + frags.last()
    }
}

impl RustStringBuilder {
    /// Creates an accumulator whose contents are the empty sequence.
    pub fn new() -> (r: RustStringBuilder)
        ensures
            r@ == Seq::<char>::empty(),
    {
        RustStringBuilder { internal: String::new() }
    }

    /// Appends `to_append` to the accumulated contents, in place.
    pub fn append(&mut self, to_append: String)
        ensures
            final(self)@ == old(self)@ + to_append@,
    {
        self.internal.append(to_append.as_str())
    }

    /// Returns a copy of the accumulated contents. The copy shares no
    /// storage with the accumulator: later appends leave it untouched,
    /// and changes to it leave the accumulator untouched.
    pub fn build(&self) -> (r: String)
        ensures
            r@ == self@,
    {
        String::from_str(self.internal.as_str())
    }
}

/// A fresh accumulator matches the empty sequence of fragments: before
/// anything is appended, the contents are the concatenation of no
/// fragments at all.
pub proof fn lemma_fresh_matches_no_fragments()
    ensures
        concat_of(Seq::<Seq<char>>::empty()) == Seq::<char>::empty(),
{
}

/// Fragments appended in order accumulate to their concatenation: if the
/// contents equal the concatenation of the fragments appended so far, then
/// after one more `append` — whose contract extends the contents by the
/// fragment — they equal the concatenation of all fragments including it.
/// With `lemma_fresh_matches_no_fragments` as the base case, this gives by
/// induction that `build` returns exactly `f1 ++ f2 ++ ... ++ fn` for any
/// fragments `f1, ..., fn` appended in order to a fresh accumulator.
pub proof fn lemma_append_accumulates(frags: Seq<Seq<char>>, f: Seq<char>, before: Seq<char>)
    requires
        before == concat_of(frags),
    ensures
        before + f == concat_of(frags.push(f)),
{
    assert(frags.push(f).drop_last() =~= frags);
}

/// Appending the empty fragment never changes the contents, and so never
/// changes the result of a subsequent `build`.
pub proof fn lemma_append_empty_is_noop(contents: Seq<char>)
    ensures
        contents + Seq::<char>::empty() == contents,
{
    assert(contents + Seq::<char>::empty() =~= contents);
}

} // verus!
