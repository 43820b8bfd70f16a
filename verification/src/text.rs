//! Textual rendering: `[e0, e1, ..., eN-1]`.

use crate::vector::Vector;
use core::fmt::Display;
use vstd::prelude::*;
use vstd::string::{to_string_from_display_ensures, StringExecFns};

verus! {

/// The texts `parts[0], parts[1], ...` separated by a comma and a space.
pub open spec fn comma_separated(parts: Seq<Seq<char>>) -> Seq<char>
    decreases parts.len(),
{
    if parts.len() == 0 {
        Seq::empty()
    } else if parts.len() == 1 {
        parts[0]
    } else {
        comma_separated(parts.drop_last()) + seq![',', ' '] + parts.last()
    }
}

/// The comma-separated texts between square brackets.
pub open spec fn bracketed(parts: Seq<Seq<char>>) -> Seq<char> {
    seq!['['] + comma_separated(parts) + seq![']']
}

/// The characters of each string of `texts`.
pub open spec fn characters(texts: Seq<String>) -> Seq<Seq<char>> {
    Seq::new(texts.len(), |i: int| texts[i]@)
}

impl<T: Display, const N: usize> Vector<T, N> {
    /// Renders the vector as `[e0, e1, ..., eN-1]`, each component in its own
    /// `Display` form: some sequence of texts that `Display` gives for the
    /// components, in order, separated by `", "` and enclosed in brackets.
    pub fn to_string(&self) -> (text: String)
        ensures
            exists|parts: Seq<String>|
                {
                    &&& parts.len() == N
                    &&& forall|i: int|
                        0 <= i < N ==> to_string_from_display_ensures::<T>(
                            &self@[i],
                            #[trigger] parts[i],
                        )
                    &&& text@ == bracketed(characters(parts))
                },
    {
        proof {
            reveal_strlit("[");
            reveal_strlit(", ");
            reveal_strlit("]");
        }
        let mut text = String::from_str("[");
        let ghost mut parts: Seq<String> = Seq::empty();
        for i in 0..N
            invariant
                parts.len() == i,
                forall|j: int|
                    0 <= j < i ==> to_string_from_display_ensures::<T>(
                        &self@[j],
                        #[trigger] parts[j],
                    ),
                text@ == seq!['['] + comma_separated(characters(parts)),
                ", "@ == seq![',', ' '],
                "]"@ == seq![']'],
        {
            if i != 0 {
                text.append(", ");
            }
            let part = self.data[i].to_string();
            text.append(part.as_str());
            proof {
                let longer = parts.push(part);
                assert(characters(longer).drop_last() =~= characters(parts));
                assert(text@ =~= seq!['['] + comma_separated(characters(longer)));
                parts = longer;
            }
        }
        text.append("]");
        assert(text@ =~= bracketed(characters(parts)));
        text
    }
}

} // verus!
