//! The front matter of an episode page: the page's source is cut at its
//! fences, lines of three hyphens, into the metadata block and the body.

use vstd::prelude::*;

verus! {

/// The fence: three hyphens and a line feed.
pub open spec fn fence() -> Seq<u8> {
    seq![45u8, 45u8, 45u8, 10u8]
}

/// Tells whether a fence stands at position `at`.
pub open spec fn fence_at(text: Seq<u8>, at: int) -> bool {
    0 <= at && at + 4 <= text.len() && text.subrange(at, at + 4) == fence()
}

/// The position of the first fence at or after `from`; the length of the text
/// where there is none.
pub open spec fn next_fence(text: Seq<u8>, from: int) -> int
    decreases text.len() - from,
{
    if from < 0 || from + 4 > text.len() {
        text.len() as int
    } else if fence_at(text, from) {
        from
    } else {
        next_fence(text, from + 1)
    }
}

/// Where the parts of a page stand in its source, as byte ranges that begin
/// at `.0` and end before `.1`.
#[derive(Debug, Clone, Copy, PartialEq, Eq)]
pub struct FrontMatter {
    /// The metadata block: from behind the first fence to the second fence,
    /// or to the end where there is no second.
    pub metadata: (usize, usize),
    /// The body: from behind the second fence to the third fence or the end;
    /// `None` where there is no second fence.
    pub body: Option<(usize, usize)>,
}

/// The parts of a page's source; `None` where it holds no fence.
pub open spec fn front_matter_of(text: Seq<u8>) -> Option<FrontMatter> {
    let first = next_fence(text, 0);
    if first >= text.len() {
        None
    } else {
        let second = next_fence(text, first + 4);
        Some(
            FrontMatter {
                metadata: ((first + 4) as usize, second as usize),
                body: if second >= text.len() {
                    None
                } else {
                    Some(((second + 4) as usize, next_fence(text, second + 4) as usize))
                },
            },
        )
    }
}

/// `next_fence` stays within the text, finds a fence unless it gives the
/// length, and passes over none.
pub proof fn lemma_next_fence(text: Seq<u8>, from: int)
    requires
        0 <= from <= text.len(),
    ensures
        from <= next_fence(text, from) <= text.len(),
        next_fence(text, from) < text.len() ==> fence_at(text, next_fence(text, from)),
        forall|i: int| from <= i < next_fence(text, from) ==> !fence_at(text, i),
    decreases text.len() - from,
{
    if from + 4 <= text.len() && !fence_at(text, from) {
        lemma_next_fence(text, from + 1);
    }
}

/// Finds the first fence at or after `from`.
pub fn find_fence(text: &[u8], from: usize) -> (at: usize)
    ensures
        at == next_fence(text@, from as int),
{
    let n: usize = text.len();
    if from > n {
        return n;
    }
    let mut at: usize = from;
    while n >= 4 && at <= n - 4
        invariant
            n == text.len(),
            from <= at <= n,
            next_fence(text@, from as int) == next_fence(text@, at as int),
        decreases n - at,
    {
        if text[at] == 45 && text[at + 1] == 45 && text[at + 2] == 45 && text[at + 3] == 10 {
            proof {
                assert(text@.subrange(at as int, at + 4) =~= fence());
            }
            return at;
        }
        proof {
            let piece = text@.subrange(at as int, at + 4);
            assert(piece[0] == text@[at as int] && piece[1] == text@[at + 1] && piece[2] == text@[at
                + 2] && piece[3] == text@[at + 3]);
            assert(fence()[0] == 45u8 && fence()[1] == 45u8 && fence()[2] == 45u8 && fence()[3]
                == 10u8);
        }
        at = at + 1;
    }
    n
}

/// Cuts a page's source at its fences.
pub fn split_front_matter(text: &[u8]) -> (parts: Option<FrontMatter>)
    ensures
        parts == front_matter_of(text@),
{
    let n: usize = text.len();
    let first = find_fence(text, 0);
    proof {
        lemma_next_fence(text@, 0);
    }
    if first >= n {
        return None;
    }
    let second = find_fence(text, first + 4);
    proof {
        lemma_next_fence(text@, first + 4);
    }
    let body = if second >= n {
        None
    } else {
        let third = find_fence(text, second + 4);
        proof {
            lemma_next_fence(text@, second + 4);
        }
        Some((second + 4, third))
    };
    Some(FrontMatter { metadata: (first + 4, second), body })
}

} // verus!
