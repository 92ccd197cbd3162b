//! Building texts, and saying that one text stands inside another.

use vstd::prelude::*;
use vstd::string::*;

verus! {

/// The mathematical value of what an `Option` holds, if it holds something.
pub open spec fn opt_view<T: View>(value: Option<T>) -> Option<T::V> {
    match value {
        Some(held) => Some(held@),
        None => None,
    }
}

/// The mathematical value of each item of a list.
pub open spec fn seq_view<T: View>(list: Seq<T>) -> Seq<T::V> {
    list.map_values(|item: T| item@)
}

/// The characters of each text of a list.
pub open spec fn texts(list: Seq<String>) -> Seq<Seq<char>> {
    seq_view(list)
}

/// `needle` stands in `text` from position `start` on.
pub open spec fn occurs_at(needle: Seq<char>, text: Seq<char>, start: int) -> bool {
    &&& 0 <= start
    &&& start + needle.len() <= text.len()
    &&& text.subrange(start, start + needle.len()) == needle
}

/// `needle` stands somewhere in `text`.
pub open spec fn occurs_in(needle: Seq<char>, text: Seq<char>) -> bool {
    exists|start: int| occurs_at(needle, text, start)
}

/// The parts of a list, with `separator` between each two neighbours.
pub open spec fn joined(parts: Seq<Seq<char>>, separator: Seq<char>) -> Seq<char>
    decreases parts.len(),
{
    if parts.len() == 0 {
        Seq::empty()
    } else if parts.len() == 1 {
        parts[0]
    } else {
        joined(parts.drop_last(), separator) + separator + parts.last()
    }
}

/// A text stands in whatever is written around it.
pub proof fn lemma_occurs_between(before: Seq<char>, needle: Seq<char>, after: Seq<char>)
    ensures
        occurs_in(needle, before + needle + after),
{
    let text = before + needle + after;
    let start = before.len() as int;
    assert(text.subrange(start, start + needle.len()) =~= needle);
    assert(occurs_at(needle, text, start));
}

/// What stands in a text also stands in every text built around that one.
pub proof fn lemma_occurs_in_wider(
    needle: Seq<char>,
    text: Seq<char>,
    before: Seq<char>,
    after: Seq<char>,
)
    requires
        occurs_in(needle, text),
    ensures
        occurs_in(needle, before + text + after),
{
    let start = choose|start: int| occurs_at(needle, text, start);
    let wider = before + text + after;
    let shifted = before.len() + start;
    assert(wider.subrange(shifted, shifted + needle.len()) =~= text.subrange(
        start,
        start + needle.len(),
    ));
    assert(occurs_at(needle, wider, shifted));
}

/// A text stands in the text that begins with it, and in the one that ends
/// with it.
pub proof fn lemma_occurs_at_either_end(needle: Seq<char>, rest: Seq<char>)
    ensures
        occurs_in(needle, needle + rest),
        occurs_in(needle, rest + needle),
{
    lemma_occurs_between(Seq::empty(), needle, rest);
    assert(Seq::<char>::empty() + needle + rest =~= needle + rest);
    lemma_occurs_between(rest, needle, Seq::empty());
    assert(rest + needle + Seq::<char>::empty() =~= rest + needle);
}

/// Each part of a joined list stands in the whole.
pub proof fn lemma_joined_holds_each_part(parts: Seq<Seq<char>>, separator: Seq<char>, at: int)
    requires
        0 <= at < parts.len(),
    ensures
        occurs_in(parts[at], joined(parts, separator)),
    decreases parts.len(),
{
    if parts.len() == 1 {
        lemma_occurs_at_either_end(parts[0], Seq::empty());
        assert(parts[0] + Seq::<char>::empty() =~= parts[0]);
    } else if at == parts.len() - 1 {
        lemma_occurs_at_either_end(parts.last(), joined(parts.drop_last(), separator) + separator);
    } else {
        let front = parts.drop_last();
        lemma_joined_holds_each_part(front, separator, at);
        lemma_occurs_in_wider(
            parts[at],
            joined(front, separator),
            Seq::empty(),
            separator + parts.last(),
        );
        assert(Seq::<char>::empty() + joined(front, separator) + (separator + parts.last())
            =~= joined(front, separator) + separator + parts.last());
    }
}

/// Whether a text is the given one.
pub fn is_text(text: &String, wanted: &str) -> (same: bool)
    ensures
        same == (text@ == wanted@),
{
    let wanted = String::from_str(wanted);
    *text == wanted
}

/// Two texts, one after the other.
pub fn chain(first: &str, second: &str) -> (text: String)
    ensures
        text@ == first@ + second@,
{
    let mut text = String::from_str(first);
    text.append(second);
    text
}

/// The texts of `parts`, with `separator` between each two neighbours.
pub fn join(parts: &Vec<String>, separator: &str) -> (text: String)
    ensures
        text@ == joined(texts(parts@), separator@),
{
    let mut text = String::new();
    let mut done: usize = 0;
    while done < parts.len()
        invariant
            done <= parts.len(),
            text@ == joined(texts(parts@).take(done as int), separator@),
        decreases parts.len() - done,
    {
        let ghost before = texts(parts@).take(done as int);
        let ghost now = texts(parts@).take(done + 1);
        proof {
            assert(now.drop_last() =~= before);
            assert(now.last() == parts@[done as int]@);
        }
        if done > 0 {
            text.append(separator);
        } else {
            proof {
                assert(before =~= Seq::<Seq<char>>::empty());
                assert(text@ + parts@[done as int]@ =~= parts@[done as int]@);
            }
        }
        text.append(parts[done].as_str());
        done = done + 1;
    }
    proof {
        assert(texts(parts@).take(parts.len() as int) =~= texts(parts@));
    }
    text
}

} // verus!
