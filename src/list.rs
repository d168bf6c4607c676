//! A singly linked list of `u32` built from a recursive enum.
use vstd::prelude::*;
use crate::text::{int_text, labelled_int, lines_of, nat_text, push_u64};

verus! {

/// A list: either a node holding an element and the rest of the list, or
/// the end of the list.
pub enum List {
    Cons(u32, Box<List>),
    Nil,
}

/// The elements of `l`, front first.
pub open spec fn list_elements(l: List) -> Seq<u32>
    decreases l,
{
    match l {
        List::Cons(head, tail) => seq![head] + list_elements(*tail),
        List::Nil => Seq::empty(),
    }
}

impl View for List {
    type V = Seq<u32>;

    open spec fn view(&self) -> Seq<u32> {
        list_elements(*self)
    }
}

/// The text of a list: each element followed by `, `, then `Nil`.
pub open spec fn list_text(s: Seq<u32>) -> Seq<char>
    decreases s.len(),
{
    if s.len() == 0 {
        "Nil"@
    } else {
        nat_text(s[0] as nat) + ", "@ + list_text(s.drop_first())
    }
}

impl List {
    /// An empty list.
    pub fn new() -> (r: List)
        ensures
            r@ == Seq::<u32>::empty(),
    {
        List::Nil
    }

    /// The list with `elem` put in front.
    pub fn prepend(self, elem: u32) -> (r: List)
        ensures
            r@ == seq![elem] + self@,
    {
        List::Cons(elem, Box::new(self))
    }

    /// The number of elements.
    pub fn len(&self) -> (r: u32)
        requires
            self@.len() <= u32::MAX,
        ensures
            r as nat == self@.len(),
        decreases self,
    {
        match self {
            List::Cons(_, tail) => 1 + tail.len(),
            List::Nil => 0,
        }
    }

    /// Appends the text of the list.
    fn push_text(&self, out: &mut String)
        ensures
            final(out)@ == old(out)@ + list_text(self@),
        decreases self,
    {
        let ghost start = out@;
        match self {
            List::Cons(head, tail) => {
                push_u64(out, *head as u64);
                out.append(", ");
                tail.push_text(out);
                assert((seq![*head] + tail@).drop_first() =~= tail@);
                assert(out@ =~= start + list_text(self@));
            },
            List::Nil => {
                out.append("Nil");
            },
        }
    }

    /// The text of the list: `3, 2, 1, Nil` for the list 3, 2, 1.
    pub fn stringify(&self) -> (r: String)
        ensures
            r@ == list_text(self@),
    {
        let mut r = String::new();
        self.push_text(&mut r);
        assert(r@ =~= list_text(self@));
        r
    }
}

pub open spec fn enum_linkedlist_type_lines() -> Seq<Seq<char>> {
    seq!["linked list has length: "@ + int_text(3), list_text(seq![3u32, 2u32, 1u32])]
}

/// A list built by putting 1, 2 and 3 in front in turn, with its length and
/// its text.
pub fn enum_linkedlist_type() -> (r: Vec<String>)
    ensures
        lines_of(r@) == enum_linkedlist_type_lines(),
{
    let mut list = List::new();
    list = list.prepend(1);
    list = list.prepend(2);
    list = list.prepend(3);
    assert(list@ =~= seq![3u32, 2u32, 1u32]);
    let mut r: Vec<String> = Vec::new();
    r.push(labelled_int("linked list has length: ", list.len() as i64));
    r.push(list.stringify());
    assert(lines_of(r@) =~= enum_linkedlist_type_lines());
    r
}

} // verus!
