//! The sentences that narrate a step.

use vstd::prelude::*;

verus! {

/// The blank tail of a narration: `width` spaces, and one where `width` is 0.
pub open spec fn padding(width: nat) -> Seq<char> {
    Seq::new(
        if width == 0 {
            1
        } else {
            width
        },
        |i: int| ' ',
    )
}

/// `head`, the name, a full stop and the blank tail.
pub open spec fn sentence(head: Seq<char>, name: Seq<char>, width: nat) -> Seq<char> {
    head + name + "."@ + padding(width)
}

/// What is said when the named cell blocks the player.
pub open spec fn blocked_text(name: Seq<char>, width: nat) -> Seq<char> {
    sentence("You ran into the "@, name, width)
}

/// What is said when the player collects the named cell.
pub open spec fn pickup_text(name: Seq<char>, width: nat) -> Seq<char> {
    sentence("You now have the "@, name, width)
}

/// Whether `part` occurs in `text` as a contiguous run.
pub open spec fn contains_run(text: Seq<char>, part: Seq<char>) -> bool {
    exists|at: int|
        0 <= at && at + part.len() <= text.len() && #[trigger] text.subrange(
            at,
            at + part.len(),
        ) == part
}

fn build_sentence(head: &str, name: &str, width: usize) -> (r: String)
    ensures
        r@ == sentence(head@, name@, width as nat),
{
    let mut text: String = String::from_str(head);
    text.append(name);
    text.append(".");
    let ghost stem: Seq<char> = text@;
    let blanks: usize = if width == 0 {
        1
    } else {
        width
    };
    let mut i: usize = 0;
    while i < blanks
        invariant
            0 <= i <= blanks,
            text@ == stem + Seq::new(i as nat, |k: int| ' '),
        decreases blanks - i,
    {
        proof {
            reveal_strlit(" ");
        }
        text.append(" ");
        assert(text@ =~= stem + Seq::new((i + 1) as nat, |k: int| ' '));
        i = i + 1;
    }
    text
}

pub fn blocked_message(name: &str, width: usize) -> (r: String)
    ensures
        r@ == blocked_text(name@, width as nat),
{
    build_sentence("You ran into the ", name, width)
}

pub fn pickup_message(name: &str, width: usize) -> (r: String)
    ensures
        r@ == pickup_text(name@, width as nat),
{
    build_sentence("You now have the ", name, width)
}

/// A sentence holds the name it was built round.
pub proof fn lemma_sentence_holds_name(head: Seq<char>, name: Seq<char>, width: nat)
    ensures
        contains_run(sentence(head, name, width), name),
{
    let text = sentence(head, name, width);
    let at = head.len() as int;
    assert(text.subrange(at, at + name.len()) =~= name);
}

} // verus!
