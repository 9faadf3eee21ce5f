//! The injected answer source: the session is driven by a sequence of answer
//! lines, consumed in order, in place of a console.
use vstd::prelude::*;

verus! {

/// A scripted sequence of answer lines, consumed front to back.
pub struct Script {
    answers: Vec<String>,
}

impl Script {
    /// The answers not yet consumed.
    pub closed spec fn remaining(self) -> Seq<Seq<char>> {
        self.answers.deep_view()
    }

    pub fn new(answers: Vec<String>) -> (s: Script)
        ensures
            s.remaining() == answers.deep_view(),
    {
        Script { answers }
    }

    /// Consumes and returns the next answer, or `None` when the script is
    /// exhausted.
    pub fn next_answer(&mut self) -> (r: Option<String>)
        ensures
            old(self).remaining().len() == 0 ==> r is None && final(self).remaining() == old(
                self,
            ).remaining(),
            old(self).remaining().len() > 0 ==> (r matches Some(a) && a@ == old(
                self,
            ).remaining()[0] && final(self).remaining() == old(self).remaining().skip(1)),
    {
        if self.answers.len() == 0 {
            return None;
        }
        let a = self.answers.remove(0);
        proof {
            let pre = old(self).answers.deep_view();
            assert forall|i: int| 0 <= i < self.answers.deep_view().len() implies #[trigger] self
                .answers
                .deep_view()[i] == pre.skip(1)[i] by {
                assert(self.answers@[i] == old(self).answers@.remove(0)[i]);
            }
            assert(self.answers.deep_view() =~= pre.skip(1));
        }
        Some(a)
    }
}

} // verus!
