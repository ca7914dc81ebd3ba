//! The one-line lookahead input buffer: character codes queued for the `In`
//! opcode, served one at a time in order.

use vstd::prelude::*;

verus! {

/// Buffered input characters, viewed as the sequence of codes not yet
/// consumed.  The surrounding program refills it one line at a time when the
/// machine asks for input it does not have.
pub struct InputFeed {
    items: Vec<u16>,
    pos: usize,
}

impl View for InputFeed {
    type V = Seq<u16>;

    closed spec fn view(&self) -> Seq<u16> {
        self.items@.skip(self.pos as int)
    }
}

impl InputFeed {
    /// The read cursor never passes the end of the buffer.
    pub closed spec fn wf(&self) -> bool {
        self.pos <= self.items.len()
    }

    /// An empty feed.
    pub fn new() -> (r: InputFeed)
        ensures
            r.wf(),
            r@ == Seq::<u16>::empty(),
    {
        let r = InputFeed { items: Vec::new(), pos: 0 };
        proof {
            assert(r@ =~= Seq::<u16>::empty());
        }
        r
    }

    /// Appends one line's character codes after whatever is still unread.
    pub fn feed(&mut self, more: &Vec<u16>)
        requires
            old(self).wf(),
        ensures
            final(self).wf(),
            final(self)@ == old(self)@ + more@,
    {
        let ghost before = self@;
        let mut i: usize = 0;
        while i < more.len()
            invariant
                old(self).wf(),
                self.wf(),
                i <= more.len(),
                self.pos == old(self).pos,
                self.items@ == old(self).items@ + more@.take(i as int),
            decreases more.len() - i,
        {
            self.items.push(more[i]);
            proof {
                assert(self.items@ =~= old(self).items@ + more@.take(i + 1));
            }
            i = i + 1;
        }
        proof {
            assert(more@.take(more@.len() as int) =~= more@);
            assert(self@ =~= before + more@);
        }
    }

    /// Hands out the next unread character code, if any.
    pub fn next_char(&mut self) -> (r: Option<u16>)
        requires
            old(self).wf(),
        ensures
            final(self).wf(),
            match r {
                Some(w) => old(self)@.len() > 0 && w == old(self)@.first() && final(self)@ == old(
                    self,
                )@.drop_first(),
                None => old(self)@.len() == 0 && final(self)@ == old(self)@,
            },
    {
        if self.pos < self.items.len() {
            let w = self.items[self.pos];
            self.pos = self.pos + 1;
            proof {
                assert(self@ =~= old(self)@.drop_first());
            }
            Some(w)
        } else {
            None
        }
    }

    /// How many characters are still unread.
    pub fn remaining(&self) -> (n: usize)
        requires
            self.wf(),
        ensures
            n == self@.len(),
    {
        self.items.len() - self.pos
    }
}

} // verus!
